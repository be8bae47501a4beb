//! Inbound message handling: the subscription topic built from the device
//! identifier, the topic match that selects display-text messages, and the
//! lossy UTF-8 decoding of their payload bytes.

use vstd::prelude::*;

verus! {

/// The topic substring that marks a display-text message.
pub open spec fn set_text_pattern() -> Seq<char> {
    seq!['s', 'e', 't', '-', 't', 'e', 'x', 't']
}

/// The fixed part of the subscription topic before the device identifier.
pub open spec fn topic_prefix() -> Seq<char> {
    seq!['v', 'f', 'd', '-']
}

/// The fixed part of the subscription topic after the device identifier.
pub open spec fn topic_suffix() -> Seq<char> {
    seq!['/', 's', 'e', 't', '-', 't', 'e', 'x', 't']
}

/// `needle` occurs somewhere in `hay` as a contiguous run.
pub open spec fn contains_seq(hay: Seq<char>, needle: Seq<char>) -> bool {
    exists|i: int|
        0 <= i && i + needle.len() <= hay.len() && #[trigger] hay.subrange(i, i + needle.len())
            == needle
}

/// The uppercase hexadecimal digit with value `n`.
pub open spec fn hex_digit(n: int) -> char {
    if n == 0 {
        '0'
    } else if n == 1 {
        '1'
    } else if n == 2 {
        '2'
    } else if n == 3 {
        '3'
    } else if n == 4 {
        '4'
    } else if n == 5 {
        '5'
    } else if n == 6 {
        '6'
    } else if n == 7 {
        '7'
    } else if n == 8 {
        '8'
    } else if n == 9 {
        '9'
    } else if n == 10 {
        'A'
    } else if n == 11 {
        'B'
    } else if n == 12 {
        'C'
    } else if n == 13 {
        'D'
    } else if n == 14 {
        'E'
    } else {
        'F'
    }
}

/// The two uppercase hexadecimal digits of byte `b`, high digit first.
pub open spec fn byte_hex(b: u8) -> Seq<char> {
    seq![hex_digit(b as int / 16), hex_digit(b as int % 16)]
}

/// The device identifier derived from a hardware address: the lower three
/// octets as uppercase hexadecimal with no separators.
pub open spec fn device_id_spec(mac: Seq<u8>) -> Seq<char>
    recommends
        mac.len() == 6,
{
    byte_hex(mac[3]) + byte_hex(mac[4]) + byte_hex(mac[5])
}

/// What `String::from_utf8_lossy` makes of a byte sequence: a pure
/// function of the bytes alone.
pub uninterp spec fn lossy_of(bytes: Seq<u8>) -> Seq<char>;

/// Relies on String::from_utf8_lossy: the decoding depends on the bytes
/// alone; valid UTF-8 decodes to its own characters and each invalid
/// sequence becomes a replacement character.
#[verifier::external_body]
fn decode_lossy(data: &Vec<u8>) -> (r: Vec<char>)
    ensures
        r@ == lossy_of(data@),
{
    String::from_utf8_lossy(data).chars().collect()
}

/// Whether the fixed-length window of `hay` at `i` equals `needle`.
fn matches_at(hay: &Vec<char>, needle: &Vec<char>, i: usize) -> (r: bool)
    requires
        i + needle@.len() <= hay@.len(),
    ensures
        r == (hay@.subrange(i as int, i + needle@.len()) == needle@),
{
    let hay_len = hay.len();
    let mut j: usize = 0;
    while j < needle.len()
        invariant
            i + needle@.len() <= hay@.len(),
            hay@.len() == hay_len,
            j <= needle@.len(),
            forall|k: int| 0 <= k < j ==> hay@[i + k] == needle@[k],
        decreases needle@.len() - j,
    {
        if hay[i + j] != needle[j] {
            assert(hay@.subrange(i as int, i + needle@.len())[j as int] != needle@[j as int]);
            return false;
        }
        j += 1;
    }
    proof {
        assert(hay@.subrange(i as int, i + needle@.len()) =~= needle@);
    }
    true
}

/// Whether `needle` occurs anywhere in `hay`.
pub fn contains_chars(hay: &Vec<char>, needle: &Vec<char>) -> (r: bool)
    ensures
        r == contains_seq(hay@, needle@),
{
    if needle.len() > hay.len() {
        return false;
    }
    if needle.len() == 0 {
        proof {
            assert(hay@.subrange(0, 0 + needle@.len() as int) =~= needle@);
        }
        return true;
    }
    let last = hay.len() - needle.len();
    let mut i: usize = 0;
    while i <= last
        invariant
            1 <= needle@.len() <= hay@.len(),
            hay@.len() <= usize::MAX,
            last == hay@.len() - needle@.len(),
            i <= last + 1,
            forall|k: int|
                0 <= k < i ==> #[trigger] hay@.subrange(k, k + needle@.len()) != needle@,
        decreases last + 1 - i,
    {
        if matches_at(hay, needle, i) {
            return true;
        }
        i += 1;
    }
    false
}

/// The uppercase hexadecimal digit for a value below sixteen.
fn hex_char(n: u8) -> (r: char)
    requires
        n < 16,
    ensures
        r == hex_digit(n as int),
{
    match n {
        0 => '0',
        1 => '1',
        2 => '2',
        3 => '3',
        4 => '4',
        5 => '5',
        6 => '6',
        7 => '7',
        8 => '8',
        9 => '9',
        10 => 'A',
        11 => 'B',
        12 => 'C',
        13 => 'D',
        14 => 'E',
        _ => 'F',
    }
}

/// Appends the two hexadecimal digits of `b`.
fn push_byte_hex(out: &mut Vec<char>, b: u8)
    ensures
        final(out)@ == old(out)@ + byte_hex(b),
{
    assert(b / 16 < 16);
    out.push(hex_char(b / 16));
    out.push(hex_char(b % 16));
    proof {
        assert(out@ =~= old(out)@ + byte_hex(b));
    }
}

/// The device identifier shown in the topic: the lower three octets of the
/// hardware address as uppercase hexadecimal, no separators.
pub fn device_id_from_mac(mac: &Vec<u8>) -> (r: Vec<char>)
    requires
        mac@.len() == 6,
    ensures
        r@ == device_id_spec(mac@),
{
    let mut r: Vec<char> = Vec::new();
    push_byte_hex(&mut r, mac[3]);
    push_byte_hex(&mut r, mac[4]);
    push_byte_hex(&mut r, mac[5]);
    proof {
        assert(r@ =~= device_id_spec(mac@));
    }
    r
}

/// The topic pattern this device subscribes to for display text.
pub fn set_text_topic(device_id: &Vec<char>) -> (r: Vec<char>)
    ensures
        r@ == topic_prefix() + device_id@ + topic_suffix(),
{
    let mut r: Vec<char> = Vec::new();
    r.push('v');
    r.push('f');
    r.push('d');
    r.push('-');
    let mut i: usize = 0;
    while i < device_id.len()
        invariant
            i <= device_id@.len(),
            r@ =~= topic_prefix() + device_id@.subrange(0, i as int),
        decreases device_id@.len() - i,
    {
        r.push(device_id[i]);
        i += 1;
    }
    assert(r@ =~= topic_prefix() + device_id@);
    r.push('/');
    r.push('s');
    r.push('e');
    r.push('t');
    r.push('-');
    r.push('t');
    r.push('e');
    r.push('x');
    r.push('t');
    proof {
        assert(r@ =~= topic_prefix() + device_id@ + topic_suffix());
    }
    r
}

/// What the delivery callback forwards for a received message: the payload
/// decoded lossily from UTF-8 when the topic carries the display-text
/// marker, nothing otherwise.
pub fn handle_message(topic: &Vec<char>, data: &Vec<u8>) -> (r: Option<Vec<char>>)
    ensures
        r is Some <==> contains_seq(topic@, set_text_pattern()),
        r is Some ==> r.unwrap()@ == lossy_of(data@),
{
    let mut pat: Vec<char> = Vec::new();
    pat.push('s');
    pat.push('e');
    pat.push('t');
    pat.push('-');
    pat.push('t');
    pat.push('e');
    pat.push('x');
    pat.push('t');
    proof {
        assert(pat@ =~= set_text_pattern());
    }
    if contains_chars(topic, &pat) {
        Some(decode_lossy(data))
    } else {
        None
    }
}

} // verus!
