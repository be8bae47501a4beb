//! Display-text policy: the frame width, the filler character used to pad
//! short texts, and the blank classification that decides the display's
//! power state.

use vstd::prelude::*;

verus! {

/// Number of character slots visible on the display at once.
pub const FRAME_WIDTH: usize = 12;

/// Character used to right-pad a short text up to `FRAME_WIDTH`.
pub const FILLER: char = '.';

/// A character that counts as blank for the power policy: space and the
/// punctuation accepted as filler.
pub open spec fn is_blank_char(c: char) -> bool {
    c == ' ' || c == '.' || c == ','
}

/// A text is blank when every one of its characters is blank.
pub open spec fn blank_spec(s: Seq<char>) -> bool {
    forall|i: int| 0 <= i < s.len() ==> is_blank_char(s[i])
}

/// The text as the scroll engine will see it: unchanged when it already
/// fills a frame, otherwise right-padded with the filler character up to
/// `FRAME_WIDTH`.
pub open spec fn pad_spec(s: Seq<char>) -> Seq<char> {
    if s.len() >= FRAME_WIDTH {
        s
    } else {
        s + Seq::new((FRAME_WIDTH - s.len()) as nat, |i: int| FILLER)
    }
}

/// Padding a short text yields exactly `FRAME_WIDTH` characters: the text
/// itself followed by filler characters only.
pub proof fn lemma_pad_short(s: Seq<char>)
    requires
        s.len() < FRAME_WIDTH,
    ensures
        pad_spec(s).len() == FRAME_WIDTH,
        pad_spec(s).subrange(0, s.len() as int) == s,
        forall|i: int| s.len() <= i < FRAME_WIDTH ==> pad_spec(s)[i] == FILLER,
{
    assert(pad_spec(s).subrange(0, s.len() as int) =~= s);
}

/// Whether every character of `t` is blank; `true` on the empty text.
pub fn is_blank(t: &Vec<char>) -> (r: bool)
    ensures
        r == blank_spec(t@),
{
    let mut i: usize = 0;
    while i < t.len()
        invariant
            i <= t@.len(),
            forall|j: int| 0 <= j < i ==> is_blank_char(t@[j]),
        decreases t@.len() - i,
    {
        let c = t[i];
        if !(c == ' ' || c == '.' || c == ',') {
            assert(!is_blank_char(t@[i as int]));
            return false;
        }
        i += 1;
    }
    true
}

/// Right-pads `t` with the filler character until it fills a frame;
/// a text of at least `FRAME_WIDTH` characters is returned unchanged.
pub fn pad_text(t: &Vec<char>) -> (r: Vec<char>)
    ensures
        r@ == pad_spec(t@),
{
    let mut r: Vec<char> = Vec::new();
    let mut i: usize = 0;
    while i < t.len()
        invariant
            i <= t@.len(),
            r@ =~= t@.subrange(0, i as int),
        decreases t@.len() - i,
    {
        r.push(t[i]);
        i += 1;
    }
    assert(r@ =~= t@);
    while r.len() < FRAME_WIDTH
        invariant
            t@.len() <= r@.len(),
            r@.len() <= FRAME_WIDTH || r@.len() == t@.len(),
            r@.subrange(0, t@.len() as int) =~= t@,
            forall|k: int| t@.len() <= k < r@.len() ==> r@[k] == FILLER,
        decreases FRAME_WIDTH - r@.len(),
    {
        r.push(FILLER);
    }
    proof {
        assert(r@ =~= pad_spec(t@));
    }
    r
}

} // verus!
