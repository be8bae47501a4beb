//! The render loop: on each tick it takes at most one pending payload from
//! the message bridge, applies the duplicate, blank and padding policy, and
//! emits exactly one frame for the display. The display power commands and
//! the frame are returned as data; the shell around the library writes them
//! to the peripheral.

use vstd::prelude::*;
use crate::bridge::Bridge;
use crate::scroll::{frame_at, Scroller};
use crate::text::{blank_spec, is_blank, pad_spec, pad_text, FRAME_WIDTH};

verus! {

/// The payload of an optional message as a character sequence.
pub open spec fn opt_view(m: Option<Vec<char>>) -> Option<Seq<char>> {
    match m {
        Some(v) => Some(v@),
        None => None,
    }
}

/// The message a tick sees when the bridge holds `q`: the oldest pending
/// payload, or nothing.
pub open spec fn front_view(q: Seq<Seq<char>>) -> Option<Seq<char>> {
    if q.len() == 0 {
        None
    } else {
        Some(q.first())
    }
}

/// A tick accepts a payload exactly when one arrived and it differs from
/// the text already displayed; a duplicate is discarded without effect.
pub open spec fn accepts(cur: Seq<char>, m: Option<Seq<char>>) -> bool {
    m is Some && m.unwrap() != cur
}

/// The displayed text after a tick: the accepted payload, otherwise the
/// old text.
pub open spec fn tick_text(cur: Seq<char>, m: Option<Seq<char>>) -> Seq<char> {
    if accepts(cur, m) {
        m.unwrap()
    } else {
        cur
    }
}

/// The power command a tick issues: off for an accepted blank payload, on
/// for any other accepted payload, none when nothing was accepted.
pub open spec fn tick_power(cur: Seq<char>, m: Option<Seq<char>>) -> Option<bool> {
    if accepts(cur, m) {
        Some(!blank_spec(m.unwrap()))
    } else {
        None
    }
}

/// What one tick hands the display: at most one power command, then
/// exactly one frame.
pub struct TickOutput {
    /// `Some(true)` to power the display on, `Some(false)` to power it
    /// off, `None` to leave the power state alone.
    pub power: Option<bool>,
    /// The frame to show, always `FRAME_WIDTH` characters.
    pub frame: Vec<char>,
}

/// The loop's whole state: the raw text of the last accepted payload and
/// the scroll engine built from its padded form. Both are reconstructible
/// from that payload; the loop carries no other history.
pub struct RenderLoop {
    text: Vec<char>,
    scroller: Scroller,
}

impl RenderLoop {
    /// Well-formedness: the engine scrolls exactly the padded form of the
    /// displayed text.
    pub closed spec fn wf(self) -> bool {
        self.scroller.wf() && self.scroller.source() == pad_spec(self.text@)
    }

    /// The raw text of the last accepted payload.
    pub closed spec fn text_spec(self) -> Seq<char> {
        self.text@
    }

    /// The engine's offset into the cyclic frame sequence.
    pub closed spec fn offset_spec(self) -> int {
        self.scroller.offset_spec()
    }

    /// A loop displaying the empty placeholder text, scroll position at
    /// the start.
    pub fn new() -> (r: RenderLoop)
        ensures
            r.wf(),
            r.text_spec() == Seq::<char>::empty(),
            r.offset_spec() == 0,
    {
        let text: Vec<char> = Vec::new();
        let padded = pad_text(&text);
        let scroller = Scroller::new(padded);
        let r = RenderLoop { text, scroller };
        proof {
            assert(r.text_spec() =~= Seq::<char>::empty());
        }
        r
    }

    /// One tick given the payload the bridge handed over, if any. A
    /// duplicate of the current text is discarded; a new payload issues
    /// its power command and restarts the marquee on the padded payload;
    /// in every case exactly one frame is emitted and the engine advances
    /// by one character.
    pub fn tick(&mut self, msg: Option<Vec<char>>) -> (out: TickOutput)
        requires
            old(self).wf(),
        ensures
            final(self).wf(),
            final(self).text_spec() == tick_text(old(self).text_spec(), opt_view(msg)),
            out.power == tick_power(old(self).text_spec(), opt_view(msg)),
            ({
                let shown = pad_spec(tick_text(old(self).text_spec(), opt_view(msg)));
                let start = if accepts(old(self).text_spec(), opt_view(msg)) {
                    0int
                } else {
                    old(self).offset_spec()
                };
                &&& out.frame@ == frame_at(shown, start, FRAME_WIDTH as nat)
                &&& final(self).offset_spec() == (start + 1) % (shown.len() as int)
            }),
    {
        match msg {
            Some(t) => {
                if !eq_chars(&t, &self.text) {
                    let on = !is_blank(&t);
                    let padded = pad_text(&t);
                    self.text = t;
                    self.scroller = Scroller::new(padded);
                    let frame = self.scroller.next_frame();
                    TickOutput { power: Some(on), frame }
                } else {
                    let frame = self.scroller.next_frame();
                    TickOutput { power: None, frame }
                }
            },
            None => {
                let frame = self.scroller.next_frame();
                TickOutput { power: None, frame }
            },
        }
    }

    /// One full iteration: takes the oldest pending payload from the
    /// bridge, if any, and runs one tick on it.
    pub fn step(&mut self, bridge: &mut Bridge) -> (out: TickOutput)
        requires
            old(self).wf(),
        ensures
            final(self).wf(),
            old(bridge).contents().len() == 0 ==> final(bridge).contents() == old(
                bridge,
            ).contents(),
            old(bridge).contents().len() > 0 ==> final(bridge).contents() == old(
                bridge,
            ).contents().drop_first(),
            final(self).text_spec() == tick_text(
                old(self).text_spec(),
                front_view(old(bridge).contents()),
            ),
            out.power == tick_power(old(self).text_spec(), front_view(old(bridge).contents())),
            ({
                let m = front_view(old(bridge).contents());
                let shown = pad_spec(tick_text(old(self).text_spec(), m));
                let start = if accepts(old(self).text_spec(), m) {
                    0int
                } else {
                    old(self).offset_spec()
                };
                &&& out.frame@ == frame_at(shown, start, FRAME_WIDTH as nat)
                &&& final(self).offset_spec() == (start + 1) % (shown.len() as int)
            }),
    {
        let msg = bridge.receive();
        self.tick(msg)
    }
}

/// Whether two character vectors hold the same characters.
fn eq_chars(a: &Vec<char>, b: &Vec<char>) -> (r: bool)
    ensures
        r == (a@ == b@),
{
    if a.len() != b.len() {
        return false;
    }
    let mut i: usize = 0;
    while i < a.len()
        invariant
            a@.len() == b@.len(),
            i <= a@.len(),
            forall|k: int| 0 <= k < i ==> a@[k] == b@[k],
        decreases a@.len() - i,
    {
        if a[i] != b[i] {
            return false;
        }
        i += 1;
    }
    proof {
        assert(a@ =~= b@);
    }
    true
}

/// Blank classification: an accepted payload made only of blank characters
/// powers the display off; an accepted payload holding any other character
/// powers it on.
pub proof fn lemma_blank_power(cur: Seq<char>, t: Seq<char>)
    requires
        t != cur,
    ensures
        blank_spec(t) ==> tick_power(cur, Some(t)) == Some(false),
        !blank_spec(t) ==> tick_power(cur, Some(t)) == Some(true),
{
}

/// Accepting a payload leaves it as the displayed text, so the very next
/// tick that carries the same payload again is a duplicate: it issues no
/// power command and keeps the displayed text unchanged. Sending the same
/// payload twice in a row therefore resets the engine at most once.
pub proof fn lemma_tick_idempotent(cur: Seq<char>, t: Seq<char>)
    ensures
        tick_text(cur, Some(t)) == t,
        tick_power(tick_text(cur, Some(t)), Some(t)) is None,
        tick_text(tick_text(cur, Some(t)), Some(t)) == tick_text(cur, Some(t)),
        !accepts(tick_text(cur, Some(t)), Some(t)),
{
}

} // verus!
