//! The scrolling text engine: a cyclic marquee over a fixed source text,
//! emitting one fixed-width frame per call and advancing by exactly one
//! character each time, wrapping modulo the source length.

use vstd::prelude::*;
use vstd::arithmetic::div_mod::{
    lemma_fundamental_div_mod, lemma_fundamental_div_mod_converse_mod, lemma_mod_add_multiples_vanish,
    lemma_mod_bound, lemma_small_mod,
};
use crate::text::FRAME_WIDTH;

verus! {

/// The frame of width `w` that a cyclic scroll over `text` shows at
/// `offset`: character `j` of the frame is the source character at
/// `(offset + j) mod len(text)`, so the window wraps around the end of the
/// source with no seam.
pub open spec fn frame_at(text: Seq<char>, offset: int, w: nat) -> Seq<char>
    recommends
        text.len() > 0,
{
    Seq::new(w, |j: int| text[(offset + j) % (text.len() as int)])
}

/// Stepping a remainder by one: adding one to the dividend either advances
/// the remainder by one or wraps it to zero.
proof fn lemma_mod_step(a: int, m: int)
    requires
        0 <= a,
        0 < m,
    ensures
        (a + 1) % m == if a % m + 1 == m { 0int } else { a % m + 1 },
{
    lemma_fundamental_div_mod(a, m);
    lemma_mod_bound(a, m);
    if a % m + 1 == m {
        assert(a + 1 == (a / m + 1) * m + 0) by (nonlinear_arith)
            requires
                a == m * (a / m) + a % m,
                a % m + 1 == m,
        ;
        lemma_fundamental_div_mod_converse_mod(a + 1, m, a / m + 1, 0);
    } else {
        assert(a + 1 == (a / m) * m + (a % m + 1)) by (nonlinear_arith)
            requires
                a == m * (a / m) + a % m,
        ;
        lemma_fundamental_div_mod_converse_mod(a + 1, m, a / m, a % m + 1);
    }
}

/// The frame sequence is periodic in the source length: the frame shown at
/// `offset + len(text)` equals the frame shown at `offset`, and every frame
/// has exactly `w` characters.
pub proof fn lemma_frame_period(text: Seq<char>, offset: int, w: nat)
    requires
        text.len() > 0,
        0 <= offset,
        w <= text.len(),
    ensures
        frame_at(text, offset + text.len(), w) == frame_at(text, offset, w),
        frame_at(text, offset, w).len() == w,
{
    let m = text.len() as int;
    assert forall|j: int| 0 <= j < w implies frame_at(text, offset + text.len(), w)[j] == frame_at(
        text,
        offset,
        w,
    )[j] by {
        lemma_mod_add_multiples_vanish(offset + j, m);
        assert((m + (offset + j)) % m == (offset + j) % m);
        assert(offset + m + j == m + (offset + j));
    }
    assert(frame_at(text, offset + text.len(), w) =~= frame_at(text, offset, w));
}

/// The engine's state: the source text it cycles over and the offset of the
/// next frame. Reconstructed, never patched, whenever the source changes.
pub struct Scroller {
    text: Vec<char>,
    offset: usize,
}

impl Scroller {
    /// Well-formedness: the source is non-empty and the offset stays inside
    /// it.
    pub closed spec fn wf(self) -> bool {
        self.text@.len() > 0 && self.offset < self.text@.len()
    }

    /// The source text the engine cycles over.
    pub closed spec fn source(self) -> Seq<char> {
        self.text@
    }

    /// The offset of the next frame within the cyclic sequence.
    pub closed spec fn offset_spec(self) -> int {
        self.offset as int
    }

    /// A fresh engine over `text`, ready to emit frames starting at offset
    /// zero. The caller pads short texts beforehand; an empty source is
    /// rejected here, not later.
    pub fn new(text: Vec<char>) -> (r: Scroller)
        requires
            text@.len() > 0,
        ensures
            r.wf(),
            r.source() == text@,
            r.offset_spec() == 0,
    {
        Scroller { text, offset: 0 }
    }

    /// Emits the frame at the current offset and advances the offset by
    /// exactly one character, wrapping modulo the source length.
    pub fn next_frame(&mut self) -> (r: Vec<char>)
        requires
            old(self).wf(),
        ensures
            final(self).wf(),
            final(self).source() == old(self).source(),
            r@ == frame_at(old(self).source(), old(self).offset_spec(), FRAME_WIDTH as nat),
            final(self).offset_spec() == (old(self).offset_spec() + 1) % (old(
                self,
            ).source().len() as int),
    {
        let ghost t = self.text@;
        let ghost off0 = self.offset as int;
        let len = self.text.len();
        let ghost m = len as int;
        let mut r: Vec<char> = Vec::new();
        let mut idx: usize = self.offset;
        let mut j: usize = 0;
        proof {
            lemma_small_mod(self.offset as nat, len as nat);
        }
        while j < FRAME_WIDTH
            invariant
                self.text@ == t,
                len == t.len(),
                0 < m,
                m == len as int,
                0 <= off0 < m,
                idx < len,
                j <= FRAME_WIDTH,
                idx == (off0 + j) % m,
                r@.len() == j,
                forall|k: int| 0 <= k < j ==> r@[k] == t[(off0 + k) % m],
            decreases FRAME_WIDTH - j,
        {
            let c = self.text[idx];
            r.push(c);
            proof {
                lemma_mod_step(off0 + j, m);
            }
            idx += 1;
            if idx == len {
                idx = 0;
            }
            j += 1;
        }
        proof {
            assert(r@ =~= frame_at(t, off0, FRAME_WIDTH as nat));
            lemma_mod_step(off0, m);
        }
        self.offset += 1;
        if self.offset == self.text.len() {
            self.offset = 0;
        }
        r
    }
}

} // verus!
