//! The network connector: drives the wireless interface through an ordered
//! sequence of readiness stages. The shell around the library performs the
//! actual stack calls and polls the readiness predicates; this state machine
//! decides, from each poll result, whether to advance a stage or to emit one
//! tick of the progress indicator so the operator sees the device is alive.

use vstd::prelude::*;
use vstd::arithmetic::div_mod::{lemma_mod_self_0, lemma_small_mod};
use crate::text::FRAME_WIDTH;

verus! {

/// Wireless readiness, strictly monotonic during a successful bring-up:
/// credentials applied, interface started, access point connected, network
/// interface fully up (address acquired).
#[derive(Clone, Copy, PartialEq, Eq, Structural, Debug)]
pub enum ConnectionStage {
    Disconnected,
    Configured,
    Started,
    Connected,
    NetifUp,
}

/// The stage reached when the pending readiness predicate of `s` reports
/// true.
pub open spec fn next_stage(s: ConnectionStage) -> ConnectionStage {
    match s {
        ConnectionStage::Disconnected => ConnectionStage::Configured,
        ConnectionStage::Configured => ConnectionStage::Started,
        ConnectionStage::Started => ConnectionStage::Connected,
        ConnectionStage::Connected => ConnectionStage::NetifUp,
        ConnectionStage::NetifUp => ConnectionStage::NetifUp,
    }
}

/// The position of a stage in the bring-up order.
pub open spec fn stage_index(s: ConnectionStage) -> int {
    match s {
        ConnectionStage::Disconnected => 0,
        ConnectionStage::Configured => 1,
        ConnectionStage::Started => 2,
        ConnectionStage::Connected => 3,
        ConnectionStage::NetifUp => 4,
    }
}

/// Bring-up is strictly monotonic: a successful poll advances exactly one
/// stage, and no transition ever goes backward; the final stage is
/// absorbing.
pub proof fn lemma_stage_monotonic(s: ConnectionStage)
    ensures
        s != ConnectionStage::NetifUp ==> stage_index(next_stage(s)) == stage_index(s) + 1,
        next_stage(ConnectionStage::NetifUp) == ConnectionStage::NetifUp,
{
}

/// The progress indicator frame with the active marker in slot `i`: one
/// `*` among otherwise fixed `O` slots.
pub open spec fn progress_spec(i: int) -> Seq<char> {
    Seq::new(FRAME_WIDTH as nat, |j: int| if j == i {
        '*'
    } else {
        'O'
    })
}

/// The fixed confirmation text shown once the interface is fully up,
/// padded with spaces to the frame width.
pub open spec fn connected_text() -> Seq<char> {
    seq!['c', 'o', 'n', 'n', 'e', 'c', 't', 'e', 'd', ' ', ' ', ' ']
}

/// Bring-up state: the readiness stage reached so far and the slot of the
/// progress indicator's active marker.
pub struct Connector {
    stage: ConnectionStage,
    progress: usize,
}

impl Connector {
    /// Well-formedness: the marker slot stays inside the frame.
    pub closed spec fn wf(self) -> bool {
        self.progress < FRAME_WIDTH
    }

    /// The readiness stage reached so far.
    pub closed spec fn stage_spec(self) -> ConnectionStage {
        self.stage
    }

    /// The slot the next progress frame will mark.
    pub closed spec fn progress_val(self) -> int {
        self.progress as int
    }

    /// A connector that has not touched the interface yet.
    pub fn new() -> (r: Connector)
        ensures
            r.wf(),
            r.stage_spec() == ConnectionStage::Disconnected,
            r.progress_val() == 0,
    {
        Connector { stage: ConnectionStage::Disconnected, progress: 0 }
    }

    /// Records that the stored credentials were applied to the interface.
    /// A failure to apply them is fatal and never reaches this point.
    pub fn configure(&mut self)
        requires
            old(self).wf(),
            old(self).stage_spec() == ConnectionStage::Disconnected,
        ensures
            final(self).wf(),
            final(self).stage_spec() == ConnectionStage::Configured,
            final(self).progress_val() == old(self).progress_val(),
    {
        self.stage = ConnectionStage::Configured;
    }

    /// The readiness stage reached so far, for the caller that must pick
    /// the matching readiness predicate to poll.
    pub fn stage(&self) -> (r: ConnectionStage)
        ensures
            r == self.stage_spec(),
    {
        self.stage
    }

    /// Whether bring-up is complete.
    pub fn done(&self) -> (r: bool)
        ensures
            r == (self.stage_spec() == ConnectionStage::NetifUp),
    {
        match self.stage {
            ConnectionStage::NetifUp => true,
            _ => false,
        }
    }

    /// Emits one tick of the progress indicator and advances the marker,
    /// wrapping at the frame width; the stage is untouched. Used on every
    /// poll that finds the pending transition still unfinished, and while
    /// waiting for a clean restart of the interface.
    pub fn progress_tick(&mut self) -> (frame: Vec<char>)
        requires
            old(self).wf(),
        ensures
            final(self).wf(),
            final(self).stage_spec() == old(self).stage_spec(),
            frame@ == progress_spec(old(self).progress_val()),
            final(self).progress_val() == (old(self).progress_val() + 1) % (FRAME_WIDTH as int),
    {
        let p = self.progress;
        let mut frame: Vec<char> = Vec::new();
        let mut j: usize = 0;
        while j < FRAME_WIDTH
            invariant
                j <= FRAME_WIDTH,
                frame@.len() == j,
                forall|k: int| 0 <= k < j ==> frame@[k] == (if k == p {
                    '*'
                } else {
                    'O'
                }),
            decreases FRAME_WIDTH - j,
        {
            if j == p {
                frame.push('*');
            } else {
                frame.push('O');
            }
            j += 1;
        }
        proof {
            assert(frame@ =~= progress_spec(p as int));
            if p + 1 == FRAME_WIDTH {
                lemma_mod_self_0(FRAME_WIDTH as int);
            } else {
                lemma_small_mod((p + 1) as nat, FRAME_WIDTH as nat);
            }
        }
        self.progress += 1;
        if self.progress == FRAME_WIDTH {
            self.progress = 0;
        }
        frame
    }

    /// One poll of the stage's pending readiness predicate: when `ready`
    /// the stage advances and no frame is due; otherwise the stage holds
    /// and one progress frame is due on the display.
    pub fn poll(&mut self, ready: bool) -> (frame: Option<Vec<char>>)
        requires
            old(self).wf(),
            old(self).stage_spec() != ConnectionStage::Disconnected,
            old(self).stage_spec() != ConnectionStage::NetifUp,
        ensures
            final(self).wf(),
            ready ==> {
                &&& final(self).stage_spec() == next_stage(old(self).stage_spec())
                &&& frame is None
                &&& final(self).progress_val() == old(self).progress_val()
            },
            !ready ==> {
                &&& final(self).stage_spec() == old(self).stage_spec()
                &&& frame is Some
                &&& frame.unwrap()@ == progress_spec(old(self).progress_val())
                &&& final(self).progress_val() == (old(self).progress_val() + 1) % (
                FRAME_WIDTH as int)
            },
    {
        if ready {
            self.stage = match self.stage {
                ConnectionStage::Disconnected => ConnectionStage::Configured,
                ConnectionStage::Configured => ConnectionStage::Started,
                ConnectionStage::Started => ConnectionStage::Connected,
                ConnectionStage::Connected => ConnectionStage::NetifUp,
                ConnectionStage::NetifUp => ConnectionStage::NetifUp,
            };
            None
        } else {
            Some(self.progress_tick())
        }
    }

    /// The confirmation frame rendered once the interface is fully up,
    /// held on the display for the dwell time before the render loop takes
    /// over.
    pub fn connected_frame(&self) -> (frame: Vec<char>)
        requires
            self.stage_spec() == ConnectionStage::NetifUp,
        ensures
            frame@ == connected_text(),
    {
        let mut frame: Vec<char> = Vec::new();
        frame.push('c');
        frame.push('o');
        frame.push('n');
        frame.push('n');
        frame.push('e');
        frame.push('c');
        frame.push('t');
        frame.push('e');
        frame.push('d');
        frame.push(' ');
        frame.push(' ');
        frame.push(' ');
        proof {
            assert(frame@ =~= connected_text());
        }
        frame
    }
}

} // verus!
