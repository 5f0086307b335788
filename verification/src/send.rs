//! One send, step by step.
//!
//! The library never touches the device itself. A [`Transfer`] says what has
//! to be done next: open the device, write a report, or stop. The caller
//! does it and hands the outcome back. A send is the device lookup, then one
//! write per chunk report in the order of the offsets, then the write of the
//! trigger. The first failure ends it: nothing is retried and nothing more
//! is written. The result of a failed send names the phase that failed
//! beside the error, so that a device that is absent and a device that is
//! there but refuses a write are told apart whatever error the transport
//! gives: [`send`] itself fails on bad input only, a failed lookup ends in
//! [`Phase::Lookup`] and a failed write in [`Phase::Transport`].

use crate::encoder::{encode, is_hex, law_pattern_len, pattern};
use crate::error::Error;
use crate::framer::{chunk_count, report, send_req, set_code, writes, TRIGGER};
use vstd::prelude::*;

verus! {

/// The part of a send in which the device is involved and can fail.
#[derive(Debug, Clone, Copy, PartialEq, Eq, Structural)]
pub enum Phase {
    /// Finding and opening the device.
    Lookup,
    /// Writing a report to the open device.
    Transport,
}

/// How far a send has come.
#[derive(Debug, Clone, Copy, PartialEq, Eq, Structural)]
pub enum Stage {
    /// The device has not been opened yet.
    Lookup,
    /// The device is open and a report waits to be written.
    Writing,
    /// Every report was written, the trigger last.
    Done,
    /// The send has ended in this phase with this error.
    Failed(Phase, Error),
}

/// What the caller of a [`Transfer`] has to do next.
#[derive(Debug, Clone, Copy, PartialEq, Eq)]
pub enum Action<'a> {
    /// Open the target device.
    Open,
    /// Write these bytes to the device's endpoint.
    Write(&'a [u8]),
    /// Stop: the send has ended with this result. A failure names the phase
    /// that failed and the error it failed with.
    Finish(Result<(), (Phase, Error)>),
}

/// An [`Action`] as a mathematical value.
pub enum ActionView {
    Open,
    Write(Seq<u8>),
    Finish(Result<(), (Phase, Error)>),
}

impl<'a> View for Action<'a> {
    type V = ActionView;

    open spec fn view(&self) -> ActionView {
        match *self {
            Action::Open => ActionView::Open,
            Action::Write(bytes) => ActionView::Write(bytes@),
            Action::Finish(result) => ActionView::Finish(result),
        }
    }
}

/// A [`Transfer`] as a mathematical value.
pub struct TransferView {
    /// Every report of the send in the order of writing, the trigger last.
    pub writes: Seq<Seq<u8>>,
    /// How many of them were written.
    pub written: nat,
    /// How far the send has come.
    pub stage: Stage,
}

/// The state in which a send of the pattern `code` begins.
pub open spec fn begin(code: Seq<u8>) -> TransferView {
    TransferView { writes: writes(code), written: 0, stage: Stage::Lookup }
}

impl TransferView {
    /// The states that a send can be in.
    pub open spec fn wf(self) -> bool {
        &&& self.writes.len() > 0
        &&& self.written <= self.writes.len()
        &&& self.stage == Stage::Lookup ==> self.written == 0
        &&& self.stage == Stage::Writing ==> self.written < self.writes.len()
        &&& self.stage == Stage::Done ==> self.written == self.writes.len()
        &&& self.stage matches Stage::Failed(Phase::Lookup, _) ==> self.written == 0
        &&& self.stage matches Stage::Failed(Phase::Transport, _) ==> self.written
            < self.writes.len()
    }

    /// What has to be done in this state.
    pub open spec fn action(self) -> ActionView {
        match self.stage {
            Stage::Lookup => ActionView::Open,
            Stage::Writing => ActionView::Write(self.writes[self.written as int]),
            Stage::Done => ActionView::Finish(Ok(())),
            Stage::Failed(phase, err) => ActionView::Finish(Err((phase, err))),
        }
    }

    /// The state after the action of this state had the given outcome.
    ///
    /// A successful lookup leads to the first write and a successful write
    /// to the next one, or to the end after the last. A failure of either is
    /// kept as the result of the send, together with the phase it came in:
    /// the lookup's own, or the transport's for a write. Once the send has
    /// ended, nothing changes any more.
    pub open spec fn step(self, outcome: Result<(), Error>) -> TransferView {
        match (self.stage, outcome) {
            (Stage::Lookup, Ok(_)) => TransferView { stage: Stage::Writing, ..self },
            (Stage::Writing, Ok(_)) => TransferView {
                written: self.written + 1,
                stage: if self.written + 1 < self.writes.len() {
                    Stage::Writing
                } else {
                    Stage::Done
                },
                ..self
            },
            (Stage::Lookup, Err(err)) => TransferView {
                stage: Stage::Failed(Phase::Lookup, err),
                ..self
            },
            (Stage::Writing, Err(err)) => TransferView {
                stage: Stage::Failed(Phase::Transport, err),
                ..self
            },
            (Stage::Done, _) => self,
            (Stage::Failed(_, _), _) => self,
        }
    }

    /// The state after a row of outcomes, handed back one after the other.
    pub open spec fn run(self, outcomes: Seq<Result<(), Error>>) -> TransferView
        decreases outcomes.len(),
    {
        if outcomes.len() == 0 {
            self
        } else {
            self.run(outcomes.drop_last()).step(outcomes.last())
        }
    }
}

/// Every outcome is a success.
pub open spec fn all_ok(outcomes: Seq<Result<(), Error>>) -> bool {
    forall|index: int| 0 <= index < outcomes.len() ==> (#[trigger] outcomes[index]) is Ok
}

/// A send begins with the device lookup and nothing written. Its writes are
/// the chunk reports of the pattern in the order of their offsets, and after
/// them the trigger.
pub proof fn law_begin(code: Seq<u8>)
    ensures
        begin(code).wf(),
        begin(code).action() == ActionView::Open,
        begin(code).writes.len() == chunk_count(code.len()) + 1,
        begin(code).writes.last() == TRIGGER@,
        forall|index: int|
            0 <= index < chunk_count(code.len()) ==> #[trigger] begin(code).writes[index] == report(
                code,
                index as nat,
            ),
{
}

/// A step leads from one state of a send to another, never changes what is
/// to be written, and never takes a write back.
pub proof fn law_step(state: TransferView, outcome: Result<(), Error>)
    requires
        state.wf(),
    ensures
        state.step(outcome).wf(),
        state.step(outcome).writes == state.writes,
        state.step(outcome).written >= state.written,
        state.step(outcome).written <= state.written + 1,
{
}

/// As long as everything succeeds, the writes come in their order, one per
/// step, and the send is done after the last of them: after the lookup and
/// `k` writes the next action is write number `k`, and after all writes the
/// result is success. The chunks are thus written by rising offset and the
/// trigger is the last write.
pub proof fn law_success(state: TransferView, outcomes: Seq<Result<(), Error>>)
    requires
        state.wf(),
        state.stage == Stage::Lookup,
        all_ok(outcomes),
    ensures
        state.run(outcomes).wf(),
        state.run(outcomes).writes == state.writes,
        outcomes.len() == 0 ==> state.run(outcomes) == state,
        1 <= outcomes.len() <= state.writes.len() ==> {
            &&& state.run(outcomes).stage == Stage::Writing
            &&& state.run(outcomes).written == outcomes.len() - 1
            &&& state.run(outcomes).action() == ActionView::Write(
                state.writes[outcomes.len() - 1],
            )
        },
        outcomes.len() > state.writes.len() ==> {
            &&& state.run(outcomes).stage == Stage::Done
            &&& state.run(outcomes).written == state.writes.len()
            &&& state.run(outcomes).action() == ActionView::Finish(Ok(()))
        },
    decreases outcomes.len(),
{
    if outcomes.len() > 0 {
        law_success(state, outcomes.drop_last());
    }
}

/// The first failure ends the send and tells its phase. Where the outcomes
/// before number `failed` are successes and that one is the error `err`, the
/// result is `err`, whatever is handed back afterwards, and the writes that
/// succeeded before it are all that was written: none where the lookup
/// failed. The phase is the lookup's exactly when it was the lookup that
/// failed, and the transport's for every write, whichever error it is.
pub proof fn law_fail_fast(
    state: TransferView,
    outcomes: Seq<Result<(), Error>>,
    failed: nat,
    err: Error,
)
    requires
        state.wf(),
        state.stage == Stage::Lookup,
        failed < outcomes.len(),
        failed <= state.writes.len(),
        all_ok(outcomes.take(failed as int)),
        outcomes[failed as int] == Err::<(), Error>(err),
    ensures
        state.run(outcomes).stage == Stage::Failed(
            if failed == 0 {
                Phase::Lookup
            } else {
                Phase::Transport
            },
            err,
        ),
        state.run(outcomes).action() == ActionView::Finish(
            Err(
                (
                    if failed == 0 {
                        Phase::Lookup
                    } else {
                        Phase::Transport
                    },
                    err,
                ),
            ),
        ),
        state.run(outcomes).written == if failed == 0 {
            0
        } else {
            failed - 1
        },
    decreases outcomes.len(),
{
    if outcomes.len() == failed + 1 {
        assert(outcomes.drop_last() =~= outcomes.take(failed as int));
        law_success(state, outcomes.drop_last());
    } else {
        assert(outcomes.drop_last().take(failed as int) =~= outcomes.take(failed as int));
        law_fail_fast(state, outcomes.drop_last(), failed, err);
    }
}

/// A failed lookup and a failed write never end a send alike, not even
/// where both fail with the same error: the result of the first names the
/// lookup, that of the second the transport.
pub proof fn law_phase(state: TransferView, lookup: Error, write: Error)
    requires
        state.wf(),
        state.stage == Stage::Lookup,
    ensures
        state.step(Err(lookup)).action() == ActionView::Finish(Err((Phase::Lookup, lookup))),
        state.step(Ok(())).step(Err(write)).action() == ActionView::Finish(
            Err((Phase::Transport, write)),
        ),
        state.step(Err(lookup)).action() != state.step(Ok(())).step(Err(write)).action(),
        state.step(Err(lookup)).stage != state.step(Ok(())).step(Err(write)).stage,
{
}

/// The state of one send.
#[derive(Debug)]
pub struct Transfer {
    writes: Vec<Vec<u8>>,
    written: usize,
    stage: Stage,
}

impl View for Transfer {
    type V = TransferView;

    closed spec fn view(&self) -> TransferView {
        TransferView {
            writes: self.writes.deep_view(),
            written: self.written as nat,
            stage: self.stage,
        }
    }
}

impl Transfer {
    #[verifier::type_invariant]
    spec fn inv(self) -> bool {
        self@.wf()
    }

    /// Begins the send of a pattern, whose length has to be a multiple of
    /// four, as that of every encoded pattern is.
    pub fn new(code: &[u8]) -> (transfer: Transfer)
        requires
            code@.len() % 4 == 0,
        ensures
            transfer@ == begin(code@),
    {
        let mut writes: Vec<Vec<u8>> = set_code(code);
        let ghost chunks = writes.deep_view();
        writes.push(send_req());
        assert(writes.deep_view() =~~= chunks.push(TRIGGER@));
        Transfer { writes, written: 0, stage: Stage::Lookup }
    }

    /// How far the send has come.
    pub fn stage(&self) -> (stage: Stage)
        ensures
            stage == self@.stage,
    {
        self.stage
    }

    /// How many reports were written.
    pub fn written(&self) -> (count: usize)
        ensures
            count == self@.written,
    {
        self.written
    }

    /// What has to be done next.
    pub fn action(&self) -> (action: Action<'_>)
        ensures
            self@.wf(),
            action@ == self@.action(),
    {
        proof {
            use_type_invariant(self);
            assert(self.writes.deep_view().len() == self.writes@.len());
            if self.stage == Stage::Writing {
                assert(self.writes.deep_view()[self.written as int] == self.writes@[self.written as int]@);
            }
        }
        match self.stage {
            Stage::Lookup => Action::Open,
            Stage::Writing => Action::Write(self.writes[self.written].as_slice()),
            Stage::Done => Action::Finish(Ok(())),
            Stage::Failed(phase, err) => Action::Finish(Err((phase, err))),
        }
    }

    /// Takes the outcome of the action that [`Transfer::action`] asked for.
    /// An error is recorded with the phase of that action.
    pub fn advance(self, outcome: Result<(), Error>) -> (next: Transfer)
        ensures
            next@ == self@.step(outcome),
    {
        proof {
            use_type_invariant(&self);
            assert(self.writes.deep_view().len() == self.writes@.len());
        }
        match (self.stage, outcome) {
            (Stage::Lookup, Ok(_)) => Transfer {
                writes: self.writes,
                written: self.written,
                stage: Stage::Writing,
            },
            (Stage::Writing, Ok(_)) => {
                let count: usize = self.writes.len();
                let written: usize = self.written + 1;
                let stage = if written < count {
                    Stage::Writing
                } else {
                    Stage::Done
                };
                Transfer { writes: self.writes, written, stage }
            },
            (Stage::Lookup, Err(err)) => Transfer {
                writes: self.writes,
                written: self.written,
                stage: Stage::Failed(Phase::Lookup, err),
            },
            (Stage::Writing, Err(err)) => Transfer {
                writes: self.writes,
                written: self.written,
                stage: Stage::Failed(Phase::Transport, err),
            },
            (Stage::Done, _) => self,
            (Stage::Failed(_, _), _) => self,
        }
    }
}

/// Begins the send of a string of hexadecimal digits.
///
/// A string with any other character in it is refused with `Error::Parse`
/// before anything is asked of the device, and this is the only failure
/// that comes from here: what the device does is reported, with its phase,
/// by the transfer. Otherwise the send begins with the device lookup and
/// goes on to write the string's pattern.
pub fn send(source: &str) -> (result: Result<Transfer, Error>)
    ensures
        match result {
            Ok(transfer) => is_hex(source@) && transfer@ == begin(pattern(source@)),
            Err(err) => !is_hex(source@) && err == Error::Parse,
        },
{
    match encode(source) {
        Ok(code) => {
            proof {
                law_pattern_len(source@);
            }
            Ok(Transfer::new(code.as_slice()))
        },
        Err(err) => Err(err),
    }
}

} // verus!
