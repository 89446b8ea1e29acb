//! Waiting for elements to stop, and the order in which a stream is taken down.
use vstd::prelude::*;

use crate::stream::sink::branch::ElementState;

verus! {

/// What to do while waiting.
#[derive(Clone, Copy, Debug, PartialEq, Eq, Structural)]
pub enum WaitVerdict {
    /// The wait is over.
    Reached,
    /// The wait has taken too long.
    TimedOut,
    /// Look again after so many milliseconds.
    Sleep(u64),
}

/// Waiting for an element to reach a state.
#[derive(Clone, Copy, Debug, PartialEq, Eq, Structural)]
pub struct StateWait {
    pub target: ElementState,
    pub polling_ms: u64,
    pub timeout_ms: u64,
}

impl StateWait {
    /// Waiting for `Null` with the limits that taking a stream down has: a look
    /// every 100 ms, for 5 s.
    pub fn for_null() -> (r: StateWait)
        ensures
            r == (StateWait { target: ElementState::Null, polling_ms: 100, timeout_ms: 5000 }),
    {
        StateWait { target: ElementState::Null, polling_ms: 100, timeout_ms: 5000 }
    }

    /// Decides after a look at the element, `elapsed_ms` after the wait began.
    /// An element that is there already is not waited for.
    pub fn check(&self, current: ElementState, elapsed_ms: u64) -> (r: WaitVerdict)
        ensures
            r == (if current == self.target {
                WaitVerdict::Reached
            } else if elapsed_ms >= self.timeout_ms {
                WaitVerdict::TimedOut
            } else {
                WaitVerdict::Sleep(self.polling_ms)
            }),
    {
        if current == self.target {
            WaitVerdict::Reached
        } else if elapsed_ms >= self.timeout_ms {
            WaitVerdict::TimedOut
        } else {
            WaitVerdict::Sleep(self.polling_ms)
        }
    }
}

/// How long setting a pipeline to `Null` may take before its owner goes on
/// without it, in milliseconds.
pub const NULL_TIMEOUT_MS: u64 = 5000;

/// How often its owner looks whether that is done, in milliseconds.
pub const NULL_POLL_MS: u64 = 50;

/// Where taking a stream down stands.
#[derive(Clone, Copy, Debug, PartialEq, Eq, Structural)]
pub enum TeardownStage {
    /// End of stream is to be posted, on a thread of its own.
    PostEos,
    /// The pipeline is to be set to `Null`, on a thread of its own.
    SetNull,
    /// That thread is waited for.
    AwaitNull,
    /// The pipeline's state is to be read.
    CheckState,
    /// The pipeline is waited for.
    AwaitState,
    /// The thread that posted end of stream is to be joined.
    JoinEos,
    /// The sink at that position is to be removed.
    RemoveSink(usize),
    Finished,
}

/// What is reported of the stage that was carried out.
#[derive(Clone, Copy, Debug, PartialEq, Eq, Structural)]
pub enum TeardownEvent {
    /// It is done, well or not.
    Done,
    /// The thread was started, or could not be.
    Spawned(bool),
    /// A look at the thread.
    Polled { finished: bool, elapsed_ms: u64 },
    /// The pipeline's state.
    State(ElementState),
}

/// Taking a stream down.
#[derive(Clone, Copy, Debug, PartialEq, Eq, Structural)]
pub struct StreamTeardown {
    pub stage: TeardownStage,
    pub sinks: usize,
}

/// The first sink to be removed, or the end.
pub open spec fn removal(position: int, sinks: usize) -> TeardownStage {
    if position < sinks {
        TeardownStage::RemoveSink(position as usize)
    } else {
        TeardownStage::Finished
    }
}

impl StreamTeardown {
    /// A stream without a pipeline has nothing to take down.
    pub fn new(has_pipeline: bool, sinks: usize) -> (r: StreamTeardown)
        ensures
            r.sinks == sinks,
            r.stage == (if has_pipeline {
                TeardownStage::PostEos
            } else {
                TeardownStage::Finished
            }),
    {
        let stage = if has_pipeline {
            TeardownStage::PostEos
        } else {
            TeardownStage::Finished
        };
        StreamTeardown { stage, sinks }
    }

    /// The stage after an event; an event that does not belong to the stage
    /// changes nothing.
    pub open spec fn next(self, event: TeardownEvent) -> TeardownStage {
        match (self.stage, event) {
            (TeardownStage::PostEos, TeardownEvent::Done) => TeardownStage::SetNull,
            (TeardownStage::SetNull, TeardownEvent::Spawned(started)) => if started {
                TeardownStage::AwaitNull
            } else {
                TeardownStage::CheckState
            },
            (
                TeardownStage::AwaitNull,
                TeardownEvent::Polled { finished, elapsed_ms },
            ) => if finished || elapsed_ms >= NULL_TIMEOUT_MS {
                TeardownStage::CheckState
            } else {
                TeardownStage::AwaitNull
            },
            (TeardownStage::CheckState, TeardownEvent::State(state)) => if state
                == ElementState::Null {
                TeardownStage::JoinEos
            } else {
                TeardownStage::AwaitState
            },
            (TeardownStage::AwaitState, TeardownEvent::Done) => TeardownStage::JoinEos,
            (TeardownStage::JoinEos, TeardownEvent::Done) => removal(0, self.sinks),
            (TeardownStage::RemoveSink(i), TeardownEvent::Done) => removal(i + 1, self.sinks),
            _ => self.stage,
        }
    }

    /// Goes on to the stage that follows.
    pub fn advance(&mut self, event: TeardownEvent)
        ensures
            final(self).stage == old(self).next(event),
            final(self).sinks == old(self).sinks,
    {
        self.stage = match (self.stage, event) {
            (TeardownStage::PostEos, TeardownEvent::Done) => TeardownStage::SetNull,
            (TeardownStage::SetNull, TeardownEvent::Spawned(started)) => if started {
                TeardownStage::AwaitNull
            } else {
                TeardownStage::CheckState
            },
            (TeardownStage::AwaitNull, TeardownEvent::Polled { finished, elapsed_ms }) => {
                if finished || elapsed_ms >= NULL_TIMEOUT_MS {
                    TeardownStage::CheckState
                } else {
                    TeardownStage::AwaitNull
                }
            },
            (TeardownStage::CheckState, TeardownEvent::State(state)) => {
                if state == ElementState::Null {
                    TeardownStage::JoinEos
                } else {
                    TeardownStage::AwaitState
                }
            },
            (TeardownStage::AwaitState, TeardownEvent::Done) => TeardownStage::JoinEos,
            (TeardownStage::JoinEos, TeardownEvent::Done) => {
                if self.sinks > 0 {
                    TeardownStage::RemoveSink(0)
                } else {
                    TeardownStage::Finished
                }
            },
            (TeardownStage::RemoveSink(i), TeardownEvent::Done) => {
                if i < self.sinks && i + 1 < self.sinks {
                    TeardownStage::RemoveSink(i + 1)
                } else {
                    TeardownStage::Finished
                }
            },
            (stage, _) => stage,
        };
    }
}

/// How far along a stage is.
pub open spec fn stage_rank(stage: TeardownStage) -> int {
    match stage {
        TeardownStage::PostEos => 0,
        TeardownStage::SetNull => 1,
        TeardownStage::AwaitNull => 2,
        TeardownStage::CheckState => 3,
        TeardownStage::AwaitState => 4,
        TeardownStage::JoinEos => 5,
        TeardownStage::RemoveSink(i) => 6 + i,
        TeardownStage::Finished => 7 + usize::MAX,
    }
}

/// Taking a stream down never goes back, so that it comes to an end: sinks are
/// removed only after the pipeline was set to `Null` and end of stream was
/// posted, and each of them once, in order.
pub proof fn teardown_only_goes_on(teardown: StreamTeardown, event: TeardownEvent)
    ensures
        teardown.next(event) == teardown.stage || stage_rank(teardown.next(event)) > stage_rank(
            teardown.stage,
        ),
        teardown.next(event) is RemoveSink ==> teardown.stage is JoinEos
            || teardown.stage is RemoveSink,
        teardown.next(event) matches TeardownStage::RemoveSink(j) ==> teardown.stage
            == TeardownStage::JoinEos && j == 0 || teardown.stage == TeardownStage::RemoveSink(j)
            || teardown.stage == TeardownStage::RemoveSink((j - 1) as usize),
{
}

/// The wait for `Null` ends: a look that comes after the time limit ends it,
/// whether or not the pipeline is there.
pub proof fn null_is_not_awaited_forever(
    teardown: StreamTeardown,
    finished: bool,
    elapsed_ms: u64,
)
    requires
        teardown.stage == TeardownStage::AwaitNull,
        elapsed_ms >= NULL_TIMEOUT_MS,
    ensures
        teardown.next(TeardownEvent::Polled { finished, elapsed_ms }) == TeardownStage::CheckState,
{
}

/// What shutting down the session of a sink consists of.
#[derive(Clone, Copy, Debug, PartialEq, Eq, Structural)]
pub enum SessionStep {
    /// Stop the runner, which from then on drops what the bus brings.
    StopRunner,
    /// Give back the pad that was requested of an element of the session.
    ReleaseRequestPad,
    SetNull,
    /// Wait for `Null`, with [`StateWait::for_null`]: not at all where the
    /// session is there already.
    AwaitNull,
}

pub open spec fn shutdown_steps(holds_request_pad: bool) -> Seq<SessionStep> {
    seq![SessionStep::StopRunner] + (if holds_request_pad {
        seq![SessionStep::ReleaseRequestPad]
    } else {
        Seq::empty()
    }) + seq![SessionStep::SetNull, SessionStep::AwaitNull]
}

/// How the session of a sink is shut down: the runner first, then a requested
/// pad, before the session goes to `Null`.
pub fn shutdown_session(holds_request_pad: bool) -> (r: Vec<SessionStep>)
    ensures
        r@ == shutdown_steps(holds_request_pad),
{
    let mut r: Vec<SessionStep> = Vec::new();
    r.push(SessionStep::StopRunner);
    if holds_request_pad {
        r.push(SessionStep::ReleaseRequestPad);
    }
    r.push(SessionStep::SetNull);
    r.push(SessionStep::AwaitNull);
    assert(r@ =~= shutdown_steps(holds_request_pad));
    r
}

/// How early a step comes when a session is shut down.
pub open spec fn session_rank(step: SessionStep) -> int {
    match step {
        SessionStep::StopRunner => 0,
        SessionStep::ReleaseRequestPad => 1,
        SessionStep::SetNull => 2,
        SessionStep::AwaitNull => 3,
    }
}

/// Sessions are shut down in one order: the runner is stopped before a requested
/// pad is given back, and the pad is given back before the session goes to `Null`.
pub proof fn sessions_are_shut_down_in_order(holds_request_pad: bool, i: int, j: int)
    requires
        0 <= i < j < shutdown_steps(holds_request_pad).len(),
    ensures
        session_rank(shutdown_steps(holds_request_pad)[i]) < session_rank(
            shutdown_steps(holds_request_pad)[j],
        ),
{
}

/// A stream is taken down stage by stage: once end of stream was posted the pipeline
/// is set to `Null`, which is awaited where it was begun; its state is looked at once
/// that is done or five seconds have passed, and awaited where it is not `Null`; then
/// the thread is joined, the sinks are removed one after the other, each of them, and
/// that is the end. Nothing else leads from one stage to another.
pub proof fn streams_are_taken_down_stage_by_stage(teardown: StreamTeardown, event: TeardownEvent)
    ensures
        ({
            let from = teardown.stage;
            let to = teardown.next(event);
            let moved = to != from;
            let done = event == TeardownEvent::Done;
            &&& moved && to == TeardownStage::SetNull <==> from == TeardownStage::PostEos && done
            &&& moved && to == TeardownStage::AwaitNull <==> from == TeardownStage::SetNull && event
                == TeardownEvent::Spawned(true)
            &&& moved && to == TeardownStage::CheckState <==> (from == TeardownStage::SetNull
                && event == TeardownEvent::Spawned(false)) || (from == TeardownStage::AwaitNull
                && event is Polled && (event->finished || event->elapsed_ms >= 5000))
            &&& moved && to == TeardownStage::AwaitState <==> from == TeardownStage::CheckState
                && event is State && event->State_0 != ElementState::Null
            &&& moved && to == TeardownStage::JoinEos <==> (from == TeardownStage::CheckState
                && event == TeardownEvent::State(ElementState::Null)) || (from
                == TeardownStage::AwaitState && done)
            &&& moved && to == TeardownStage::RemoveSink(0) <==> from == TeardownStage::JoinEos
                && done && teardown.sinks > 0
            &&& from matches TeardownStage::RemoveSink(i) ==> (done && i + 1 < teardown.sinks
                ==> to == TeardownStage::RemoveSink((i + 1) as usize))
            &&& from matches TeardownStage::RemoveSink(i) ==> (done && i + 1 >= teardown.sinks
                ==> to == TeardownStage::Finished)
            &&& from == TeardownStage::JoinEos && done && teardown.sinks == 0 ==> to
                == TeardownStage::Finished
            &&& moved ==> to != TeardownStage::PostEos
            &&& moved && (to == TeardownStage::Finished || to is RemoveSink) ==> done && (from
                == TeardownStage::JoinEos || from is RemoveSink)
        }),
{
}

/// Shutting a session down stops its runner and sets it to `Null`, which is awaited,
/// each once; a pad is given back exactly where the session holds one.
pub proof fn sessions_are_shut_down_whole(holds_request_pad: bool)
    ensures
        ({
            let steps = shutdown_steps(holds_request_pad);
            &&& steps[0] == SessionStep::StopRunner
            &&& steps.contains(SessionStep::ReleaseRequestPad) <==> holds_request_pad
            &&& steps[steps.len() - 2] == SessionStep::SetNull
            &&& steps[steps.len() - 1] == SessionStep::AwaitNull
            &&& steps.len() == if holds_request_pad {
                4int
            } else {
                3int
            }
            &&& holds_request_pad ==> steps[1] == SessionStep::ReleaseRequestPad
        }),
{
    if holds_request_pad {
        assert(shutdown_steps(true)[1] == SessionStep::ReleaseRequestPad);
    }
}

} // verus!
