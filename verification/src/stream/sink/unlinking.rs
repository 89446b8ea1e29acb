//! Unlinking a sink that has a session of its own: a pipeline that its branch
//! feeds.
use vstd::prelude::*;

use crate::stream::sink::branch::{
    attached_branch, detach_steps, detached_branch, detaching_undoes_attaching, BranchStep,
    BranchView, BranchWork, ElementState, Removal, WorkKind,
};
use crate::stream::teardown::{shutdown_session, shutdown_steps, SessionStep};

verus! {

/// A step of unlinking a sink.
#[derive(Clone, Copy, Debug, PartialEq, Eq, Structural)]
pub enum UnlinkStep {
    /// The session is shut down.
    Session(SessionStep),
    /// The branch that feeds it is taken off the tee.
    Branch(BranchStep),
}

pub open spec fn session_part(steps: Seq<SessionStep>) -> Seq<UnlinkStep> {
    steps.map_values(|s: SessionStep| UnlinkStep::Session(s))
}

pub open spec fn branch_part(steps: Seq<BranchStep>) -> Seq<UnlinkStep> {
    steps.map_values(|s: BranchStep| UnlinkStep::Branch(s))
}

/// How a sink with a branch of `n` elements is unlinked: its session is shut down,
/// then the branch is taken off.
pub open spec fn unlink_steps(holds_request_pad: bool, n: nat) -> Seq<UnlinkStep> {
    session_part(shutdown_steps(holds_request_pad)) + branch_part(detach_steps(n))
}

/// The work of unlinking a sink: what is left of shutting down the session, and
/// the work on the branch.
pub struct Unlinking {
    pub session: Vec<SessionStep>,
    pub position: usize,
    pub work: BranchWork,
}

impl Unlinking {
    pub open spec fn wf(self) -> bool {
        self.position <= self.session@.len() && self.work.wf()
    }

    /// What is left of shutting down the session.
    pub open spec fn session_left(self) -> Seq<SessionStep> {
        self.session@.skip(self.position as int)
    }

    pub open spec fn remaining(self) -> Seq<UnlinkStep> {
        session_part(self.session_left()) + branch_part(self.work.remaining())
    }

    /// Unlinking a sink with a branch of `size` elements, each of which has to
    /// leave the pipeline.
    pub fn new(holds_request_pad: bool, size: usize) -> (r: Unlinking)
        requires
            size >= 1,
        ensures
            r.wf(),
            r.work.kind == WorkKind::Detach(Removal::Demanded),
            r.work.size == size,
            r.work.failed is None,
            r.session_left() == shutdown_steps(holds_request_pad),
            r.remaining() == unlink_steps(holds_request_pad, size as nat),
    {
        let r = Unlinking {
            session: shutdown_session(holds_request_pad),
            position: 0,
            work: BranchWork::detach(size, Removal::Demanded),
        };
        assert(r.session_left() =~= shutdown_steps(holds_request_pad));
        r
    }

    /// The step to carry out next, if any is left.
    pub fn next_step(&self) -> (r: Option<UnlinkStep>)
        requires
            self.wf(),
        ensures
            self.remaining().len() == 0 ==> r is None,
            self.remaining().len() > 0 ==> r == Some(self.remaining()[0]),
    {
        if self.position < self.session.len() {
            return Some(UnlinkStep::Session(self.session[self.position]));
        }
        match self.work.next_step() {
            Some(step) => Some(UnlinkStep::Branch(step)),
            None => None,
        }
    }

    /// Notes how the next step went. What fails while the session is shut down is
    /// passed over; the branch is not touched before that is over.
    pub fn report(&mut self, ok: bool)
        requires
            old(self).wf(),
            old(self).remaining().len() > 0,
        ensures
            final(self).wf(),
            final(self).work.size == old(self).work.size,
            if old(self).session_left().len() > 0 {
                &&& final(self).session_left() == old(self).session_left().skip(1)
                &&& final(self).work == old(self).work
            } else {
                &&& final(self).session_left() == old(self).session_left()
                &&& (
                    final(self).work.kind,
                    final(self).work.remaining(),
                    final(self).work.failed,
                ) == old(self).work.progress(ok)
            },
    {
        if self.position < self.session.len() {
            self.position = self.position + 1;
            assert(self.session_left() =~= old(self).session_left().skip(1));
        } else {
            self.work.report(ok);
        }
    }

    /// How the work ended, once nothing is left: the step on the branch that
    /// failed, if one did.
    pub fn outcome(&self) -> (r: Option<Result<(), BranchStep>>)
        requires
            self.wf(),
        ensures
            r is Some <==> self.remaining().len() == 0,
            r is Some ==> r->0 == (match self.work.failed {
                Some(step) => Err::<(), BranchStep>(step),
                None => Ok::<(), BranchStep>(()),
            }),
    {
        if self.position < self.session.len() {
            return None;
        }
        self.work.outcome()
    }
}

/// The state of a session, and the books on the branch that feeds it.
#[verifier::ext_equal]
pub struct LinkView {
    pub session: ElementState,
    pub branch: BranchView,
}

impl LinkView {
    /// After a step that was carried out.
    pub open spec fn after(self, step: UnlinkStep) -> LinkView {
        match step {
            UnlinkStep::Session(SessionStep::SetNull) => LinkView {
                session: ElementState::Null,
                ..self
            },
            UnlinkStep::Session(_) => self,
            UnlinkStep::Branch(step) => LinkView { branch: self.branch.after(step), ..self },
        }
    }

    /// After steps that were all carried out, in order.
    pub open spec fn after_all(self, steps: Seq<UnlinkStep>) -> LinkView
        decreases steps.len(),
    {
        if steps.len() == 0 {
            self
        } else {
            self.after_all(steps.drop_last()).after(steps.last())
        }
    }
}

/// Where things stand after `k` steps.
proof fn after_some_steps(link: LinkView, holds_request_pad: bool, n: nat, k: int)
    requires
        0 <= k <= unlink_steps(holds_request_pad, n).len(),
    ensures
        ({
            let down = shutdown_steps(holds_request_pad).len();
            let after = link.after_all(unlink_steps(holds_request_pad, n).take(k));
            &&& k >= down ==> after.session == ElementState::Null
            &&& after.branch == (if k <= down {
                link.branch
            } else {
                link.branch.after_all(detach_steps(n).take(k - down))
            })
        }),
    decreases k,
{
    let down = shutdown_steps(holds_request_pad).len() as int;
    let steps = unlink_steps(holds_request_pad, n);
    if k > 0 {
        after_some_steps(link, holds_request_pad, n, k - 1);
        assert(steps.take(k).drop_last() =~= steps.take(k - 1));
        assert(steps.take(k).last() == steps[k - 1]);
        if k > down {
            let here = detach_steps(n).take(k - down);
            assert(here.drop_last() =~= detach_steps(n).take(k - 1 - down));
            assert(here.last() == detach_steps(n)[k - 1 - down]);
            assert(steps[k - 1] == UnlinkStep::Branch(detach_steps(n)[k - 1 - down]));
            assert(link.branch.after_all(Seq::<BranchStep>::empty()) == link.branch);
            assert(detach_steps(n).take(0) =~= Seq::<BranchStep>::empty());
        } else {
            assert(steps[k - 1] == UnlinkStep::Session(
                shutdown_steps(holds_request_pad)[k - 1],
            ));
            if k == down {
                assert(steps.take(k - 1).drop_last() =~= steps.take(k - 2));
                assert(steps.take(k - 1).last() == steps[k - 2]);
                assert(steps[k - 2] == UnlinkStep::Session(SessionStep::SetNull));
            }
        }
    }
}

/// When a sink is unlinked, its session is in `Null` before its branch is touched:
/// the branch is as it was until then.
pub proof fn sessions_are_null_before_branches_are_touched(
    link: LinkView,
    holds_request_pad: bool,
    n: nat,
    k: int,
)
    requires
        0 <= k < unlink_steps(holds_request_pad, n).len(),
    ensures
        ({
            let steps = unlink_steps(holds_request_pad, n);
            let before = link.after_all(steps.take(k));
            match steps[k] {
                UnlinkStep::Branch(_) => before.session == ElementState::Null,
                UnlinkStep::Session(_) => before.branch == link.branch,
            }
        }),
{
    after_some_steps(link, holds_request_pad, n, k);
}

/// A linked sink that is unlinked leaves nothing behind: its session is in `Null`,
/// and every element of its branch is out of the pipeline and in `Null`.
pub proof fn unlinking_leaves_no_trace(
    session: ElementState,
    pipeline_state: ElementState,
    holds_request_pad: bool,
    n: usize,
)
    requires
        n >= 1,
    ensures
        (LinkView { session, branch: attached_branch(n as nat, pipeline_state) }).after_all(
            unlink_steps(holds_request_pad, n as nat),
        ) == (LinkView {
            session: ElementState::Null,
            branch: detached_branch(n as nat, pipeline_state),
        }),
{
    let link = LinkView { session, branch: attached_branch(n as nat, pipeline_state) };
    let steps = unlink_steps(holds_request_pad, n as nat);
    let detach = detach_steps(n as nat);
    after_some_steps(link, holds_request_pad, n as nat, steps.len() as int);
    assert(steps.take(steps.len() as int) =~= steps);
    assert(detach.take(detach.len() as int) =~= detach);
    detaching_undoes_attaching(n, pipeline_state);
}

/// A sink is unlinked in two parts: its runner is stopped, the pad that it asked for is
/// given back where there is one, and its pipeline goes to `Null`, which is waited for;
/// only then is the branch blocked and taken off.
pub proof fn sessions_go_before_branches(holds_request_pad: bool, n: nat, k: int)
    requires
        0 <= k < unlink_steps(holds_request_pad, n).len(),
    ensures
        ({
            let steps = unlink_steps(holds_request_pad, n);
            let down = if holds_request_pad {
                4int
            } else {
                3int
            };
            &&& steps[k] is Session <==> k < down
            &&& steps[0] == UnlinkStep::Session(SessionStep::StopRunner)
            &&& holds_request_pad ==> steps[1] == UnlinkStep::Session(
                SessionStep::ReleaseRequestPad,
            )
            &&& steps[down - 2] == UnlinkStep::Session(SessionStep::SetNull)
            &&& steps[down - 1] == UnlinkStep::Session(SessionStep::AwaitNull)
            &&& steps[down] == UnlinkStep::Branch(BranchStep::Block)
            &&& k >= down ==> steps[k] == UnlinkStep::Branch(detach_steps(n)[k - down])
            &&& steps.len() == down + detach_steps(n).len()
        }),
{
}

} // verus!
