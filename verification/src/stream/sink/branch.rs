//! Attaching a branch of elements to a source pad of a tee in a running
//! pipeline, and taking it off again.
//!
//! Each piece of work is a list of steps on the elements of the branch. The
//! owner of the pipeline carries out one step at a time and reports how it
//! went; the work decides what comes next, and what is undone after a failure.
//! [`Branch`] keeps the books on what the steps did.
use vstd::prelude::*;

verus! {

/// The state of an element or a pipeline.
#[derive(Clone, Copy, Debug, PartialEq, Eq, Structural)]
pub enum ElementState {
    Null,
    Ready,
    Paused,
    Playing,
}

/// One step. Elements are counted from the tee.
#[derive(Clone, Copy, Debug, PartialEq, Eq, Structural)]
pub enum BranchStep {
    /// Keep data from passing the tee's pad.
    Block,
    Unblock,
    /// Put an element into the pipeline.
    Add(usize),
    /// Link an element to the one after it.
    Chain(usize),
    Unchain(usize),
    /// Link the tee's pad to the first element.
    JoinTee,
    LeaveTee,
    /// Bring everything in the pipeline to the pipeline's own state.
    Sync,
    /// Give the pad back to the tee.
    ReleasePad,
    /// Take an element out of the pipeline; its state stays what it was.
    Remove(usize),
    SetNull(usize),
}

/// What is known of one element of a branch.
#[derive(Clone, Copy, Debug, PartialEq, Eq, Structural)]
pub struct Member {
    pub state: ElementState,
    pub in_pipeline: bool,
}

/// What is known of the tee's pad.
#[derive(Clone, Copy, Debug, PartialEq, Eq, Structural)]
pub struct TeePad {
    pub requested: bool,
    pub blocked: bool,
    /// Linked to the first element.
    pub joined: bool,
}

/// The books on a branch.
pub struct Branch {
    pub members: Vec<Member>,
    /// Whether each element but the last is linked to the one after it.
    pub links: Vec<bool>,
    pub pad: TeePad,
    /// The state of the pipeline that the branch is attached to.
    pub pipeline_state: ElementState,
}

/// What a [`Branch`] stands for.
#[verifier::ext_equal]
pub struct BranchView {
    pub members: Seq<Member>,
    pub links: Seq<bool>,
    pub pad: TeePad,
    pub pipeline_state: ElementState,
}

impl View for Branch {
    type V = BranchView;

    open spec fn view(&self) -> BranchView {
        BranchView {
            members: self.members@,
            links: self.links@,
            pad: self.pad,
            pipeline_state: self.pipeline_state,
        }
    }
}

impl BranchView {
    /// A branch has at least one element, and one link fewer than elements.
    pub open spec fn wf(self) -> bool {
        self.members.len() >= 1 && self.links.len() == self.members.len() - 1
    }

    /// The step names elements that the branch has.
    pub open spec fn fits(self, step: BranchStep) -> bool {
        match step {
            BranchStep::Add(i) => i < self.members.len(),
            BranchStep::Remove(i) => i < self.members.len(),
            BranchStep::SetNull(i) => i < self.members.len(),
            BranchStep::Chain(i) => i < self.links.len(),
            BranchStep::Unchain(i) => i < self.links.len(),
            _ => true,
        }
    }

    pub open spec fn with_member(self, i: int, member: Member) -> BranchView {
        BranchView { members: self.members.update(i, member), ..self }
    }

    /// The links after element `i` has left the pipeline: those on either side
    /// of it are gone.
    pub open spec fn links_without(self, i: int) -> Seq<bool> {
        Seq::new(self.links.len(), |j: int| self.links[j] && j != i && j + 1 != i)
    }

    /// The books after a step that was carried out.
    pub open spec fn after(self, step: BranchStep) -> BranchView {
        match step {
            BranchStep::Block => BranchView {
                pad: TeePad { blocked: true, ..self.pad },
                ..self
            },
            BranchStep::Unblock => BranchView {
                pad: TeePad { blocked: false, ..self.pad },
                ..self
            },
            BranchStep::Add(i) => self.with_member(
                i as int,
                Member { in_pipeline: true, ..self.members[i as int] },
            ),
            BranchStep::Chain(i) => BranchView { links: self.links.update(i as int, true), ..self },
            BranchStep::Unchain(i) => BranchView {
                links: self.links.update(i as int, false),
                ..self
            },
            BranchStep::JoinTee => BranchView {
                pad: TeePad { joined: true, ..self.pad },
                ..self
            },
            BranchStep::LeaveTee => BranchView {
                pad: TeePad { joined: false, ..self.pad },
                ..self
            },
            BranchStep::Sync => BranchView {
                members: Seq::new(
                    self.members.len(),
                    |j: int|
                        if self.members[j].in_pipeline {
                            Member { state: self.pipeline_state, in_pipeline: true }
                        } else {
                            self.members[j]
                        },
                ),
                ..self
            },
            BranchStep::ReleasePad => BranchView {
                pad: TeePad { requested: false, blocked: false, joined: false },
                ..self
            },
            BranchStep::Remove(i) => BranchView {
                members: self.members.update(
                    i as int,
                    Member { in_pipeline: false, ..self.members[i as int] },
                ),
                links: self.links_without(i as int),
                pad: TeePad { joined: self.pad.joined && i != 0, ..self.pad },
                ..self
            },
            BranchStep::SetNull(i) => self.with_member(
                i as int,
                Member { state: ElementState::Null, ..self.members[i as int] },
            ),
        }
    }

    /// The books after steps that were all carried out, in order.
    pub open spec fn after_all(self, steps: Seq<BranchStep>) -> BranchView
        decreases steps.len(),
    {
        if steps.len() == 0 {
            self
        } else {
            self.after_all(steps.drop_last()).after(steps.last())
        }
    }
}

impl Branch {
    /// A branch of `size` fresh elements and a pad just requested from a tee.
    pub fn new(size: usize, pipeline_state: ElementState) -> (r: Branch)
        requires
            size >= 1,
        ensures
            r@ == fresh_branch(size as nat, pipeline_state),
            r@.wf(),
    {
        let mut members: Vec<Member> = Vec::new();
        let mut links: Vec<bool> = Vec::new();
        members.push(Member { state: ElementState::Null, in_pipeline: false });
        let mut i: usize = 1;
        while i < size
            invariant
                1 <= i <= size,
                members.len() == i,
                links.len() == i - 1,
                forall|j: int|
                    0 <= j < members.len() ==> members[j] == (Member {
                        state: ElementState::Null,
                        in_pipeline: false,
                    }),
                forall|j: int| 0 <= j < links.len() ==> !links[j],
            decreases size - i,
        {
            members.push(Member { state: ElementState::Null, in_pipeline: false });
            links.push(false);
            i += 1;
        }
        let r = Branch {
            members,
            links,
            pad: TeePad { requested: true, blocked: false, joined: false },
            pipeline_state,
        };
        assert(r@ =~= fresh_branch(size as nat, pipeline_state));
        r
    }

    /// Enters a step that was carried out.
    pub fn apply(&mut self, step: BranchStep)
        requires
            old(self)@.wf(),
            old(self)@.fits(step),
        ensures
            final(self)@ == old(self)@.after(step),
            final(self)@.wf(),
    {
        match step {
            BranchStep::Block => {
                self.pad.blocked = true;
            },
            BranchStep::Unblock => {
                self.pad.blocked = false;
            },
            BranchStep::Add(i) => {
                let state = self.members[i].state;
                self.members.set(i, Member { state, in_pipeline: true });
            },
            BranchStep::Chain(i) => {
                self.links.set(i, true);
            },
            BranchStep::Unchain(i) => {
                self.links.set(i, false);
            },
            BranchStep::JoinTee => {
                self.pad.joined = true;
            },
            BranchStep::LeaveTee => {
                self.pad.joined = false;
            },
            BranchStep::Sync => {
                self.sync();
            },
            BranchStep::ReleasePad => {
                self.pad = TeePad { requested: false, blocked: false, joined: false };
            },
            BranchStep::Remove(i) => {
                let state = self.members[i].state;
                self.members.set(i, Member { state, in_pipeline: false });
                if i > 0 {
                    self.links.set(i - 1, false);
                } else {
                    self.pad.joined = false;
                }
                if i < self.links.len() {
                    self.links.set(i, false);
                }
                assert(self@.links =~= old(self)@.links_without(i as int));
            },
            BranchStep::SetNull(i) => {
                let in_pipeline = self.members[i].in_pipeline;
                self.members.set(i, Member { state: ElementState::Null, in_pipeline });
            },
        }
        assert(self@ =~= old(self)@.after(step));
    }

    fn sync(&mut self)
        requires
            old(self)@.wf(),
        ensures
            final(self)@ == old(self)@.after(BranchStep::Sync),
    {
        let state = self.pipeline_state;
        let mut i: usize = 0;
        let ghost before = self@;
        while i < self.members.len()
            invariant
                i <= self.members.len(),
                self.members.len() == before.members.len(),
                before == old(self)@,
                state == before.pipeline_state,
                self@.links == before.links,
                self@.pad == before.pad,
                self@.pipeline_state == before.pipeline_state,
                forall|j: int|
                    0 <= j < i ==> self.members[j] == before.after(BranchStep::Sync).members[j],
                forall|j: int| i <= j < self.members.len() ==> self.members[j] == before.members[j],
            decreases self.members.len() - i,
        {
            if self.members[i].in_pipeline {
                self.members.set(i, Member { state, in_pipeline: true });
            }
            i += 1;
        }
        assert(self@ =~= before.after(BranchStep::Sync));
    }
}

/// A branch of `size` fresh elements and a pad just requested from a tee.
pub open spec fn fresh_branch(size: nat, pipeline_state: ElementState) -> BranchView {
    BranchView {
        members: Seq::new(size, |j: int| Member { state: ElementState::Null, in_pipeline: false }),
        links: Seq::new((size - 1) as nat, |j: int| false),
        pad: TeePad { requested: true, blocked: false, joined: false },
        pipeline_state,
    }
}

/// What is undone when a branch could not be attached.
#[derive(Clone, Copy, Debug, PartialEq, Eq, Structural)]
pub enum Cleanup {
    /// Everything: the elements leave the pipeline and go to `Null`, however
    /// far they had come.
    Thorough,
    /// The links and the pad; elements that were all added leave the pipeline
    /// again. Their states are left alone, and so are elements that had been
    /// added when adding them failed.
    Plain,
}

pub open spec fn adds(n: nat) -> Seq<BranchStep> {
    Seq::new(n, |i: int| BranchStep::Add(i as usize))
}

pub open spec fn chains(n: nat) -> Seq<BranchStep> {
    Seq::new(n, |i: int| BranchStep::Chain(i as usize))
}

pub open spec fn unchains(n: nat) -> Seq<BranchStep> {
    Seq::new(n, |i: int| BranchStep::Unchain(i as usize))
}

pub open spec fn removes(n: nat) -> Seq<BranchStep> {
    Seq::new(n, |i: int| BranchStep::Remove(i as usize))
}

pub open spec fn nulls(n: nat) -> Seq<BranchStep> {
    Seq::new(n, |i: int| BranchStep::SetNull(i as usize))
}

/// How `n` elements are attached: data is held back, the elements are added
/// and linked, first to one another, then to the tee; they are brought to the
/// state of the pipeline, and data may pass.
pub open spec fn attach_steps(n: nat) -> Seq<BranchStep> {
    seq![BranchStep::Block] + adds(n) + chains((n - 1) as nat) + seq![
        BranchStep::JoinTee,
        BranchStep::Sync,
        BranchStep::Unblock,
    ]
}

/// What is undone after `failed` could not be carried out.
pub open spec fn cleanup_steps(n: nat, failed: BranchStep, cleanup: Cleanup) -> Seq<BranchStep> {
    let thorough = cleanup == Cleanup::Thorough;
    let release = seq![BranchStep::ReleasePad];
    let nulled = if thorough {
        nulls(n)
    } else {
        Seq::empty()
    };
    match failed {
        BranchStep::Block => release,
        BranchStep::Add(_) => if thorough {
            release + removes(n) + nulled
        } else {
            release
        },
        BranchStep::Chain(_) => release + removes(n) + nulled,
        BranchStep::JoinTee => unchains((n - 1) as nat) + release + removes(n) + nulled,
        _ => unchains((n - 1) as nat) + seq![BranchStep::LeaveTee] + release + removes(n) + nulled,
    }
}

/// How `n` elements are taken off: data is held back, the links are undone, the
/// pad is given back, the elements leave the pipeline and go to `Null`.
pub open spec fn detach_steps(n: nat) -> Seq<BranchStep> {
    seq![BranchStep::Block] + unchains((n - 1) as nat) + seq![
        BranchStep::LeaveTee,
        BranchStep::ReleasePad,
    ] + removes(n) + nulls(n)
}

/// What is left of a list once its leading removals are skipped: elements are
/// removed one after the other, and the first that cannot be ends it.
pub open spec fn past_removes(steps: Seq<BranchStep>) -> Seq<BranchStep>
    decreases steps.len(),
{
    if steps.len() > 0 && steps[0] is Remove {
        past_removes(steps.skip(1))
    } else {
        steps
    }
}

fn push_adds(steps: &mut Vec<BranchStep>, n: usize)
    ensures
        final(steps)@ == old(steps)@ + adds(n as nat),
{
    let mut i: usize = 0;
    assert(steps@ =~= old(steps)@ + adds(0));
    while i < n
        invariant
            i <= n,
            steps@ == old(steps)@ + adds(i as nat),
        decreases n - i,
    {
        steps.push(BranchStep::Add(i));
        i += 1;
        assert(steps@ =~= old(steps)@ + adds(i as nat));
    }
}

fn push_chains(steps: &mut Vec<BranchStep>, n: usize)
    ensures
        final(steps)@ == old(steps)@ + chains(n as nat),
{
    let mut i: usize = 0;
    assert(steps@ =~= old(steps)@ + chains(0));
    while i < n
        invariant
            i <= n,
            steps@ == old(steps)@ + chains(i as nat),
        decreases n - i,
    {
        steps.push(BranchStep::Chain(i));
        i += 1;
        assert(steps@ =~= old(steps)@ + chains(i as nat));
    }
}

fn push_unchains(steps: &mut Vec<BranchStep>, n: usize)
    ensures
        final(steps)@ == old(steps)@ + unchains(n as nat),
{
    let mut i: usize = 0;
    assert(steps@ =~= old(steps)@ + unchains(0));
    while i < n
        invariant
            i <= n,
            steps@ == old(steps)@ + unchains(i as nat),
        decreases n - i,
    {
        steps.push(BranchStep::Unchain(i));
        i += 1;
        assert(steps@ =~= old(steps)@ + unchains(i as nat));
    }
}

fn push_removes(steps: &mut Vec<BranchStep>, n: usize)
    ensures
        final(steps)@ == old(steps)@ + removes(n as nat),
{
    let mut i: usize = 0;
    assert(steps@ =~= old(steps)@ + removes(0));
    while i < n
        invariant
            i <= n,
            steps@ == old(steps)@ + removes(i as nat),
        decreases n - i,
    {
        steps.push(BranchStep::Remove(i));
        i += 1;
        assert(steps@ =~= old(steps)@ + removes(i as nat));
    }
}

fn push_nulls(steps: &mut Vec<BranchStep>, n: usize)
    ensures
        final(steps)@ == old(steps)@ + nulls(n as nat),
{
    let mut i: usize = 0;
    assert(steps@ =~= old(steps)@ + nulls(0));
    while i < n
        invariant
            i <= n,
            steps@ == old(steps)@ + nulls(i as nat),
        decreases n - i,
    {
        steps.push(BranchStep::SetNull(i));
        i += 1;
        assert(steps@ =~= old(steps)@ + nulls(i as nat));
    }
}

fn plan_attach(n: usize) -> (r: Vec<BranchStep>)
    requires
        n >= 1,
    ensures
        r@ == attach_steps(n as nat),
{
    let mut steps: Vec<BranchStep> = Vec::new();
    steps.push(BranchStep::Block);
    assert(steps@ =~= seq![BranchStep::Block]);
    push_adds(&mut steps, n);
    push_chains(&mut steps, n - 1);
    let ghost front = steps@;
    steps.push(BranchStep::JoinTee);
    steps.push(BranchStep::Sync);
    steps.push(BranchStep::Unblock);
    assert(steps@ =~= front + seq![BranchStep::JoinTee, BranchStep::Sync, BranchStep::Unblock]);
    steps
}

fn plan_cleanup(n: usize, failed: BranchStep, cleanup: Cleanup) -> (r: Vec<BranchStep>)
    requires
        n >= 1,
    ensures
        r@ == cleanup_steps(n as nat, failed, cleanup),
{
    let mut steps: Vec<BranchStep> = Vec::new();
    let thorough = cleanup == Cleanup::Thorough;
    let (unchain, leave, remove) = match failed {
        BranchStep::Block => (false, false, false),
        BranchStep::Add(_) => (false, false, thorough),
        BranchStep::Chain(_) => (false, false, true),
        BranchStep::JoinTee => (true, false, true),
        _ => (true, true, true),
    };
    if unchain {
        push_unchains(&mut steps, n - 1);
        assert(steps@ =~= unchains((n - 1) as nat));
    }
    if leave {
        let ghost front = steps@;
        steps.push(BranchStep::LeaveTee);
        assert(steps@ =~= front + seq![BranchStep::LeaveTee]);
    }
    let ghost front = steps@;
    steps.push(BranchStep::ReleasePad);
    assert(steps@ =~= front + seq![BranchStep::ReleasePad]);
    assert(!unchain ==> steps@ =~= seq![BranchStep::ReleasePad]);
    if remove {
        push_removes(&mut steps, n);
        let ghost emptied = steps@;
        if thorough {
            push_nulls(&mut steps, n);
        }
        assert(!thorough ==> steps@ =~= emptied + Seq::empty());
    }
    steps
}

fn plan_detach(n: usize) -> (r: Vec<BranchStep>)
    requires
        n >= 1,
    ensures
        r@ == detach_steps(n as nat),
{
    let mut steps: Vec<BranchStep> = Vec::new();
    steps.push(BranchStep::Block);
    assert(steps@ =~= seq![BranchStep::Block]);
    push_unchains(&mut steps, n - 1);
    let ghost front = steps@;
    steps.push(BranchStep::LeaveTee);
    steps.push(BranchStep::ReleasePad);
    assert(steps@ =~= front + seq![BranchStep::LeaveTee, BranchStep::ReleasePad]);
    push_removes(&mut steps, n);
    push_nulls(&mut steps, n);
    steps
}

/// What becomes of an element that could not be removed from the pipeline while a
/// branch is taken off.
#[derive(Clone, Copy, Debug, PartialEq, Eq, Structural)]
pub enum Removal {
    /// The work counts as failed.
    Demanded,
    /// It is passed over.
    Tried,
}

/// What a piece of work is about.
#[derive(Clone, Copy, Debug, PartialEq, Eq, Structural)]
pub enum WorkKind {
    Attach(Cleanup),
    /// Undoing a failed attachment.
    Undo,
    Detach(Removal),
}

/// A piece of work on a branch: what is left to do, and what failed first.
pub struct BranchWork {
    pub kind: WorkKind,
    pub size: usize,
    pub steps: Vec<BranchStep>,
    pub position: usize,
    pub failed: Option<BranchStep>,
}

impl BranchWork {
    pub open spec fn wf(self) -> bool {
        self.size >= 1 && self.position <= self.steps@.len()
    }

    pub open spec fn remaining(self) -> Seq<BranchStep> {
        self.steps@.skip(self.position as int)
    }

    /// Attaching a branch of `size` elements: `link_sink_to_tee`.
    pub fn attach(size: usize, cleanup: Cleanup) -> (r: BranchWork)
        requires
            size >= 1,
        ensures
            r.wf(),
            r.kind == WorkKind::Attach(cleanup),
            r.size == size,
            r.failed is None,
            r.remaining() == attach_steps(size as nat),
    {
        let steps = plan_attach(size);
        let r = BranchWork {
            kind: WorkKind::Attach(cleanup),
            size,
            steps,
            position: 0,
            failed: None,
        };
        assert(r.remaining() =~= r.steps@);
        r
    }

    /// Taking a branch of `size` elements off: `unlink_sink_from_tee`.
    pub fn detach(size: usize, removal: Removal) -> (r: BranchWork)
        requires
            size >= 1,
        ensures
            r.wf(),
            r.kind == WorkKind::Detach(removal),
            r.size == size,
            r.failed is None,
            r.remaining() == detach_steps(size as nat),
    {
        let steps = plan_detach(size);
        let r = BranchWork {
            kind: WorkKind::Detach(removal),
            size,
            steps,
            position: 0,
            failed: None,
        };
        assert(r.remaining() =~= r.steps@);
        r
    }

    /// The step to carry out next, if any is left.
    pub fn next_step(&self) -> (r: Option<BranchStep>)
        requires
            self.wf(),
        ensures
            self.remaining().len() == 0 ==> r is None,
            self.remaining().len() > 0 ==> r == Some(self.remaining()[0]),
    {
        if self.position < self.steps.len() {
            Some(self.steps[self.position])
        } else {
            None
        }
    }

    /// What is left and what has failed, once the next step has gone well or
    /// not. A failure while attaching turns the work into undoing it. While
    /// undoing, failures are passed over; while detaching too, but that an
    /// element could not be removed is remembered where it is demanded.
    pub open spec fn progress(self, ok: bool) -> (WorkKind, Seq<BranchStep>, Option<BranchStep>) {
        let step = self.remaining()[0];
        let rest = self.remaining().skip(1);
        if ok {
            (self.kind, rest, self.failed)
        } else {
            match self.kind {
                WorkKind::Attach(cleanup) => (
                    WorkKind::Undo,
                    cleanup_steps(self.size as nat, step, cleanup),
                    Some(step),
                ),
                WorkKind::Undo => (self.kind, past_removes_after(step, rest), self.failed),
                WorkKind::Detach(removal) => (
                    self.kind,
                    past_removes_after(step, rest),
                    if step is Remove && removal == Removal::Demanded && self.failed is None {
                        Some(step)
                    } else {
                        self.failed
                    },
                ),
            }
        }
    }

    /// Notes how the next step went.
    pub fn report(&mut self, ok: bool)
        requires
            old(self).wf(),
            old(self).remaining().len() > 0,
        ensures
            final(self).wf(),
            final(self).size == old(self).size,
            (final(self).kind, final(self).remaining(), final(self).failed) == old(self).progress(
                ok,
            ),
    {
        assert(self.position < self.steps.len());
        let step = self.steps[self.position];
        assert(step == self.remaining()[0]);
        if ok {
            self.position = self.position + 1;
            assert(self.remaining() =~= old(self).remaining().skip(1));
            return;
        }
        match self.kind {
            WorkKind::Attach(cleanup) => {
                self.steps = plan_cleanup(self.size, step, cleanup);
                self.position = 0;
                self.kind = WorkKind::Undo;
                self.failed = Some(step);
                assert(self.remaining() =~= self.steps@);
            },
            WorkKind::Undo => {
                self.pass(step);
            },
            WorkKind::Detach(removal) => {
                let is_removal = match step {
                    BranchStep::Remove(_) => true,
                    _ => false,
                };
                if is_removal && removal == Removal::Demanded && self.failed.is_none() {
                    self.failed = Some(step);
                }
                self.pass(step);
            },
        }
    }

    fn pass(&mut self, step: BranchStep)
        requires
            old(self).wf(),
            old(self).remaining().len() > 0,
            step == old(self).remaining()[0],
        ensures
            final(self).wf(),
            final(self).kind == old(self).kind,
            final(self).size == old(self).size,
            final(self).failed == old(self).failed,
            final(self).remaining() == past_removes_after(step, old(self).remaining().skip(1)),
    {
        assert(self.position < self.steps.len());
        self.position = self.position + 1;
        assert(self.remaining() =~= old(self).remaining().skip(1));
        let removal = match step {
            BranchStep::Remove(_) => true,
            _ => false,
        };
        if removal {
            self.pass_removes();
        }
    }

    fn pass_removes(&mut self)
        requires
            old(self).wf(),
        ensures
            final(self).wf(),
            final(self).kind == old(self).kind,
            final(self).size == old(self).size,
            final(self).failed == old(self).failed,
            final(self).remaining() == past_removes(old(self).remaining()),
    {
        loop
            invariant
                self.wf(),
                self.kind == old(self).kind,
                self.size == old(self).size,
                self.failed == old(self).failed,
                self.steps@ == old(self).steps@,
                past_removes(self.remaining()) == past_removes(old(self).remaining()),
            ensures
                self.wf(),
                self.kind == old(self).kind,
                self.size == old(self).size,
                self.failed == old(self).failed,
                self.remaining() == past_removes(old(self).remaining()),
            decreases self.steps@.len() - self.position,
        {
            if self.position >= self.steps.len() {
                break;
            }
            let removal = match self.steps[self.position] {
                BranchStep::Remove(_) => true,
                _ => false,
            };
            assert(self.remaining()[0] == self.steps@[self.position as int]);
            if !removal {
                break;
            }
            assert(self.remaining().skip(1) =~= self.steps@.skip(self.position + 1));
            self.position = self.position + 1;
        }
    }

    /// How the work ended, once nothing is left: the step that failed, if one
    /// did.
    pub fn outcome(&self) -> (r: Option<Result<(), BranchStep>>)
        requires
            self.wf(),
        ensures
            r is Some <==> self.remaining().len() == 0,
            r is Some ==> r->0 == (match self.failed {
                Some(step) => Err::<(), BranchStep>(step),
                None => Ok::<(), BranchStep>(()),
            }),
    {
        if self.position < self.steps.len() {
            return None;
        }
        match self.failed {
            Some(step) => Some(Err(step)),
            None => Some(Ok(())),
        }
    }
}

/// What is left after a step that failed: a removal ends the removals.
pub open spec fn past_removes_after(step: BranchStep, rest: Seq<BranchStep>) -> Seq<BranchStep> {
    if step is Remove {
        past_removes(rest)
    } else {
        rest
    }
}

/// A branch in place: every element in the pipeline and in its state, everything
/// linked, data passing.
pub open spec fn attached_branch(n: nat, pipeline_state: ElementState) -> BranchView {
    BranchView {
        members: Seq::new(n, |j: int| Member { state: pipeline_state, in_pipeline: true }),
        links: Seq::new((n - 1) as nat, |j: int| true),
        pad: TeePad { requested: true, blocked: false, joined: true },
        pipeline_state,
    }
}

/// A branch that has left no trace: every element out of the pipeline and in
/// `Null`, nothing linked, the pad given back.
pub open spec fn detached_branch(n: nat, pipeline_state: ElementState) -> BranchView {
    BranchView {
        members: Seq::new(n, |j: int| Member { state: ElementState::Null, in_pipeline: false }),
        links: Seq::new((n - 1) as nat, |j: int| false),
        pad: TeePad { requested: false, blocked: false, joined: false },
        pipeline_state,
    }
}

proof fn after_all_in_parts(b: BranchView, s: Seq<BranchStep>, t: Seq<BranchStep>)
    ensures
        b.after_all(s + t) == b.after_all(s).after_all(t),
    decreases t.len(),
{
    if t.len() == 0 {
        assert(s + t =~= s);
    } else {
        assert((s + t).drop_last() =~= s + t.drop_last());
        assert((s + t).last() == t.last());
        after_all_in_parts(b, s, t.drop_last());
    }
}

proof fn after_one(b: BranchView, step: BranchStep)
    ensures
        b.after_all(seq![step]) == b.after(step),
{
    assert(seq![step].drop_last() =~= Seq::<BranchStep>::empty());
    assert(b.after_all(Seq::<BranchStep>::empty()) == b);
}

/// Every step of the list names elements that the branch has.
spec fn all_fit(b: BranchView, steps: Seq<BranchStep>) -> bool {
    forall|i: int| 0 <= i < steps.len() ==> b.fits(#[trigger] steps[i])
}

proof fn shape_is_kept(b: BranchView, steps: Seq<BranchStep>)
    requires
        b.wf(),
        all_fit(b, steps),
    ensures
        b.after_all(steps).wf(),
        b.after_all(steps).members.len() == b.members.len(),
        b.after_all(steps).links.len() == b.links.len(),
        b.after_all(steps).pipeline_state == b.pipeline_state,
    decreases steps.len(),
{
    if steps.len() > 0 {
        let before = steps.drop_last();
        assert forall|i: int| 0 <= i < before.len() implies b.fits(#[trigger] before[i]) by {
            assert(before[i] == steps[i]);
        }
        shape_is_kept(b, before);
        assert(b.fits(steps[steps.len() - 1]));
    }
}

/// Without a step that brings elements to the pipeline's state, elements in
/// `Null` stay there.
proof fn null_is_kept(b: BranchView, steps: Seq<BranchStep>)
    requires
        b.wf(),
        all_fit(b, steps),
        forall|i: int| 0 <= i < steps.len() ==> #[trigger] steps[i] != BranchStep::Sync,
        forall|i: int|
            0 <= i < b.members.len() ==> (#[trigger] b.members[i]).state == ElementState::Null,
    ensures
        forall|i: int|
            0 <= i < b.members.len() ==> (#[trigger] b.after_all(steps).members[i]).state
                == ElementState::Null,
    decreases steps.len(),
{
    if steps.len() > 0 {
        let before = steps.drop_last();
        assert forall|i: int| 0 <= i < before.len() implies b.fits(#[trigger] before[i])
            && before[i] != BranchStep::Sync by {
            assert(before[i] == steps[i]);
        }
        shape_is_kept(b, before);
        null_is_kept(b, before);
        assert(b.fits(steps[steps.len() - 1]));
        assert(steps[steps.len() - 1] != BranchStep::Sync);
    }
}

proof fn effect_of_adds(b: BranchView, n: nat)
    requires
        n <= b.members.len() <= usize::MAX,
    ensures
        b.after_all(adds(n)) == (BranchView {
            members: Seq::new(
                b.members.len(),
                |j: int|
                    if j < n {
                        Member { in_pipeline: true, ..b.members[j] }
                    } else {
                        b.members[j]
                    },
            ),
            ..b
        }),
    decreases n,
{
    if n > 0 {
        effect_of_adds(b, (n - 1) as nat);
        assert(adds(n).drop_last() =~= adds((n - 1) as nat));
    }
    assert(b.after_all(adds(n)).members =~= Seq::new(
        b.members.len(),
        |j: int|
            if j < n {
                Member { in_pipeline: true, ..b.members[j] }
            } else {
                b.members[j]
            },
    ));
}

proof fn effect_of_chains(b: BranchView, n: nat)
    requires
        n <= b.links.len() <= usize::MAX,
    ensures
        b.after_all(chains(n)) == (BranchView {
            links: Seq::new(b.links.len(), |j: int| j < n || b.links[j]),
            ..b
        }),
    decreases n,
{
    if n > 0 {
        effect_of_chains(b, (n - 1) as nat);
        assert(chains(n).drop_last() =~= chains((n - 1) as nat));
    }
    assert(b.after_all(chains(n)).links =~= Seq::new(
        b.links.len(),
        |j: int| j < n || b.links[j],
    ));
}

proof fn effect_of_unchains(b: BranchView, n: nat)
    requires
        n <= b.links.len() <= usize::MAX,
    ensures
        b.after_all(unchains(n)) == (BranchView {
            links: Seq::new(b.links.len(), |j: int| j >= n && b.links[j]),
            ..b
        }),
    decreases n,
{
    if n > 0 {
        effect_of_unchains(b, (n - 1) as nat);
        assert(unchains(n).drop_last() =~= unchains((n - 1) as nat));
    }
    assert(b.after_all(unchains(n)).links =~= Seq::new(
        b.links.len(),
        |j: int| j >= n && b.links[j],
    ));
}

proof fn effect_of_removes(b: BranchView, n: nat)
    requires
        b.wf(),
        n <= b.members.len() <= usize::MAX,
    ensures
        b.after_all(removes(n)) == (BranchView {
            members: Seq::new(
                b.members.len(),
                |j: int|
                    if j < n {
                        Member { in_pipeline: false, ..b.members[j] }
                    } else {
                        b.members[j]
                    },
            ),
            links: Seq::new(b.links.len(), |j: int| j >= n && b.links[j]),
            pad: TeePad { joined: b.pad.joined && n == 0, ..b.pad },
            ..b
        }),
    decreases n,
{
    if n > 0 {
        effect_of_removes(b, (n - 1) as nat);
        assert(removes(n).drop_last() =~= removes((n - 1) as nat));
    }
    let after = b.after_all(removes(n));
    assert(after.members =~= Seq::new(
        b.members.len(),
        |j: int|
            if j < n {
                Member { in_pipeline: false, ..b.members[j] }
            } else {
                b.members[j]
            },
    ));
    assert(after.links =~= Seq::new(b.links.len(), |j: int| j >= n && b.links[j]));
}

proof fn effect_of_nulls(b: BranchView, n: nat)
    requires
        n <= b.members.len() <= usize::MAX,
    ensures
        b.after_all(nulls(n)) == (BranchView {
            members: Seq::new(
                b.members.len(),
                |j: int|
                    if j < n {
                        Member { state: ElementState::Null, ..b.members[j] }
                    } else {
                        b.members[j]
                    },
            ),
            ..b
        }),
    decreases n,
{
    if n > 0 {
        effect_of_nulls(b, (n - 1) as nat);
        assert(nulls(n).drop_last() =~= nulls((n - 1) as nat));
    }
    assert(b.after_all(nulls(n)).members =~= Seq::new(
        b.members.len(),
        |j: int|
            if j < n {
                Member { state: ElementState::Null, ..b.members[j] }
            } else {
                b.members[j]
            },
    ));
}

/// Releasing the pad, removing and nulling leaves no trace of a branch, however
/// it stood.
proof fn effect_of_clearing(b: BranchView, n: nat)
    requires
        b.wf(),
        n == b.members.len(),
        n <= usize::MAX,
    ensures
        b.after_all(seq![BranchStep::ReleasePad] + removes(n) + nulls(n)) == detached_branch(
            n,
            b.pipeline_state,
        ),
        (forall|i: int|
            0 <= i < n ==> (#[trigger] b.members[i]).state == ElementState::Null) ==> b.after_all(
            seq![BranchStep::ReleasePad] + removes(n),
        ) == detached_branch(n, b.pipeline_state),
{
    let release = seq![BranchStep::ReleasePad];
    after_all_in_parts(b, release, removes(n));
    after_all_in_parts(b, release + removes(n), nulls(n));
    after_one(b, BranchStep::ReleasePad);
    let released = b.after(BranchStep::ReleasePad);
    effect_of_removes(released, n);
    let removed = released.after_all(removes(n));
    effect_of_nulls(removed, n);
    assert(removed.after_all(nulls(n)) =~= detached_branch(n, b.pipeline_state));
    if forall|i: int| 0 <= i < n ==> (#[trigger] b.members[i]).state == ElementState::Null {
        assert(removed =~= detached_branch(n, b.pipeline_state));
    }
}

/// Where every step goes well, a fresh branch ends up in place.
pub proof fn attaching_puts_a_branch_in_place(n: usize, pipeline_state: ElementState)
    requires
        n >= 1,
    ensures
        fresh_branch(n as nat, pipeline_state).after_all(attach_steps(n as nat))
            == attached_branch(n as nat, pipeline_state),
{
    let b = fresh_branch(n as nat, pipeline_state);
    let block = seq![BranchStep::Block];
    let a = adds(n as nat);
    let c = chains((n - 1) as nat);
    let last = seq![BranchStep::JoinTee, BranchStep::Sync, BranchStep::Unblock];
    after_all_in_parts(b, block, a);
    after_all_in_parts(b, block + a, c);
    after_all_in_parts(b, block + a + c, last);
    after_one(b, BranchStep::Block);
    let blocked = b.after(BranchStep::Block);
    effect_of_adds(blocked, n as nat);
    let added = blocked.after_all(a);
    effect_of_chains(added, (n - 1) as nat);
    let chained = added.after_all(c);
    assert(last.drop_last() =~= seq![BranchStep::JoinTee, BranchStep::Sync]);
    assert(last.drop_last().drop_last() =~= seq![BranchStep::JoinTee]);
    after_one(chained, BranchStep::JoinTee);
    assert(chained.after_all(last) == chained.after(BranchStep::JoinTee).after(
        BranchStep::Sync,
    ).after(BranchStep::Unblock)) by {
        reveal_with_fuel(BranchView::after_all, 4);
    }
    assert(chained.after_all(last) =~= attached_branch(n as nat, pipeline_state));
}

/// A branch that was in place and was taken off has left no trace: every element
/// is out of the pipeline and in `Null`, though removing an element leaves its
/// state alone.
pub proof fn detaching_undoes_attaching(n: usize, pipeline_state: ElementState)
    requires
        n >= 1,
    ensures
        attached_branch(n as nat, pipeline_state).after_all(detach_steps(n as nat))
            == detached_branch(n as nat, pipeline_state),
{
    let b = attached_branch(n as nat, pipeline_state);
    let block = seq![BranchStep::Block];
    let u = unchains((n - 1) as nat);
    let leave = seq![BranchStep::LeaveTee];
    let release = seq![BranchStep::ReleasePad];
    let r = removes(n as nat);
    let z = nulls(n as nat);
    let front = block + u + leave;
    assert(detach_steps(n as nat) =~= front + (release + r + z));
    after_all_in_parts(b, front, release + r + z);
    assert forall|i: int| 0 <= i < front.len() implies b.fits(#[trigger] front[i]) by {}
    shape_is_kept(b, front);
    effect_of_clearing(b.after_all(front), n as nat);
}

/// Removing an element leaves its state as it was.
pub proof fn removing_keeps_the_state(b: BranchView, i: usize)
    requires
        i < b.members.len(),
    ensures
        b.after(BranchStep::Remove(i)).members[i as int].state == b.members[i as int].state,
        !b.after(BranchStep::Remove(i)).members[i as int].in_pipeline,
{
}

proof fn attach_steps_fit(n: usize, pipeline_state: ElementState, k: int)
    requires
        n >= 1,
        0 <= k < attach_steps(n as nat).len(),
    ensures
        all_fit(fresh_branch(n as nat, pipeline_state), attach_steps(n as nat).take(k)),
        attach_steps(n as nat)[k] != BranchStep::Unblock ==> forall|i: int|
            0 <= i < k ==> #[trigger] attach_steps(n as nat).take(k)[i] != BranchStep::Sync,
{
    let steps = attach_steps(n as nat);
    let b = fresh_branch(n as nat, pipeline_state);
    assert forall|i: int| 0 <= i < k implies b.fits(#[trigger] steps.take(k)[i]) by {
        assert(steps.take(k)[i] == steps[i]);
    }
    assert(steps[2 * n + 1] == BranchStep::Sync);
    assert(steps[2 * n + 2] == BranchStep::Unblock);
    assert(steps.len() == 2 * n + 3);
}

/// Whichever step of attaching a fresh branch fails, a thorough cleanup leaves
/// no trace of it.
pub proof fn failed_attachment_leaves_no_trace(n: usize, pipeline_state: ElementState, k: int)
    requires
        n >= 1,
        0 <= k < attach_steps(n as nat).len(),
    ensures
        fresh_branch(n as nat, pipeline_state).after_all(attach_steps(n as nat).take(k)).after_all(
            cleanup_steps(n as nat, attach_steps(n as nat)[k], Cleanup::Thorough),
        ) == detached_branch(n as nat, pipeline_state),
{
    let b = fresh_branch(n as nat, pipeline_state);
    let steps = attach_steps(n as nat);
    let failed = steps[k];
    attach_steps_fit(n, pipeline_state, k);
    shape_is_kept(b, steps.take(k));
    let stood = b.after_all(steps.take(k));
    let u = unchains((n - 1) as nat);
    let leave = seq![BranchStep::LeaveTee];
    let clear = seq![BranchStep::ReleasePad] + removes(n as nat) + nulls(n as nat);
    let cleanup = cleanup_steps(n as nat, failed, Cleanup::Thorough);
    match failed {
        BranchStep::Block => {
            assert(k == 0);
            assert(steps.take(k) =~= Seq::<BranchStep>::empty());
            after_one(b, BranchStep::ReleasePad);
            assert(b.after(BranchStep::ReleasePad) =~= detached_branch(n as nat, pipeline_state));
        },
        BranchStep::Add(_) => {
            effect_of_clearing(stood, n as nat);
        },
        BranchStep::Chain(_) => {
            effect_of_clearing(stood, n as nat);
        },
        BranchStep::JoinTee => {
            assert(cleanup =~= u + clear);
            after_all_in_parts(stood, u, clear);
            assert forall|i: int| 0 <= i < u.len() implies stood.fits(#[trigger] u[i]) by {}
            shape_is_kept(stood, u);
            effect_of_clearing(stood.after_all(u), n as nat);
        },
        _ => {
            assert(cleanup =~= (u + leave) + clear);
            after_all_in_parts(stood, u + leave, clear);
            assert forall|i: int| 0 <= i < (u + leave).len() implies stood.fits(
                #[trigger] (u + leave)[i],
            ) by {}
            shape_is_kept(stood, u + leave);
            effect_of_clearing(stood.after_all(u + leave), n as nat);
        },
    }
}

/// Where the failure does not come while elements are being added, a plain
/// cleanup leaves no trace of a fresh branch either: its elements had not left
/// `Null` yet.
pub proof fn plain_cleanup_after_linking_leaves_no_trace(
    n: usize,
    pipeline_state: ElementState,
    k: int,
)
    requires
        n >= 1,
        0 <= k < attach_steps(n as nat).len() - 1,
        !(attach_steps(n as nat)[k] is Add),
    ensures
        fresh_branch(n as nat, pipeline_state).after_all(attach_steps(n as nat).take(k)).after_all(
            cleanup_steps(n as nat, attach_steps(n as nat)[k], Cleanup::Plain),
        ) == detached_branch(n as nat, pipeline_state),
{
    let b = fresh_branch(n as nat, pipeline_state);
    let steps = attach_steps(n as nat);
    let failed = steps[k];
    attach_steps_fit(n, pipeline_state, k);
    shape_is_kept(b, steps.take(k));
    null_is_kept(b, steps.take(k));
    let stood = b.after_all(steps.take(k));
    let u = unchains((n - 1) as nat);
    let leave = seq![BranchStep::LeaveTee];
    let clear = seq![BranchStep::ReleasePad] + removes(n as nat);
    let cleanup = cleanup_steps(n as nat, failed, Cleanup::Plain);
    match failed {
        BranchStep::Block => {
            assert(steps.take(k) =~= Seq::<BranchStep>::empty());
            after_one(b, BranchStep::ReleasePad);
            assert(b.after(BranchStep::ReleasePad) =~= detached_branch(n as nat, pipeline_state));
        },
        BranchStep::Chain(_) => {
            assert(cleanup =~= clear);
            effect_of_clearing(stood, n as nat);
        },
        BranchStep::JoinTee => {
            assert(cleanup =~= u + clear);
            after_all_in_parts(stood, u, clear);
            assert forall|i: int| 0 <= i < u.len() implies stood.fits(#[trigger] u[i]) by {}
            shape_is_kept(stood, u);
            null_is_kept(stood, u);
            effect_of_clearing(stood.after_all(u), n as nat);
        },
        _ => {
            assert(cleanup =~= (u + leave) + clear);
            after_all_in_parts(stood, u + leave, clear);
            assert forall|i: int| 0 <= i < (u + leave).len() implies stood.fits(
                #[trigger] (u + leave)[i],
            ) by {}
            shape_is_kept(stood, u + leave);
            null_is_kept(stood, u + leave);
            effect_of_clearing(stood.after_all(u + leave), n as nat);
        },
    }
}

proof fn past_removes_keeps_nulls(steps: Seq<BranchStep>, i: usize)
    requires
        steps.contains(BranchStep::SetNull(i)),
    ensures
        past_removes(steps).contains(BranchStep::SetNull(i)),
    decreases steps.len(),
{
    if steps.len() > 0 && steps[0] is Remove {
        let at = choose|j: int| 0 <= j < steps.len() && steps[j] == BranchStep::SetNull(i);
        assert(steps.skip(1)[at - 1] == BranchStep::SetNull(i));
        past_removes_keeps_nulls(steps.skip(1), i);
    }
}

/// Taking a branch off whose removals are only tried never fails, whatever goes
/// wrong.
pub proof fn tried_removals_never_fail_the_work(work: BranchWork, ok: bool)
    requires
        work.kind == WorkKind::Detach(Removal::Tried),
        work.failed is None,
    ensures
        work.progress(ok).0 == work.kind,
        work.progress(ok).2 is None,
{
}

/// Once a branch is being detached or an attachment undone, every element is
/// still brought to `Null`, whatever else fails: a step that does so stays on
/// the list until its turn has come.
pub proof fn nulling_is_never_skipped(work: BranchWork, ok: bool, i: usize)
    requires
        !(work.kind is Attach),
        work.remaining().contains(BranchStep::SetNull(i)),
        work.remaining()[0] != BranchStep::SetNull(i),
    ensures
        work.progress(ok).1.contains(BranchStep::SetNull(i)),
{
    let steps = work.remaining();
    let at = choose|j: int| 0 <= j < steps.len() && steps[j] == BranchStep::SetNull(i);
    assert(steps.skip(1)[at - 1] == BranchStep::SetNull(i));
    past_removes_keeps_nulls(steps.skip(1), i);
}

/// A branch is attached in this order: data is held back first; then every element is
/// put into the pipeline, each is linked to the next, and the first to the tee; all of
/// them are brought to the state of the pipeline; and data passes last.
pub proof fn branches_are_attached_in_order(n: usize, i: int)
    requires
        n >= 1,
    ensures
        ({
            let steps = attach_steps(n as nat);
            &&& steps.len() == 2 * n + 3
            &&& steps[0] == BranchStep::Block
            &&& 0 <= i < n ==> steps[1 + i] == BranchStep::Add(i as usize)
            &&& 0 <= i < n - 1 ==> steps[1 + n + i] == BranchStep::Chain(i as usize)
            &&& steps[2 * n] == BranchStep::JoinTee
            &&& steps[2 * n + 1] == BranchStep::Sync
            &&& steps[2 * n + 2] == BranchStep::Unblock
        }),
{
}

/// A branch is taken off in this order: data is held back first; the links between
/// the elements and the one to the tee are undone, the pad is given back; then every
/// element leaves the pipeline, and every one goes to `Null`.
pub proof fn branches_are_taken_off_in_order(n: usize, i: int)
    requires
        n >= 1,
    ensures
        ({
            let steps = detach_steps(n as nat);
            &&& steps.len() == 3 * n + 2
            &&& steps[0] == BranchStep::Block
            &&& 0 <= i < n - 1 ==> steps[1 + i] == BranchStep::Unchain(i as usize)
            &&& steps[n as int] == BranchStep::LeaveTee
            &&& steps[n + 1] == BranchStep::ReleasePad
            &&& 0 <= i < n ==> steps[n + 2 + i] == BranchStep::Remove(i as usize)
            &&& 0 <= i < n ==> steps[2 * n + 2 + i] == BranchStep::SetNull(i as usize)
        }),
{
}

/// Whatever failed while a branch was attached, its pad is given back. The link to the
/// tee is undone where there was one, those between the elements where all were made,
/// the elements leave the pipeline where they were all in it, or in any case where the
/// cleanup is thorough, and then they go to `Null` too; nothing at all had been done
/// where data could not be held back.
pub proof fn failures_are_cleaned_up_after(
    n: nat,
    failed: BranchStep,
    cleanup: Cleanup,
    i: usize,
)
    requires
        1 <= n <= usize::MAX,
        failed is Block || failed is Add || failed is Chain || failed is JoinTee || failed is Sync
            || failed is Unblock,
    ensures
        ({
            let steps = cleanup_steps(n, failed, cleanup);
            let thorough = cleanup == Cleanup::Thorough;
            let linked = failed is JoinTee || failed is Sync || failed is Unblock;
            let added = !(failed is Block) && (thorough || !(failed is Add));
            &&& steps.contains(BranchStep::ReleasePad)
            &&& steps.contains(BranchStep::LeaveTee) <==> failed is Sync || failed is Unblock
            &&& steps.contains(BranchStep::Unchain(i)) <==> linked && i < n - 1
            &&& steps.contains(BranchStep::Remove(i)) <==> added && i < n
            &&& steps.contains(BranchStep::SetNull(i)) <==> thorough && !(failed is Block) && i < n
            &&& !steps.contains(BranchStep::Block)
            &&& !steps.contains(BranchStep::Add(i)) && !steps.contains(BranchStep::Chain(i))
            &&& !steps.contains(BranchStep::JoinTee) && !steps.contains(BranchStep::Sync)
                && !steps.contains(BranchStep::Unblock)
        }),
{
    let steps = cleanup_steps(n, failed, cleanup);
    let thorough = cleanup == Cleanup::Thorough;
    let linked = failed is JoinTee || failed is Sync || failed is Unblock;
    let left = failed is Sync || failed is Unblock;
    let added = !(failed is Block) && (thorough || !(failed is Add));
    let u: int = if linked {
        n - 1
    } else {
        0
    };
    let l: int = if left {
        1
    } else {
        0
    };
    let r: int = if added {
        n as int
    } else {
        0
    };
    let z: int = if thorough && !(failed is Block) {
        n as int
    } else {
        0
    };
    assert(steps.len() == u + l + 1 + r + z);
    assert(steps[u + l] == BranchStep::ReleasePad);
    if left {
        assert(steps[u] == BranchStep::LeaveTee);
    }
    assert forall|j: int| 0 <= j < steps.len() implies #[trigger] steps[j] == (if j < u {
        BranchStep::Unchain(j as usize)
    } else if j < u + l {
        BranchStep::LeaveTee
    } else if j == u + l {
        BranchStep::ReleasePad
    } else if j < u + l + 1 + r {
        BranchStep::Remove((j - u - l - 1) as usize)
    } else {
        BranchStep::SetNull((j - u - l - 1 - r) as usize)
    }) by {}
    if i < u {
        assert(steps[i as int] == BranchStep::Unchain(i));
    }
    if i < r {
        assert(steps[u + l + 1 + i] == BranchStep::Remove(i));
    }
    if i < z {
        assert(steps[u + l + 1 + r + i] == BranchStep::SetNull(i));
    }
}

/// A removal that failed ends the removals, and nothing else: what is left begins with
/// the first step that is no removal.
pub proof fn only_removals_are_passed(steps: Seq<BranchStep>) -> (m: int)
    ensures
        0 <= m <= steps.len(),
        past_removes(steps) == steps.skip(m),
        forall|j: int| 0 <= j < m ==> (#[trigger] steps[j]) is Remove,
        m < steps.len() ==> !(steps[m] is Remove),
    decreases steps.len(),
{
    if steps.len() > 0 && steps[0] is Remove {
        let rest = steps.skip(1);
        let m = only_removals_are_passed(rest);
        assert(rest.skip(m) =~= steps.skip(m + 1));
        assert forall|j: int| 0 <= j < m + 1 implies (#[trigger] steps[j]) is Remove by {
            if j > 0 {
                assert(rest[j - 1] is Remove);
            }
        }
        if m + 1 < steps.len() {
            assert(steps[m + 1] == rest[m]);
        }
        m + 1
    } else {
        assert(steps.skip(0) =~= steps);
        0
    }
}

/// Work goes on step by step as long as all goes well. A failure while attaching turns
/// it into undoing, with that step as what failed. Failures while undoing or taking off
/// are passed over, but that an element could not be removed where that is demanded
/// counts as the failure, unless there was one.
pub proof fn failures_of_work_are_kept(work: BranchWork, ok: bool)
    requires
        work.remaining().len() > 0,
    ensures
        ({
            let step = work.remaining()[0];
            let (kind, rest, failed) = work.progress(ok);
            &&& ok ==> kind == work.kind && rest == work.remaining().skip(1) && failed
                == work.failed
            &&& !ok && work.kind is Attach ==> kind == WorkKind::Undo && failed == Some(step)
                && rest == cleanup_steps(work.size as nat, step, work.kind->Attach_0)
            &&& !ok && !(work.kind is Attach) ==> kind == work.kind
            &&& !ok && !(work.kind is Attach) && !(step is Remove) ==> rest
                == work.remaining().skip(1) && failed == work.failed
            &&& !ok && !(work.kind is Attach) && step is Remove ==> rest == past_removes(
                work.remaining().skip(1),
            )
            &&& !ok && step is Remove && work.kind == WorkKind::Detach(Removal::Demanded) ==> failed
                == Some(
                if work.failed is Some {
                    work.failed->0
                } else {
                    step
                },
            )
            &&& !ok && step is Remove && (work.kind == WorkKind::Undo || work.kind
                == WorkKind::Detach(Removal::Tried)) ==> failed == work.failed
        }),
{
}

/// A step does what it says and touches nothing else.
pub proof fn steps_do_what_they_say(b: BranchView, i: usize)
    requires
        b.wf(),
        i < b.members.len(),
    ensures
        b.after(BranchStep::Block) == (BranchView { pad: TeePad { blocked: true, ..b.pad }, ..b }),
        b.after(BranchStep::Unblock) == (BranchView {
            pad: TeePad { blocked: false, ..b.pad },
            ..b
        }),
        b.after(BranchStep::JoinTee) == (BranchView { pad: TeePad { joined: true, ..b.pad }, ..b }),
        b.after(BranchStep::LeaveTee) == (BranchView {
            pad: TeePad { joined: false, ..b.pad },
            ..b
        }),
        !b.after(BranchStep::ReleasePad).pad.requested,
        !b.after(BranchStep::ReleasePad).pad.joined,
        b.after(BranchStep::ReleasePad).members == b.members,
        b.after(BranchStep::ReleasePad).links == b.links,
        b.after(BranchStep::Add(i)).members[i as int].in_pipeline,
        b.after(BranchStep::Add(i)).members[i as int].state == b.members[i as int].state,
        b.after(BranchStep::SetNull(i)).members[i as int].state == ElementState::Null,
        b.after(BranchStep::SetNull(i)).members[i as int].in_pipeline
            == b.members[i as int].in_pipeline,
        b.members[i as int].in_pipeline ==> b.after(BranchStep::Sync).members[i as int].state
            == b.pipeline_state,
        !b.members[i as int].in_pipeline ==> b.after(BranchStep::Sync).members[i as int]
            == b.members[i as int],
        i < b.links.len() ==> b.after(BranchStep::Chain(i)).links[i as int] && !b.after(
            BranchStep::Unchain(i),
        ).links[i as int],
{
}

/// A fresh branch has elements in `Null` that are in no pipeline and linked to nothing,
/// and a pad that was asked for and does nothing yet.
pub proof fn branches_begin_apart(size: nat, pipeline_state: ElementState, i: int)
    requires
        size >= 1,
    ensures
        ({
            let branch = fresh_branch(size, pipeline_state);
            &&& branch.members.len() == size && branch.links.len() == size - 1
            &&& 0 <= i < size ==> branch.members[i].state == ElementState::Null
                && !branch.members[i].in_pipeline
            &&& 0 <= i < size - 1 ==> !branch.links[i]
            &&& branch.pad.requested && !branch.pad.blocked && !branch.pad.joined
            &&& branch.pipeline_state == pipeline_state
        }),
{
}

} // verus!
