//! A UDP sink without a pipeline of its own: a queue and the sending element are
//! linked into the pipeline that feeds them.
use vstd::prelude::*;

use crate::stream::element::{ElementSpec, ElementView};
use crate::stream::endpoint::{endpoint_views, Endpoint, EndpointView};
use crate::stream::peer_id::PeerId;
use crate::stream::sink::branch::BranchStep;
use crate::stream::sink::udp_sink::AlreadyLinked;
use crate::text::{append_u64, decimal, join, joined, texts};

verus! {

/// Where an endpoint is reached: `host:port`. Only `udp` endpoints that have
/// both are.
pub open spec fn client_of(endpoint: EndpointView) -> Option<Seq<char>> {
    if endpoint.scheme == "udp"@ && endpoint.host is Some && endpoint.port is Some {
        Some(endpoint.host->0 + ":"@ + decimal(endpoint.port->0 as nat))
    } else {
        None
    }
}

/// The receivers among the first `n` endpoints, in order.
pub open spec fn clients_of(endpoints: Seq<EndpointView>, n: nat) -> Seq<Seq<char>>
    decreases n,
{
    if n == 0 {
        Seq::empty()
    } else {
        let before = clients_of(endpoints, (n - 1) as nat);
        match client_of(endpoints[n - 1]) {
            Some(client) => before.push(client),
            None => before,
        }
    }
}

fn clients(endpoints: &Vec<Endpoint>) -> (r: Vec<String>)
    ensures
        texts(r@) == clients_of(endpoint_views(endpoints@), endpoints@.len()),
{
    let mut r: Vec<String> = Vec::new();
    let mut i: usize = 0;
    let ghost views = endpoint_views(endpoints@);
    assert(texts(r@) =~= clients_of(views, 0));
    while i < endpoints.len()
        invariant
            i <= endpoints.len(),
            views == endpoint_views(endpoints@),
            texts(r@) == clients_of(views, i as nat),
        decreases endpoints.len() - i,
    {
        assert(views[i as int] == endpoints[i as int]@);
        let ghost before = r@;
        if endpoints[i].has_scheme("udp") {
            match (&endpoints[i].host, endpoints[i].port) {
                (Some(host), Some(port)) => {
                    let mut text = host.clone();
                    text.append(":");
                    append_u64(&mut text, port as u64);
                    r.push(text);
                    assert(texts(r@) =~= texts(before).push(text@));
                },
                _ => {},
            }
        }
        i += 1;
    }
    r
}

pub open spec fn udp_queue_view() -> ElementView {
    ElementView::of("queue"@).text("leaky"@, "downstream"@).boolean("flush-on-eos"@, true).uint32(
        "max-size-buffers"@,
        0u32,
    )
}

/// The elements: the queue is the first, the sending element the second.
pub struct UdpSink {
    pub sink_id: PeerId,
    pub queue: ElementSpec,
    /// The sending element, as a pipeline description.
    pub description: String,
    pub has_tee_pad: bool,
}

/// How the sink is linked.
pub open spec fn link_steps() -> Seq<BranchStep> {
    seq![BranchStep::Add(0), BranchStep::Add(1), BranchStep::Chain(0), BranchStep::JoinTee]
}

/// What is undone when a step of linking fails: what was added leaves the
/// pipeline once both elements were, and the link between them is taken back.
pub open spec fn undo_steps(failed: BranchStep) -> Seq<BranchStep> {
    match failed {
        BranchStep::Chain(_) => seq![BranchStep::Remove(0), BranchStep::Remove(1)],
        BranchStep::JoinTee => seq![
            BranchStep::Remove(0),
            BranchStep::Remove(1),
            BranchStep::Unchain(0),
        ],
        _ => Seq::empty(),
    }
}

/// How the sink is unlinked; the sending element keeps its state.
pub open spec fn unlink_steps() -> Seq<BranchStep> {
    seq![
        BranchStep::LeaveTee,
        BranchStep::Remove(0),
        BranchStep::Remove(1),
        BranchStep::SetNull(0),
        BranchStep::ReleasePad,
    ]
}

/// Steps of which the first that fails ends the work, after what it asks to be
/// undone. Where that fails too, that failure is the one that counts.
pub struct UdpWork {
    pub linking: bool,
    pub steps: Vec<BranchStep>,
    pub position: usize,
    pub failed: Option<BranchStep>,
}

impl UdpWork {
    pub open spec fn wf(self) -> bool {
        self.position <= self.steps@.len()
    }

    pub open spec fn remaining(self) -> Seq<BranchStep> {
        self.steps@.skip(self.position as int)
    }

    pub fn next_step(&self) -> (r: Option<BranchStep>)
        requires
            self.wf(),
        ensures
            self.remaining().len() == 0 ==> r is None,
            self.remaining().len() > 0 ==> r == Some(self.remaining()[0]),
    {
        if self.position < self.steps.len() {
            Some(self.steps[self.position])
        } else {
            None
        }
    }

    /// What is left, what failed last, and whether a failure would still be
    /// undone.
    pub open spec fn progress(self, ok: bool) -> (Seq<BranchStep>, Option<BranchStep>, bool) {
        let step = self.remaining()[0];
        if ok {
            (self.remaining().skip(1), self.failed, self.linking)
        } else if self.linking {
            (undo_steps(step), Some(step), false)
        } else {
            (Seq::empty(), Some(step), false)
        }
    }

    /// Notes how the next step went.
    pub fn report(&mut self, ok: bool)
        requires
            old(self).wf(),
            old(self).remaining().len() > 0,
        ensures
            final(self).wf(),
            (final(self).remaining(), final(self).failed, final(self).linking) == old(
                self,
            ).progress(ok),
    {
        assert(self.position < self.steps.len());
        let step = self.steps[self.position];
        assert(step == self.remaining()[0]);
        if ok {
            self.position = self.position + 1;
            assert(self.remaining() =~= old(self).remaining().skip(1));
            return;
        }
        let mut steps: Vec<BranchStep> = Vec::new();
        if self.linking {
            match step {
                BranchStep::Chain(_) => {
                    steps.push(BranchStep::Remove(0));
                    steps.push(BranchStep::Remove(1));
                },
                BranchStep::JoinTee => {
                    steps.push(BranchStep::Remove(0));
                    steps.push(BranchStep::Remove(1));
                    steps.push(BranchStep::Unchain(0));
                },
                _ => {},
            }
            assert(steps@ =~= undo_steps(step));
        }
        self.failed = Some(step);
        self.linking = false;
        self.steps = steps;
        self.position = 0;
        assert(self.remaining() =~= old(self).progress(ok).0);
    }
}

impl UdpSink {
    /// Plans a sink for the given addresses.
    pub fn try_new(sink_id: PeerId, addresses: &Vec<Endpoint>) -> (r: UdpSink)
        ensures
            r.sink_id == sink_id,
            r.queue@ == udp_queue_view(),
            r.description@ == "multiudpsink clients="@ + joined(
                clients_of(endpoint_views(addresses@), addresses@.len()),
                ","@,
            ),
            !r.has_tee_pad,
    {
        let queue = ElementSpec::of("queue").text("leaky", "downstream").boolean(
            "flush-on-eos",
            true,
        ).uint32("max-size-buffers", 0);
        let parts = clients(addresses);
        let mut description = "multiudpsink clients=".to_owned();
        description.append(join(&parts, ",").as_str());
        UdpSink { sink_id, queue, description, has_tee_pad: false }
    }

    /// Begins to link the sink to a tee; refused where it has a pad already.
    pub fn link(&mut self) -> (r: Result<UdpWork, AlreadyLinked>)
        ensures
            r is Err <==> old(self).has_tee_pad,
            r matches Ok(work) ==> work.wf() && work.linking && work.failed is None
                && work.remaining() == link_steps(),
            *final(self) == (UdpSink { has_tee_pad: true, ..*old(self) }),
    {
        if self.has_tee_pad {
            return Err(AlreadyLinked);
        }
        self.has_tee_pad = true;
        let mut steps: Vec<BranchStep> = Vec::new();
        steps.push(BranchStep::Add(0));
        steps.push(BranchStep::Add(1));
        steps.push(BranchStep::Chain(0));
        steps.push(BranchStep::JoinTee);
        let work = UdpWork { linking: true, steps, position: 0, failed: None };
        assert(work.remaining() =~= link_steps());
        Ok(work)
    }

    /// Begins to unlink the sink; nothing is to be done where it was never
    /// linked.
    pub fn unlink(&self) -> (r: Option<UdpWork>)
        ensures
            r is Some <==> self.has_tee_pad,
            r matches Some(work) ==> work.wf() && !work.linking && work.failed is None
                && work.remaining() == unlink_steps(),
    {
        if !self.has_tee_pad {
            return None;
        }
        let mut steps: Vec<BranchStep> = Vec::new();
        steps.push(BranchStep::LeaveTee);
        steps.push(BranchStep::Remove(0));
        steps.push(BranchStep::Remove(1));
        steps.push(BranchStep::SetNull(0));
        steps.push(BranchStep::ReleasePad);
        let work = UdpWork { linking: false, steps, position: 0, failed: None };
        assert(work.remaining() =~= unlink_steps());
        Some(work)
    }

    pub fn get_id(&self) -> (r: PeerId)
        ensures
            r == self.sink_id,
    {
        self.sink_id
    }
}

/// An endpoint is sent to exactly where it is `udp` and has a host and a port, under
/// that host and that port. Receivers are listed in the order of the endpoints: one
/// more endpoint adds its receiver at the end, or nothing.
pub proof fn receivers_are_those_of_the_endpoints(endpoints: Seq<EndpointView>, n: nat)
    requires
        n < endpoints.len(),
    ensures
        ({
            let endpoint = endpoints[n as int];
            let before = clients_of(endpoints, n);
            let after = clients_of(endpoints, n + 1);
            let sent = endpoint.scheme == "udp"@ && endpoint.host is Some && endpoint.port is Some;
            &&& sent ==> after == before.push(
                endpoint.host->0 + ":"@ + decimal(endpoint.port->0 as nat),
            )
            &&& !sent ==> after == before
        }),
        clients_of(endpoints, 0).len() == 0,
{
    assert(clients_of(endpoints, (n + 1 - 1) as nat) == clients_of(endpoints, n));
}

/// What was done is undone where linking fails: elements that are both in the pipeline
/// leave it again, and the link between them is taken back where it was made. Nothing
/// is undone where an element could not even be added.
pub proof fn failed_links_are_undone(failed: BranchStep)
    ensures
        ({
            let undo = undo_steps(failed);
            let added = failed is Chain || failed is JoinTee;
            &&& undo.contains(BranchStep::Remove(0)) <==> added
            &&& undo.contains(BranchStep::Remove(1)) <==> added
            &&& undo.contains(BranchStep::Unchain(0)) <==> failed is JoinTee
            &&& undo.len() == if failed is JoinTee {
                3nat
            } else if added {
                2nat
            } else {
                0nat
            }
        }),
{
    let undo = undo_steps(failed);
    if undo.len() > 0 {
        assert(undo[0] == BranchStep::Remove(0) && undo[1] == BranchStep::Remove(1));
    }
    if undo.len() > 2 {
        assert(undo[2] == BranchStep::Unchain(0));
    }
}

/// A sink is linked element by element and then to the tee; it is unlinked from the
/// tee first, then its elements leave, the queue goes to `Null`, and the pad is given
/// back last.
pub proof fn sinks_are_linked_from_the_far_end(link: Seq<BranchStep>, unlink: Seq<BranchStep>)
    requires
        link == link_steps(),
        unlink == unlink_steps(),
    ensures
        link.len() == 4,
        link[0] == BranchStep::Add(0) && link[1] == BranchStep::Add(1) && link[2]
            == BranchStep::Chain(0) && link[3] == BranchStep::JoinTee,
        unlink.len() == 5,
        unlink[0] == BranchStep::LeaveTee && unlink[1] == BranchStep::Remove(0) && unlink[2]
            == BranchStep::Remove(1) && unlink[3] == BranchStep::SetNull(0) && unlink[4]
            == BranchStep::ReleasePad,
{
}

/// Work goes on step by step as long as all goes well. The first failure is kept and
/// ends it, after what linking undoes; a failure while undoing takes its place.
pub proof fn first_failures_end_the_work(work: UdpWork, ok: bool)
    requires
        work.remaining().len() > 0,
    ensures
        ({
            let step = work.remaining()[0];
            let (rest, failed, linking) = work.progress(ok);
            &&& ok ==> rest == work.remaining().skip(1) && failed == work.failed && linking
                == work.linking
            &&& !ok ==> failed == Some(step) && !linking
            &&& !ok && work.linking ==> rest == undo_steps(step)
            &&& !ok && !work.linking ==> rest.len() == 0
        }),
{
}

} // verus!
