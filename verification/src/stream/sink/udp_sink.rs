//! The UDP sink: RTP packets to any number of receivers.
//!
//! The sink has a pipeline of its own, which a bridge connects to the tee it is
//! fed from.
use vstd::prelude::*;

use crate::stream::debug_env::{selected_decoupler, udp_decoupler, Environment, UdpDecoupler};
use crate::stream::element::{
    property_views, ElementSpec, ElementView, Property, PropertyValue, PropertyValueView,
};
use crate::stream::endpoint::{
    clone_endpoints, endpoint_views, optional_text, Endpoint, EndpointView,
};
use crate::stream::instrumentation::{b1_queue_view, make_b1_queue};
use crate::stream::peer_id::{id_text, PeerId};
use crate::stream::sink::branch::{attach_steps, BranchWork, Cleanup, Removal, WorkKind};
use crate::stream::sink::unlinking::{unlink_steps, Unlinking};
use crate::stream::teardown::{shutdown_session, shutdown_steps, SessionStep};
use crate::stream::types::VideoAndStreamInformation;
use crate::text::{append_u64, decimal, join, joined, same_text, starts_with, texts};

verus! {

/// Where an endpoint is reached: `host:port`. Only UDP endpoints that have both
/// are.
pub open spec fn client_of(endpoint: EndpointView) -> Option<Seq<char>> {
    if (endpoint.scheme == "udp"@ || endpoint.scheme == "udp265"@) && endpoint.host is Some
        && endpoint.port is Some {
        Some(endpoint.host->0 + ":"@ + decimal(endpoint.port->0 as nat))
    } else {
        None
    }
}

/// The receivers among the first `n` endpoints, in order.
pub open spec fn clients_of(endpoints: Seq<EndpointView>, n: nat) -> Seq<Seq<char>>
    decreases n,
{
    if n == 0 {
        Seq::empty()
    } else {
        let before = clients_of(endpoints, (n - 1) as nat);
        match client_of(endpoints[n - 1]) {
            Some(client) => before.push(client),
            None => before,
        }
    }
}

fn client(endpoint: &Endpoint) -> (r: Option<String>)
    ensures
        match r {
            Some(text) => client_of(endpoint@) == Some(text@),
            None => client_of(endpoint@) is None,
        },
{
    if !endpoint.has_scheme("udp") && !endpoint.has_scheme("udp265") {
        return None;
    }
    match (&endpoint.host, endpoint.port) {
        (Some(host), Some(port)) => {
            let mut s = host.clone();
            s.append(":");
            append_u64(&mut s, port as u64);
            Some(s)
        },
        _ => None,
    }
}

fn clients(endpoints: &Vec<Endpoint>) -> (r: Vec<String>)
    ensures
        texts(r@) == clients_of(endpoint_views(endpoints@), endpoints@.len()),
{
    let mut r: Vec<String> = Vec::new();
    let mut i: usize = 0;
    let ghost views = endpoint_views(endpoints@);
    assert(texts(r@) =~= clients_of(views, 0));
    while i < endpoints.len()
        invariant
            i <= endpoints.len(),
            views == endpoint_views(endpoints@),
            texts(r@) == clients_of(views, i as nat),
        decreases endpoints.len() - i,
    {
        assert(views[i as int] == endpoints[i as int]@);
        let ghost before = r@;
        match client(&endpoints[i]) {
            Some(text) => {
                r.push(text);
                assert(texts(r@) =~= texts(before).push(text@));
            },
            None => {},
        }
        i += 1;
    }
    r
}

/// The element that sends, as a pipeline description.
pub open spec fn udp_description(endpoints: Seq<EndpointView>) -> Seq<char> {
    "multiudpsink sync=false clients="@ + joined(clients_of(endpoints, endpoints.len()), ","@)
}

/// What connects the tee to the sink's own pipeline: an element on either side.
pub enum Bridge {
    /// `proxysink` and `proxysrc`.
    Proxy,
    /// `appsink` and `appsrc`, with samples handed over by a callback.
    Appsink { appsink: ElementSpec, appsrc: ElementSpec },
}

/// What a [`Bridge`] stands for.
pub enum BridgeView {
    Proxy,
    Appsink { appsink: ElementView, appsrc: ElementView },
}

impl View for Bridge {
    type V = BridgeView;

    open spec fn view(&self) -> BridgeView {
        match self {
            Bridge::Proxy => BridgeView::Proxy,
            Bridge::Appsink { appsink, appsrc } => BridgeView::Appsink {
                appsink: appsink@,
                appsrc: appsrc@,
            },
        }
    }
}

pub open spec fn appsrc_view(sink_id: PeerId) -> ElementView {
    ElementView::of("appsrc"@).named("UdpAppSrc-"@ + id_text(sink_id.value)).boolean(
        "is-live"@,
        true,
    ).text("format"@, "time"@).boolean("do-timestamp"@, false).uint64("max-bytes"@, 0u64).boolean(
        "block"@,
        false,
    )
}

pub open spec fn appsink_view(sink_id: PeerId) -> ElementView {
    ElementView::of("appsink"@).named("UdpAppSink-"@ + id_text(sink_id.value)).boolean(
        "async"@,
        false,
    ).boolean("sync"@, false).uint32("max-buffers"@, 1u32).boolean("drop"@, true).boolean(
        "enable-last-sample"@,
        false,
    ).boolean("qos"@, false).if_known(
        "leaky-type"@,
        PropertyValueView::Text("downstream"@),
    ).if_known("silent"@, PropertyValueView::Bool(true))
}

/// The bridge of a decoupler: only `Appsink` hands samples over itself.
pub open spec fn bridge_view(decoupler: UdpDecoupler, sink_id: PeerId) -> BridgeView {
    match decoupler {
        UdpDecoupler::Appsink => BridgeView::Appsink {
            appsink: appsink_view(sink_id),
            appsrc: appsrc_view(sink_id),
        },
        _ => BridgeView::Proxy,
    }
}

fn build_appsink_bridge(sink_id: PeerId) -> (r: Bridge)
    ensures
        r@ == bridge_view(UdpDecoupler::Appsink, sink_id),
{
    let id = sink_id.text();
    let mut appsrc_name = "UdpAppSrc-".to_owned();
    appsrc_name.append(id.as_str());
    let appsrc = ElementSpec::of("appsrc").named(appsrc_name.as_str()).boolean(
        "is-live",
        true,
    ).text("format", "time").boolean("do-timestamp", false).uint64("max-bytes", 0).boolean(
        "block",
        false,
    );
    let mut appsink_name = "UdpAppSink-".to_owned();
    appsink_name.append(id.as_str());
    let appsink = ElementSpec::of("appsink").named(appsink_name.as_str()).boolean(
        "async",
        false,
    ).boolean("sync", false).uint32("max-buffers", 1).boolean("drop", true).boolean(
        "enable-last-sample",
        false,
    ).boolean("qos", false).if_known(
        "leaky-type",
        PropertyValue::Text("downstream".to_owned()),
    ).if_known("silent", PropertyValue::Bool(true));
    Bridge::Appsink { appsink, appsrc }
}

impl Bridge {
    /// The factory of the element that the tee is linked to.
    pub fn upstream_entry(&self) -> (r: &'static str)
        ensures
            r@ == (match self@ {
                BridgeView::Proxy => "proxysink"@,
                BridgeView::Appsink { .. } => "appsink"@,
            }),
    {
        match self {
            Bridge::Proxy => "proxysink",
            Bridge::Appsink { .. } => "appsink",
        }
    }

    /// The factory of the element that feeds the sink's own pipeline.
    pub fn sink_side_entry(&self) -> (r: &'static str)
        ensures
            r@ == (match self@ {
                BridgeView::Proxy => "proxysrc"@,
                BridgeView::Appsink { .. } => "appsrc"@,
            }),
    {
        match self {
            Bridge::Proxy => "proxysrc",
            Bridge::Appsink { .. } => "appsrc",
        }
    }
}

/// The settings of the queue inside `proxysrc`: one buffer, the oldest dropped.
pub open spec fn proxysrc_queue_view() -> Seq<(Seq<char>, PropertyValueView)> {
    seq![
        ("leaky"@, PropertyValueView::Text("downstream"@)),
        ("silent"@, PropertyValueView::Bool(true)),
        ("flush-on-eos"@, PropertyValueView::Bool(true)),
        ("max-size-buffers"@, PropertyValueView::UInt(1)),
        ("max-size-bytes"@, PropertyValueView::UInt(0)),
        ("max-size-time"@, PropertyValueView::ULong(0)),
    ]
}

/// The settings of the queue inside `proxysrc`.
pub fn proxysrc_queue_properties() -> (r: Vec<Property>)
    ensures
        property_views(r@) == proxysrc_queue_view(),
{
    let queue = ElementSpec::of("queue").text("leaky", "downstream").boolean("silent", true).boolean(
        "flush-on-eos",
        true,
    ).uint32("max-size-buffers", 1).uint32("max-size-bytes", 0).uint64("max-size-time", 0);
    assert(queue@.properties =~= proxysrc_queue_view());
    queue.properties
}

/// The first of the names that belongs to a queue.
pub open spec fn first_queue(names: Seq<Seq<char>>, i: int) -> bool {
    &&& 0 <= i < names.len()
    &&& crate::text::begins_with(names[i], "queue"@)
    &&& forall|j: int|
        0 <= j < i ==> !crate::text::begins_with(#[trigger] names[j], "queue"@)
}

/// Finds the queue among the elements inside `proxysrc`, by name.
pub fn find_proxysrc_queue(names: &Vec<String>) -> (r: Option<usize>)
    ensures
        match r {
            Some(i) => first_queue(texts(names@), i as int),
            None => forall|j: int|
                0 <= j < names@.len() ==> !crate::text::begins_with(
                    #[trigger] texts(names@)[j],
                    "queue"@,
                ),
        },
{
    let mut i: usize = 0;
    while i < names.len()
        invariant
            i <= names.len(),
            forall|j: int|
                0 <= j < i ==> !crate::text::begins_with(#[trigger] texts(names@)[j], "queue"@),
        decreases names.len() - i,
    {
        assert(texts(names@)[i as int] == names[i as int]@);
        if starts_with(names[i].as_str(), "queue") {
            return Some(i);
        }
        i += 1;
    }
    None
}

/// Whether the queue inside `proxysrc` does not stay.
pub open spec fn excised(
    bridge: BridgeView,
    decoupler: UdpDecoupler,
    has_proxysrc_queue: bool,
) -> bool {
    has_proxysrc_queue && bridge is Proxy && (decoupler == UdpDecoupler::B1 || decoupler
        == UdpDecoupler::Legacy)
}

/// A UDP sink to be made, and whether it is linked.
pub struct UdpSink {
    pub sink_id: PeerId,
    pub decoupler: UdpDecoupler,
    pub bridge: Bridge,
    /// The extra queue between the tee and the bridge.
    pub b1_queue: Option<ElementSpec>,
    /// The sending element, as a pipeline description.
    pub description: String,
    pub pipeline_name: String,
    pub addresses: Vec<Endpoint>,
    pub has_tee_pad: bool,
}

/// The sink was linked before.
#[derive(Clone, Copy, Debug, PartialEq, Eq, Structural)]
pub struct AlreadyLinked;

/// What a session description says of a UDP sink, beside the format.
pub struct UdpSdp {
    /// The kind of network and of address, the address, its time to live and
    /// how many addresses there are.
    pub connection: (String, String, String, u32, u32),
    /// The port and how many ports there are.
    pub ports: (u32, u32),
    pub protocol: String,
    pub version: String,
    pub session_name: String,
    pub information: String,
    pub attributes: Vec<(String, Option<String>)>,
}

/// What a [`UdpSdp`] stands for.
#[verifier::ext_equal]
pub struct UdpSdpView {
    pub connection: (Seq<char>, Seq<char>, Seq<char>, u32, u32),
    pub ports: (u32, u32),
    pub protocol: Seq<char>,
    pub version: Seq<char>,
    pub session_name: Seq<char>,
    pub information: Seq<char>,
    pub attributes: Seq<(Seq<char>, Option<Seq<char>>)>,
}

impl View for UdpSdp {
    type V = UdpSdpView;

    open spec fn view(&self) -> UdpSdpView {
        UdpSdpView {
            connection: (
                self.connection.0@,
                self.connection.1@,
                self.connection.2@,
                self.connection.3,
                self.connection.4,
            ),
            ports: self.ports,
            protocol: self.protocol@,
            version: self.version@,
            session_name: self.session_name@,
            information: self.information@,
            attributes: self.attributes@.map_values(
                |a: (String, Option<String>)| (a.0@, optional_text(a.1)),
            ),
        }
    }
}

/// The description of a sink whose first address is `host` and `port`.
pub open spec fn udp_sdp(
    host: Seq<char>,
    port: u16,
    sink_id: PeerId,
    package: Seq<char>,
    revision: Seq<char>,
) -> UdpSdpView {
    UdpSdpView {
        connection: ("IN"@, "IP4"@, host, 127, 1),
        ports: (port as u32, 1),
        protocol: "RTP/AVP"@,
        version: "0"@,
        session_name: id_text(sink_id.value),
        information: "This is a UDP stream"@,
        attributes: seq![
            ("tool"@, Some(package + " - "@ + revision)),
            ("type"@, Some("broadcast"@)),
            ("recvonly"@, None),
        ],
    }
}

/// What an address lacks for a session description.
#[derive(Clone, Copy, Debug, PartialEq, Eq, Structural)]
pub enum SdpProblem {
    MissingAddress,
    MissingHost,
    MissingPort,
}

pub open spec fn sdp_problem(addresses: Seq<EndpointView>) -> Option<SdpProblem> {
    if addresses.len() == 0 {
        Some(SdpProblem::MissingAddress)
    } else if addresses[0].host is None {
        Some(SdpProblem::MissingHost)
    } else if addresses[0].port is None {
        Some(SdpProblem::MissingPort)
    } else {
        None
    }
}

impl UdpSink {
    /// Plans a UDP sink for the endpoints of a stream.
    pub fn try_new(
        sink_id: PeerId,
        information: &VideoAndStreamInformation,
        env: &Environment,
    ) -> (r: UdpSink)
        ensures
            r.sink_id == sink_id,
            r.decoupler == selected_decoupler(*env),
            r.bridge@ == bridge_view(r.decoupler, sink_id),
            match r.b1_queue {
                Some(queue) => r.decoupler == UdpDecoupler::B1 && queue@ == b1_queue_view(
                    "b1_q_udp_"@ + id_text(sink_id.value),
                    *env,
                ),
                None => r.decoupler != UdpDecoupler::B1,
            },
            r.description@ == udp_description(information@.endpoints),
            r.pipeline_name@ == "pipeline-udp-sink-"@ + id_text(sink_id.value),
            endpoint_views(r.addresses@) == information@.endpoints,
            !r.has_tee_pad,
    {
        let decoupler = udp_decoupler(env);
        let addresses = clone_endpoints(&information.stream_information.endpoints);
        let parts = clients(&addresses);
        let mut description = "multiudpsink sync=false clients=".to_owned();
        description.append(join(&parts, ",").as_str());
        let id = sink_id.text();
        let mut pipeline_name = "pipeline-udp-sink-".to_owned();
        pipeline_name.append(id.as_str());
        let bridge = match decoupler {
            UdpDecoupler::Appsink => build_appsink_bridge(sink_id),
            _ => Bridge::Proxy,
        };
        let b1_queue = match decoupler {
            UdpDecoupler::B1 => {
                let mut name = "b1_q_udp_".to_owned();
                name.append(id.as_str());
                Some(make_b1_queue(name.as_str(), env))
            },
            _ => None,
        };
        UdpSink {
            sink_id,
            decoupler,
            bridge,
            b1_queue,
            description,
            pipeline_name,
            addresses,
            has_tee_pad: false,
        }
    }

    /// How many elements stand between the tee and the sink's own pipeline.
    pub open spec fn branch_len(self) -> nat {
        if self.b1_queue is Some {
            2
        } else {
            1
        }
    }

    /// Begins to link the sink to a tee: the work to be done, or nothing where
    /// the sink has a pad already.
    pub fn link(&mut self) -> (r: Result<BranchWork, AlreadyLinked>)
        ensures
            r is Err <==> old(self).has_tee_pad,
            r matches Ok(work) ==> work.wf() && work.kind == WorkKind::Attach(Cleanup::Thorough)
                && work.size == old(self).branch_len() && work.failed is None && work.remaining()
                == attach_steps(old(self).branch_len()),
            *final(self) == (UdpSink { has_tee_pad: true, ..*old(self) }),
    {
        if self.has_tee_pad {
            return Err(AlreadyLinked);
        }
        self.has_tee_pad = true;
        let size: usize = if self.b1_queue.is_some() {
            2
        } else {
            1
        };
        Ok(BranchWork::attach(size, Cleanup::Thorough))
    }

    /// Begins to unlink the sink: its session goes to `Null`, then its branch is
    /// taken off. There is nothing to do where the sink was never linked.
    pub fn unlink(&self) -> (r: Option<Unlinking>)
        ensures
            r is Some <==> self.has_tee_pad,
            r matches Some(unlinking) ==> {
                &&& unlinking.wf()
                &&& unlinking.work.kind == WorkKind::Detach(Removal::Demanded)
                &&& unlinking.work.size == self.branch_len()
                &&& unlinking.work.failed is None
                &&& unlinking.session_left() == shutdown_steps(false)
                &&& unlinking.remaining() == unlink_steps(false, self.branch_len())
            },
    {
        if !self.has_tee_pad {
            return None;
        }
        let size: usize = if self.b1_queue.is_some() {
            2
        } else {
            1
        };
        Some(Unlinking::new(false, size))
    }

    /// How the session of the sink is shut down, linked or not, as when the sink is
    /// dropped.
    pub fn shutdown_session(&self) -> (r: Vec<SessionStep>)
        ensures
            r@ == shutdown_steps(false),
    {
        shutdown_session(false)
    }

    /// Whether the queue inside `proxysrc`, where there is one, is taken out
    /// once the first buffer has passed.
    pub fn excises_queue(&self, has_proxysrc_queue: bool) -> (r: bool)
        ensures
            r == excised(self.bridge@, self.decoupler, has_proxysrc_queue),
    {
        let proxied = match self.bridge {
            Bridge::Proxy => true,
            Bridge::Appsink { .. } => false,
        };
        has_proxysrc_queue && proxied && (self.decoupler == UdpDecoupler::B1 || self.decoupler
            == UdpDecoupler::Legacy)
    }

    /// Whether end of stream is posted on the bus of the session when the sink is
    /// told of it: it is not, the session is shut down instead.
    pub fn eos(&self) -> (r: bool)
        ensures
            !r,
    {
        false
    }

    pub fn get_id(&self) -> (r: PeerId)
        ensures
            r == self.sink_id,
    {
        self.sink_id
    }

    /// Describes the sink by its first address. `package` and `revision` name
    /// the program that sends.
    pub fn get_sdp(&self, package: &str, revision: &str) -> (r: Result<UdpSdp, SdpProblem>)
        ensures
            match r {
                Ok(sdp) => {
                    let addresses = endpoint_views(self.addresses@);
                    &&& sdp_problem(addresses) is None
                    &&& sdp@ == udp_sdp(
                        addresses[0].host->0,
                        addresses[0].port->0,
                        self.sink_id,
                        package@,
                        revision@,
                    )
                },
                Err(problem) => sdp_problem(endpoint_views(self.addresses@)) == Some(problem),
            },
    {
        if self.addresses.len() == 0 {
            return Err(SdpProblem::MissingAddress);
        }
        assert(endpoint_views(self.addresses@)[0] == self.addresses@[0]@);
        let address = &self.addresses[0];
        let host = match &address.host {
            None => {
                return Err(SdpProblem::MissingHost);
            },
            Some(host) => host.clone(),
        };
        let port: u16 = match address.port {
            None => {
                return Err(SdpProblem::MissingPort);
            },
            Some(port) => port,
        };
        let mut tool = package.to_owned();
        tool.append(" - ");
        tool.append(revision);
        let mut attributes: Vec<(String, Option<String>)> = Vec::new();
        attributes.push(("tool".to_owned(), Some(tool)));
        attributes.push(("type".to_owned(), Some("broadcast".to_owned())));
        attributes.push(("recvonly".to_owned(), None));
        let ghost shown = attributes@.map_values(
            |a: (String, Option<String>)| (a.0@, optional_text(a.1)),
        );
        assert(shown =~= seq![
            ("tool"@, Some(package@ + " - "@ + revision@)),
            ("type"@, Some("broadcast"@)),
            ("recvonly"@, None),
        ]);
        Ok(
            UdpSdp {
                connection: ("IN".to_owned(), "IP4".to_owned(), host, 127, 1),
                ports: (port as u32, 1),
                protocol: "RTP/AVP".to_owned(),
                version: "0".to_owned(),
                session_name: self.sink_id.text(),
                information: "This is a UDP stream".to_owned(),
                attributes,
            },
        )
    }
}

/// How many things hold data back between the tee and the receivers once data
/// flows, where `proxysrc` has its queue: the extra queue, the queue inside
/// `proxysrc` unless it was taken out, and the `appsink` of a bridge.
pub open spec fn decouplers(sink: UdpSink) -> nat {
    let b1: nat = if sink.b1_queue is Some {
        1
    } else {
        0
    };
    let bridge: nat = match sink.bridge@ {
        BridgeView::Appsink { .. } => 1,
        BridgeView::Proxy => if excised(sink.bridge@, sink.decoupler, true) {
            0
        } else {
            1
        },
    };
    b1 + bridge
}

/// Each variant puts exactly one decoupler between the tee and the sink, but
/// for the legacy one, which has none once data flows.
pub proof fn one_decoupler_per_sink(sink: UdpSink)
    requires
        sink.bridge@ == bridge_view(sink.decoupler, sink.sink_id),
        sink.b1_queue is Some <==> sink.decoupler == UdpDecoupler::B1,
    ensures
        decouplers(sink) == (if sink.decoupler == UdpDecoupler::Legacy {
            0nat
        } else {
            1nat
        }),
{
}

/// The format of the samples that an `appsink` bridge hands over.
pub struct CapsTracker {
    pub last: Option<String>,
}

impl CapsTracker {
    pub open spec fn current(self) -> Option<Seq<char>> {
        match self.last {
            Some(caps) => Some(caps@),
            None => None,
        }
    }

    pub fn new() -> (r: CapsTracker)
        ensures
            r.current() is None,
    {
        CapsTracker { last: None }
    }

    /// Notes the format of a sample; whether it differs from that of the one
    /// before, so that the other side has to be told.
    pub fn update(&mut self, caps: &str) -> (r: bool)
        ensures
            r == (old(self).current() != Some(caps@)),
            final(self).current() == Some(caps@),
    {
        let changed = match &self.last {
            Some(last) => !same_text(last.as_str(), caps),
            None => true,
        };
        if changed {
            self.last = Some(caps.to_owned());
        }
        changed
    }
}

/// An endpoint is sent to exactly where it is `udp` or `udp265` and has a host and a
/// port, under that host and that port. Receivers are listed in the order of the
/// endpoints: one more endpoint adds its receiver at the end, or nothing.
pub proof fn receivers_are_those_of_the_endpoints(endpoints: Seq<EndpointView>, n: nat)
    requires
        n < endpoints.len(),
    ensures
        ({
            let endpoint = endpoints[n as int];
            let before = clients_of(endpoints, n);
            let after = clients_of(endpoints, n + 1);
            let sent = (endpoint.scheme == "udp"@ || endpoint.scheme == "udp265"@)
                && endpoint.host is Some && endpoint.port is Some;
            &&& sent ==> after == before.push(
                endpoint.host->0 + ":"@ + decimal(endpoint.port->0 as nat),
            )
            &&& !sent ==> after == before
        }),
        clients_of(endpoints, 0).len() == 0,
        udp_description(endpoints) == "multiudpsink sync=false clients="@ + joined(
            clients_of(endpoints, endpoints.len()),
            ","@,
        ),
{
    assert(clients_of(endpoints, (n + 1 - 1) as nat) == clients_of(endpoints, n));
}

/// Only the `Appsink` decoupler hands samples over itself, between an `appsink` that
/// keeps one buffer and drops older ones and a live `appsrc` that never blocks, both
/// called after the sink; every other goes through a proxy. The queue inside the proxy
/// is taken out exactly where there is one and the decoupler is `B1` or `Legacy`.
pub proof fn bridges_follow_the_decoupler(
    decoupler: UdpDecoupler,
    sink_id: PeerId,
    has_queue: bool,
)
    ensures
        ({
            let bridge = bridge_view(decoupler, sink_id);
            &&& bridge is Appsink <==> decoupler == UdpDecoupler::Appsink
            &&& excised(bridge, decoupler, has_queue) <==> has_queue && (decoupler
                == UdpDecoupler::B1 || decoupler == UdpDecoupler::Legacy)
            &&& bridge matches BridgeView::Appsink { appsink, appsrc } ==> {
                &&& appsink.factory == "appsink"@ && appsink.name == Some(
                    "UdpAppSink-"@ + id_text(sink_id.value),
                )
                &&& appsink.properties == seq![
                    ("async"@, PropertyValueView::Bool(false)),
                    ("sync"@, PropertyValueView::Bool(false)),
                    ("max-buffers"@, PropertyValueView::UInt(1u32)),
                    ("drop"@, PropertyValueView::Bool(true)),
                    ("enable-last-sample"@, PropertyValueView::Bool(false)),
                    ("qos"@, PropertyValueView::Bool(false)),
                ]
                &&& appsrc.factory == "appsrc"@ && appsrc.name == Some(
                    "UdpAppSrc-"@ + id_text(sink_id.value),
                )
                &&& appsrc.properties == seq![
                    ("is-live"@, PropertyValueView::Bool(true)),
                    ("format"@, PropertyValueView::Text("time"@)),
                    ("do-timestamp"@, PropertyValueView::Bool(false)),
                    ("max-bytes"@, PropertyValueView::ULong(0u64)),
                    ("block"@, PropertyValueView::Bool(false)),
                ]
            }
        }),
{
    assert(appsink_view(sink_id).properties =~= seq![
        ("async"@, PropertyValueView::Bool(false)),
        ("sync"@, PropertyValueView::Bool(false)),
        ("max-buffers"@, PropertyValueView::UInt(1u32)),
        ("drop"@, PropertyValueView::Bool(true)),
        ("enable-last-sample"@, PropertyValueView::Bool(false)),
        ("qos"@, PropertyValueView::Bool(false)),
    ]);
    assert(appsrc_view(sink_id).properties =~= seq![
        ("is-live"@, PropertyValueView::Bool(true)),
        ("format"@, PropertyValueView::Text("time"@)),
        ("do-timestamp"@, PropertyValueView::Bool(false)),
        ("max-bytes"@, PropertyValueView::ULong(0u64)),
        ("block"@, PropertyValueView::Bool(false)),
    ]);
}

/// A sink is described by its first address, which needs a host and a port: what it
/// lacks is told, the address before its host and the host before its port.
pub proof fn sinks_are_described_by_their_first_address(
    addresses: Seq<EndpointView>,
    sink_id: PeerId,
    package: Seq<char>,
    revision: Seq<char>,
)
    ensures
        sdp_problem(addresses) == Some(SdpProblem::MissingAddress) <==> addresses.len() == 0,
        sdp_problem(addresses) == Some(SdpProblem::MissingHost) <==> addresses.len() > 0
            && addresses[0].host is None,
        sdp_problem(addresses) == Some(SdpProblem::MissingPort) <==> addresses.len() > 0
            && addresses[0].host is Some && addresses[0].port is None,
        sdp_problem(addresses) is None ==> ({
            let sdp = udp_sdp(
                addresses[0].host->0,
                addresses[0].port->0,
                sink_id,
                package,
                revision,
            );
            &&& sdp.connection == ("IN"@, "IP4"@, addresses[0].host->0, 127u32, 1u32)
            &&& sdp.ports == (addresses[0].port->0 as u32, 1u32)
            &&& sdp.session_name == id_text(sink_id.value)
            &&& sdp.protocol == "RTP/AVP"@ && sdp.version == "0"@
            &&& sdp.attributes.len() == 3 && sdp.attributes[0] == (
                "tool"@,
                Some(package + " - "@ + revision),
            ) && sdp.attributes[1] == ("type"@, Some("broadcast"@)) && sdp.attributes[2] == (
                "recvonly"@,
                None::<Seq<char>>,
            )
        }),
{
}

/// The queue inside a proxy keeps one buffer and drops older ones.
pub proof fn proxies_keep_one_buffer(queue: Seq<(Seq<char>, PropertyValueView)>)
    requires
        queue == proxysrc_queue_view(),
    ensures
        queue.len() == 6,
        queue[0] == ("leaky"@, PropertyValueView::Text("downstream"@)),
        queue[1] == ("silent"@, PropertyValueView::Bool(true)),
        queue[2] == ("flush-on-eos"@, PropertyValueView::Bool(true)),
        queue[3] == ("max-size-buffers"@, PropertyValueView::UInt(1u32)),
        queue[4] == ("max-size-bytes"@, PropertyValueView::UInt(0u32)),
        queue[5] == ("max-size-time"@, PropertyValueView::ULong(0u64)),
{
}

/// A description that is carried about has the connection, the ports and the names
/// that it holds, and its attributes in their order.
pub proof fn descriptions_are_what_they_hold(sdp: UdpSdp, i: int)
    ensures
        sdp@.connection.0 == sdp.connection.0@,
        sdp@.connection.1 == sdp.connection.1@,
        sdp@.connection.2 == sdp.connection.2@,
        sdp@.connection.3 == sdp.connection.3,
        sdp@.connection.4 == sdp.connection.4,
        sdp@.ports == sdp.ports,
        sdp@.protocol == sdp.protocol@,
        sdp@.version == sdp.version@,
        sdp@.session_name == sdp.session_name@,
        sdp@.information == sdp.information@,
        sdp@.attributes.len() == sdp.attributes@.len(),
        0 <= i < sdp.attributes@.len() ==> sdp@.attributes[i].0 == sdp.attributes@[i].0@,
        0 <= i < sdp.attributes@.len() && sdp.attributes@[i].1 is Some ==> sdp@.attributes[i].1
            == Some(sdp.attributes@[i].1->0@),
        0 <= i < sdp.attributes@.len() && sdp.attributes@[i].1 is None
            ==> sdp@.attributes[i].1 is None,
{
}

/// The queue inside a proxy is the first element whose name begins with `queue`.
pub proof fn queues_go_by_their_name(names: Seq<Seq<char>>, i: int, j: int)
    ensures
        first_queue(names, i) ==> 0 <= i < names.len() && names[i].len() >= 5
            && names[i].subrange(0, 5) == "queue"@,
        first_queue(names, i) && 0 <= j < i ==> names[j].len() < 5 || names[j].subrange(0, 5)
            != "queue"@,
        0 <= i < names.len() && names[i].len() >= 5 && names[i].subrange(0, 5) == "queue"@ && (
        forall|k: int|
            0 <= k < i ==> (#[trigger] names[k]).len() < 5 || names[k].subrange(0, 5) != "queue"@)
            ==> first_queue(names, i),
{
    reveal_strlit("queue");
    assert("queue"@.len() == 5);
    if first_queue(names, i) && 0 <= j < i {
        assert(!crate::text::begins_with(names[j], "queue"@));
    }
}

/// A branch holds one element, and one more where there is an extra queue.
pub proof fn extra_queues_lengthen_the_branch(sink: UdpSink)
    ensures
        sink.b1_queue is Some ==> sink.branch_len() == 2,
        sink.b1_queue is None ==> sink.branch_len() == 1,
{
}

} // verus!
