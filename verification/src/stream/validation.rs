//! Which endpoints a stream may have.
use vstd::prelude::*;

use crate::stream::endpoint::{endpoint_views, Endpoint, EndpointView};
use crate::stream::types::{
    CaptureConfiguration, CaptureView, EncodeView, InformationView, SourceView,
    VideoAndStreamInformation, VideoEncodeType,
};
use crate::text::{append_u64, begins_with, contains_text, decimal, starts_with, texts};

verus! {

/// What the RTSP server of this machine serves.
pub struct RtspServerConfig {
    pub port: u16,
    /// The schemes that RTSP endpoints may have.
    pub schemes: Vec<String>,
}

impl RtspServerConfig {
    pub open spec fn serves(self, scheme: Seq<char>) -> bool {
        texts(self.schemes@).contains(scheme)
    }
}

/// What is wrong with one endpoint.
#[derive(Clone, Copy, Debug, PartialEq, Eq, Structural)]
pub enum EndpointProblem {
    /// A redirection points at something else than `udp`, `udp265` or `rtsp`.
    RedirectScheme,
    /// An `rtsp` scheme that the server does not know.
    RtspVariant,
    /// An RTSP endpoint lacks its host, its port or its path.
    RtspAddress,
    /// An RTSP endpoint names a port that the server does not listen on.
    RtspPort,
    /// `udp` with H265 video, which `udp265` is for.
    UdpH265,
    /// A UDP endpoint lacks its host or its port.
    UdpAddress,
    /// `udp265` with video that is not H265.
    Udp265Encode,
    /// No stream can be sent to that scheme.
    UnknownScheme,
}

/// Why a stream's endpoints are refused.
pub enum ValidationError {
    Empty,
    SeveralRtsp,
    /// The endpoints that are wrong, by position, with what is wrong with each.
    Invalid(Vec<(usize, EndpointProblem)>),
}

/// What a [`ValidationError`] stands for.
pub enum ValidationErrorView {
    Empty,
    SeveralRtsp,
    Invalid(Seq<(usize, EndpointProblem)>),
}

impl View for ValidationError {
    type V = ValidationErrorView;

    open spec fn view(&self) -> ValidationErrorView {
        match self {
            ValidationError::Empty => ValidationErrorView::Empty,
            ValidationError::SeveralRtsp => ValidationErrorView::SeveralRtsp,
            ValidationError::Invalid(v) => ValidationErrorView::Invalid(v@),
        }
    }
}

impl ValidationError {
    /// The refusal in words, where `list` shows what is wrong with the endpoints.
    pub fn message(&self, list: &str) -> (r: String)
        ensures
            r@ == (match self@ {
                ValidationErrorView::Empty => "Endpoints are empty"@,
                ValidationErrorView::SeveralRtsp => "Only one RTSP endpoint is supported at time"@,
                ValidationErrorView::Invalid(_) =>
                    "One or more endpoints are invalid. List of Errors:\n"@ + list@,
            }),
    {
        match self {
            ValidationError::Empty => "Endpoints are empty".to_owned(),
            ValidationError::SeveralRtsp => "Only one RTSP endpoint is supported at time".to_owned(),
            ValidationError::Invalid(_) => {
                let mut s = "One or more endpoints are invalid. List of Errors:\n".to_owned();
                s.append(list);
                s
            },
        }
    }
}

/// The encoding that endpoints are held against; that of a redirection is not
/// known.
pub open spec fn checked_encode(configuration: CaptureView) -> EncodeView {
    match configuration {
        CaptureView::Video { encode, .. } => encode,
        CaptureView::Redirect => EncodeView::Unknown("Redirect stream"@),
    }
}

/// What is wrong with an endpoint of a stream from `source`, if anything is.
pub open spec fn problem_of(
    endpoint: EndpointView,
    source: SourceView,
    encode: EncodeView,
    rtsp: RtspServerConfig,
) -> Option<EndpointProblem> {
    let scheme = endpoint.scheme;
    if source is Redirect {
        if scheme == "udp"@ || scheme == "udp265"@ || scheme == "rtsp"@ {
            None
        } else {
            Some(EndpointProblem::RedirectScheme)
        }
    } else if begins_with(scheme, "rtsp"@) {
        if !rtsp.serves(scheme) {
            Some(EndpointProblem::RtspVariant)
        } else if endpoint.host is None || endpoint.port is None || endpoint.path.len() == 0 {
            Some(EndpointProblem::RtspAddress)
        } else if endpoint.port != Some(rtsp.port) {
            Some(EndpointProblem::RtspPort)
        } else {
            None
        }
    } else if scheme == "udp"@ {
        if encode is H265 {
            Some(EndpointProblem::UdpH265)
        } else if endpoint.host is None || endpoint.port is None {
            Some(EndpointProblem::UdpAddress)
        } else {
            None
        }
    } else if scheme == "udp265"@ {
        if encode is H265 {
            None
        } else {
            Some(EndpointProblem::Udp265Encode)
        }
    } else {
        Some(EndpointProblem::UnknownScheme)
    }
}

/// The wrong ones among the first `n` endpoints, in order.
pub open spec fn problems(
    endpoints: Seq<EndpointView>,
    source: SourceView,
    encode: EncodeView,
    rtsp: RtspServerConfig,
    n: nat,
) -> Seq<(usize, EndpointProblem)>
    decreases n,
{
    if n == 0 {
        Seq::empty()
    } else {
        let before = problems(endpoints, source, encode, rtsp, (n - 1) as nat);
        match problem_of(endpoints[n - 1], source, encode, rtsp) {
            Some(problem) => before.push(((n - 1) as usize, problem)),
            None => before,
        }
    }
}

/// How many of the first `n` endpoints are plain `rtsp` ones.
pub open spec fn rtsp_count(endpoints: Seq<EndpointView>, n: nat) -> nat
    decreases n,
{
    if n == 0 {
        0
    } else {
        rtsp_count(endpoints, (n - 1) as nat) + (if endpoints[n - 1].scheme == "rtsp"@ {
            1nat
        } else {
            0nat
        })
    }
}

/// Whether a stream may have the endpoints it has: at least one, at most one
/// `rtsp`, and none of them wrong.
pub open spec fn validation(information: InformationView, rtsp: RtspServerConfig) -> Result<
    (),
    ValidationErrorView,
> {
    let endpoints = information.endpoints;
    let wrong = problems(
        endpoints,
        information.source,
        checked_encode(information.configuration),
        rtsp,
        endpoints.len(),
    );
    if endpoints.len() == 0 {
        Err(ValidationErrorView::Empty)
    } else if rtsp_count(endpoints, endpoints.len()) > 1 {
        Err(ValidationErrorView::SeveralRtsp)
    } else if wrong.len() > 0 {
        Err(ValidationErrorView::Invalid(wrong))
    } else {
        Ok(())
    }
}

fn endpoint_problem(
    endpoint: &Endpoint,
    is_redirect: bool,
    is_h265: bool,
    rtsp: &RtspServerConfig,
    Ghost(source): Ghost<SourceView>,
    Ghost(encode): Ghost<EncodeView>,
) -> (r: Option<EndpointProblem>)
    requires
        is_redirect == (source is Redirect),
        is_h265 == (encode is H265),
    ensures
        r == problem_of(endpoint@, source, encode, *rtsp),
{
    let scheme = endpoint.scheme.as_str();
    if is_redirect {
        if endpoint.has_scheme("udp") || endpoint.has_scheme("udp265") || endpoint.has_scheme(
            "rtsp",
        ) {
            return None;
        }
        return Some(EndpointProblem::RedirectScheme);
    }
    if starts_with(scheme, "rtsp") {
        if !contains_text(&rtsp.schemes, scheme) {
            return Some(EndpointProblem::RtspVariant);
        }
        if endpoint.host.is_none() || endpoint.path.as_str().is_empty() {
            return Some(EndpointProblem::RtspAddress);
        }
        return match endpoint.port {
            None => Some(EndpointProblem::RtspAddress),
            Some(port) => if port != rtsp.port {
                Some(EndpointProblem::RtspPort)
            } else {
                None
            },
        };
    }
    if endpoint.has_scheme("udp") {
        if is_h265 {
            return Some(EndpointProblem::UdpH265);
        }
        if endpoint.host.is_none() || endpoint.port.is_none() {
            return Some(EndpointProblem::UdpAddress);
        }
        None
    } else if endpoint.has_scheme("udp265") {
        if is_h265 {
            None
        } else {
            Some(EndpointProblem::Udp265Encode)
        }
    } else {
        Some(EndpointProblem::UnknownScheme)
    }
}

fn is_h265(configuration: &CaptureConfiguration) -> (r: bool)
    ensures
        r == (checked_encode(configuration@) is H265),
{
    match configuration {
        CaptureConfiguration::VIDEO(c) => match c.encode {
            VideoEncodeType::H265 => true,
            _ => false,
        },
        CaptureConfiguration::REDIRECT(_) => false,
    }
}

/// Holds the endpoints of a stream against what this machine can serve.
pub fn validate_endpoints(information: &VideoAndStreamInformation, rtsp: &RtspServerConfig) -> (r:
    Result<(), ValidationError>)
    ensures
        match r {
            Ok(()) => validation(information@, *rtsp) is Ok,
            Err(error) => validation(information@, *rtsp) == Err::<(), ValidationErrorView>(
                error@,
            ),
        },
{
    let endpoints = &information.stream_information.endpoints;
    let ghost views = information@.endpoints;
    let ghost source = information@.source;
    let ghost encode = checked_encode(information@.configuration);
    if endpoints.len() == 0 {
        return Err(ValidationError::Empty);
    }
    let is_redirect = information.video_source.is_redirect();
    let h265 = is_h265(&information.stream_information.configuration);
    let mut rtsp_seen: usize = 0;
    let mut wrong: Vec<(usize, EndpointProblem)> = Vec::new();
    let mut i: usize = 0;
    while i < endpoints.len()
        invariant
            i <= endpoints.len(),
            views == endpoint_views(endpoints@),
            is_redirect == (source is Redirect),
            h265 == (encode is H265),
            rtsp_seen <= i,
            rtsp_seen == rtsp_count(views, i as nat),
            wrong@ == problems(views, source, encode, *rtsp, i as nat),
        decreases endpoints.len() - i,
    {
        assert(views[i as int] == endpoints[i as int]@);
        if endpoints[i].has_scheme("rtsp") {
            rtsp_seen += 1;
        }
        match endpoint_problem(
            &endpoints[i],
            is_redirect,
            h265,
            rtsp,
            Ghost(source),
            Ghost(encode),
        ) {
            Some(problem) => wrong.push((i, problem)),
            None => {},
        }
        i += 1;
    }
    if rtsp_seen > 1 {
        return Err(ValidationError::SeveralRtsp);
    }
    if wrong.len() > 0 {
        return Err(ValidationError::Invalid(wrong));
    }
    Ok(())
}

proof fn no_problem_among(
    endpoints: Seq<EndpointView>,
    source: SourceView,
    encode: EncodeView,
    rtsp: RtspServerConfig,
    n: nat,
    i: int,
)
    requires
        0 <= i < n <= endpoints.len(),
        problems(endpoints, source, encode, rtsp, n).len() == 0,
    ensures
        problem_of(endpoints[i], source, encode, rtsp) is None,
    decreases n,
{
    if i < n - 1 {
        no_problem_among(endpoints, source, encode, rtsp, (n - 1) as nat, i);
    }
}

/// A stream whose endpoints are accepted has at least one, and of a stream that
/// is no redirection every accepted RTSP endpoint is one that this machine
/// serves, under the port it listens on, every `udp` endpoint has a host and a
/// port, and nothing but `udp265` carries H265 over UDP.
pub proof fn accepted_endpoints_can_be_served(
    information: InformationView,
    rtsp: RtspServerConfig,
    i: int,
)
    requires
        validation(information, rtsp) is Ok,
        !(information.source is Redirect),
        0 <= i < information.endpoints.len(),
    ensures
        ({
            let endpoint = information.endpoints[i];
            let encode = checked_encode(information.configuration);
            ||| begins_with(endpoint.scheme, "rtsp"@) && rtsp.serves(endpoint.scheme)
                && endpoint.host is Some && endpoint.port == Some(rtsp.port) && endpoint.path.len()
                > 0
            ||| endpoint.scheme == "udp"@ && !(encode is H265) && endpoint.host is Some
                && endpoint.port is Some
            ||| endpoint.scheme == "udp265"@ && encode is H265
        }),
{
    no_problem_among(
        information.endpoints,
        information.source,
        checked_encode(information.configuration),
        rtsp,
        information.endpoints.len(),
        i,
    );
}

/// What a message about an endpoint quotes, written out.
pub struct ShownEndpoint {
    pub scheme: String,
    pub endpoint: String,
    pub endpoints: String,
    pub encode: String,
    pub rtsp_schemes: String,
}

pub open spec fn problem_text(
    problem: EndpointProblem,
    shown: ShownEndpoint,
    port: u16,
) -> Seq<char> {
    match problem {
        EndpointProblem::RedirectScheme =>
            "The URL's scheme for REDIRECT endpoints should be \"udp\", \"udp265\", or \"rtsp\", but was: \""@
            + shown.scheme@ + "\""@,
        EndpointProblem::RtspVariant =>
            "Endpoint with rtsp scheme should use one of the following variant schemes: "@
            + shown.rtsp_schemes@ + ". Endpoint: "@ + shown.endpoint@,
        EndpointProblem::RtspAddress =>
            "Endpoint with rtsp scheme should contain host, port, and path. Endpoint: "@
            + shown.endpoint@,
        EndpointProblem::RtspPort => "Endpoint with rtsp scheme should use port "@ + decimal(
            port as nat,
        ) + ". Endpoint: "@ + shown.endpoint@,
        EndpointProblem::UdpH265 =>
            "Endpoint with udp scheme only supports H264, encode type is H265, the scheme should be udp265."@,
        EndpointProblem::UdpAddress =>
            "Endpoint with udp scheme should contain host and port. Endpoint: "@ + shown.endpoint@,
        EndpointProblem::Udp265Encode =>
            "Endpoint with udp265 scheme only supports H265 encode. Encode: "@ + shown.encode@
            + ", Endpoint: "@ + shown.endpoints@,
        EndpointProblem::UnknownScheme => "Scheme is not accepted as stream endpoint: "@
            + shown.scheme@,
    }
}

impl EndpointProblem {
    /// The problem in words.
    pub fn message(&self, shown: &ShownEndpoint, port: u16) -> (r: String)
        ensures
            r@ == problem_text(*self, *shown, port),
    {
        match self {
            EndpointProblem::RedirectScheme => {
                let mut s =
                    "The URL's scheme for REDIRECT endpoints should be \"udp\", \"udp265\", or \"rtsp\", but was: \"".to_owned();
                s.append(shown.scheme.as_str());
                s.append("\"");
                s
            },
            EndpointProblem::RtspVariant => {
                let mut s =
                    "Endpoint with rtsp scheme should use one of the following variant schemes: ".to_owned();
                s.append(shown.rtsp_schemes.as_str());
                s.append(". Endpoint: ");
                s.append(shown.endpoint.as_str());
                s
            },
            EndpointProblem::RtspAddress => {
                let mut s =
                    "Endpoint with rtsp scheme should contain host, port, and path. Endpoint: ".to_owned();
                s.append(shown.endpoint.as_str());
                s
            },
            EndpointProblem::RtspPort => {
                let mut s = "Endpoint with rtsp scheme should use port ".to_owned();
                append_u64(&mut s, port as u64);
                s.append(". Endpoint: ");
                s.append(shown.endpoint.as_str());
                s
            },
            EndpointProblem::UdpH265 =>
                "Endpoint with udp scheme only supports H264, encode type is H265, the scheme should be udp265.".to_owned(),
            EndpointProblem::UdpAddress => {
                let mut s =
                    "Endpoint with udp scheme should contain host and port. Endpoint: ".to_owned();
                s.append(shown.endpoint.as_str());
                s
            },
            EndpointProblem::Udp265Encode => {
                let mut s =
                    "Endpoint with udp265 scheme only supports H265 encode. Encode: ".to_owned();
                s.append(shown.encode.as_str());
                s.append(", Endpoint: ");
                s.append(shown.endpoints.as_str());
                s
            },
            EndpointProblem::UnknownScheme => {
                let mut s = "Scheme is not accepted as stream endpoint: ".to_owned();
                s.append(shown.scheme.as_str());
                s
            },
        }
    }
}

/// What may be wrong with an endpoint, and when it is. A redirection has to point at
/// `udp`, `udp265` or `rtsp`. Of other streams, endpoints whose scheme begins with
/// `rtsp` need a scheme that the server serves, then a host, a port and a path, then
/// the port that the server listens on; `udp` carries anything but H265 and needs a
/// host and a port; `udp265` carries H265 alone; nothing else can be sent to.
pub proof fn endpoints_are_held_against_what_can_be_served(
    endpoint: EndpointView,
    source: SourceView,
    encode: EncodeView,
    rtsp: RtspServerConfig,
)
    ensures
        ({
            let problem = problem_of(endpoint, source, encode, rtsp);
            let redirect = source is Redirect;
            let is_udp = endpoint.scheme == "udp"@;
            let is_udp265 = endpoint.scheme == "udp265"@;
            let like_rtsp = begins_with(endpoint.scheme, "rtsp"@);
            let served = exists|k: int|
                0 <= k < rtsp.schemes@.len() && (#[trigger] rtsp.schemes@[k])@ == endpoint.scheme;
            let whole = endpoint.host is Some && endpoint.port is Some && endpoint.path.len() > 0;
            &&& problem == Some(EndpointProblem::RedirectScheme) <==> redirect && !is_udp
                && !is_udp265 && endpoint.scheme != "rtsp"@
            &&& problem == Some(EndpointProblem::RtspVariant) <==> !redirect && like_rtsp && !served
            &&& problem == Some(EndpointProblem::RtspAddress) <==> !redirect && like_rtsp && served
                && !whole
            &&& problem == Some(EndpointProblem::RtspPort) <==> !redirect && like_rtsp && served
                && whole && endpoint.port->0 != rtsp.port
            &&& problem == Some(EndpointProblem::UdpH265) <==> !redirect && is_udp && encode is H265
            &&& problem == Some(EndpointProblem::UdpAddress) <==> !redirect && is_udp && !(
            encode is H265) && (endpoint.host is None || endpoint.port is None)
            &&& problem == Some(EndpointProblem::Udp265Encode) <==> !redirect && is_udp265 && !(
            encode is H265)
            &&& problem == Some(EndpointProblem::UnknownScheme) <==> !redirect && !like_rtsp
                && !is_udp && !is_udp265
        }),
{
    reveal_strlit("udp");
    reveal_strlit("udp265");
    reveal_strlit("rtsp");
    assert("udp"@.len() != "udp265"@.len());
    let schemes = rtsp.schemes@;
    if rtsp.serves(endpoint.scheme) {
        let k = texts(schemes).index_of(endpoint.scheme);
        assert(texts(schemes)[k] == schemes[k]@);
    }
    if exists|k: int| 0 <= k < schemes.len() && (#[trigger] schemes[k])@ == endpoint.scheme {
        let k = choose|k: int| 0 <= k < schemes.len() && (#[trigger] schemes[k])@ == endpoint.scheme;
        assert(texts(schemes)[k] == endpoint.scheme);
    }
    if endpoint.scheme == "udp"@ || endpoint.scheme == "udp265"@ {
        assert(endpoint.scheme[0] == 'u');
        if begins_with(endpoint.scheme, "rtsp"@) {
            assert(endpoint.scheme.subrange(0, 4)[0] == "rtsp"@[0]);
        }
    }
}

proof fn problems_are_found(
    endpoints: Seq<EndpointView>,
    source: SourceView,
    encode: EncodeView,
    rtsp: RtspServerConfig,
    n: nat,
)
    requires
        n <= endpoints.len() <= usize::MAX,
    ensures
        ({
            let found = problems(endpoints, source, encode, rtsp, n);
            &&& forall|k: int|
                0 <= k < found.len() ==> (#[trigger] found[k]).0 < n && problem_of(
                    endpoints[found[k].0 as int],
                    source,
                    encode,
                    rtsp,
                ) == Some(found[k].1)
            &&& forall|k: int, l: int|
                0 <= k < l < found.len() ==> (#[trigger] found[k]).0 < (#[trigger] found[l]).0
            &&& forall|i: int|
                0 <= i < n && problem_of(#[trigger] endpoints[i], source, encode, rtsp) is Some
                    ==> exists|k: int| 0 <= k < found.len() && (#[trigger] found[k]).0 == i
        }),
    decreases n,
{
    if n > 0 {
        let before = problems(endpoints, source, encode, rtsp, (n - 1) as nat);
        let found = problems(endpoints, source, encode, rtsp, n);
        problems_are_found(endpoints, source, encode, rtsp, (n - 1) as nat);
        assert forall|i: int|
            0 <= i < n && problem_of(
                #[trigger] endpoints[i],
                source,
                encode,
                rtsp,
            ) is Some implies exists|k: int| 0 <= k < found.len() && (#[trigger] found[k]).0 == i by {
            if i < n - 1 {
                let k = choose|k: int| 0 <= k < before.len() && (#[trigger] before[k]).0 == i;
                assert(found[k] == before[k]);
            } else {
                assert(found[before.len() as int].0 == i);
            }
        }
    }
}

proof fn several_are_counted(endpoints: Seq<EndpointView>, n: nat)
    requires
        n <= endpoints.len(),
    ensures
        rtsp_count(endpoints, n) >= 1 <==> exists|i: int|
            0 <= i < n && (#[trigger] endpoints[i]).scheme == "rtsp"@,
        rtsp_count(endpoints, n) > 1 <==> exists|i: int, j: int|
            0 <= i < j < n && (#[trigger] endpoints[i]).scheme == "rtsp"@ && (
            #[trigger] endpoints[j]).scheme == "rtsp"@,
    decreases n,
{
    if n > 0 {
        several_are_counted(endpoints, (n - 1) as nat);
        let last = n - 1;
        if endpoints[last].scheme == "rtsp"@ && rtsp_count(endpoints, (n - 1) as nat) >= 1 {
            let i = choose|i: int| 0 <= i < n - 1 && (#[trigger] endpoints[i]).scheme == "rtsp"@;
            assert(endpoints[i].scheme == "rtsp"@ && endpoints[last].scheme == "rtsp"@);
        }
    }
}

/// A stream is refused exactly where it has no endpoint, two plain `rtsp` ones, or a
/// wrong one; and then the wrong ones are told, each with its position and what is
/// wrong with it, in order. Endpoints are held against the encoding of the stream.
pub proof fn refusals_name_what_is_wrong(information: InformationView, rtsp: RtspServerConfig)
    requires
        information.endpoints.len() <= usize::MAX,
    ensures
        ({
            let r = validation(information, rtsp);
            let endpoints = information.endpoints;
            let source = information.source;
            let encode = match information.configuration {
                CaptureView::Video { encode, .. } => encode,
                CaptureView::Redirect => EncodeView::Unknown("Redirect stream"@),
            };
            let several = exists|i: int, j: int|
                0 <= i < j < endpoints.len() && (#[trigger] endpoints[i]).scheme == "rtsp"@ && (
                #[trigger] endpoints[j]).scheme == "rtsp"@;
            let wrong = exists|i: int|
                0 <= i < endpoints.len() && problem_of(
                    #[trigger] endpoints[i],
                    source,
                    encode,
                    rtsp,
                ) is Some;
            &&& r is Ok <==> endpoints.len() > 0 && !several && !wrong
            &&& r is Err && r->Err_0 is Empty <==> endpoints.len() == 0
            &&& r is Err && r->Err_0 is SeveralRtsp <==> several
            &&& r is Err && r->Err_0 is Invalid ==> {
                let told = r->Err_0->Invalid_0;
                &&& forall|k: int|
                    0 <= k < told.len() ==> (#[trigger] told[k]).0 < endpoints.len() && problem_of(
                        endpoints[told[k].0 as int],
                        source,
                        encode,
                        rtsp,
                    ) == Some(told[k].1)
                &&& forall|k: int, l: int|
                    0 <= k < l < told.len() ==> (#[trigger] told[k]).0 < (#[trigger] told[l]).0
                &&& forall|i: int|
                    0 <= i < endpoints.len() && problem_of(
                        #[trigger] endpoints[i],
                        source,
                        encode,
                        rtsp,
                    ) is Some ==> exists|k: int| 0 <= k < told.len() && (#[trigger] told[k]).0 == i
            }
        }),
{
    let endpoints = information.endpoints;
    let encode = checked_encode(information.configuration);
    problems_are_found(endpoints, information.source, encode, rtsp, endpoints.len());
    several_are_counted(endpoints, endpoints.len());
    let found = problems(endpoints, information.source, encode, rtsp, endpoints.len());
    if found.len() > 0 {
        assert(problem_of(endpoints[found[0].0 as int], information.source, encode, rtsp) is Some);
    }
}

/// A refusal says that there is no endpoint, that there are several plain `rtsp` ones,
/// or which endpoints are wrong; and only video has an encoding that endpoints are held
/// against.
pub proof fn refusals_are_of_three_kinds(error: ValidationError, configuration: CaptureView)
    ensures
        error is Empty <==> error@ is Empty,
        error is SeveralRtsp <==> error@ is SeveralRtsp,
        error matches ValidationError::Invalid(list) ==> error@ == ValidationErrorView::Invalid(
            list@,
        ),
        configuration is Video ==> checked_encode(configuration) == configuration->encode,
        configuration is Redirect ==> checked_encode(configuration) == EncodeView::Unknown(
            "Redirect stream"@,
        ),
{
}

/// What is wrong with an endpoint is told with what it is about: its scheme, the
/// endpoint, the schemes or the port that would do, or the encoding.
pub proof fn problems_are_told_with_what_they_are_about(shown: ShownEndpoint, port: u16)
    ensures
        problem_text(EndpointProblem::RedirectScheme, shown, port)
            == "The URL's scheme for REDIRECT endpoints should be \"udp\", \"udp265\", or \"rtsp\", but was: \""@
            + shown.scheme@ + "\""@,
        problem_text(EndpointProblem::RtspVariant, shown, port)
            == "Endpoint with rtsp scheme should use one of the following variant schemes: "@
            + shown.rtsp_schemes@ + ". Endpoint: "@ + shown.endpoint@,
        problem_text(EndpointProblem::RtspAddress, shown, port)
            == "Endpoint with rtsp scheme should contain host, port, and path. Endpoint: "@
            + shown.endpoint@,
        problem_text(EndpointProblem::RtspPort, shown, port)
            == "Endpoint with rtsp scheme should use port "@ + decimal(port as nat)
            + ". Endpoint: "@ + shown.endpoint@,
        problem_text(EndpointProblem::UdpH265, shown, port)
            == "Endpoint with udp scheme only supports H264, encode type is H265, the scheme should be udp265."@,
        problem_text(EndpointProblem::UdpAddress, shown, port)
            == "Endpoint with udp scheme should contain host and port. Endpoint: "@
            + shown.endpoint@,
        problem_text(EndpointProblem::Udp265Encode, shown, port)
            == "Endpoint with udp265 scheme only supports H265 encode. Encode: "@ + shown.encode@
            + ", Endpoint: "@ + shown.endpoints@,
        problem_text(EndpointProblem::UnknownScheme, shown, port)
            == "Scheme is not accepted as stream endpoint: "@ + shown.scheme@,
{
}

} // verus!
