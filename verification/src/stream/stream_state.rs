//! Bringing a stream's pipeline up, with the sinks its endpoints and settings
//! ask for, and taking it down again.
use vstd::prelude::*;

use crate::stream::debug_env::{
    allow_udp_rtsp_concurrent, disable_mcap, disable_thumbnail, disable_udp, flag_set, Environment,
};
use crate::stream::endpoint::{
    any_scheme, endpoint_views, has_any_scheme, Endpoint, EndpointView,
};
use crate::stream::types::{
    CaptureConfiguration, CaptureView, ExtendedConfiguration, InformationView,
    VideoAndStreamInformation, VideoEncodeType,
};
use crate::stream::validation::{
    validate_endpoints, validation, RtspServerConfig, ValidationError, ValidationErrorView,
};
use crate::text::contains_text;

verus! {

/// The sinks that a stream is built with.
#[derive(Clone, Copy, Debug, PartialEq, Eq, Structural)]
pub enum SinkKind {
    Udp,
    Rtsp,
    Image,
    Zenoh,
}

/// Why a stream is not built.
#[derive(Clone, Copy, Debug, PartialEq, Eq, Structural)]
pub enum Refusal {
    /// UDP and RTSP endpoints on one stream.
    UdpWithRtsp,
    /// What is captured is not known yet.
    NotInitialized,
}

/// One thing to do when a stream is built.
#[derive(Clone, Copy, Debug, PartialEq, Eq, Structural)]
pub enum BuildAction {
    CreatePipeline,
    /// Make the sink, then add it to the pipeline.
    AttachSink(SinkKind),
    /// Count one consumer that never leaves.
    HoldConsumer,
    StartPipeline,
    /// Start every sink; one that does not start is only reported.
    StartSinks,
    /// Give up.
    Refuse(Refusal),
}

/// Settings from outside a stream that decide how it is built.
pub struct BuildSettings {
    pub env: Environment,
    pub rtsp: RtspServerConfig,
    /// Publishing over zenoh is switched on.
    pub zenoh_enabled: bool,
}

pub open spec fn udp_asked(endpoints: Seq<EndpointView>) -> bool {
    any_scheme(endpoints, "udp"@)
}

/// Some endpoint has a scheme that the RTSP server serves.
pub open spec fn rtsp_asked(endpoints: Seq<EndpointView>, rtsp: RtspServerConfig) -> bool {
    exists|i: int| 0 <= i < endpoints.len() && rtsp.serves((#[trigger] endpoints[i]).scheme)
}

/// UDP and RTSP endpoints side by side, where that is not allowed.
pub open spec fn in_conflict(endpoints: Seq<EndpointView>, env: Environment) -> bool {
    udp_asked(endpoints) && any_scheme(endpoints, "rtsp"@) && !flag_set(
        env,
        "MCM_ALLOW_UDP_RTSP_CONCURRENT"@,
    )
}

/// What UDP endpoints ask for: a sink, and a consumer that stays, because
/// nobody tells when a UDP receiver is gone.
pub open spec fn udp_actions(endpoints: Seq<EndpointView>, env: Environment) -> Seq<BuildAction> {
    if udp_asked(endpoints) && !flag_set(env, "MCM_DISABLE_UDP"@) {
        seq![BuildAction::AttachSink(SinkKind::Udp), BuildAction::HoldConsumer]
    } else {
        Seq::empty()
    }
}

pub open spec fn rtsp_actions(endpoints: Seq<EndpointView>, rtsp: RtspServerConfig) -> Seq<
    BuildAction,
> {
    if rtsp_asked(endpoints, rtsp) {
        seq![BuildAction::AttachSink(SinkKind::Rtsp)]
    } else {
        Seq::empty()
    }
}

pub open spec fn thumbnails_off(extended: Option<ExtendedConfiguration>) -> bool {
    extended is Some && extended->0.disable_thumbnails
}

pub open spec fn zenoh_off(extended: Option<ExtendedConfiguration>) -> bool {
    extended is Some && extended->0.disable_zenoh
}

pub open spec fn image_actions(
    extended: Option<ExtendedConfiguration>,
    env: Environment,
) -> Seq<BuildAction> {
    if thumbnails_off(extended) || flag_set(env, "MCM_DISABLE_THUMBNAIL"@) {
        Seq::empty()
    } else {
        seq![BuildAction::AttachSink(SinkKind::Image)]
    }
}

pub open spec fn zenoh_asked(
    extended: Option<ExtendedConfiguration>,
    settings: BuildSettings,
) -> bool {
    !zenoh_off(extended) && settings.zenoh_enabled && !flag_set(settings.env, "MCM_DISABLE_MCAP"@)
}

/// The end of the plan: zenoh where it carries the encoding, then everything is
/// started.
pub open spec fn closing_actions(
    information: InformationView,
    settings: BuildSettings,
) -> Seq<BuildAction> {
    let start = seq![BuildAction::StartPipeline, BuildAction::StartSinks];
    if zenoh_asked(information.extended, settings) {
        match information.configuration {
            CaptureView::Redirect => seq![BuildAction::Refuse(Refusal::NotInitialized)],
            CaptureView::Video { encode, .. } => if encode is H264 || encode is H265 {
                seq![BuildAction::AttachSink(SinkKind::Zenoh)] + start
            } else {
                start
            },
        }
    } else {
        start
    }
}

/// The sinks that endpoints ask for; a redirection has none.
pub open spec fn endpoint_actions(
    information: InformationView,
    settings: BuildSettings,
) -> Seq<BuildAction> {
    if information.source is Redirect {
        Seq::empty()
    } else {
        udp_actions(information.endpoints, settings.env) + rtsp_actions(
            information.endpoints,
            settings.rtsp,
        )
    }
}

/// Everything to do to build a stream whose endpoints are valid, in order.
pub open spec fn build_actions(
    information: InformationView,
    settings: BuildSettings,
) -> Seq<BuildAction> {
    let first = seq![BuildAction::CreatePipeline];
    if !(information.source is Redirect) && in_conflict(information.endpoints, settings.env) {
        first.push(BuildAction::Refuse(Refusal::UdpWithRtsp))
    } else {
        first + endpoint_actions(information, settings) + image_actions(
            information.extended,
            settings.env,
        ) + closing_actions(information, settings)
    }
}

fn has_rtsp_endpoint(endpoints: &Vec<Endpoint>, rtsp: &RtspServerConfig) -> (r: bool)
    ensures
        r == rtsp_asked(endpoint_views(endpoints@), *rtsp),
{
    let mut i: usize = 0;
    let ghost views = endpoint_views(endpoints@);
    while i < endpoints.len()
        invariant
            i <= endpoints.len(),
            views == endpoint_views(endpoints@),
            forall|j: int| 0 <= j < i ==> !rtsp.serves((#[trigger] views[j]).scheme),
        decreases endpoints.len() - i,
    {
        assert(views[i as int] == endpoints[i as int]@);
        if contains_text(&rtsp.schemes, endpoints[i].scheme.as_str()) {
            return true;
        }
        i += 1;
    }
    false
}

fn plan_endpoint_actions(
    information: &VideoAndStreamInformation,
    settings: &BuildSettings,
) -> (r: Vec<BuildAction>)
    ensures
        r@ == endpoint_actions(information@, *settings),
{
    let endpoints = &information.stream_information.endpoints;
    let mut r: Vec<BuildAction> = Vec::new();
    if !information.video_source.is_redirect() {
        if has_any_scheme(endpoints, "udp") && !disable_udp(&settings.env) {
            r.push(BuildAction::AttachSink(SinkKind::Udp));
            r.push(BuildAction::HoldConsumer);
        }
        if has_rtsp_endpoint(endpoints, &settings.rtsp) {
            r.push(BuildAction::AttachSink(SinkKind::Rtsp));
        }
    }
    assert(r@ =~= endpoint_actions(information@, *settings));
    r
}

fn plan_image_actions(extended: Option<ExtendedConfiguration>, env: &Environment) -> (r: Vec<
    BuildAction,
>)
    ensures
        r@ == image_actions(extended, *env),
{
    let mut r: Vec<BuildAction> = Vec::new();
    let off = match extended {
        Some(e) => e.disable_thumbnails,
        None => false,
    };
    if !off && !disable_thumbnail(env) {
        r.push(BuildAction::AttachSink(SinkKind::Image));
    }
    assert(r@ =~= image_actions(extended, *env));
    r
}

fn plan_closing_actions(
    information: &VideoAndStreamInformation,
    settings: &BuildSettings,
) -> (r: Vec<BuildAction>)
    ensures
        r@ == closing_actions(information@, *settings),
{
    let mut r: Vec<BuildAction> = Vec::new();
    let off = match information.stream_information.extended_configuration {
        Some(e) => e.disable_zenoh,
        None => false,
    };
    if !off && settings.zenoh_enabled && !disable_mcap(&settings.env) {
        match &information.stream_information.configuration {
            CaptureConfiguration::REDIRECT(_) => {
                r.push(BuildAction::Refuse(Refusal::NotInitialized));
                assert(r@ =~= closing_actions(information@, *settings));
                return r;
            },
            CaptureConfiguration::VIDEO(configuration) => {
                let carried = match configuration.encode {
                    VideoEncodeType::H264 => true,
                    VideoEncodeType::H265 => true,
                    _ => false,
                };
                if carried {
                    r.push(BuildAction::AttachSink(SinkKind::Zenoh));
                }
            },
        }
    }
    r.push(BuildAction::StartPipeline);
    r.push(BuildAction::StartSinks);
    assert(r@ =~= closing_actions(information@, *settings));
    r
}

/// Plans how a stream is built, or says what is wrong with its endpoints.
pub fn build_plan(information: &VideoAndStreamInformation, settings: &BuildSettings) -> (r: Result<
    Vec<BuildAction>,
    ValidationError,
>)
    ensures
        match r {
            Ok(plan) => validation(information@, settings.rtsp) is Ok && plan@ == build_actions(
                information@,
                *settings,
            ),
            Err(error) => validation(information@, settings.rtsp) == Err::<(), ValidationErrorView>(
                error@,
            ),
        },
{
    if let Err(error) = validate_endpoints(information, &settings.rtsp) {
        return Err(error);
    }
    let endpoints = &information.stream_information.endpoints;
    let mut plan: Vec<BuildAction> = Vec::new();
    plan.push(BuildAction::CreatePipeline);
    assert(plan@ =~= seq![BuildAction::CreatePipeline]);
    if !information.video_source.is_redirect() && has_any_scheme(endpoints, "udp")
        && has_any_scheme(endpoints, "rtsp") && !allow_udp_rtsp_concurrent(&settings.env) {
        plan.push(BuildAction::Refuse(Refusal::UdpWithRtsp));
        return Ok(plan);
    }
    let mut for_endpoints = plan_endpoint_actions(information, settings);
    plan.append(&mut for_endpoints);
    let mut for_images = plan_image_actions(
        information.stream_information.extended_configuration,
        &settings.env,
    );
    plan.append(&mut for_images);
    let mut closing = plan_closing_actions(information, settings);
    plan.append(&mut closing);
    Ok(plan)
}

/// The place of an action in the order in which streams are built.
pub open spec fn rank(action: BuildAction) -> int {
    match action {
        BuildAction::CreatePipeline => 0,
        BuildAction::AttachSink(SinkKind::Udp) => 1,
        BuildAction::HoldConsumer => 2,
        BuildAction::AttachSink(SinkKind::Rtsp) => 3,
        BuildAction::AttachSink(SinkKind::Image) => 4,
        BuildAction::AttachSink(SinkKind::Zenoh) => 5,
        BuildAction::StartPipeline => 6,
        BuildAction::StartSinks => 7,
        BuildAction::Refuse(_) => 8,
    }
}

/// The actions come in order, all of them at or after `low` and before `high`.
pub open spec fn is_ordered(actions: Seq<BuildAction>, low: int, high: int) -> bool {
    &&& forall|i: int| 0 <= i < actions.len() ==> low <= rank(#[trigger] actions[i]) < high
    &&& forall|i: int, j: int|
        0 <= i < j < actions.len() ==> rank(#[trigger] actions[i]) < rank(#[trigger] actions[j])
}

proof fn ordered_parts(a: Seq<BuildAction>, b: Seq<BuildAction>, low: int, middle: int, high: int)
    requires
        low <= middle <= high,
        is_ordered(a, low, middle),
        is_ordered(b, middle, high),
    ensures
        is_ordered(a + b, low, high),
{
    let ab = a + b;
    assert forall|i: int| 0 <= i < ab.len() implies low <= rank(#[trigger] ab[i]) < high by {
        assert(ab[i] == if i < a.len() {
            a[i]
        } else {
            b[i - a.len()]
        });
    }
    assert forall|i: int, j: int| 0 <= i < j < ab.len() implies rank(#[trigger] ab[i]) < rank(
        #[trigger] ab[j],
    ) by {
        assert(ab[i] == if i < a.len() {
            a[i]
        } else {
            b[i - a.len()]
        });
        assert(ab[j] == if j < a.len() {
            a[j]
        } else {
            b[j - a.len()]
        });
    }
}

/// Every plan keeps to one order: the pipeline is made, UDP, RTSP, image and
/// zenoh sinks are attached, the pipeline is started, its sinks are started.
/// No action comes twice, and nothing follows a refusal.
pub proof fn plans_keep_the_order(information: InformationView, settings: BuildSettings)
    ensures
        is_ordered(build_actions(information, settings), 0, 9),
{
    let first = seq![BuildAction::CreatePipeline];
    let endpoints = endpoint_actions(information, settings);
    let image = image_actions(information.extended, settings.env);
    let closing = closing_actions(information, settings);
    assert(is_ordered(first, 0, 1));
    assert(is_ordered(udp_actions(information.endpoints, settings.env), 1, 3));
    assert(is_ordered(rtsp_actions(information.endpoints, settings.rtsp), 3, 4));
    ordered_parts(
        udp_actions(information.endpoints, settings.env),
        rtsp_actions(information.endpoints, settings.rtsp),
        1,
        3,
        4,
    );
    assert(is_ordered(endpoints, 1, 4));
    assert(is_ordered(image, 4, 5));
    assert(is_ordered(seq![BuildAction::StartPipeline, BuildAction::StartSinks], 6, 8));
    assert(is_ordered(seq![BuildAction::AttachSink(SinkKind::Zenoh)], 5, 6));
    ordered_parts(
        seq![BuildAction::AttachSink(SinkKind::Zenoh)],
        seq![BuildAction::StartPipeline, BuildAction::StartSinks],
        5,
        6,
        8,
    );
    assert(is_ordered(closing, 5, 9));
    ordered_parts(first, endpoints, 0, 1, 4);
    ordered_parts(first + endpoints, image, 0, 4, 5);
    ordered_parts(first + endpoints + image, closing, 0, 5, 9);
    let refused = seq![BuildAction::Refuse(Refusal::UdpWithRtsp)];
    assert(is_ordered(refused, 8, 9));
    ordered_parts(first, refused, 0, 8, 9);
    assert(first + refused =~= first.push(BuildAction::Refuse(Refusal::UdpWithRtsp)));
}

proof fn closing_holds_no_udp(information: InformationView, settings: BuildSettings, i: int)
    requires
        0 <= i < build_actions(information, settings).len(),
        rank(build_actions(information, settings)[i]) == 1 || rank(
            build_actions(information, settings)[i],
        ) == 2,
    ensures
        !(information.source is Redirect),
        !in_conflict(information.endpoints, settings.env),
        udp_actions(information.endpoints, settings.env).len() == 2,
{
    let first = seq![BuildAction::CreatePipeline];
    let udp = udp_actions(information.endpoints, settings.env);
    let rtsp = rtsp_actions(information.endpoints, settings.rtsp);
    let endpoints = endpoint_actions(information, settings);
    let image = image_actions(information.extended, settings.env);
    let closing = closing_actions(information, settings);
    if information.source is Redirect || !in_conflict(information.endpoints, settings.env) {
        let k = i - 1 - endpoints.len();
        if i == 0 {
        } else if k < 0 {
            assert(build_actions(information, settings)[i] == endpoints[i - 1]);
        } else if k < image.len() {
            assert(build_actions(information, settings)[i] == image[k]);
        } else {
            assert(build_actions(information, settings)[i] == closing[k - image.len()]);
        }
    }
}

/// A consumer that never leaves is held exactly where a UDP sink is attached,
/// which a redirection never has; and unless it is allowed, no UDP sink is
/// attached to a stream that has an `rtsp` endpoint.
pub proof fn udp_sinks_hold_a_consumer(information: InformationView, settings: BuildSettings)
    ensures
        ({
            let plan = build_actions(information, settings);
            let attached = plan.contains(BuildAction::AttachSink(SinkKind::Udp));
            &&& attached <==> plan.contains(BuildAction::HoldConsumer)
            &&& attached ==> !(information.source is Redirect)
            &&& attached && any_scheme(information.endpoints, "rtsp"@) ==> flag_set(
                settings.env,
                "MCM_ALLOW_UDP_RTSP_CONCURRENT"@,
            )
        }),
{
    let plan = build_actions(information, settings);
    let udp = BuildAction::AttachSink(SinkKind::Udp);
    let hold = BuildAction::HoldConsumer;
    if plan.contains(udp) || plan.contains(hold) {
        let i = if plan.contains(udp) {
            choose|i: int| 0 <= i < plan.len() && plan[i] == udp
        } else {
            choose|i: int| 0 <= i < plan.len() && plan[i] == hold
        };
        closing_holds_no_udp(information, settings, i);
        let parts = udp_actions(information.endpoints, settings.env);
        assert(plan[1] == parts[0]);
        assert(plan[2] == parts[1]);
    }
}

/// A plan that refuses nothing ends by starting the pipeline and then its sinks.
pub proof fn plans_start_last(information: InformationView, settings: BuildSettings)
    ensures
        ({
            let plan = build_actions(information, settings);
            let n = plan.len();
            &&& n >= 2
            &&& plan[0] == BuildAction::CreatePipeline
            &&& plan[n - 1] is Refuse || (plan[n - 2] == BuildAction::StartPipeline && plan[n - 1]
                == BuildAction::StartSinks)
        }),
{
    let closing = closing_actions(information, settings);
    let plan = build_actions(information, settings);
    let n = plan.len();
    let m = closing.len();
    if information.source is Redirect || !in_conflict(information.endpoints, settings.env) {
        assert(plan[n - 1] == closing[m - 1]);
        assert(m >= 2 ==> plan[n - 2] == closing[m - 2]);
    }
}

/// At which point of an action something went wrong.
#[derive(Clone, Copy, Debug, PartialEq, Eq, Structural)]
pub enum Failure {
    /// The sink could not be made.
    Create,
    /// The sink, once made, could not be added.
    Add,
    /// There is no pipeline to act on.
    NoPipeline,
}

/// A stream being built: the plan and how far it was carried out.
pub struct StreamState {
    pub plan: Vec<BuildAction>,
    pub done: usize,
    pub failed: bool,
}

impl StreamState {
    pub open spec fn wf(self) -> bool {
        self.done <= self.plan@.len()
    }

    /// What is left to be done.
    pub open spec fn remaining(self) -> Seq<BuildAction> {
        if self.failed {
            Seq::empty()
        } else {
            self.plan@.skip(self.done as int)
        }
    }

    /// The stream without a pipeline: its endpoints are valid, nothing else was
    /// done.
    pub fn try_default(information: &VideoAndStreamInformation, rtsp: &RtspServerConfig) -> (r:
        Result<StreamState, ValidationError>)
        ensures
            match r {
                Ok(state) => validation(information@, *rtsp) is Ok && state.wf()
                    && state.remaining().len() == 0 && !state.failed,
                Err(error) => validation(information@, *rtsp) == Err::<(), ValidationErrorView>(
                    error@,
                ),
            },
    {
        match validate_endpoints(information, rtsp) {
            Ok(()) => {
                let state = StreamState { plan: Vec::new(), done: 0, failed: false };
                assert(state.remaining() =~= Seq::empty());
                Ok(state)
            },
            Err(error) => Err(error),
        }
    }

    /// The stream about to be built.
    pub fn try_new(information: &VideoAndStreamInformation, settings: &BuildSettings) -> (r: Result<
        StreamState,
        ValidationError,
    >)
        ensures
            match r {
                Ok(state) => validation(information@, settings.rtsp) is Ok && state.wf()
                    && !state.failed && state.remaining() == build_actions(information@, *settings),
                Err(error) => validation(information@, settings.rtsp) == Err::<
                    (),
                    ValidationErrorView,
                >(error@),
            },
    {
        match build_plan(information, settings) {
            Ok(plan) => {
                let state = StreamState { plan, done: 0, failed: false };
                assert(state.remaining() =~= state.plan@);
                Ok(state)
            },
            Err(error) => Err(error),
        }
    }

    /// The next thing to do, if anything is left.
    pub fn next_action(&self) -> (r: Option<BuildAction>)
        requires
            self.wf(),
        ensures
            self.remaining().len() == 0 ==> r is None,
            self.remaining().len() > 0 ==> r == Some(self.remaining()[0]),
    {
        if self.failed || self.done >= self.plan.len() {
            None
        } else {
            Some(self.plan[self.done])
        }
    }

    /// Notes how the next thing went. The first that fails ends the building; a
    /// refusal always does.
    pub fn report(&mut self, ok: bool)
        requires
            old(self).wf(),
            old(self).remaining().len() > 0,
        ensures
            final(self).wf(),
            final(self).plan@ == old(self).plan@,
            ({
                let carried_out = ok && !(old(self).remaining()[0] is Refuse);
                &&& final(self).failed == !carried_out
                &&& carried_out ==> final(self).remaining() == old(self).remaining().skip(1)
                &&& !carried_out ==> final(self).remaining().len() == 0
            }),
    {
        let refused = match self.plan[self.done] {
            BuildAction::Refuse(_) => true,
            _ => false,
        };
        if ok && !refused {
            assert(self.done < self.plan.len());
            self.done = self.done + 1;
            assert(self.remaining() =~= old(self).remaining().skip(1));
        } else {
            self.failed = true;
        }
    }

    /// Whether the stream stands: everything was done and nothing failed.
    pub fn is_built(&self) -> (r: bool)
        requires
            self.wf(),
        ensures
            r == (!self.failed && self.remaining().len() == 0),
    {
        !self.failed && self.done == self.plan.len()
    }
}

impl SinkKind {
    pub open spec fn name_text(self) -> Seq<char> {
        match self {
            SinkKind::Udp => "UDP"@,
            SinkKind::Rtsp => "RTSP"@,
            SinkKind::Image => "Image"@,
            SinkKind::Zenoh => "Zenoh"@,
        }
    }

    pub fn name(&self) -> (r: &'static str)
        ensures
            r@ == self.name_text(),
    {
        match self {
            SinkKind::Udp => "UDP",
            SinkKind::Rtsp => "RTSP",
            SinkKind::Image => "Image",
            SinkKind::Zenoh => "Zenoh",
        }
    }
}

pub open spec fn sink_failure_text(
    kind: SinkKind,
    failure: Failure,
    reason: Seq<char>,
) -> Seq<char> {
    match failure {
        Failure::Create => "Failed to create Sink of type "@ + kind.name_text() + ". Reason: "@
            + reason,
        Failure::Add => "Failed to add Sink of type "@ + kind.name_text()
            + " to the Pipeline. Reason: "@ + reason,
        Failure::NoPipeline => "No Pipeline available to add "@ + kind.name_text() + " sink"@,
    }
}

/// Why a sink was not attached, in words.
pub fn sink_failure_message(kind: SinkKind, failure: Failure, reason: &str) -> (r: String)
    ensures
        r@ == sink_failure_text(kind, failure, reason@),
{
    match failure {
        Failure::Create => {
            let mut s = "Failed to create Sink of type ".to_owned();
            s.append(kind.name());
            s.append(". Reason: ");
            s.append(reason);
            s
        },
        Failure::Add => {
            let mut s = "Failed to add Sink of type ".to_owned();
            s.append(kind.name());
            s.append(" to the Pipeline. Reason: ");
            s.append(reason);
            s
        },
        Failure::NoPipeline => {
            let mut s = "No Pipeline available to add ".to_owned();
            s.append(kind.name());
            s.append(" sink");
            s
        },
    }
}

impl Refusal {
    pub open spec fn text(self) -> Seq<char> {
        match self {
            Refusal::UdpWithRtsp =>
                "UDP endpoints won't work together with RTSP endpoints. You need to choose one. This is a (temporary) software limitation, if this is a feature you need, please, contact us."@,
            Refusal::NotInitialized =>
                "Redirect CaptureConfiguration means the stream was not initialized yet"@,
        }
    }

    pub fn message(&self) -> (r: &'static str)
        ensures
            r@ == self.text(),
    {
        match self {
            Refusal::UdpWithRtsp =>
                "UDP endpoints won't work together with RTSP endpoints. You need to choose one. This is a (temporary) software limitation, if this is a feature you need, please, contact us.",
            Refusal::NotInitialized =>
                "Redirect CaptureConfiguration means the stream was not initialized yet",
        }
    }
}

/// Where in a plan an action stands comes from one of its parts.
proof fn parts_of_a_plan(information: InformationView, settings: BuildSettings, action: BuildAction)
    requires
        information.source is Redirect || !in_conflict(information.endpoints, settings.env),
    ensures
        build_actions(information, settings).contains(action) <==> action
            == BuildAction::CreatePipeline || endpoint_actions(information, settings).contains(
            action,
        ) || image_actions(information.extended, settings.env).contains(action)
            || closing_actions(information, settings).contains(action),
{
    let first = seq![BuildAction::CreatePipeline];
    let endpoints = endpoint_actions(information, settings);
    let image = image_actions(information.extended, settings.env);
    let closing = closing_actions(information, settings);
    assert(first[0] == BuildAction::CreatePipeline);
    member_of_either(first, endpoints, action);
    member_of_either(first + endpoints, image, action);
    member_of_either(first + endpoints + image, closing, action);
}

proof fn member_of_either(a: Seq<BuildAction>, b: Seq<BuildAction>, action: BuildAction)
    ensures
        (a + b).contains(action) <==> a.contains(action) || b.contains(action),
{
    if a.contains(action) {
        let i = a.index_of(action);
        assert((a + b)[i] == action);
    }
    if b.contains(action) {
        let i = b.index_of(action);
        assert((a + b)[a.len() + i] == action);
    }
    if (a + b).contains(action) {
        let i = (a + b).index_of(action);
        if i < a.len() {
            assert(a[i] == action);
        } else {
            assert(b[i - a.len()] == action);
        }
    }
}

/// A stream has the sinks that it is asked to have, and no others. Of a source that
/// is no redirection and is not refused, there is an RTSP sink exactly where some
/// endpoint has a scheme that the RTSP server serves, and a UDP sink exactly where
/// some endpoint is `udp` and UDP is not disabled; redirections have neither.
pub proof fn sinks_are_those_asked_for(information: InformationView, settings: BuildSettings)
    ensures
        ({
            let plan = build_actions(information, settings);
            let endpoints = information.endpoints;
            let redirect = information.source is Redirect;
            let has_udp = exists|i: int|
                0 <= i < endpoints.len() && (#[trigger] endpoints[i]).scheme == "udp"@;
            let has_plain_rtsp = exists|i: int|
                0 <= i < endpoints.len() && (#[trigger] endpoints[i]).scheme == "rtsp"@;
            let is_served = exists|i: int, k: int|
                #![trigger endpoints[i], settings.rtsp.schemes@[k]]
                0 <= i < endpoints.len() && 0 <= k < settings.rtsp.schemes@.len()
                    && endpoints[i].scheme == settings.rtsp.schemes@[k]@;
            let refused = !redirect && has_udp && has_plain_rtsp && !flag_set(
                settings.env,
                "MCM_ALLOW_UDP_RTSP_CONCURRENT"@,
            );
            &&& plan.contains(BuildAction::Refuse(Refusal::UdpWithRtsp)) <==> refused
            &&& plan.contains(BuildAction::AttachSink(SinkKind::Rtsp)) <==> !redirect && !refused
                && is_served
            &&& plan.contains(BuildAction::AttachSink(SinkKind::Udp)) <==> !redirect && !refused
                && has_udp && !flag_set(settings.env, "MCM_DISABLE_UDP"@)
            &&& plan.contains(BuildAction::HoldConsumer) <==> !redirect && !refused && has_udp
                && !flag_set(settings.env, "MCM_DISABLE_UDP"@)
            &&& plan.contains(BuildAction::CreatePipeline)
        }),
{
    let plan = build_actions(information, settings);
    let endpoints = information.endpoints;
    let schemes = settings.rtsp.schemes@;
    let udp = BuildAction::AttachSink(SinkKind::Udp);
    let hold = BuildAction::HoldConsumer;
    let rtsp = BuildAction::AttachSink(SinkKind::Rtsp);
    let refusal = BuildAction::Refuse(Refusal::UdpWithRtsp);
    let is_served = exists|i: int, k: int|
        #![trigger endpoints[i], schemes[k]]
        0 <= i < endpoints.len() && 0 <= k < schemes.len() && endpoints[i].scheme == schemes[k]@;
    if rtsp_asked(endpoints, settings.rtsp) {
        let i = choose|i: int|
            0 <= i < endpoints.len() && settings.rtsp.serves((#[trigger] endpoints[i]).scheme);
        let k = crate::text::texts(schemes).index_of(endpoints[i].scheme);
        assert(crate::text::texts(schemes)[k] == schemes[k]@);
        assert(endpoints[i].scheme == schemes[k]@);
    }
    if is_served {
        let (i, k) = choose|i: int, k: int|
            #![trigger endpoints[i], schemes[k]]
            0 <= i < endpoints.len() && 0 <= k < schemes.len() && endpoints[i].scheme
                == schemes[k]@;
        assert(crate::text::texts(schemes)[k] == endpoints[i].scheme);
        assert(settings.rtsp.serves(endpoints[i].scheme));
    }
    assert(rtsp_asked(endpoints, settings.rtsp) == is_served);
    if !(information.source is Redirect) && in_conflict(endpoints, settings.env) {
        assert(plan[0] == BuildAction::CreatePipeline);
        assert(plan[1] == refusal);
    } else {
        let u = udp_actions(endpoints, settings.env);
        let r = rtsp_actions(endpoints, settings.rtsp);
        parts_of_a_plan(information, settings, udp);
        parts_of_a_plan(information, settings, hold);
        parts_of_a_plan(information, settings, rtsp);
        parts_of_a_plan(information, settings, refusal);
        parts_of_a_plan(information, settings, BuildAction::CreatePipeline);
        member_of_either(u, r, udp);
        member_of_either(u, r, hold);
        member_of_either(u, r, rtsp);
        member_of_either(u, r, refusal);
        if u.len() > 0 {
            assert(u[0] == udp && u[1] == hold);
        }
        if r.len() > 0 {
            assert(r[0] == rtsp);
        }
    }
}

/// Thumbnails are offered unless they are switched off, for the stream or for all;
/// video in H264 or H265 is published over zenoh where that is switched on, and not
/// off for the stream or for all. A stream whose video is not known yet is refused
/// where it would have to be published. What is not refused is started.
pub proof fn switches_decide_the_other_sinks(information: InformationView, settings: BuildSettings)
    requires
        !build_actions(information, settings).contains(
            BuildAction::Refuse(Refusal::UdpWithRtsp),
        ),
    ensures
        ({
            let plan = build_actions(information, settings);
            let extended = information.extended;
            let publishes = settings.zenoh_enabled && !(extended is Some
                && extended->0.disable_zenoh) && !flag_set(settings.env, "MCM_DISABLE_MCAP"@);
            let unknown = publishes && information.configuration is Redirect;
            &&& plan.contains(BuildAction::AttachSink(SinkKind::Image)) <==> !(extended is Some
                && extended->0.disable_thumbnails) && !flag_set(
                settings.env,
                "MCM_DISABLE_THUMBNAIL"@,
            )
            &&& plan.contains(BuildAction::AttachSink(SinkKind::Zenoh)) <==> publishes
                && information.configuration is Video && (
            information.configuration->Video_encode is H264
                || information.configuration->Video_encode is H265)
            &&& plan.contains(BuildAction::Refuse(Refusal::NotInitialized)) <==> unknown
            &&& plan.contains(BuildAction::StartPipeline) <==> !unknown
            &&& plan.contains(BuildAction::StartSinks) <==> !unknown
        }),
{
    let plan = build_actions(information, settings);
    let image = image_actions(information.extended, settings.env);
    let closing = closing_actions(information, settings);
    let n = closing.len();
    if !(information.source is Redirect) && in_conflict(information.endpoints, settings.env) {
        assert(plan[1] == BuildAction::Refuse(Refusal::UdpWithRtsp));
    }
    let actions = seq![
        BuildAction::AttachSink(SinkKind::Image),
        BuildAction::AttachSink(SinkKind::Zenoh),
        BuildAction::Refuse(Refusal::NotInitialized),
        BuildAction::StartPipeline,
        BuildAction::StartSinks,
    ];
    parts_of_a_plan(information, settings, actions[0]);
    parts_of_a_plan(information, settings, actions[1]);
    parts_of_a_plan(information, settings, actions[2]);
    parts_of_a_plan(information, settings, actions[3]);
    parts_of_a_plan(information, settings, actions[4]);
    if image.len() > 0 {
        assert(image[0] == actions[0]);
    }
    let start = seq![BuildAction::StartPipeline, BuildAction::StartSinks];
    assert(start[0] == actions[3] && start[1] == actions[4]);
    if n == 1 {
        assert(closing[0] == actions[2]);
    } else if n == 2 {
        assert(closing == start);
    } else {
        assert(closing == seq![actions[1]] + start);
        assert(closing[0] == actions[1]);
        assert(closing[1] == actions[3]);
        assert(closing[2] == actions[4]);
    }
}

/// Sinks are attached in one order, UDP before RTSP before images before zenoh, and
/// the consumer of a UDP sink is held right after it was attached; all of that comes
/// after the pipeline was made and before it is started.
pub proof fn sinks_are_attached_in_order(
    information: InformationView,
    settings: BuildSettings,
    i: int,
    j: int,
)
    requires
        0 <= i < build_actions(information, settings).len(),
        0 <= j < build_actions(information, settings).len(),
    ensures
        ({
            let plan = build_actions(information, settings);
            let udp = BuildAction::AttachSink(SinkKind::Udp);
            let rtsp = BuildAction::AttachSink(SinkKind::Rtsp);
            let image = BuildAction::AttachSink(SinkKind::Image);
            let zenoh = BuildAction::AttachSink(SinkKind::Zenoh);
            &&& plan[i] == BuildAction::CreatePipeline && j != i ==> i < j
            &&& plan[i] == udp && plan[j] == BuildAction::HoldConsumer ==> j == i + 1
            &&& plan[i] == udp && (plan[j] == rtsp || plan[j] == image || plan[j] == zenoh) ==> i
                < j
            &&& plan[i] == rtsp && (plan[j] == image || plan[j] == zenoh) ==> i < j
            &&& plan[i] == image && plan[j] == zenoh ==> i < j
            &&& plan[i] is AttachSink && plan[j] == BuildAction::StartPipeline ==> i < j
            &&& plan[i] == BuildAction::StartPipeline && plan[j] == BuildAction::StartSinks ==> j
                == i + 1
            &&& plan[i] is Refuse && j != i ==> j < i
            &&& plan[i] == plan[j] ==> i == j
        }),
{
    plans_keep_the_order(information, settings);
    let plan = build_actions(information, settings);
    assert(rank(plan[i]) < 9 && rank(plan[j]) < 9);
    if i < j {
        assert(rank(plan[i]) < rank(plan[j]));
        if i + 1 < j {
            assert(rank(plan[i]) < rank(plan[i + 1]) < rank(plan[j]));
        }
    } else if j < i {
        assert(rank(plan[j]) < rank(plan[i]));
    }
}

/// A sink that could not be attached is told by its name, with the reason, but for a
/// pipeline that is not there.
pub proof fn failed_sinks_are_told_by_name(kind: SinkKind, reason: Seq<char>)
    ensures
        SinkKind::Udp.name_text() == "UDP"@,
        SinkKind::Rtsp.name_text() == "RTSP"@,
        SinkKind::Image.name_text() == "Image"@,
        SinkKind::Zenoh.name_text() == "Zenoh"@,
        sink_failure_text(kind, Failure::Create, reason) == "Failed to create Sink of type "@
            + kind.name_text() + ". Reason: "@ + reason,
        sink_failure_text(kind, Failure::Add, reason) == "Failed to add Sink of type "@
            + kind.name_text() + " to the Pipeline. Reason: "@ + reason,
        sink_failure_text(kind, Failure::NoPipeline, reason) == "No Pipeline available to add "@
            + kind.name_text() + " sink"@,
{
}

/// A stream is built in the order of its plan: what was done is left behind, what
/// follows is left to be done, and after a failure nothing is.
pub proof fn streams_are_built_as_planned(state: StreamState, i: int)
    requires
        state.wf(),
    ensures
        state.failed ==> state.remaining().len() == 0,
        !state.failed ==> state.remaining().len() + state.done == state.plan@.len(),
        !state.failed && 0 <= i < state.plan@.len() - state.done ==> state.remaining()[i]
            == state.plan@[state.done + i],
        Refusal::UdpWithRtsp.text()
            == "UDP endpoints won't work together with RTSP endpoints. You need to choose one. This is a (temporary) software limitation, if this is a feature you need, please, contact us."@,
        Refusal::NotInitialized.text()
            == "Redirect CaptureConfiguration means the stream was not initialized yet"@,
{
}

} // verus!
