//! A stream and the watcher that keeps its pipeline in step with its consumers.
//!
//! The watcher is told what it finds each time it wakes up, and how each piece
//! of work it asked for went; it answers with what is to be done, in order.
use vstd::prelude::*;

use crate::stream::endpoint::{identity_seed, pipeline_seed};
use crate::stream::types::{
    CaptureConfiguration, CaptureView, EncodeView, ExtendedConfiguration, FrameInterval,
    InformationView, SourceView, StreamStatus, VideoAndStreamInformation,
    VideoCaptureConfiguration, VideoEncodeType, VideoSourceType,
};
use crate::stream::validation::{
    validate_endpoints, validation, RtspServerConfig, ValidationError, ValidationErrorView,
};
use crate::text::{append_u64, decimal};

verus! {

/// A second, in nanoseconds.
pub const SECOND_NS: u64 = 1_000_000_000;

/// How long a stream without consumers is kept alive, in nanoseconds.
pub const IDLE_GRACE_PERIOD_NS: u64 = 5_000_000_000;

/// How often the watcher looks around when nobody wakes it, in milliseconds.
pub const WATCH_PERIOD_MS: u64 = 100;

/// How long the watcher waits for an old pipeline to be taken down, in seconds.
pub const TEARDOWN_TIMEOUT_S: u64 = 10;

/// The longest time between two reports of a missing device, in seconds.
pub const REPORT_INTERVAL_MAX_S: u64 = 60;

/// What becomes of the consumer that a new stream is counted with.
#[derive(Clone, Copy, Debug, PartialEq, Eq, Structural)]
pub enum InitialConsumer {
    /// It stays, so that the pipeline never drains.
    Kept,
    /// It leaves at once: the pipeline is started, and drains unless somebody
    /// connects.
    Released,
}

/// A new stream.
pub struct Stream {
    /// What the identity of the pipeline is derived from.
    pub seed: String,
    pub information: VideoAndStreamInformation,
    pub initial_consumer: InitialConsumer,
}

/// What a stream is started with: a redirection is captured as video of an
/// encoding, size and rate that are yet to be found out.
pub open spec fn started_with(information: InformationView) -> InformationView {
    if information.source is Redirect {
        InformationView {
            configuration: CaptureView::Video {
                encode: EncodeView::Unknown("Redirect stream"@),
                height: 0,
                width: 0,
                frame_interval: FrameInterval { numerator: 0, denominator: 0 },
            },
            ..information
        }
    } else {
        information
    }
}

pub open spec fn is_lazy(extended: Option<ExtendedConfiguration>) -> bool {
    !(extended is Some && extended->0.disable_lazy)
}

pub open spec fn source_name(source: SourceView) -> Seq<char> {
    match source {
        SourceView::Fake(name, _) => name,
        SourceView::Gst(name, _) => name,
        SourceView::Local(name, _) => name,
        SourceView::Onvif(name, _) => name,
        SourceView::Redirect(name, _) => name,
        SourceView::CustomPipeline(name, _) => name,
    }
}

pub open spec fn source_origin(source: SourceView) -> Seq<char> {
    match source {
        SourceView::Fake(_, origin) => origin,
        SourceView::Gst(_, origin) => origin,
        SourceView::Local(_, origin) => origin,
        SourceView::Onvif(_, origin) => origin,
        SourceView::Redirect(_, origin) => origin,
        SourceView::CustomPipeline(_, origin) => origin,
    }
}

pub(crate) fn name_and_origin(source: &VideoSourceType) -> (r: (&str, &str))
    ensures
        r.0@ == source_name(source@),
        r.1@ == source_origin(source@),
{
    match source {
        VideoSourceType::Gst(s) => match &s.source {
            crate::stream::types::VideoSourceGstType::Fake(pattern) => (
                s.name.as_str(),
                pattern.as_str(),
            ),
            crate::stream::types::VideoSourceGstType::Other(description) => (
                s.name.as_str(),
                description.as_str(),
            ),
        },
        VideoSourceType::Local(s) => (s.name.as_str(), s.device_path.as_str()),
        VideoSourceType::Onvif(s) => (s.name.as_str(), s.source.as_str()),
        VideoSourceType::Redirect(s) => (s.name.as_str(), s.source.as_str()),
        VideoSourceType::CustomPipeline(s) => (s.name.as_str(), s.source_string()),
    }
}

impl Stream {
    /// Sets a stream up. Its endpoints have to be valid; its identity follows
    /// from its source; a stream that is not lazy keeps the consumer that it is
    /// first counted with.
    pub fn try_new(information: &VideoAndStreamInformation, rtsp: &RtspServerConfig) -> (r: Result<
        Stream,
        ValidationError,
    >)
        ensures
            match r {
                Ok(stream) => {
                    &&& validation(started_with(information@), *rtsp) is Ok
                    &&& stream.seed@ == identity_seed(
                        source_name(information@.source),
                        source_origin(information@.source),
                    )
                    &&& stream.information@ == started_with(information@)
                    &&& stream.initial_consumer == (if is_lazy(information@.extended) {
                        InitialConsumer::Released
                    } else {
                        InitialConsumer::Kept
                    })
                },
                Err(error) => validation(started_with(information@), *rtsp) == Err::<
                    (),
                    ValidationErrorView,
                >(error@),
            },
    {
        let (name, origin) = name_and_origin(&information.video_source);
        let seed = pipeline_seed(name, origin);
        let mut information = information.clone();
        if information.video_source.is_redirect() {
            information.stream_information.configuration = CaptureConfiguration::VIDEO(
                VideoCaptureConfiguration {
                    encode: VideoEncodeType::Unknown("Redirect stream".to_owned()),
                    height: 0,
                    width: 0,
                    frame_interval: FrameInterval { numerator: 0, denominator: 0 },
                },
            );
        }
        if let Err(error) = validate_endpoints(&information, rtsp) {
            return Err(error);
        }
        let disable_lazy = match information.stream_information.extended_configuration {
            Some(extended) => extended.disable_lazy,
            None => false,
        };
        let initial_consumer = if disable_lazy {
            InitialConsumer::Kept
        } else {
            InitialConsumer::Released
        };
        Ok(Stream { seed, information, initial_consumer })
    }
}

/// Where a stream stands between having consumers and not.
#[derive(Clone, Copy, Debug, PartialEq, Eq, Structural)]
pub enum Phase {
    /// No consumers and no pipeline.
    Idle,
    /// A consumer has come; the pipeline is to be built.
    Waking,
    /// The pipeline runs and has consumers.
    Running,
    /// The last consumer has left; the pipeline still runs.
    Draining,
}

/// The sources that the watcher tells apart.
#[derive(Clone, Copy, Debug, PartialEq, Eq, Structural)]
pub enum SourceKind {
    Redirect,
    Local,
    Other,
}

pub open spec fn kind_of(source: SourceView) -> SourceKind {
    match source {
        SourceView::Redirect(_, _) => SourceKind::Redirect,
        SourceView::Local(_, _) => SourceKind::Local,
        _ => SourceKind::Other,
    }
}

/// The kind of a source.
pub fn source_kind(source: &VideoSourceType) -> (r: SourceKind)
    ensures
        r == kind_of(source@),
{
    match source {
        VideoSourceType::Redirect(_) => SourceKind::Redirect,
        VideoSourceType::Local(_) => SourceKind::Local,
        _ => SourceKind::Other,
    }
}

/// What the watcher finds when it wakes up.
#[derive(Clone, Copy, Debug, PartialEq, Eq, Structural)]
pub struct Surroundings {
    /// The stream is being dropped.
    pub terminated: bool,
    pub phase: Phase,
    pub now_ns: u64,
    /// There is a state, with or without a pipeline.
    pub has_state: bool,
    pub has_pipeline: bool,
    /// There is a pipeline and it runs.
    pub is_running: bool,
    pub source: SourceKind,
    pub has_endpoint: bool,
}

/// What the watcher is told.
#[derive(Clone, Copy, Debug, PartialEq, Eq, Structural)]
pub enum WatchEvent {
    /// Somebody woke it, or its period is over.
    Woken(Surroundings),
    /// What the remote end sends was found out, or not.
    CaptureConfiguration { found: bool },
    /// The devices were looked through; the one that is wanted is there, or not.
    Devices { found: bool, now_ns: u64 },
    /// A new state was built, or not.
    Created {
        built: bool,
        /// One of its sinks serves RTSP.
        has_rtsp: bool,
        has_camera: bool,
        extended: Option<ExtendedConfiguration>,
    },
    /// Going idle succeeded, or a consumer had come back.
    Idle { done: bool },
}

/// What is reported of a stream that does not come up.
#[derive(Clone, Copy, Debug, PartialEq, Eq, Structural)]
pub enum WatchError {
    CaptureConfiguration,
    /// The device is not there; the next report comes after so many seconds.
    DeviceMissing { next_report_s: u64 },
    NotBuilt,
}

pub open spec fn watch_error_text(
    error: WatchError,
    pipeline_id: Seq<char>,
    cause: Seq<char>,
) -> Seq<char> {
    match error {
        WatchError::CaptureConfiguration =>
            "Failed getting CaptureConfiguration from endpoint. Error: "@ + cause
            + ". Trying again soon..."@,
        WatchError::DeviceMissing { next_report_s } => "Failed to recreate the stream "@
            + pipeline_id + ": "@ + cause
            + ". Is the device connected? Trying again each second until the success or stream is removed. Next report in "@
            + decimal(next_report_s as nat) + "s to reduce log size."@,
        WatchError::NotBuilt => "Failed to recreate the stream "@ + pipeline_id + ": "@ + cause
            + ". Trying again soon..."@,
    }
}

impl WatchError {
    /// The error in words, with the cause as it was reported.
    pub fn message(&self, pipeline_id: &str, cause: &str) -> (r: String)
        ensures
            r@ == watch_error_text(*self, pipeline_id@, cause@),
    {
        match self {
            WatchError::CaptureConfiguration => {
                let mut s =
                    "Failed getting CaptureConfiguration from endpoint. Error: ".to_owned();
                s.append(cause);
                s.append(". Trying again soon...");
                s
            },
            WatchError::DeviceMissing { next_report_s } => {
                let mut s = "Failed to recreate the stream ".to_owned();
                s.append(pipeline_id);
                s.append(": ");
                s.append(cause);
                s.append(
                    ". Is the device connected? Trying again each second until the success or stream is removed. Next report in ",
                );
                append_u64(&mut s, *next_report_s);
                s.append("s to reduce log size.");
                s
            },
            WatchError::NotBuilt => {
                let mut s = "Failed to recreate the stream ".to_owned();
                s.append(pipeline_id);
                s.append(": ");
                s.append(cause);
                s.append(". Trying again soon...");
                s
            },
        }
    }
}

/// What the watcher wants done.
#[derive(Clone, Copy, Debug, PartialEq, Eq, Structural)]
pub enum WatchAction {
    /// End the watcher.
    Stop,
    /// End the watcher with an error: a redirection without an endpoint.
    FailNoUrl,
    /// Drop the state, if there is one, without waiting for it.
    ReleaseState,
    /// Drop the state and wait until it is gone, for a limited time.
    ReleaseStateAndWait,
    ReadCaptureConfiguration,
    StoreCaptureConfiguration,
    /// Look the devices up again and look for the one that is wanted.
    RefreshDevices { should_report: bool },
    StoreSource,
    CreateState,
    /// Keep the RTSP elements of the new state for those to come.
    KeepRtsp,
    InstallState,
    CreateMavlinkCamera,
    GoRunning,
    ResetBackoff,
    SetError(WatchError),
    ClearError,
    /// Count the error, sleep for as long as the count asks, and come back.
    BackOff,
    /// Tell RTSP sinks to leave what they serve in place.
    PreserveRtsp,
    /// Go idle unless a consumer has come back.
    TryIdle,
}

/// What the watcher waits for.
#[derive(Clone, Copy, Debug, PartialEq, Eq, Structural)]
pub enum WatchStep {
    Waiting,
    ReadingConfiguration,
    Refreshing { should_report: bool },
    Creating,
    GoingIdle,
    Stopped,
}

/// The watcher's memory.
#[derive(Clone, Copy, Debug, PartialEq, Eq, Structural)]
pub struct Watcher {
    pub step: WatchStep,
    pub report_interval_s: u64,
    pub last_report_ns: u64,
    /// Since when the stream is draining.
    pub drain_start_ns: Option<u64>,
    pub has_persistent_rtsp: bool,
}

/// How much time has passed; none where the clock went back.
pub open spec fn elapsed(since: u64, now: u64) -> int {
    if now >= since {
        now - since
    } else {
        0
    }
}

pub open spec fn next_interval(interval_s: u64) -> u64 {
    if interval_s * 2 > REPORT_INTERVAL_MAX_S {
        REPORT_INTERVAL_MAX_S
    } else {
        (interval_s * 2) as u64
    }
}

pub open spec fn wants_camera(has_camera: bool, extended: Option<ExtendedConfiguration>) -> bool {
    !has_camera && extended is Some && !extended->0.disable_mavlink
}

impl Watcher {
    /// The invariant: reports are one to sixty seconds apart.
    pub open spec fn wf(self) -> bool {
        1 <= self.report_interval_s <= REPORT_INTERVAL_MAX_S
    }

    pub fn new(now_ns: u64) -> (r: Watcher)
        ensures
            r == (Watcher {
                step: WatchStep::Waiting,
                report_interval_s: 1,
                last_report_ns: now_ns,
                drain_start_ns: None,
                has_persistent_rtsp: false,
            }),
            r.wf(),
    {
        Watcher {
            step: WatchStep::Waiting,
            report_interval_s: 1,
            last_report_ns: now_ns,
            drain_start_ns: None,
            has_persistent_rtsp: false,
        }
    }

    pub open spec fn at(self, step: WatchStep) -> Watcher {
        Watcher { step, ..self }
    }

    pub open spec fn not_draining(self) -> Watcher {
        Watcher { drain_start_ns: None, ..self }
    }

    pub open spec fn report_due(self, now_ns: u64) -> bool {
        elapsed(self.last_report_ns, now_ns) >= self.report_interval_s * SECOND_NS
    }

    /// A consumer has come: the old state goes, then the source is asked for,
    /// each kind in its own way.
    pub open spec fn waking(self, found: Surroundings) -> (Watcher, Seq<WatchAction>) {
        let awake = self.not_draining();
        let released = if found.has_state {
            seq![WatchAction::ReleaseStateAndWait]
        } else {
            Seq::empty()
        };
        match found.source {
            SourceKind::Redirect => if found.has_endpoint {
                (
                    awake.at(WatchStep::ReadingConfiguration),
                    released.push(WatchAction::ReadCaptureConfiguration),
                )
            } else {
                (awake.at(WatchStep::Stopped), released.push(WatchAction::FailNoUrl))
            },
            SourceKind::Local => {
                let should_report = self.report_due(found.now_ns);
                (
                    awake.at(WatchStep::Refreshing { should_report }),
                    released.push(WatchAction::RefreshDevices { should_report }),
                )
            },
            SourceKind::Other => (
                awake.at(WatchStep::Creating),
                released.push(WatchAction::CreateState),
            ),
        }
    }

    pub open spec fn draining(self, now_ns: u64) -> (Watcher, Seq<WatchAction>) {
        let since = match self.drain_start_ns {
            Some(since) => since,
            None => now_ns,
        };
        let draining = Watcher { drain_start_ns: Some(since), ..self };
        if elapsed(since, now_ns) >= IDLE_GRACE_PERIOD_NS {
            (draining.at(WatchStep::GoingIdle), seq![WatchAction::TryIdle])
        } else {
            (draining, Seq::empty())
        }
    }

    pub open spec fn woken(self, found: Surroundings) -> (Watcher, Seq<WatchAction>) {
        if found.terminated {
            (self.at(WatchStep::Stopped), seq![WatchAction::Stop])
        } else {
            match found.phase {
                Phase::Idle => (
                    self.not_draining(),
                    if found.has_pipeline {
                        seq![WatchAction::ReleaseState]
                    } else {
                        Seq::empty()
                    },
                ),
                Phase::Waking => self.waking(found),
                Phase::Running => (
                    self.not_draining(),
                    if found.is_running {
                        Seq::empty()
                    } else {
                        seq![WatchAction::PreserveRtsp, WatchAction::BackOff]
                    },
                ),
                Phase::Draining => self.draining(found.now_ns),
            }
        }
    }

    /// The stream stands: the state is put in place, the camera is announced
    /// the first time, and errors are forgotten.
    pub open spec fn created(
        self,
        has_rtsp: bool,
        has_camera: bool,
        extended: Option<ExtendedConfiguration>,
    ) -> (Watcher, Seq<WatchAction>) {
        let keep = has_rtsp && !self.has_persistent_rtsp;
        let kept = if keep {
            seq![WatchAction::KeepRtsp]
        } else {
            Seq::empty()
        };
        let installed = kept.push(WatchAction::InstallState);
        let announced = if wants_camera(has_camera, extended) {
            installed.push(WatchAction::CreateMavlinkCamera)
        } else {
            installed
        };
        (
            Watcher {
                step: WatchStep::Waiting,
                report_interval_s: 1,
                has_persistent_rtsp: self.has_persistent_rtsp || keep,
                ..self
            },
            announced.push(WatchAction::GoRunning).push(WatchAction::ResetBackoff).push(
                WatchAction::ClearError,
            ),
        )
    }

    /// What the watcher does about an event. An event that it does not wait for
    /// changes nothing.
    pub open spec fn reaction(self, event: WatchEvent) -> (Watcher, Seq<WatchAction>) {
        match (self.step, event) {
            (WatchStep::Waiting, WatchEvent::Woken(found)) => self.woken(found),
            (
                WatchStep::ReadingConfiguration,
                WatchEvent::CaptureConfiguration { found },
            ) => if found {
                (
                    self.at(WatchStep::Creating),
                    seq![
                        WatchAction::ClearError,
                        WatchAction::StoreCaptureConfiguration,
                        WatchAction::CreateState,
                    ],
                )
            } else {
                (
                    self.at(WatchStep::Waiting),
                    seq![
                        WatchAction::SetError(WatchError::CaptureConfiguration),
                        WatchAction::BackOff,
                    ],
                )
            },
            (
                WatchStep::Refreshing { should_report },
                WatchEvent::Devices { found, now_ns },
            ) => if found {
                (
                    self.at(WatchStep::Creating),
                    seq![WatchAction::StoreSource, WatchAction::CreateState],
                )
            } else if should_report {
                (
                    Watcher {
                        step: WatchStep::Waiting,
                        last_report_ns: now_ns,
                        report_interval_s: next_interval(self.report_interval_s),
                        ..self
                    },
                    seq![
                        WatchAction::SetError(
                            WatchError::DeviceMissing { next_report_s: self.report_interval_s },
                        ),
                        WatchAction::BackOff,
                    ],
                )
            } else {
                (self.at(WatchStep::Waiting), seq![WatchAction::BackOff])
            },
            (
                WatchStep::Creating,
                WatchEvent::Created { built, has_rtsp, has_camera, extended },
            ) => if built {
                self.created(has_rtsp, has_camera, extended)
            } else {
                (
                    self.at(WatchStep::Waiting),
                    seq![WatchAction::SetError(WatchError::NotBuilt), WatchAction::BackOff],
                )
            },
            (WatchStep::GoingIdle, WatchEvent::Idle { done }) => (
                self.not_draining().at(WatchStep::Waiting),
                if done {
                    seq![WatchAction::PreserveRtsp, WatchAction::ReleaseState]
                } else {
                    Seq::empty()
                },
            ),
            _ => (self, Seq::empty()),
        }
    }

    fn on_waking(&mut self, found: &Surroundings) -> (r: Vec<WatchAction>)
        requires
            old(self).wf(),
        ensures
            (*final(self), r@) == old(self).waking(*found),
    {
        let mut actions: Vec<WatchAction> = Vec::new();
        if found.has_state {
            actions.push(WatchAction::ReleaseStateAndWait);
            assert(actions@ =~= seq![WatchAction::ReleaseStateAndWait]);
        }
        self.drain_start_ns = None;
        match found.source {
            SourceKind::Redirect => {
                if found.has_endpoint {
                    self.step = WatchStep::ReadingConfiguration;
                    actions.push(WatchAction::ReadCaptureConfiguration);
                } else {
                    self.step = WatchStep::Stopped;
                    actions.push(WatchAction::FailNoUrl);
                }
            },
            SourceKind::Local => {
                let passed: u64 = found.now_ns.saturating_sub(self.last_report_ns);
                let should_report = passed >= self.report_interval_s * SECOND_NS;
                self.step = WatchStep::Refreshing { should_report };
                actions.push(WatchAction::RefreshDevices { should_report });
            },
            SourceKind::Other => {
                self.step = WatchStep::Creating;
                actions.push(WatchAction::CreateState);
            },
        }
        actions
    }

    fn on_woken(&mut self, found: &Surroundings) -> (r: Vec<WatchAction>)
        requires
            old(self).wf(),
        ensures
            (*final(self), r@) == old(self).woken(*found),
    {
        let mut actions: Vec<WatchAction> = Vec::new();
        if found.terminated {
            self.step = WatchStep::Stopped;
            actions.push(WatchAction::Stop);
            assert(actions@ =~= seq![WatchAction::Stop]);
            return actions;
        }
        match found.phase {
            Phase::Idle => {
                self.drain_start_ns = None;
                if found.has_pipeline {
                    actions.push(WatchAction::ReleaseState);
                    assert(actions@ =~= seq![WatchAction::ReleaseState]);
                }
            },
            Phase::Waking => {
                return self.on_waking(found);
            },
            Phase::Running => {
                self.drain_start_ns = None;
                if !found.is_running {
                    actions.push(WatchAction::PreserveRtsp);
                    actions.push(WatchAction::BackOff);
                    assert(actions@ =~= seq![WatchAction::PreserveRtsp, WatchAction::BackOff]);
                }
            },
            Phase::Draining => {
                let since: u64 = match self.drain_start_ns {
                    Some(since) => since,
                    None => found.now_ns,
                };
                self.drain_start_ns = Some(since);
                if found.now_ns.saturating_sub(since) >= IDLE_GRACE_PERIOD_NS {
                    self.step = WatchStep::GoingIdle;
                    actions.push(WatchAction::TryIdle);
                    assert(actions@ =~= seq![WatchAction::TryIdle]);
                }
            },
        }
        actions
    }

    fn on_created(
        &mut self,
        has_rtsp: bool,
        has_camera: bool,
        extended: Option<ExtendedConfiguration>,
    ) -> (r: Vec<WatchAction>)
        ensures
            (*final(self), r@) == old(self).created(has_rtsp, has_camera, extended),
    {
        let mut actions: Vec<WatchAction> = Vec::new();
        if has_rtsp && !self.has_persistent_rtsp {
            self.has_persistent_rtsp = true;
            actions.push(WatchAction::KeepRtsp);
            assert(actions@ =~= seq![WatchAction::KeepRtsp]);
        }
        actions.push(WatchAction::InstallState);
        let mavlink_enabled = match extended {
            Some(e) => !e.disable_mavlink,
            None => false,
        };
        if !has_camera && mavlink_enabled {
            actions.push(WatchAction::CreateMavlinkCamera);
        }
        actions.push(WatchAction::GoRunning);
        actions.push(WatchAction::ResetBackoff);
        actions.push(WatchAction::ClearError);
        self.report_interval_s = 1;
        self.step = WatchStep::Waiting;
        actions
    }

    /// Takes an event in and says what is to be done about it.
    pub fn react(&mut self, event: WatchEvent) -> (r: Vec<WatchAction>)
        requires
            old(self).wf(),
        ensures
            (*final(self), r@) == old(self).reaction(event),
            final(self).wf(),
    {
        let mut actions: Vec<WatchAction> = Vec::new();
        match (self.step, event) {
            (WatchStep::Waiting, WatchEvent::Woken(found)) => {
                return self.on_woken(&found);
            },
            (WatchStep::ReadingConfiguration, WatchEvent::CaptureConfiguration { found }) => {
                if found {
                    self.step = WatchStep::Creating;
                    actions.push(WatchAction::ClearError);
                    actions.push(WatchAction::StoreCaptureConfiguration);
                    actions.push(WatchAction::CreateState);
                } else {
                    self.step = WatchStep::Waiting;
                    actions.push(WatchAction::SetError(WatchError::CaptureConfiguration));
                    actions.push(WatchAction::BackOff);
                }
            },
            (WatchStep::Refreshing { should_report }, WatchEvent::Devices { found, now_ns }) => {
                if found {
                    self.step = WatchStep::Creating;
                    actions.push(WatchAction::StoreSource);
                    actions.push(WatchAction::CreateState);
                } else {
                    if should_report {
                        actions.push(
                            WatchAction::SetError(
                                WatchError::DeviceMissing { next_report_s: self.report_interval_s },
                            ),
                        );
                        self.last_report_ns = now_ns;
                        self.report_interval_s = self.report_interval_s * 2;
                        if self.report_interval_s > REPORT_INTERVAL_MAX_S {
                            self.report_interval_s = REPORT_INTERVAL_MAX_S;
                        }
                    }
                    self.step = WatchStep::Waiting;
                    actions.push(WatchAction::BackOff);
                }
            },
            (
                WatchStep::Creating,
                WatchEvent::Created { built, has_rtsp, has_camera, extended },
            ) => {
                if built {
                    return self.on_created(has_rtsp, has_camera, extended);
                }
                self.step = WatchStep::Waiting;
                actions.push(WatchAction::SetError(WatchError::NotBuilt));
                actions.push(WatchAction::BackOff);
            },
            (WatchStep::GoingIdle, WatchEvent::Idle { done }) => {
                self.drain_start_ns = None;
                self.step = WatchStep::Waiting;
                if done {
                    actions.push(WatchAction::PreserveRtsp);
                    actions.push(WatchAction::ReleaseState);
                }
            },
            _ => {},
        }
        assert(actions@ =~= old(self).reaction(event).1);
        actions
    }
}

/// A watcher that has stopped does nothing more, whatever it is told.
pub proof fn stopped_watchers_stay_stopped(watcher: Watcher, event: WatchEvent)
    requires
        watcher.step == WatchStep::Stopped,
    ensures
        watcher.reaction(event) == (watcher, Seq::<WatchAction>::empty()),
{
}

/// A stream whose pipeline has stopped by itself, a frozen one among them, is
/// backed off from, so that it is built anew; what RTSP serves is left in place.
pub proof fn stopped_pipelines_are_built_anew(watcher: Watcher, found: Surroundings)
    requires
        watcher.step == WatchStep::Waiting,
        !found.terminated,
        found.phase == Phase::Running,
    ensures
        ({
            let (after, actions) = watcher.reaction(WatchEvent::Woken(found));
            &&& after.step == WatchStep::Waiting
            &&& !found.is_running ==> actions == seq![
                WatchAction::PreserveRtsp,
                WatchAction::BackOff,
            ]
            &&& found.is_running ==> actions == Seq::<WatchAction>::empty()
        }),
{
}

/// Reports of a missing device never come closer than a second nor further
/// apart than a minute, and a stream that comes up starts over at one second.
pub proof fn report_interval_stays_in_bounds(watcher: Watcher, event: WatchEvent)
    requires
        watcher.wf(),
    ensures
        watcher.reaction(event).0.wf(),
        watcher.reaction(event).0.report_interval_s >= watcher.report_interval_s || watcher.reaction(
            event,
        ).0.report_interval_s == 1,
{
}

/// A stream is only asked to go idle after it was seen draining, without a
/// break, for the whole grace period: the moment it began is remembered as long
/// as it is found draining, and forgotten when it is found in any other phase.
pub proof fn idle_only_after_the_grace_period(watcher: Watcher, found: Surroundings)
    requires
        watcher.step == WatchStep::Waiting,
        !found.terminated,
    ensures
        ({
            let (after, actions) = watcher.reaction(WatchEvent::Woken(found));
            &&& actions.contains(WatchAction::TryIdle) ==> found.phase == Phase::Draining
                && watcher.drain_start_ns is Some && elapsed(
                watcher.drain_start_ns->0,
                found.now_ns,
            ) >= IDLE_GRACE_PERIOD_NS
            &&& found.phase == Phase::Draining ==> after.drain_start_ns == (
            if watcher.drain_start_ns is Some {
                watcher.drain_start_ns
            } else {
                Some(found.now_ns)
            })
            &&& found.phase != Phase::Draining ==> after.drain_start_ns is None
        }),
{
    let (after, actions) = watcher.reaction(WatchEvent::Woken(found));
    if actions.contains(WatchAction::TryIdle) {
        let i = choose|i: int| 0 <= i < actions.len() && actions[i] == WatchAction::TryIdle;
        assert(actions[i] == WatchAction::TryIdle);
    }
}

/// Whatever goes wrong while a stream is brought up, the watcher backs off and
/// waits to be woken again; no state is put in place then.
pub proof fn failures_back_off(watcher: Watcher, event: WatchEvent)
    requires
        ({
            ||| watcher.step == WatchStep::ReadingConfiguration && event
                == (WatchEvent::CaptureConfiguration { found: false })
            ||| watcher.step is Refreshing && event is Devices && !event->Devices_found
            ||| watcher.step == WatchStep::Creating && event is Created && !event->built
        }),
    ensures
        ({
            let (after, actions) = watcher.reaction(event);
            &&& after.step == WatchStep::Waiting
            &&& actions.last() == WatchAction::BackOff
            &&& !actions.contains(WatchAction::InstallState)
        }),
{
}

/// The RTSP elements are kept the first time there are any, and never exchanged
/// for others.
pub proof fn rtsp_is_kept_once(watcher: Watcher, event: WatchEvent)
    ensures
        ({
            let (after, actions) = watcher.reaction(event);
            &&& watcher.has_persistent_rtsp ==> !actions.contains(WatchAction::KeepRtsp)
            &&& after.has_persistent_rtsp <==> watcher.has_persistent_rtsp || actions.contains(
                WatchAction::KeepRtsp,
            )
        }),
{
    let (after, actions) = watcher.reaction(event);
    if after.has_persistent_rtsp && !watcher.has_persistent_rtsp {
        assert(actions[0] == WatchAction::KeepRtsp);
    }
}

/// A stream that wakes gives its old state up first; a new one is put in place
/// only after it was asked for and made.
pub proof fn states_come_one_after_the_other(watcher: Watcher, event: WatchEvent)
    ensures
        ({
            let (after, actions) = watcher.reaction(event);
            &&& actions.contains(WatchAction::InstallState) ==> watcher.step == WatchStep::Creating
                && event is Created && event->built
            &&& after.step == WatchStep::Creating && watcher.step != WatchStep::Creating
                ==> actions.last() == WatchAction::CreateState
            &&& actions.contains(WatchAction::CreateState) ==> after.step == WatchStep::Creating
            &&& (watcher.step == WatchStep::Waiting && event is Woken && event->Woken_0.has_state
                && event->Woken_0.phase == Phase::Waking && !event->Woken_0.terminated)
                ==> actions[0] == WatchAction::ReleaseStateAndWait
        }),
{
}

/// A stream that has its MAVLink camera, or must not have one, gets none.
pub proof fn cameras_are_announced_once(watcher: Watcher, event: WatchEvent)
    ensures
        watcher.reaction(event).1.contains(WatchAction::CreateMavlinkCamera) ==> event is Created
            && event->built && !event->has_camera && event->extended is Some
            && !event->extended->0.disable_mavlink,
{
}

/// Some running stream uses the source.
pub open spec fn is_taken(statuses: Seq<StreamStatus>, source: SourceView) -> bool {
    exists|i: int|
        0 <= i < statuses.len() && (#[trigger] statuses[i]).running
            && statuses[i].video_and_stream@.source == source
}

/// Those of the first `n` candidates that no running stream uses, in order.
pub open spec fn free_sources(
    candidates: Seq<VideoSourceType>,
    statuses: Seq<StreamStatus>,
    n: nat,
) -> Seq<SourceView>
    decreases n,
{
    if n == 0 {
        Seq::empty()
    } else {
        let before = free_sources(candidates, statuses, (n - 1) as nat);
        if is_taken(statuses, candidates[n - 1]@) {
            before
        } else {
            before.push(candidates[n - 1]@)
        }
    }
}

fn source_is_taken(statuses: &Vec<StreamStatus>, source: &VideoSourceType) -> (r: bool)
    ensures
        r == is_taken(statuses@, source@),
{
    let mut i: usize = 0;
    while i < statuses.len()
        invariant
            i <= statuses.len(),
            forall|j: int|
                0 <= j < i ==> !((#[trigger] statuses[j]).running
                    && statuses[j].video_and_stream@.source == source@),
        decreases statuses.len() - i,
    {
        if statuses[i].running && statuses[i].video_and_stream.video_source.same_source(source) {
            assert(statuses@[i as int].running);
            return true;
        }
        i += 1;
    }
    false
}

/// The candidates that a stream may take: those that no running stream uses.
pub fn free_candidates(candidates: &Vec<VideoSourceType>, statuses: &Vec<StreamStatus>) -> (r: Vec<
    VideoSourceType,
>)
    ensures
        r@.map_values(|s: VideoSourceType| s@) == free_sources(
            candidates@,
            statuses@,
            candidates@.len(),
        ),
{
    let mut r: Vec<VideoSourceType> = Vec::new();
    let mut i: usize = 0;
    assert(r@.map_values(|s: VideoSourceType| s@) =~= Seq::<SourceView>::empty());
    while i < candidates.len()
        invariant
            i <= candidates.len(),
            r@.map_values(|s: VideoSourceType| s@) == free_sources(
                candidates@,
                statuses@,
                i as nat,
            ),
        decreases candidates.len() - i,
    {
        if !source_is_taken(statuses, &candidates[i]) {
            let ghost before = r@;
            r.push(candidates[i].clone());
            assert(r@.map_values(|s: VideoSourceType| s@) =~= before.map_values(
                |s: VideoSourceType| s@,
            ).push(candidates[i as int]@));
        }
        i += 1;
    }
    r
}

/// Nothing that a running stream uses is offered, and everything else is.
pub proof fn only_free_sources_are_offered(
    candidates: Seq<VideoSourceType>,
    statuses: Seq<StreamStatus>,
    n: nat,
    source: SourceView,
)
    requires
        n <= candidates.len(),
    ensures
        free_sources(candidates, statuses, n).contains(source) <==> !is_taken(statuses, source)
            && exists|i: int| 0 <= i < n && (#[trigger] candidates[i])@ == source,
    decreases n,
{
    if n > 0 {
        let before = free_sources(candidates, statuses, (n - 1) as nat);
        only_free_sources_are_offered(candidates, statuses, (n - 1) as nat, source);
        let last = candidates[n - 1]@;
        if !is_taken(statuses, last) {
            let all = before.push(last);
            assert(all[before.len() as int] == last);
            if before.contains(source) {
                let j = before.index_of(source);
                assert(all[j] == source);
            }
        }
    }
}

/// What stands in a list of up to six actions is contained in it.
proof fn listed_actions(actions: Seq<WatchAction>)
    ensures
        actions.len() > 0 ==> actions.contains(actions[0]),
        actions.len() > 1 ==> actions.contains(actions[1]),
        actions.len() > 2 ==> actions.contains(actions[2]),
        actions.len() > 3 ==> actions.contains(actions[3]),
        actions.len() > 4 ==> actions.contains(actions[4]),
        actions.len() > 5 ==> actions.contains(actions[5]),
{
}

/// Whatever sinks a stream has: once it was built it is put in place and goes
/// running, its errors are forgotten, and its MAVLink camera is made where it has
/// none yet and its settings are there and do not disable MAVLink. Nothing else
/// does any of that, but that errors are also forgotten once a remote end has told
/// what it sends.
pub proof fn built_streams_are_announced(watcher: Watcher, event: WatchEvent)
    ensures
        ({
            let actions = watcher.reaction(event).1;
            let built = watcher.step == WatchStep::Creating && event is Created && event->built;
            let told = watcher.step == WatchStep::ReadingConfiguration && event
                == (WatchEvent::CaptureConfiguration { found: true });
            &&& actions.contains(WatchAction::CreateMavlinkCamera) <==> built && !event->has_camera
                && event->extended is Some && !event->extended->0.disable_mavlink
            &&& actions.contains(WatchAction::InstallState) <==> built
            &&& actions.contains(WatchAction::GoRunning) <==> built
            &&& actions.contains(WatchAction::ResetBackoff) <==> built
            &&& actions.contains(WatchAction::ClearError) <==> built || told
            &&& actions.contains(WatchAction::KeepRtsp) <==> built && event->has_rtsp
                && !watcher.has_persistent_rtsp
            &&& actions.contains(WatchAction::StoreCaptureConfiguration) <==> told
        }),
{
    listed_actions(watcher.reaction(event).1);
}

/// A stream that was woken by a consumer gives its old state up, and its source is
/// asked for: a remote end for what it sends, the devices for the one that is
/// wanted; any other source is built at once. A remote end without an address cannot
/// be asked. The devices' answer, like the remote end's, leads to building.
pub proof fn woken_streams_ask_for_their_source(watcher: Watcher, event: WatchEvent)
    ensures
        ({
            let actions = watcher.reaction(event).1;
            let found = event->Woken_0;
            let waking = watcher.step == WatchStep::Waiting && event is Woken && !found.terminated
                && found.phase == Phase::Waking;
            let told = watcher.step == WatchStep::ReadingConfiguration && event
                == (WatchEvent::CaptureConfiguration { found: true });
            let seen = watcher.step is Refreshing && event is Devices && event->Devices_found;
            let due = found.now_ns - watcher.last_report_ns >= watcher.report_interval_s
                * 1_000_000_000;
            &&& actions.contains(WatchAction::ReleaseStateAndWait) <==> waking && found.has_state
            &&& actions.contains(WatchAction::ReadCaptureConfiguration) <==> waking && found.source
                == SourceKind::Redirect && found.has_endpoint
            &&& actions.contains(WatchAction::FailNoUrl) <==> waking && found.source
                == SourceKind::Redirect && !found.has_endpoint
            &&& watcher.report_interval_s >= 1 ==> (actions.contains(
                WatchAction::RefreshDevices { should_report: true },
            ) <==> waking && found.source == SourceKind::Local && due)
            &&& watcher.report_interval_s >= 1 ==> (actions.contains(
                WatchAction::RefreshDevices { should_report: false },
            ) <==> waking && found.source == SourceKind::Local && !due)
            &&& actions.contains(WatchAction::StoreSource) <==> seen
            &&& actions.contains(WatchAction::CreateState) <==> told || seen || (waking
                && found.source == SourceKind::Other)
        }),
{
    listed_actions(watcher.reaction(event).1);
}

/// A watcher backs off exactly where something went wrong: the remote end, the
/// device or the new state was not there, or a pipeline that should run does not.
/// What went wrong is told, a missing device only when a report is due.
pub proof fn what_goes_wrong_is_told(watcher: Watcher, event: WatchEvent)
    ensures
        ({
            let actions = watcher.reaction(event).1;
            let untold = watcher.step == WatchStep::ReadingConfiguration && event
                == (WatchEvent::CaptureConfiguration { found: false });
            let unseen = watcher.step is Refreshing && event is Devices && !event->Devices_found;
            let unbuilt = watcher.step == WatchStep::Creating && event is Created && !event->built;
            let broken = watcher.step == WatchStep::Waiting && event is Woken
                && !event->Woken_0.terminated && event->Woken_0.phase == Phase::Running
                && !event->Woken_0.is_running;
            let report = WatchError::DeviceMissing { next_report_s: watcher.report_interval_s };
            &&& actions.contains(WatchAction::BackOff) <==> untold || unseen || unbuilt || broken
            &&& actions.contains(WatchAction::SetError(WatchError::CaptureConfiguration)) <==> untold
            &&& actions.contains(WatchAction::SetError(WatchError::NotBuilt)) <==> unbuilt
            &&& actions.contains(WatchAction::SetError(report)) <==> unseen
                && watcher.step->should_report
        }),
{
    listed_actions(watcher.reaction(event).1);
}

/// A watcher ends where its stream is dropped. A stream that was found idle drops
/// the pipeline it still has; one that has gone idle drops its state, and what RTSP
/// serves is left in place then, as where a pipeline has stopped by itself. A stream
/// is asked to go idle once it has been draining for five seconds.
pub proof fn streams_without_consumers_go_idle(watcher: Watcher, event: WatchEvent)
    ensures
        ({
            let actions = watcher.reaction(event).1;
            let found = event->Woken_0;
            let woken = watcher.step == WatchStep::Waiting && event is Woken && !found.terminated;
            let idle = watcher.step == WatchStep::GoingIdle && event == (WatchEvent::Idle {
                done: true,
            });
            let broken = woken && found.phase == Phase::Running && !found.is_running;
            &&& actions.contains(WatchAction::Stop) <==> watcher.step == WatchStep::Waiting
                && event is Woken && found.terminated
            &&& actions.contains(WatchAction::ReleaseState) <==> idle || (woken && found.phase
                == Phase::Idle && found.has_pipeline)
            &&& actions.contains(WatchAction::PreserveRtsp) <==> idle || broken
            &&& actions.contains(WatchAction::TryIdle) <==> woken && found.phase == Phase::Draining
                && watcher.drain_start_ns is Some && found.now_ns - watcher.drain_start_ns->0
                >= 5_000_000_000
        }),
{
    listed_actions(watcher.reaction(event).1);
}

/// What a watcher waits for next. An answer that it does not wait for leaves it
/// where it was.
pub proof fn watchers_wait_for_what_they_asked(watcher: Watcher, event: WatchEvent)
    ensures
        ({
            let (after, actions) = watcher.reaction(event);
            let answered = match watcher.step {
                WatchStep::Waiting => event is Woken,
                WatchStep::ReadingConfiguration => event is CaptureConfiguration,
                WatchStep::Refreshing { .. } => event is Devices,
                WatchStep::Creating => event is Created,
                WatchStep::GoingIdle => event is Idle,
                WatchStep::Stopped => false,
            };
            &&& !answered ==> after == watcher && actions.len() == 0
            &&& answered ==> after.step == (if actions.contains(WatchAction::CreateState) {
                WatchStep::Creating
            } else if actions.contains(WatchAction::ReadCaptureConfiguration) {
                WatchStep::ReadingConfiguration
            } else if actions.contains(WatchAction::RefreshDevices { should_report: true }) {
                WatchStep::Refreshing { should_report: true }
            } else if actions.contains(WatchAction::RefreshDevices { should_report: false }) {
                WatchStep::Refreshing { should_report: false }
            } else if actions.contains(WatchAction::TryIdle) {
                WatchStep::GoingIdle
            } else if actions.contains(WatchAction::Stop) || actions.contains(
                WatchAction::FailNoUrl,
            ) {
                WatchStep::Stopped
            } else {
                WatchStep::Waiting
            })
        }),
{
    listed_actions(watcher.reaction(event).1);
}

/// A report of a missing device doubles the time to the next one, up to a minute,
/// and is remembered with the moment it was made; a stream that was built starts
/// over at a second. Nothing else touches either.
pub proof fn reports_become_rarer(watcher: Watcher, event: WatchEvent)
    requires
        1 <= watcher.report_interval_s <= 60,
    ensures
        ({
            let after = watcher.reaction(event).0;
            let reported = watcher.step == (WatchStep::Refreshing { should_report: true })
                && event is Devices && !event->Devices_found;
            let built = watcher.step == WatchStep::Creating && event is Created && event->built;
            let twice = 2 * watcher.report_interval_s;
            &&& reported ==> after.last_report_ns == event->Devices_now_ns
                && after.report_interval_s == if twice < 60 {
                twice
            } else {
                60
            }
            &&& built ==> after.report_interval_s == 1
            &&& !reported ==> after.last_report_ns == watcher.last_report_ns
            &&& !reported && !built ==> after.report_interval_s == watcher.report_interval_s
        }),
{
}

/// What is done after a stream was built comes in one order: RTSP is kept and the
/// state put in place before the camera is made and the stream goes running. Old
/// states go before anything is asked for; what was found is stored before a new
/// state is made; errors are told before the watcher backs off, and RTSP is told to
/// stay before a state is dropped or backed off from.
pub proof fn actions_come_in_order(watcher: Watcher, event: WatchEvent, i: int, j: int)
    requires
        0 <= i < watcher.reaction(event).1.len(),
        0 <= j < watcher.reaction(event).1.len(),
    ensures
        ({
            let actions = watcher.reaction(event).1;
            &&& actions[i] == actions[j] ==> i == j
            &&& actions[i] == WatchAction::KeepRtsp && i != j ==> i < j
            &&& actions[i] == WatchAction::InstallState && (actions[j]
                == WatchAction::CreateMavlinkCamera || actions[j] == WatchAction::GoRunning) ==> i
                < j
            &&& actions[i] == WatchAction::CreateMavlinkCamera && actions[j]
                == WatchAction::GoRunning ==> i < j
            &&& actions[i] == WatchAction::ReleaseStateAndWait && i != j ==> i < j
            &&& actions[i] == WatchAction::CreateState && i != j ==> j < i
            &&& actions[i] == WatchAction::BackOff && i != j ==> j < i
            &&& actions[i] == WatchAction::PreserveRtsp && i != j ==> i < j
        }),
{
}

/// A redirection is started as video that is yet to be found out, in everything else
/// as it was given; any other stream is started as it was given.
pub proof fn streams_start_as_they_were_given(information: InformationView)
    ensures
        ({
            let started = started_with(information);
            &&& started.name == information.name && started.endpoints == information.endpoints
                && started.extended == information.extended && started.source
                == information.source
            &&& !(information.source is Redirect) ==> started.configuration
                == information.configuration
            &&& information.source is Redirect ==> started.configuration is Video
                && started.configuration->height == 0 && started.configuration->width == 0
                && started.configuration->Video_encode is Unknown
        }),
        is_lazy(information.extended) <==> information.extended is None
            || !information.extended->0.disable_lazy,
{
}

/// A source is called by its own name and taken from its own origin, whatever kind it
/// is of.
pub proof fn sources_keep_their_names(name: Seq<char>, origin: Seq<char>)
    ensures
        forall|source: SourceView|
            #![trigger source_name(source)]
            #![trigger source_origin(source)]
            source == SourceView::Fake(name, origin) || source == SourceView::Gst(name, origin)
                || source == SourceView::Local(name, origin) || source == SourceView::Onvif(
                name,
                origin,
            ) || source == SourceView::Redirect(name, origin) || source
                == SourceView::CustomPipeline(name, origin) ==> source_name(source) == name
                && source_origin(source) == origin,
        kind_of(SourceView::Redirect(name, origin)) == SourceKind::Redirect,
        kind_of(SourceView::Local(name, origin)) == SourceKind::Local,
        kind_of(SourceView::Fake(name, origin)) == SourceKind::Other,
        kind_of(SourceView::Gst(name, origin)) == SourceKind::Other,
        kind_of(SourceView::Onvif(name, origin)) == SourceKind::Other,
        kind_of(SourceView::CustomPipeline(name, origin)) == SourceKind::Other,
{
}

/// A source is offered exactly where it is a candidate and no running stream is taken
/// from it; candidates are offered in their order, so that one more candidate adds at
/// most itself, at the end.
pub proof fn free_sources_are_offered_in_order(
    candidates: Seq<VideoSourceType>,
    statuses: Seq<StreamStatus>,
    n: nat,
    source: SourceView,
)
    requires
        n < candidates.len(),
    ensures
        ({
            let before = free_sources(candidates, statuses, n);
            let after = free_sources(candidates, statuses, n + 1);
            let next = candidates[n as int]@;
            let used = exists|i: int|
                0 <= i < statuses.len() && (#[trigger] statuses[i]).running
                    && statuses[i].video_and_stream@.source == next;
            &&& used ==> after == before
            &&& !used ==> after == before.push(next)
        }),
        free_sources(candidates, statuses, 0).len() == 0,
{
    assert(free_sources(candidates, statuses, (n + 1 - 1) as nat) == free_sources(
        candidates,
        statuses,
        n,
    ));
}

/// What went wrong is told with its cause; a stream that was not made again with its
/// identity, and one whose device is missing with the time until the next report.
pub proof fn watch_errors_are_told_with_their_cause(
    pipeline_id: Seq<char>,
    cause: Seq<char>,
    next_report_s: u64,
)
    ensures
        watch_error_text(WatchError::CaptureConfiguration, pipeline_id, cause)
            == "Failed getting CaptureConfiguration from endpoint. Error: "@ + cause
            + ". Trying again soon..."@,
        watch_error_text(WatchError::NotBuilt, pipeline_id, cause)
            == "Failed to recreate the stream "@ + pipeline_id + ": "@ + cause
            + ". Trying again soon..."@,
        watch_error_text(WatchError::DeviceMissing { next_report_s }, pipeline_id, cause)
            == "Failed to recreate the stream "@ + pipeline_id + ": "@ + cause
            + ". Is the device connected? Trying again each second until the success or stream is removed. Next report in "@
            + decimal(next_report_s as nat) + "s to reduce log size."@,
{
}

} // verus!
