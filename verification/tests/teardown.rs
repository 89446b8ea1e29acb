//! Branches on a tee, waits for states and the order of taking things down.
use mavlink_camera_manager::stream::debug_env::Environment;
use mavlink_camera_manager::stream::endpoint::Endpoint;
use mavlink_camera_manager::stream::peer_id::PeerId;
use mavlink_camera_manager::stream::pipeline::runner::{BusControl, BusHandler};
use mavlink_camera_manager::stream::sink::branch::{
    Branch, BranchStep, BranchWork, Cleanup, ElementState, Removal,
};
use mavlink_camera_manager::stream::sink::udp_sink::UdpSink;
use mavlink_camera_manager::stream::sink::unlinking::{UnlinkStep, Unlinking};
use mavlink_camera_manager::stream::sink::webrtc_sink::WebRTCSink;
use mavlink_camera_manager::stream::sink::zenoh_sink::ZenohSink;
use mavlink_camera_manager::stream::teardown::{
    shutdown_session, SessionStep, StateWait, StreamTeardown, TeardownEvent, TeardownStage,
    WaitVerdict,
};
use mavlink_camera_manager::stream::types::{
    CaptureConfiguration, FrameInterval, StreamInformation, VideoAndStreamInformation,
    VideoCaptureConfiguration, VideoEncodeType, VideoSourceGst, VideoSourceGstType,
    VideoSourceType,
};
use mavlink_camera_manager::stream::webrtc::signalling_protocol::BindAnswer;

/// Carries out a piece of work, with the steps that `fails` picks going wrong.
fn carry_out(
    work: &mut BranchWork,
    branch: &mut Branch,
    fails: fn(BranchStep) -> bool,
) -> Result<(), BranchStep> {
    while let Some(step) = work.next_step() {
        let ok = !fails(step);
        if ok {
            branch.apply(step);
        }
        work.report(ok);
    }
    work.outcome().expect("the work is done")
}

fn nothing_fails(_step: BranchStep) -> bool {
    false
}

/// Waits for a state that an element is in; gives the time slept, in milliseconds.
fn slept_until(wait: &StateWait, current: ElementState) -> u64 {
    let mut elapsed = 0;
    loop {
        match wait.check(current, elapsed) {
            WaitVerdict::Reached => return elapsed,
            WaitVerdict::TimedOut => panic!("did not reach {:?}", wait.target),
            WaitVerdict::Sleep(ms) => elapsed += ms,
        }
    }
}

/// Shuts a session down; gives the time slept, in milliseconds.
fn shut_down(steps: Vec<SessionStep>, session: &mut ElementState) -> u64 {
    let mut slept = 0;
    for step in steps {
        match step {
            SessionStep::SetNull => *session = ElementState::Null,
            SessionStep::AwaitNull => slept += slept_until(&StateWait::for_null(), *session),
            SessionStep::StopRunner | SessionStep::ReleaseRequestPad => {}
        }
    }
    slept
}

/// Unlinks a sink whose session plays; gives the state that its session ends in.
fn unlink(mut unlinking: Unlinking, branch: &mut Branch) -> ElementState {
    let mut session = ElementState::Playing;
    while let Some(step) = unlinking.next_step() {
        match step {
            UnlinkStep::Session(step) => {
                shut_down(vec![step], &mut session);
            }
            UnlinkStep::Branch(step) => {
                assert_eq!(session, ElementState::Null);
                branch.apply(step);
            }
        }
        unlinking.report(true);
    }
    assert_eq!(unlinking.outcome(), Some(Ok(())));
    session
}

fn stream_information(endpoints: &[&str], encode: VideoEncodeType) -> VideoAndStreamInformation {
    VideoAndStreamInformation {
        name: "teardown".to_string(),
        stream_information: StreamInformation {
            endpoints: endpoints
                .iter()
                .map(|endpoint| Endpoint::parse(endpoint).unwrap())
                .collect(),
            configuration: CaptureConfiguration::VIDEO(VideoCaptureConfiguration {
                encode,
                height: 120,
                width: 160,
                frame_interval: FrameInterval {
                    numerator: 1,
                    denominator: 30,
                },
            }),
            extended_configuration: None,
        },
        video_source: VideoSourceType::Gst(VideoSourceGst {
            name: "Fake".to_string(),
            source: VideoSourceGstType::Fake("ball".to_string()),
        }),
    }
}

fn empty_environment() -> Environment {
    Environment { vars: vec![] }
}

#[test]
fn gst_bin_remove_does_not_null_the_child() {
    let mut pipeline = Branch::new(1, ElementState::Playing);
    pipeline.apply(BranchStep::Add(0));
    pipeline.apply(BranchStep::Sync);
    assert_eq!(pipeline.members[0].state, ElementState::Playing);

    pipeline.apply(BranchStep::Remove(0));
    assert_eq!(
        pipeline.members[0].state,
        ElementState::Playing,
        "gst_bin_remove must leave the child's state unchanged"
    );

    pipeline.apply(BranchStep::SetNull(0));
    assert_eq!(pipeline.members[0].state, ElementState::Null);
}

#[test]
fn unlink_sink_from_tee_nulls_removed_elements() {
    let mut branch = Branch::new(2, ElementState::Playing);
    let mut link = BranchWork::attach(2, Cleanup::Thorough);
    carry_out(&mut link, &mut branch, nothing_fails).unwrap();
    assert_ne!(branch.members[0].state, ElementState::Null);
    assert_ne!(branch.members[1].state, ElementState::Null);
    assert!(branch.pad.joined && !branch.pad.blocked);

    let mut unlink = BranchWork::detach(2, Removal::Demanded);
    carry_out(&mut unlink, &mut branch, nothing_fails).unwrap();

    assert_eq!(branch.members[0].state, ElementState::Null);
    assert_eq!(branch.members[1].state, ElementState::Null);
    assert!(!branch.members[0].in_pipeline);
    assert!(!branch.members[1].in_pipeline);
    assert!(!branch.pad.requested);
}

#[test]
fn session_pipeline_is_nulled_before_proxysink_is_detached() {
    let mut branch = Branch::new(1, ElementState::Playing);
    let mut link = BranchWork::attach(1, Cleanup::Thorough);
    carry_out(&mut link, &mut branch, nothing_fails).unwrap();
    let mut session = ElementState::Playing;
    assert_ne!(branch.members[0].state, ElementState::Null);

    let mut unlinking = Unlinking::new(false, 1);
    while let Some(step) = unlinking.next_step() {
        match step {
            UnlinkStep::Session(step) => {
                assert_eq!(shut_down(vec![step], &mut session), 0);
                assert_ne!(
                    branch.members[0].state,
                    ElementState::Null,
                    "proxysink must still be live on the main pipeline when proxysrc reaches Null"
                );
                assert!(
                    branch.members[0].in_pipeline,
                    "proxysink must still be parented until unlink_sink_from_tee"
                );
            }
            UnlinkStep::Branch(step) => {
                assert_eq!(session, ElementState::Null);
                branch.apply(step);
            }
        }
        assert!(unlinking.outcome().is_none());
        unlinking.report(true);
    }
    assert_eq!(unlinking.outcome(), Some(Ok(())));
    assert_eq!(branch.members[0].state, ElementState::Null);
    assert!(!branch.members[0].in_pipeline);
}

#[test]
fn unlink_sink_from_tee_nulls_elements_when_remove_many_fails() {
    // The third element was never linked: it is no child of the pipeline.
    let mut branch = Branch::new(3, ElementState::Playing);
    let mut link = BranchWork::attach(2, Cleanup::Thorough);
    carry_out(&mut link, &mut branch, nothing_fails).unwrap();
    assert_ne!(branch.members[0].state, ElementState::Null);
    assert_ne!(branch.members[1].state, ElementState::Null);

    let mut unlink = BranchWork::detach(3, Removal::Demanded);
    let result = carry_out(&mut unlink, &mut branch, |step| step == BranchStep::Remove(2));

    assert!(
        result.is_err(),
        "remove_many must fail when an element is not a child of the pipeline"
    );
    assert_eq!(branch.members[0].state, ElementState::Null);
    assert_eq!(branch.members[1].state, ElementState::Null);
}

#[test]
fn link_sink_to_tee_cleanup_nulls_elements_after_failed_link() {
    let mut branch = Branch::new(2, ElementState::Playing);
    let mut link = BranchWork::attach(2, Cleanup::Thorough);
    let result = carry_out(&mut link, &mut branch, |step| step == BranchStep::Chain(0));

    assert!(result.is_err(), "queue cannot link to videotestsrc");
    assert!(!branch.members[0].in_pipeline);
    assert!(!branch.members[1].in_pipeline);
    assert_eq!(branch.members[0].state, ElementState::Null);
    assert_eq!(branch.members[1].state, ElementState::Null);
}

#[test]
fn set_element_state_null_on_playing_element_stays_within_lock_budget() {
    let mut branch = Branch::new(1, ElementState::Playing);
    branch.apply(BranchStep::Add(0));
    branch.apply(BranchStep::Sync);
    let playing = StateWait {
        target: ElementState::Playing,
        polling_ms: 50,
        timeout_ms: 5000,
    };
    assert_eq!(slept_until(&playing, branch.members[0].state), 0);
    assert_ne!(branch.members[0].state, ElementState::Null);

    branch.apply(BranchStep::SetNull(0));
    let slept = slept_until(&StateWait::for_null(), branch.members[0].state);
    assert!(
        slept < 80,
        "set_element_state_null on a PLAYING fakesink took {slept} ms"
    );
    assert_eq!(branch.members[0].state, ElementState::Null);
}

#[test]
fn wait_for_element_state_returns_immediately_when_already_at_target() {
    let wait = StateWait {
        target: ElementState::Null,
        polling_ms: 100,
        timeout_ms: 5000,
    };
    let slept = slept_until(&wait, ElementState::Null);
    assert!(
        slept < 80,
        "wait_for_element_state on an already-Null element took {slept} ms"
    );
}

#[test]
fn first_shutdown_session_skips_wait_when_already_null() {
    let mut slept = 0;
    for step in shutdown_session(false) {
        if step == SessionStep::AwaitNull {
            slept += slept_until(&StateWait::for_null(), ElementState::Null);
        }
    }
    assert!(
        slept < 80,
        "first shutdown_session on an already-Null ImageSink took {slept} ms"
    );
}

#[test]
fn pipeline_runner_stop_before_start_drops_teardown_bus_messages() {
    let mut bus = BusControl::new();
    bus.stop();
    bus.post();
    assert_eq!(
        bus.queued, 0,
        "stop() must install a drop handler even if the runner task has not polled yet"
    );
    for _ in 0..16 {
        bus.poll();
    }
    bus.post();
    assert_eq!(
        bus.queued, 0,
        "a late runner poll must not replace the drop handler with an unhandled bus"
    );
}

#[test]
fn pipeline_runner_stop_after_playing_drops_teardown_bus_messages() {
    let mut bus = BusControl::new();
    bus.poll();
    assert_eq!(bus.handler, BusHandler::Forward);
    bus.stop();
    bus.post();
    assert_eq!(
        bus.queued, 0,
        "teardown bus messages must be dropped, not queued after unset_sync_handler"
    );
}

#[test]
fn pipeline_runner_stop_drains_already_queued_bus_messages() {
    let mut bus = BusControl::new();
    bus.post();
    assert!(bus.queued > 0, "the test must queue a message before stop()");
    assert_eq!(bus.stop(), 1);
    assert_eq!(
        bus.queued, 0,
        "stop() must drain messages queued before the drop handler was installed"
    );
}

#[test]
fn webrtc_shutdown_session_releases_request_pad_before_null() {
    let mut holds_pad = true;
    for step in shutdown_session(true) {
        match step {
            SessionStep::ReleaseRequestPad => holds_pad = false,
            SessionStep::SetNull => assert!(
                !holds_pad,
                "shutdown_session must release the webrtcbin request pad before Nulling it"
            ),
            _ => {}
        }
    }
    assert!(!holds_pad);
}

#[test]
fn webrtc_shutdown_session_stops_runner_before_releasing_request_pad() {
    let mut stopped = false;
    let mut released = false;
    for step in shutdown_session(true) {
        match step {
            SessionStep::StopRunner => stopped = true,
            SessionStep::ReleaseRequestPad => {
                released = true;
                assert!(
                    stopped,
                    "pipeline_runner.stop() must run before release_request_pad so teardown errors are dropped"
                );
            }
            _ => {}
        }
    }
    assert!(
        released,
        "shutdown_session must release the webrtcbin request pad"
    );
}

#[test]
fn udp_unlink_nulls_session_and_proxysink() {
    let stream = stream_information(&["udp://127.0.0.1:5600"], VideoEncodeType::H264);
    let mut sink = UdpSink::try_new(PeerId { value: 7 }, &stream, &empty_environment());
    assert!(sink.unlink().is_none());
    let mut link = sink.link().unwrap();
    assert!(sink.link().is_err());
    let size = link.size;
    let mut branch = Branch::new(size, ElementState::Playing);
    carry_out(&mut link, &mut branch, nothing_fails).unwrap();

    let unlinking = sink.unlink().unwrap();
    assert_eq!(unlinking.work.size, size);
    let mut session = unlink(unlinking, &mut branch);
    assert_eq!(session, ElementState::Null);
    for member in &branch.members {
        assert_eq!(member.state, ElementState::Null);
        assert!(!member.in_pipeline);
    }
    // A second shutdown does not wait.
    assert_eq!(shut_down(sink.shutdown_session(), &mut session), 0);
}

#[test]
fn zenoh_unlink_nulls_session_and_proxysink() {
    let mut sink = ZenohSink::try_new(PeerId { value: 8 }, &VideoEncodeType::H264)
        .ok()
        .unwrap();
    assert!(sink.unlink().is_none());
    let mut link = sink.link().unwrap();
    assert!(sink.link().is_err());
    let mut branch = Branch::new(link.size, ElementState::Playing);
    carry_out(&mut link, &mut branch, nothing_fails).unwrap();

    let mut session = unlink(sink.unlink().unwrap(), &mut branch);
    assert_eq!(session, ElementState::Null);
    for member in &branch.members {
        assert_eq!(member.state, ElementState::Null);
        assert!(!member.in_pipeline);
    }
    // A second shutdown does not wait.
    assert_eq!(shut_down(sink.shutdown_session(), &mut session), 0);
}

#[test]
fn branches_come_off_whatever_the_session_does() {
    let mut branch = Branch::new(2, ElementState::Playing);
    let mut link = BranchWork::attach(2, Cleanup::Thorough);
    carry_out(&mut link, &mut branch, nothing_fails).unwrap();
    let mut unlinking = Unlinking::new(true, 2);
    let mut seen = Vec::new();
    while let Some(step) = unlinking.next_step() {
        seen.push(step);
        let ok = match step {
            UnlinkStep::Session(_) => false,
            UnlinkStep::Branch(step) => {
                branch.apply(step);
                true
            }
        };
        unlinking.report(ok);
    }
    assert_eq!(
        seen,
        [
            UnlinkStep::Session(SessionStep::StopRunner),
            UnlinkStep::Session(SessionStep::ReleaseRequestPad),
            UnlinkStep::Session(SessionStep::SetNull),
            UnlinkStep::Session(SessionStep::AwaitNull),
            UnlinkStep::Branch(BranchStep::Block),
            UnlinkStep::Branch(BranchStep::Unchain(0)),
            UnlinkStep::Branch(BranchStep::LeaveTee),
            UnlinkStep::Branch(BranchStep::ReleasePad),
            UnlinkStep::Branch(BranchStep::Remove(0)),
            UnlinkStep::Branch(BranchStep::Remove(1)),
            UnlinkStep::Branch(BranchStep::SetNull(0)),
            UnlinkStep::Branch(BranchStep::SetNull(1)),
        ]
    );
    assert_eq!(unlinking.outcome(), Some(Ok(())));
    assert!(branch.members.iter().all(|member| !member.in_pipeline));

    let mut unlinking = Unlinking::new(false, 1);
    while let Some(step) = unlinking.next_step() {
        unlinking.report(step != UnlinkStep::Branch(BranchStep::Remove(0)));
    }
    assert_eq!(unlinking.outcome(), Some(Err(BranchStep::Remove(0))));
}

#[test]
fn udp_eos_does_not_post_teardown_eos() {
    let stream = stream_information(&["udp://127.0.0.1:5600"], VideoEncodeType::H264);
    let sink = UdpSink::try_new(PeerId { value: 9 }, &stream, &empty_environment());
    let posted = usize::from(sink.eos());
    assert_eq!(
        posted, 0,
        "eos() must not post teardown EOS; shutdown_session Nulls the session instead"
    );
}

#[test]
fn zenoh_eos_does_not_post_teardown_eos() {
    let sink = ZenohSink::try_new(PeerId { value: 9 }, &VideoEncodeType::H264)
        .ok()
        .unwrap();
    let posted = usize::from(sink.eos());
    assert_eq!(
        posted, 0,
        "eos() must not post teardown EOS; shutdown_session Nulls the session instead"
    );
}

#[test]
fn sinks_without_a_session_post_eos() {
    let id = PeerId { value: 1 };
    let bind = BindAnswer {
        consumer_id: id,
        producer_id: id,
        session_id: id,
    };
    let sink = WebRTCSink::try_new(bind, "stun://a", "turn://b", &empty_environment())
        .ok()
        .unwrap();
    assert!(sink.eos());
}

#[test]
fn webrtc_sinks_unlink_whatever_fails() {
    let id = PeerId { value: 1 };
    let bind = BindAnswer {
        consumer_id: id,
        producer_id: id,
        session_id: id,
    };
    let mut sink = WebRTCSink::try_new(bind, "stun://a", "turn://b", &empty_environment())
        .ok()
        .unwrap();
    let mut branch = Branch::new(2, ElementState::Playing);
    carry_out(&mut sink.link().ok().unwrap(), &mut branch, nothing_fails).unwrap();
    let removals_fail = |step| matches!(step, BranchStep::Remove(_));
    assert!(carry_out(&mut sink.unlink().unwrap(), &mut branch, removals_fail).is_ok());
    assert_eq!(branch.members[0].state, ElementState::Null);
    assert_eq!(branch.members[1].state, ElementState::Null);
}

#[test]
fn every_failure_while_attaching_leaves_no_trace() {
    let steps = {
        let work = BranchWork::attach(3, Cleanup::Thorough);
        work.steps.clone()
    };
    for failing in 0..steps.len() {
        let mut branch = Branch::new(3, ElementState::Playing);
        let mut work = BranchWork::attach(3, Cleanup::Thorough);
        let mut count = 0;
        let mut failed = false;
        while let Some(step) = work.next_step() {
            let ok = failed || count != failing;
            if ok {
                branch.apply(step);
            } else {
                failed = true;
            }
            work.report(ok);
            count += 1;
        }
        assert_eq!(work.outcome(), Some(Err(steps[failing])));
        for member in &branch.members {
            assert_eq!(member.state, ElementState::Null);
            assert!(!member.in_pipeline);
        }
        assert!(!branch.pad.requested);
    }
}

#[test]
fn waits_sleep_and_time_out() {
    let wait = StateWait::for_null();
    assert_eq!(wait.check(ElementState::Playing, 0), WaitVerdict::Sleep(100));
    assert_eq!(wait.check(ElementState::Paused, 4999), WaitVerdict::Sleep(100));
    assert_eq!(wait.check(ElementState::Ready, 5000), WaitVerdict::TimedOut);
    assert_eq!(wait.check(ElementState::Null, 9000), WaitVerdict::Reached);
}

#[test]
fn streams_are_taken_down_stage_by_stage() {
    let mut teardown = StreamTeardown::new(true, 2);
    assert_eq!(teardown.stage, TeardownStage::PostEos);
    teardown.advance(TeardownEvent::Done);
    assert_eq!(teardown.stage, TeardownStage::SetNull);
    teardown.advance(TeardownEvent::Spawned(true));
    teardown.advance(TeardownEvent::Polled {
        finished: false,
        elapsed_ms: 4950,
    });
    assert_eq!(teardown.stage, TeardownStage::AwaitNull);
    teardown.advance(TeardownEvent::Polled {
        finished: false,
        elapsed_ms: 5000,
    });
    assert_eq!(teardown.stage, TeardownStage::CheckState);
    teardown.advance(TeardownEvent::State(ElementState::Paused));
    assert_eq!(teardown.stage, TeardownStage::AwaitState);
    teardown.advance(TeardownEvent::Done);
    teardown.advance(TeardownEvent::Done);
    assert_eq!(teardown.stage, TeardownStage::RemoveSink(0));
    teardown.advance(TeardownEvent::Done);
    assert_eq!(teardown.stage, TeardownStage::RemoveSink(1));
    // An event of another stage changes nothing.
    teardown.advance(TeardownEvent::Spawned(true));
    assert_eq!(teardown.stage, TeardownStage::RemoveSink(1));
    teardown.advance(TeardownEvent::Done);
    assert_eq!(teardown.stage, TeardownStage::Finished);
}

#[test]
fn streams_without_a_pipeline_have_nothing_to_take_down() {
    assert_eq!(
        StreamTeardown::new(false, 3).stage,
        TeardownStage::Finished
    );
}

#[test]
fn udp_drop_without_link_nulls_session() {
    let stream = stream_information(&["udp://127.0.0.1:5600"], VideoEncodeType::H264);
    let sink = UdpSink::try_new(PeerId { value: 7 }, &stream, &empty_environment());
    assert!(sink.unlink().is_none());
    let mut session = ElementState::Playing;
    assert_eq!(shut_down(sink.shutdown_session(), &mut session), 0);
    assert_eq!(session, ElementState::Null);
}

#[test]
fn zenoh_drop_without_link_nulls_session() {
    let sink = ZenohSink::try_new(PeerId { value: 7 }, &VideoEncodeType::H264)
        .ok()
        .unwrap();
    assert!(sink.unlink().is_none());
    let mut session = ElementState::Playing;
    assert_eq!(shut_down(sink.shutdown_session(), &mut session), 0);
    assert_eq!(session, ElementState::Null);
}
