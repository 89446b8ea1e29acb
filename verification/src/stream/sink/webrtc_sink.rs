//! The WebRTC sink: one session with one peer.
use vstd::prelude::*;

use crate::stream::debug_env::{disable_webrtc, flag_set, Environment};
use crate::stream::element::{ElementSpec, ElementView, PropertyValueView};
use crate::stream::peer_id::{id_text, PeerId};
use crate::stream::sink::branch::{attach_steps, detach_steps, BranchWork, Cleanup, Removal, WorkKind};
use crate::stream::sink::udp_sink::AlreadyLinked;
use crate::stream::sink::zenoh_sink::queue_view;
use crate::stream::webrtc::sdp::{customize_sdp, customized_text, InvalidSdp};
use crate::stream::webrtc::signaller::Signaller;
use crate::stream::webrtc::signalling_protocol::{BindAnswer, IceView, Message, MessageView};

verus! {

/// WebRTC sessions are switched off.
#[derive(Clone, Copy, Debug, PartialEq, Eq, Structural)]
pub struct WebRTCDisabled;

pub open spec fn webrtcsink_view(stun_server: Seq<char>, turn_endpoint: Seq<char>) -> ElementView {
    ElementView::of("webrtcsink"@).boolean("async-handling"@, true).text(
        "congestion-control"@,
        "disabled"@,
    ).boolean("do-fec"@, false).boolean("do-retransmission"@, false).boolean(
        "enable-data-channel-navigation"@,
        false,
    ).text("ice-transport-policy"@, "all"@).text("stun-server"@, stun_server).text(
        "turn-servers"@,
        "<\""@ + turn_endpoint + "\">"@,
    ).text("video-caps"@, "video/x-h264"@)
}

/// A WebRTC sink to be made, and whether it is linked. Its branch is the queue
/// and the WebRTC element.
pub struct WebRTCSink {
    pub queue: ElementSpec,
    pub webrtcsink: ElementSpec,
    pub signaller: Signaller,
    pub has_tee_pad: bool,
}

/// What the ICE agent reports.
#[derive(Clone, Copy, Debug, PartialEq, Eq, Structural)]
pub enum IceConnectionState {
    New,
    Checking,
    Connected,
    Completed,
    Failed,
    Disconnected,
    Closed,
}

impl IceConnectionState {
    pub open spec fn name_text(self) -> Seq<char> {
        match self {
            IceConnectionState::New => "New"@,
            IceConnectionState::Checking => "Checking"@,
            IceConnectionState::Connected => "Connected"@,
            IceConnectionState::Completed => "Completed"@,
            IceConnectionState::Failed => "Failed"@,
            IceConnectionState::Disconnected => "Disconnected"@,
            IceConnectionState::Closed => "Closed"@,
        }
    }

    pub fn name(&self) -> (r: &'static str)
        ensures
            r@ == self.name_text(),
    {
        match self {
            IceConnectionState::New => "New",
            IceConnectionState::Checking => "Checking",
            IceConnectionState::Connected => "Connected",
            IceConnectionState::Completed => "Completed",
            IceConnectionState::Failed => "Failed",
            IceConnectionState::Disconnected => "Disconnected",
            IceConnectionState::Closed => "Closed",
        }
    }
}

/// What the element is told about the peer's description: which session it is
/// for.
pub struct RemoteIce {
    pub session_id: String,
    pub sdp_m_line_index: u32,
    pub candidate: String,
}

impl WebRTCSink {
    /// Plans the sink of a session, unless sessions are switched off.
    pub fn try_new(
        bind: BindAnswer,
        stun_server: &str,
        turn_endpoint: &str,
        env: &Environment,
    ) -> (r: Result<WebRTCSink, WebRTCDisabled>)
        ensures
            r is Err <==> flag_set(*env, "MCM_DISABLE_WEBRTC"@),
            r matches Ok(sink) ==> sink.queue@ == queue_view() && sink.webrtcsink@
                == webrtcsink_view(stun_server@, turn_endpoint@) && sink.signaller.bind == bind
                && !sink.has_tee_pad,
    {
        if disable_webrtc(env) {
            return Err(WebRTCDisabled);
        }
        let queue = ElementSpec::of("queue").text("leaky", "downstream").boolean(
            "silent",
            true,
        ).boolean("flush-on-eos", true).uint32("max-size-buffers", 0);
        let mut turn = "<\"".to_owned();
        turn.append(turn_endpoint);
        turn.append("\">");
        let webrtcsink = ElementSpec::of("webrtcsink").boolean("async-handling", true).text(
            "congestion-control",
            "disabled",
        ).boolean("do-fec", false).boolean("do-retransmission", false).boolean(
            "enable-data-channel-navigation",
            false,
        ).text("ice-transport-policy", "all").text("stun-server", stun_server).text(
            "turn-servers",
            turn.as_str(),
        ).text("video-caps", "video/x-h264");
        Ok(WebRTCSink { queue, webrtcsink, signaller: Signaller::new(bind), has_tee_pad: false })
    }

    /// Begins to link the sink to a tee; refused where it has a pad already.
    pub fn link(&mut self) -> (r: Result<BranchWork, AlreadyLinked>)
        ensures
            r is Err <==> old(self).has_tee_pad,
            r matches Ok(work) ==> work.wf() && work.kind == WorkKind::Attach(Cleanup::Plain)
                && work.size == 2 && work.failed is None && work.remaining() == attach_steps(2),
            *final(self) == (WebRTCSink { has_tee_pad: true, ..*old(self) }),
    {
        if self.has_tee_pad {
            return Err(AlreadyLinked);
        }
        self.has_tee_pad = true;
        Ok(BranchWork::attach(2, Cleanup::Plain))
    }

    /// Begins to unlink the sink; nothing is to be done where it was never
    /// linked. Whatever fails on the way, the sink counts as unlinked in the end.
    pub fn unlink(&self) -> (r: Option<BranchWork>)
        ensures
            r is Some <==> self.has_tee_pad,
            r matches Some(work) ==> work.wf() && work.kind == WorkKind::Detach(
                Removal::Tried,
            ) && work.size == 2 && work.failed is None && work.remaining() == detach_steps(2),
    {
        if self.has_tee_pad {
            Some(BranchWork::detach(2, Removal::Tried))
        } else {
            None
        }
    }

    /// Whether end of stream is posted on the bus of the sink when the sink is told
    /// of it.
    pub fn eos(&self) -> (r: bool)
        ensures
            r,
    {
        true
    }

    pub fn get_id(&self) -> (r: PeerId)
        ensures
            r == self.signaller.bind.session_id,
    {
        self.signaller.bind.session_id
    }

    /// An offer was made by the element: the description to be set locally, and
    /// the message that carries it to the peer.
    pub fn on_offer_created(&self, sdp: &str) -> (r: Result<(String, Message), InvalidSdp>)
        ensures
            match r {
                Ok((local, message)) => customized_text(sdp@) == Some(local@) && message@
                    == MessageView::Offer(self.signaller.bind, local@),
                Err(_) => customized_text(sdp@) is None,
            },
    {
        match customize_sdp(sdp) {
            Ok(local) => {
                let message = self.signaller.offer(local.clone());
                Ok((local, message))
            },
            Err(error) => Err(error),
        }
    }

    /// An answer was made by the element: the message that carries it to the
    /// peer.
    pub fn on_answer_created(&self, sdp: &str) -> (r: Result<Message, InvalidSdp>)
        ensures
            match r {
                Ok(message) => customized_text(sdp@) is Some && message@ == MessageView::Answer(
                    self.signaller.bind,
                    customized_text(sdp@)->0,
                ),
                Err(_) => customized_text(sdp@) is None,
            },
    {
        match customize_sdp(sdp) {
            Ok(answer) => Ok(self.signaller.answer(answer)),
            Err(error) => Err(error),
        }
    }

    /// The element may be reached in one more way: the message that says so.
    pub fn on_ice_candidate(&self, sdp_m_line_index: u32, candidate: &str) -> (r: Message)
        ensures
            r@ == MessageView::Ice(
                self.signaller.bind,
                IceView {
                    candidate: Some(candidate@),
                    sdp_mid: None,
                    sdp_m_line_index: Some(sdp_m_line_index),
                    username_fragment: None,
                },
            ),
    {
        self.signaller.on_ice(candidate, sdp_m_line_index, None)
    }

    /// Whether the session is to be removed, and the reason given: the
    /// connection is lost or was closed.
    pub fn on_ice_connection_state_change(&self, state: IceConnectionState) -> (r: Option<String>)
        ensures
            r is Some <==> (state == IceConnectionState::Failed || state
                == IceConnectionState::Closed || state == IceConnectionState::Disconnected),
            r matches Some(reason) ==> reason@ == "ICE closed with: "@ + state.name_text(),
    {
        match state {
            IceConnectionState::Failed
            | IceConnectionState::Closed
            | IceConnectionState::Disconnected => {
                let mut reason = "ICE closed with: ".to_owned();
                reason.append(state.name());
                Some(reason)
            },
            _ => None,
        }
    }

    /// The peer's description is for this session.
    pub fn handle_sdp(&self) -> (r: String)
        ensures
            r@ == id_text(self.signaller.bind.session_id.value),
    {
        self.signaller.bind.session_id.text()
    }

    /// The peer may be reached in one more way: what the element is told.
    pub fn handle_ice(&self, sdp_m_line_index: u32, candidate: &str) -> (r: RemoteIce)
        ensures
            r.session_id@ == id_text(self.signaller.bind.session_id.value),
            r.sdp_m_line_index == sdp_m_line_index,
            r.candidate@ == candidate@,
    {
        RemoteIce {
            session_id: self.signaller.bind.session_id.text(),
            sdp_m_line_index,
            candidate: candidate.to_owned(),
        }
    }
}

/// A WebRTC element is told the servers that it was given, each in its place, sends
/// H264, and leaves congestion, lost packets and navigation alone.
pub proof fn servers_are_told_in_their_places(stun_server: Seq<char>, turn_endpoint: Seq<char>)
    ensures
        webrtcsink_view(stun_server, turn_endpoint).factory == "webrtcsink"@,
        webrtcsink_view(stun_server, turn_endpoint).properties == seq![
            ("async-handling"@, PropertyValueView::Bool(true)),
            ("congestion-control"@, PropertyValueView::Text("disabled"@)),
            ("do-fec"@, PropertyValueView::Bool(false)),
            ("do-retransmission"@, PropertyValueView::Bool(false)),
            ("enable-data-channel-navigation"@, PropertyValueView::Bool(false)),
            ("ice-transport-policy"@, PropertyValueView::Text("all"@)),
            ("stun-server"@, PropertyValueView::Text(stun_server)),
            ("turn-servers"@, PropertyValueView::Text("<\""@ + turn_endpoint + "\">"@)),
            ("video-caps"@, PropertyValueView::Text("video/x-h264"@)),
        ],
{
    assert(webrtcsink_view(stun_server, turn_endpoint).properties =~= seq![
        ("async-handling"@, PropertyValueView::Bool(true)),
        ("congestion-control"@, PropertyValueView::Text("disabled"@)),
        ("do-fec"@, PropertyValueView::Bool(false)),
        ("do-retransmission"@, PropertyValueView::Bool(false)),
        ("enable-data-channel-navigation"@, PropertyValueView::Bool(false)),
        ("ice-transport-policy"@, PropertyValueView::Text("all"@)),
        ("stun-server"@, PropertyValueView::Text(stun_server)),
        ("turn-servers"@, PropertyValueView::Text("<\""@ + turn_endpoint + "\">"@)),
        ("video-caps"@, PropertyValueView::Text("video/x-h264"@)),
    ]);
}

/// Every state of a connection goes by its own name.
pub proof fn connection_states_go_by_their_names()
    ensures
        IceConnectionState::New.name_text() == "New"@,
        IceConnectionState::Checking.name_text() == "Checking"@,
        IceConnectionState::Connected.name_text() == "Connected"@,
        IceConnectionState::Completed.name_text() == "Completed"@,
        IceConnectionState::Failed.name_text() == "Failed"@,
        IceConnectionState::Disconnected.name_text() == "Disconnected"@,
        IceConnectionState::Closed.name_text() == "Closed"@,
{
}

} // verus!
