//! What a WebRTC element says to its peer by way of the signalling server.
use vstd::prelude::*;

use crate::stream::peer_id::id_text;
use crate::stream::webrtc::sdp::{customize_sdp, customized_text};
use crate::stream::webrtc::signalling_protocol::{
    Answer, BindAnswer, IceView, Message, MessageView, Negotiation, Question, RTCIceCandidateInit,
    RTCSessionDescription,
};

verus! {

/// Speaks for one session.
#[derive(Clone, Copy, Debug, PartialEq, Eq, Structural)]
pub struct Signaller {
    pub bind: BindAnswer,
}

/// The peer asked for a session: who it is about, to be told to the element.
pub struct SessionRequest {
    pub session_id: String,
    pub peer_id: String,
}

impl Signaller {
    pub fn new(bind: BindAnswer) -> (r: Signaller)
        ensures
            r.bind == bind,
    {
        Signaller { bind }
    }

    /// The element is ready: the peer is told that the session starts, and the
    /// element that the peer wants it.
    pub fn on_start(&self) -> (r: (Message, SessionRequest))
        ensures
            r.0@ == MessageView::TellStartSession(self.bind),
            r.1.session_id@ == id_text(self.bind.session_id.value),
            r.1.peer_id@ == id_text(self.bind.consumer_id.value),
    {
        (
            Message::Answer(Answer::StartSession(self.bind)),
            SessionRequest {
                session_id: self.bind.session_id.text(),
                peer_id: self.bind.consumer_id.text(),
            },
        )
    }

    /// The element describes the session: the description is adjusted and
    /// offered. One that cannot be read is not sent.
    pub fn on_session_description(&self, sdp: &str) -> (r: Option<Message>)
        ensures
            match r {
                Some(message) => customized_text(sdp@) is Some && message@ == MessageView::Offer(
                    self.bind,
                    customized_text(sdp@)->0,
                ),
                None => customized_text(sdp@) is None,
            },
    {
        match customize_sdp(sdp) {
            Ok(sdp) => Some(self.offer(sdp)),
            Err(_) => None,
        }
    }

    /// The message that offers a description that was adjusted.
    pub fn offer(&self, sdp: String) -> (r: Message)
        ensures
            r@ == MessageView::Offer(self.bind, sdp@),
    {
        Message::Negotiation(
            Negotiation::Media { bind: self.bind, sdp: RTCSessionDescription::Offer(sdp) },
        )
    }

    /// The message that answers with a description that was adjusted.
    pub fn answer(&self, sdp: String) -> (r: Message)
        ensures
            r@ == MessageView::Answer(self.bind, sdp@),
    {
        Message::Negotiation(
            Negotiation::Media { bind: self.bind, sdp: RTCSessionDescription::Answer(sdp) },
        )
    }

    /// The element may be reached in one more way.
    pub fn on_ice(&self, candidate: &str, sdp_m_line_index: u32, sdp_mid: Option<String>) -> (r:
        Message)
        ensures
            r@ == MessageView::Ice(
                self.bind,
                IceView {
                    candidate: Some(candidate@),
                    sdp_mid: match sdp_mid {
                        Some(mid) => Some(mid@),
                        None => None,
                    },
                    sdp_m_line_index: Some(sdp_m_line_index),
                    username_fragment: None,
                },
            ),
    {
        Message::Negotiation(
            Negotiation::Ice {
                bind: self.bind,
                ice: RTCIceCandidateInit {
                    candidate: Some(candidate.to_owned()),
                    sdp_mid,
                    sdp_m_line_index: Some(sdp_m_line_index),
                    username_fragment: None,
                },
            },
        )
    }

    /// The element has ended the session.
    pub fn on_end_session(&self) -> (r: Message)
        ensures
            r@ == MessageView::AskEndSession(self.bind, "Ended from Signaller"@),
    {
        Message::Question(
            Question::EndSession { bind: self.bind, reason: "Ended from Signaller".to_owned() },
        )
    }
}

} // verus!
