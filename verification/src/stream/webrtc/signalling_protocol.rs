//! The messages that peers and the signalling server exchange.
use vstd::prelude::*;

use crate::stream::endpoint::optional_text;
use crate::stream::peer_id::PeerId;

verus! {

/// A consumer asks for a producer.
#[derive(Clone, Copy, Debug, PartialEq, Eq, Structural)]
pub struct BindOffer {
    pub consumer_id: PeerId,
    pub producer_id: PeerId,
}

/// A consumer, a producer and the session between them.
#[derive(Clone, Copy, Debug, PartialEq, Eq, Structural)]
pub struct BindAnswer {
    pub consumer_id: PeerId,
    pub producer_id: PeerId,
    pub session_id: PeerId,
}

/// A session description, offered or answered.
pub enum RTCSessionDescription {
    Offer(String),
    Answer(String),
}

/// Where a peer may be reached.
pub struct RTCIceCandidateInit {
    pub candidate: Option<String>,
    pub sdp_mid: Option<String>,
    pub sdp_m_line_index: Option<u32>,
    pub username_fragment: Option<String>,
}

/// What a [`RTCIceCandidateInit`] stands for.
#[verifier::ext_equal]
pub struct IceView {
    pub candidate: Option<Seq<char>>,
    pub sdp_mid: Option<Seq<char>>,
    pub sdp_m_line_index: Option<u32>,
    pub username_fragment: Option<Seq<char>>,
}

impl View for RTCIceCandidateInit {
    type V = IceView;

    open spec fn view(&self) -> IceView {
        IceView {
            candidate: optional_text(self.candidate),
            sdp_mid: optional_text(self.sdp_mid),
            sdp_m_line_index: self.sdp_m_line_index,
            username_fragment: optional_text(self.username_fragment),
        }
    }
}

/// A stream that consumers may ask for.
pub struct AvailableStream {
    pub id: PeerId,
    pub name: String,
    pub encode: Option<String>,
    pub height: Option<u32>,
    pub width: Option<u32>,
    pub interval: Option<String>,
    pub source: Option<String>,
    pub created: Option<String>,
}

/// What an [`AvailableStream`] stands for.
#[verifier::ext_equal]
pub struct AvailableView {
    pub id: PeerId,
    pub name: Seq<char>,
    pub encode: Option<Seq<char>>,
    pub height: Option<u32>,
    pub width: Option<u32>,
    pub interval: Option<Seq<char>>,
    pub source: Option<Seq<char>>,
    pub created: Option<Seq<char>>,
}

impl View for AvailableStream {
    type V = AvailableView;

    open spec fn view(&self) -> AvailableView {
        AvailableView {
            id: self.id,
            name: self.name@,
            encode: optional_text(self.encode),
            height: self.height,
            width: self.width,
            interval: optional_text(self.interval),
            source: optional_text(self.source),
            created: optional_text(self.created),
        }
    }
}

pub open spec fn available_views(s: Seq<AvailableStream>) -> Seq<AvailableView> {
    s.map_values(|a: AvailableStream| a@)
}

pub enum Question {
    PeerId,
    AvailableStreams,
    StartSession(BindOffer),
    EndSession { bind: BindAnswer, reason: String },
}

pub enum Answer {
    PeerId(PeerId),
    AvailableStreams(Vec<AvailableStream>),
    StartSession(BindAnswer),
}

pub enum Negotiation {
    Media { bind: BindAnswer, sdp: RTCSessionDescription },
    Ice { bind: BindAnswer, ice: RTCIceCandidateInit },
}

pub enum Message {
    Question(Question),
    Answer(Answer),
    Negotiation(Negotiation),
}

/// What a [`Message`] stands for.
pub enum MessageView {
    AskPeerId,
    AskAvailableStreams,
    AskStartSession(BindOffer),
    AskEndSession(BindAnswer, Seq<char>),
    TellPeerId(PeerId),
    TellAvailableStreams(Seq<AvailableView>),
    TellStartSession(BindAnswer),
    Offer(BindAnswer, Seq<char>),
    Answer(BindAnswer, Seq<char>),
    Ice(BindAnswer, IceView),
}

impl View for Message {
    type V = MessageView;

    open spec fn view(&self) -> MessageView {
        match self {
            Message::Question(Question::PeerId) => MessageView::AskPeerId,
            Message::Question(Question::AvailableStreams) => MessageView::AskAvailableStreams,
            Message::Question(Question::StartSession(bind)) => MessageView::AskStartSession(*bind),
            Message::Question(Question::EndSession { bind, reason }) => MessageView::AskEndSession(
                *bind,
                reason@,
            ),
            Message::Answer(Answer::PeerId(id)) => MessageView::TellPeerId(*id),
            Message::Answer(Answer::AvailableStreams(s)) => MessageView::TellAvailableStreams(
                available_views(s@),
            ),
            Message::Answer(Answer::StartSession(bind)) => MessageView::TellStartSession(*bind),
            Message::Negotiation(
                Negotiation::Media { bind, sdp: RTCSessionDescription::Offer(sdp) },
            ) => MessageView::Offer(*bind, sdp@),
            Message::Negotiation(
                Negotiation::Media { bind, sdp: RTCSessionDescription::Answer(sdp) },
            ) => MessageView::Answer(*bind, sdp@),
            Message::Negotiation(Negotiation::Ice { bind, ice }) => MessageView::Ice(*bind, ice@),
        }
    }
}

/// A message is taken for what it is: questions as questions, answers as answers, an
/// offered description as an offer and an answered one as an answer, each for the
/// session that it names.
pub proof fn messages_are_taken_for_what_they_are(
    offer: BindOffer,
    bind: BindAnswer,
    id: PeerId,
    text: String,
    ice: RTCIceCandidateInit,
)
    ensures
        Message::Question(Question::PeerId)@ == MessageView::AskPeerId,
        Message::Question(Question::AvailableStreams)@ == MessageView::AskAvailableStreams,
        Message::Question(Question::StartSession(offer))@ == MessageView::AskStartSession(offer),
        (Message::Question(Question::EndSession { bind, reason: text }))@
            == MessageView::AskEndSession(bind, text@),
        Message::Answer(Answer::PeerId(id))@ == MessageView::TellPeerId(id),
        Message::Answer(Answer::StartSession(bind))@ == MessageView::TellStartSession(bind),
        (Message::Negotiation(
            Negotiation::Media { bind, sdp: RTCSessionDescription::Offer(text) },
        ))@ == MessageView::Offer(bind, text@),
        (Message::Negotiation(
            Negotiation::Media { bind, sdp: RTCSessionDescription::Answer(text) },
        ))@ == MessageView::Answer(bind, text@),
        (Message::Negotiation(Negotiation::Ice { bind, ice }))@ is Ice,
        (Message::Negotiation(Negotiation::Ice { bind, ice }))@->Ice_0 == bind,
        ({
            let shown = (Message::Negotiation(Negotiation::Ice { bind, ice }))@->Ice_1;
            &&& shown.candidate is Some <==> ice.candidate is Some
            &&& ice.candidate is Some ==> shown.candidate->0 == ice.candidate->0@
            &&& shown.sdp_mid is Some <==> ice.sdp_mid is Some
            &&& ice.sdp_mid is Some ==> shown.sdp_mid->0 == ice.sdp_mid->0@
            &&& shown.sdp_m_line_index == ice.sdp_m_line_index
            &&& shown.username_fragment is Some <==> ice.username_fragment is Some
            &&& ice.username_fragment is Some ==> shown.username_fragment->0
                == ice.username_fragment->0@
        }),
{
}

/// Streams are told in their order, each with its identity, its name and its size.
pub proof fn streams_are_told_in_order(streams: Vec<AvailableStream>, i: int)
    requires
        0 <= i < streams@.len(),
    ensures
        ({
            let told = Message::Answer(Answer::AvailableStreams(streams))@;
            &&& told is TellAvailableStreams
            &&& told->TellAvailableStreams_0.len() == streams@.len()
            &&& told->TellAvailableStreams_0[i].id == streams@[i].id
            &&& told->TellAvailableStreams_0[i].name == streams@[i].name@
            &&& told->TellAvailableStreams_0[i].width == streams@[i].width
            &&& told->TellAvailableStreams_0[i].height == streams@[i].height
            &&& streams@[i].encode is Some ==> told->TellAvailableStreams_0[i].encode == Some(
                streams@[i].encode->0@,
            )
            &&& streams@[i].interval is Some ==> told->TellAvailableStreams_0[i].interval == Some(
                streams@[i].interval->0@,
            )
            &&& streams@[i].source is Some ==> told->TellAvailableStreams_0[i].source == Some(
                streams@[i].source->0@,
            )
            &&& streams@[i].created is Some ==> told->TellAvailableStreams_0[i].created == Some(
                streams@[i].created->0@,
            )
        }),
{
}

} // verus!
