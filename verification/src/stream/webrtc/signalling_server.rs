//! The signalling server: what it does about each message, and when a
//! connection ends.
use vstd::prelude::*;

use crate::stream::endpoint::Endpoint;
use crate::stream::peer_id::PeerId;
use crate::stream::types::{
    CaptureConfiguration, CaptureView, InformationView, VideoAndStreamInformation, VideoEncodeType,
};
use crate::stream::watcher::{name_and_origin, source_origin};
use crate::stream::webrtc::signalling_protocol::{
    available_views, Answer, AvailableStream, AvailableView, BindAnswer, BindOffer, IceView,
    Message, MessageView, Negotiation, Question, RTCSessionDescription,
};
use crate::text::{append_u64, decimal};

verus! {

/// Where the server listens.
pub const DEFAULT_SIGNALLING_ENDPOINT: &'static str = "ws://0.0.0.0:6021";

/// What an endpoint lacks to be listened on.
#[derive(Clone, Copy, Debug, PartialEq, Eq, Structural)]
pub enum AddressProblem {
    MissingHost,
    MissingPort,
}

/// The address to listen on: `host:port`.
pub fn listen_address(endpoint: &Endpoint) -> (r: Result<String, AddressProblem>)
    ensures
        match r {
            Ok(address) => endpoint@.host is Some && endpoint@.port is Some && address@
                == endpoint@.host->0 + ":"@ + decimal(endpoint@.port->0 as nat),
            Err(AddressProblem::MissingHost) => endpoint@.host is None,
            Err(AddressProblem::MissingPort) => endpoint@.host is Some && endpoint@.port is None,
        },
{
    match &endpoint.host {
        None => Err(AddressProblem::MissingHost),
        Some(host) => match endpoint.port {
            None => Err(AddressProblem::MissingPort),
            Some(port) => {
                let mut s = host.clone();
                s.append(":");
                append_u64(&mut s, port as u64);
                Ok(s)
            },
        },
    }
}

/// Ways in which a connection ends badly.
#[derive(Clone, Copy, Debug, PartialEq, Eq, Structural)]
pub enum ConnectionError {
    ConnectionClosed,
    Protocol,
    Utf8,
    Other,
}

/// Whether an error is worth reporting: peers that leave or talk nonsense are
/// not.
pub fn is_reported(error: ConnectionError) -> (r: bool)
    ensures
        r == (error == ConnectionError::Other),
{
    match error {
        ConnectionError::ConnectionClosed | ConnectionError::Protocol | ConnectionError::Utf8 => false,
        ConnectionError::Other => true,
    }
}

/// What comes in from a peer.
#[derive(Clone, Copy, Debug, PartialEq, Eq, Structural)]
pub enum Frame {
    Text,
    Close,
    /// Binary data, pings and the like.
    Other,
    /// Receiving failed.
    Failed,
}

/// What is done about it.
#[derive(Clone, Copy, Debug, PartialEq, Eq, Structural)]
pub enum FrameVerdict {
    Handle,
    Skip,
    End,
}

/// Text is handled; a close and a failure end the connection; the rest is
/// passed over.
pub fn judge_frame(frame: Frame) -> (r: FrameVerdict)
    ensures
        r == (match frame {
            Frame::Text => FrameVerdict::Handle,
            Frame::Other => FrameVerdict::Skip,
            Frame::Close | Frame::Failed => FrameVerdict::End,
        }),
{
    match frame {
        Frame::Text => FrameVerdict::Handle,
        Frame::Other => FrameVerdict::Skip,
        Frame::Close | Frame::Failed => FrameVerdict::End,
    }
}

/// What the task that writes to a peer does about the next thing in its queue.
#[derive(Clone, Copy, Debug, PartialEq, Eq, Structural)]
pub enum OutgoingVerdict {
    Send,
    /// Take no more, and close the connection.
    CloseQueueAndEnd,
    /// Close the connection.
    End,
}

/// A message is sent; an error in its place, and the end of the queue, end the
/// connection.
pub fn judge_outgoing(next: Option<bool>) -> (r: OutgoingVerdict)
    ensures
        r == (match next {
            Some(true) => OutgoingVerdict::Send,
            Some(false) => OutgoingVerdict::CloseQueueAndEnd,
            None => OutgoingVerdict::End,
        }),
{
    match next {
        Some(true) => OutgoingVerdict::Send,
        Some(false) => OutgoingVerdict::CloseQueueAndEnd,
        None => OutgoingVerdict::End,
    }
}

/// What the server does about a message.
pub enum Reaction {
    /// Nothing: the message could not be read. The connection stays open.
    Ignore,
    /// Send the peer a new identity.
    TellPeerId,
    /// Send the peer the streams there are.
    TellAvailableStreams,
    AddSession(BindOffer),
    RemoveSession { bind: BindAnswer, reason: String },
    HandleSdp { bind: BindAnswer, sdp: RTCSessionDescription },
    HandleIce { bind: BindAnswer, sdp_m_line_index: u32, candidate: String },
    /// Refuse the message and end the connection.
    Refuse(Refused),
}

/// Why a message is refused.
#[derive(Clone, Copy, Debug, PartialEq, Eq, Structural)]
pub enum Refused {
    /// The server asks nothing, so that nothing can be an answer.
    UnexpectedAnswer,
    NoCandidate,
    MissingLineIndex,
}

/// What a [`Reaction`] stands for.
pub enum ReactionView {
    Ignore,
    TellPeerId,
    TellAvailableStreams,
    AddSession(BindOffer),
    RemoveSession(BindAnswer, Seq<char>),
    HandleOffer(BindAnswer, Seq<char>),
    HandleAnswer(BindAnswer, Seq<char>),
    HandleIce(BindAnswer, u32, Seq<char>),
    Refuse(Refused),
}

impl View for Reaction {
    type V = ReactionView;

    open spec fn view(&self) -> ReactionView {
        match self {
            Reaction::Ignore => ReactionView::Ignore,
            Reaction::TellPeerId => ReactionView::TellPeerId,
            Reaction::TellAvailableStreams => ReactionView::TellAvailableStreams,
            Reaction::AddSession(bind) => ReactionView::AddSession(*bind),
            Reaction::RemoveSession { bind, reason } => ReactionView::RemoveSession(*bind, reason@),
            Reaction::HandleSdp {
                bind,
                sdp: RTCSessionDescription::Offer(sdp),
            } => ReactionView::HandleOffer(*bind, sdp@),
            Reaction::HandleSdp {
                bind,
                sdp: RTCSessionDescription::Answer(sdp),
            } => ReactionView::HandleAnswer(*bind, sdp@),
            Reaction::HandleIce {
                bind,
                sdp_m_line_index,
                candidate,
            } => ReactionView::HandleIce(*bind, *sdp_m_line_index, candidate@),
            Reaction::Refuse(refused) => ReactionView::Refuse(*refused),
        }
    }
}

pub open spec fn ice_reaction(bind: BindAnswer, ice: IceView) -> ReactionView {
    match (ice.candidate, ice.sdp_m_line_index) {
        (None, _) => ReactionView::Refuse(Refused::NoCandidate),
        (Some(_), None) => ReactionView::Refuse(Refused::MissingLineIndex),
        (Some(candidate), Some(index)) => ReactionView::HandleIce(bind, index, candidate),
    }
}

/// What the server does about a message; `None` is one that could not be read.
pub open spec fn reaction_to(message: Option<MessageView>) -> ReactionView {
    match message {
        None => ReactionView::Ignore,
        Some(MessageView::AskPeerId) => ReactionView::TellPeerId,
        Some(MessageView::AskAvailableStreams) => ReactionView::TellAvailableStreams,
        Some(MessageView::AskStartSession(bind)) => ReactionView::AddSession(bind),
        Some(MessageView::AskEndSession(bind, reason)) => ReactionView::RemoveSession(bind, reason),
        Some(MessageView::TellPeerId(_)) => ReactionView::Refuse(Refused::UnexpectedAnswer),
        Some(MessageView::TellAvailableStreams(_)) => ReactionView::Refuse(
            Refused::UnexpectedAnswer,
        ),
        Some(MessageView::TellStartSession(_)) => ReactionView::Refuse(Refused::UnexpectedAnswer),
        Some(MessageView::Offer(bind, sdp)) => ReactionView::HandleOffer(bind, sdp),
        Some(MessageView::Answer(bind, sdp)) => ReactionView::HandleAnswer(bind, sdp),
        Some(MessageView::Ice(bind, ice)) => ice_reaction(bind, ice),
    }
}

/// Decides about a message. One that could not be read is passed over, because
/// an error would close the connection.
pub fn handle_message(message: Option<Message>) -> (r: Reaction)
    ensures
        r@ == reaction_to(
            match message {
                Some(m) => Some(m@),
                None => None,
            },
        ),
{
    let message = match message {
        Some(message) => message,
        None => {
            return Reaction::Ignore;
        },
    };
    match message {
        Message::Question(Question::PeerId) => Reaction::TellPeerId,
        Message::Question(Question::AvailableStreams) => Reaction::TellAvailableStreams,
        Message::Question(Question::StartSession(bind)) => Reaction::AddSession(bind),
        Message::Question(Question::EndSession { bind, reason }) => Reaction::RemoveSession {
            bind,
            reason,
        },
        Message::Answer(_) => Reaction::Refuse(Refused::UnexpectedAnswer),
        Message::Negotiation(Negotiation::Media { bind, sdp }) => Reaction::HandleSdp {
            bind,
            sdp,
        },
        Message::Negotiation(Negotiation::Ice { bind, ice }) => {
            match (ice.candidate, ice.sdp_m_line_index) {
                (None, _) => Reaction::Refuse(Refused::NoCandidate),
                (Some(_), None) => Reaction::Refuse(Refused::MissingLineIndex),
                (Some(candidate), Some(sdp_m_line_index)) => Reaction::HandleIce {
                    bind,
                    sdp_m_line_index,
                    candidate,
                },
            }
        },
    }
}

/// Whether the connection goes on after a reaction was carried out, well or
/// not. A session that is ended by its consumer ends the connection, whether or
/// not there was one.
pub open spec fn goes_on(reaction: ReactionView, ok: bool) -> bool {
    match reaction {
        ReactionView::Ignore => true,
        ReactionView::RemoveSession(_, _) => false,
        ReactionView::Refuse(_) => false,
        _ => ok,
    }
}

/// Whether the connection goes on after a reaction was carried out.
pub fn continues(reaction: &Reaction, ok: bool) -> (r: bool)
    ensures
        r == goes_on(reaction@, ok),
{
    match reaction {
        Reaction::Ignore => true,
        Reaction::RemoveSession { .. } => false,
        Reaction::Refuse(_) => false,
        _ => ok,
    }
}

/// Unreadable messages never close a connection, and answers always do.
pub proof fn unreadable_messages_are_harmless(message: MessageView, ok: bool)
    ensures
        goes_on(reaction_to(None), ok),
        (message is TellPeerId || message is TellAvailableStreams || message is TellStartSession)
            ==> !goes_on(reaction_to(Some(message)), ok),
        message is AskEndSession ==> !goes_on(reaction_to(Some(message)), ok),
{
}

/// A stream as the manager knows it.
pub struct KnownStream {
    pub id: PeerId,
    pub video_and_stream: VideoAndStreamInformation,
    /// The frame interval in seconds, written out.
    pub interval: String,
}

/// How a stream is offered to consumers: video only where it is H264, a
/// redirection without saying what it is.
pub open spec fn offered(
    id: PeerId,
    information: InformationView,
    interval: Seq<char>,
) -> Option<AvailableView> {
    let bare = AvailableView {
        id,
        name: information.name,
        encode: None,
        height: None,
        width: None,
        interval: None,
        source: Some(source_origin(information.source)),
        created: None,
    };
    match information.configuration {
        CaptureView::Video { encode, height, width, .. } => if encode is H264 {
            Some(
                AvailableView {
                    encode: Some("H264"@),
                    height: Some(height),
                    width: Some(width),
                    interval: Some(interval),
                    ..bare
                },
            )
        } else {
            None
        },
        CaptureView::Redirect => Some(bare),
    }
}

/// What is offered of the first `n` streams, in order.
pub open spec fn all_offered(streams: Seq<KnownStream>, n: nat) -> Seq<AvailableView>
    decreases n,
{
    if n == 0 {
        Seq::empty()
    } else {
        let before = all_offered(streams, (n - 1) as nat);
        let stream = streams[n - 1];
        match offered(stream.id, stream.video_and_stream@, stream.interval@) {
            Some(available) => before.push(available),
            None => before,
        }
    }
}

fn offer(stream: &KnownStream) -> (r: Option<AvailableStream>)
    ensures
        match r {
            Some(available) => offered(
                stream.id,
                stream.video_and_stream@,
                stream.interval@,
            ) == Some(available@),
            None => offered(stream.id, stream.video_and_stream@, stream.interval@) is None,
        },
{
    let information = &stream.video_and_stream;
    let (_, origin) = name_and_origin(&information.video_source);
    let mut available = AvailableStream {
        id: stream.id,
        name: information.name.clone(),
        encode: None,
        height: None,
        width: None,
        interval: None,
        source: Some(origin.to_owned()),
        created: None,
    };
    match &information.stream_information.configuration {
        CaptureConfiguration::VIDEO(configuration) => {
            match configuration.encode {
                VideoEncodeType::H264 => {},
                _ => {
                    return None;
                },
            }
            available.encode = Some("H264".to_owned());
            available.height = Some(configuration.height);
            available.width = Some(configuration.width);
            available.interval = Some(stream.interval.clone());
        },
        CaptureConfiguration::REDIRECT(_) => {},
    }
    Some(available)
}

/// The streams that consumers may ask for.
pub fn streams_information(streams: &Vec<KnownStream>) -> (r: Vec<AvailableStream>)
    ensures
        available_views(r@) == all_offered(streams@, streams@.len()),
{
    let mut r: Vec<AvailableStream> = Vec::new();
    let mut i: usize = 0;
    assert(available_views(r@) =~= all_offered(streams@, 0));
    while i < streams.len()
        invariant
            i <= streams.len(),
            available_views(r@) == all_offered(streams@, i as nat),
        decreases streams.len() - i,
    {
        let ghost before = r@;
        match offer(&streams[i]) {
            Some(available) => {
                r.push(available);
                assert(available_views(r@) =~= available_views(before).push(available@));
            },
            None => {},
        }
        i += 1;
    }
    r
}

/// A peer that asks something but the end of a session, describes a session, or says
/// in full where it may be reached, is served on the same connection: it goes on
/// after that was done, and ends only where it could not be done. Every other message
/// that can be read ends it.
pub proof fn served_peers_stay_connected(message: MessageView, ok: bool)
    ensures
        ({
            let complete = message is Ice && message->Ice_1.candidate is Some
                && message->Ice_1.sdp_m_line_index is Some;
            let served = message is AskPeerId || message is AskAvailableStreams
                || message is AskStartSession || message is Offer || message is Answer || complete;
            &&& served ==> goes_on(reaction_to(Some(message)), ok) == ok
            &&& !served ==> !goes_on(reaction_to(Some(message)), ok)
        }),
        goes_on(reaction_to(None), ok),
{
}

/// Every message has its own reaction, with what the message holds: a question for
/// an identity or for the streams is answered, a session is added for the peers that
/// it was asked for and removed with the reason that was given, and descriptions and
/// candidates are handed to the session that they are for. Answers, and candidates
/// that lack something, are refused, with what is wrong.
pub proof fn messages_are_reacted_to_in_kind(
    message: MessageView,
    offer: BindOffer,
    bind: BindAnswer,
    text: Seq<char>,
    index: u32,
)
    ensures
        ({
            let reaction = reaction_to(Some(message));
            let ice = message->Ice_1;
            &&& reaction == ReactionView::TellPeerId <==> message == MessageView::AskPeerId
            &&& reaction == ReactionView::TellAvailableStreams <==> message
                == MessageView::AskAvailableStreams
            &&& reaction == ReactionView::AddSession(offer) <==> message
                == MessageView::AskStartSession(offer)
            &&& reaction == ReactionView::RemoveSession(bind, text) <==> message
                == MessageView::AskEndSession(bind, text)
            &&& reaction == ReactionView::HandleOffer(bind, text) <==> message
                == MessageView::Offer(bind, text)
            &&& reaction == ReactionView::HandleAnswer(bind, text) <==> message
                == MessageView::Answer(bind, text)
            &&& reaction == ReactionView::HandleIce(bind, index, text) <==> message is Ice
                && message->Ice_0 == bind && ice.candidate == Some(text) && ice.sdp_m_line_index
                == Some(index)
            &&& reaction == ReactionView::Refuse(Refused::UnexpectedAnswer) <==> message
                is TellPeerId || message is TellAvailableStreams || message is TellStartSession
            &&& reaction == ReactionView::Refuse(Refused::NoCandidate) <==> message is Ice
                && ice.candidate is None
            &&& reaction == ReactionView::Refuse(Refused::MissingLineIndex) <==> message is Ice
                && ice.candidate is Some && ice.sdp_m_line_index is None
            &&& !(reaction is Ignore)
        }),
        reaction_to(None) == ReactionView::Ignore,
{
}

/// What is offered of a stream is its own: identity, name and origin always, and of
/// H264 video its size and interval too, each in its place. Video in another encoding
/// is not offered, a redirection is, without saying what it sends.
pub proof fn offers_say_what_the_stream_is(
    id: PeerId,
    information: InformationView,
    interval: Seq<char>,
)
    ensures
        ({
            let offer = offered(id, information, interval);
            let video = information.configuration;
            &&& offer is None <==> video is Video && !(video->Video_encode is H264)
            &&& offer matches Some(offer) ==> {
                &&& offer.id == id && offer.name == information.name
                &&& offer.source == Some(source_origin(information.source))
                &&& offer.created is None
                &&& video is Video ==> offer.encode == Some("H264"@) && offer.height == Some(
                    video->height,
                ) && offer.width == Some(video->width) && offer.interval == Some(interval)
                &&& video is Redirect ==> offer.encode is None && offer.height is None
                    && offer.width is None && offer.interval is None
            }
        }),
{
}

/// Every stream that can be offered is, once and in the order in which the streams
/// are known: one more stream adds its offer at the end, or nothing.
pub proof fn streams_are_offered_in_order(streams: Seq<KnownStream>, n: nat, m: nat)
    requires
        n < streams.len(),
        m <= n,
    ensures
        ({
            let stream = streams[n as int];
            let offer = offered(stream.id, stream.video_and_stream@, stream.interval@);
            let before = all_offered(streams, n);
            let after = all_offered(streams, n + 1);
            &&& offer is None ==> after == before
            &&& offer matches Some(offer) ==> after.len() == before.len() + 1 && after.last()
                == offer && after.drop_last() == before
        }),
        all_offered(streams, 0).len() == 0,
        all_offered(streams, m).is_prefix_of(all_offered(streams, n)),
    decreases n - m,
{
    let before = all_offered(streams, n);
    let after = all_offered(streams, n + 1);
    assert(all_offered(streams, (n + 1 - 1) as nat) == before);
    if after.len() > before.len() {
        assert(after.drop_last() =~= before);
    }
    if m < n {
        streams_are_offered_in_order(streams, (n - 1) as nat, m);
        let last = all_offered(streams, (n - 1) as nat);
        assert(last.is_prefix_of(before));
    }
}

/// A reaction is taken for what it is, for the session that it names.
pub proof fn reactions_are_taken_for_what_they_are(
    offer: BindOffer,
    bind: BindAnswer,
    text: String,
    index: u32,
    refused: Refused,
)
    ensures
        Reaction::Ignore@ == ReactionView::Ignore,
        Reaction::TellPeerId@ == ReactionView::TellPeerId,
        Reaction::TellAvailableStreams@ == ReactionView::TellAvailableStreams,
        Reaction::AddSession(offer)@ == ReactionView::AddSession(offer),
        (Reaction::RemoveSession { bind, reason: text })@ == ReactionView::RemoveSession(
            bind,
            text@,
        ),
        (Reaction::HandleSdp { bind, sdp: RTCSessionDescription::Offer(text) })@
            == ReactionView::HandleOffer(bind, text@),
        (Reaction::HandleSdp { bind, sdp: RTCSessionDescription::Answer(text) })@
            == ReactionView::HandleAnswer(bind, text@),
        (Reaction::HandleIce { bind, sdp_m_line_index: index, candidate: text })@
            == ReactionView::HandleIce(bind, index, text@),
        Reaction::Refuse(refused)@ == ReactionView::Refuse(refused),
{
}

} // verus!
