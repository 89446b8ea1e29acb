//! Session descriptions as they are handed to peers.
//!
//! A session is taken apart with the `webrtc_sdp` crate, adjusted so that any
//! browser accepts it, and written out again.
use vstd::prelude::*;

verus! {

/// The profile level that is announced, whatever is sent: constrained baseline.
pub const CONSTRAINED_BASELINE_LEVEL_ID: u32 = 0x42e01f;

/// A session description, taken apart.
#[verifier::external_type_specification]
#[verifier::external_body]
pub struct ExSdpSession(webrtc_sdp::SdpSession);

/// Why a text is not a session description.
#[verifier::external_type_specification]
#[verifier::external_body]
pub struct ExSdpParserError(webrtc_sdp::error::SdpParserError);

/// An attribute of a media section, as far as it matters here. `rest` and
/// `Other` stand for everything else that the attribute says.
pub enum SdpAttributeView {
    Recvonly,
    Sendrecv,
    Inactive,
    Fmtp { profile_level_id: u32, level_asymmetry_allowed: bool, rest: Seq<char> },
    Other(Seq<char>),
}

/// The attributes that are told apart.
#[derive(Clone, Copy, Debug, PartialEq, Eq, Structural)]
pub enum AttributeKind {
    Recvonly,
    Sendrecv,
    Inactive,
    Fmtp,
    Other,
}

impl SdpAttributeView {
    pub open spec fn kind(self) -> AttributeKind {
        match self {
            SdpAttributeView::Recvonly => AttributeKind::Recvonly,
            SdpAttributeView::Sendrecv => AttributeKind::Sendrecv,
            SdpAttributeView::Inactive => AttributeKind::Inactive,
            SdpAttributeView::Fmtp { .. } => AttributeKind::Fmtp,
            SdpAttributeView::Other(_) => AttributeKind::Other,
        }
    }

    /// The attribute with other values for the profile level and the asymmetry;
    /// only format parameters have them.
    pub open spec fn with_profile(
        self,
        profile_level_id: u32,
        level_asymmetry_allowed: bool,
    ) -> SdpAttributeView {
        match self {
            SdpAttributeView::Fmtp { rest, .. } => SdpAttributeView::Fmtp {
                profile_level_id,
                level_asymmetry_allowed,
                rest,
            },
            other => other,
        }
    }
}

/// The attributes of each media section of a session, in order.
pub uninterp spec fn session_attributes(session: webrtc_sdp::SdpSession) -> Seq<
    Seq<SdpAttributeView>,
>;

/// Everything else that a session holds.
pub uninterp spec fn session_frame(session: webrtc_sdp::SdpSession) -> Seq<char>;

/// What `webrtc_sdp` reads in a text, if it is a session description: what
/// surrounds the attributes of the media sections, and those.
pub uninterp spec fn parsed_sdp(text: Seq<char>) -> Option<
    (Seq<char>, Seq<Seq<SdpAttributeView>>),
>;

/// How `webrtc_sdp` writes a session out.
pub uninterp spec fn written_sdp(
    frame: Seq<char>,
    attributes: Seq<Seq<SdpAttributeView>>,
) -> Seq<char>;

/// `webrtc_sdp::parse_sdp`, with warnings let pass: the session that a text
/// describes. Which texts do is left to that crate.
#[verifier::external_body]
fn parse_sdp(text: &str) -> (r: Result<webrtc_sdp::SdpSession, webrtc_sdp::error::SdpParserError>)
    ensures
        match r {
            Ok(session) => parsed_sdp(text@) == Some(
                (session_frame(session), session_attributes(session)),
            ),
            Err(_) => parsed_sdp(text@) is None,
        },
{
    webrtc_sdp::parse_sdp(text, false)
}

/// `Clone` of `webrtc_sdp::SdpSession`: a session that says the same.
#[verifier::external_body]
fn clone_session(session: &webrtc_sdp::SdpSession) -> (r: webrtc_sdp::SdpSession)
    ensures
        session_attributes(r) == session_attributes(*session),
        session_frame(r) == session_frame(*session),
{
    session.clone()
}

/// The length of `webrtc_sdp::SdpSession::media`: how many media sections there
/// are.
#[verifier::external_body]
fn media_count(session: &webrtc_sdp::SdpSession) -> (r: usize)
    ensures
        r == session_attributes(*session).len(),
{
    session.media.len()
}

/// `webrtc_sdp::media_type::SdpMedia::get_attributes`: the attributes of a media
/// section, by kind.
#[verifier::external_body]
fn attribute_kinds(session: &webrtc_sdp::SdpSession, media: usize) -> (r: Vec<AttributeKind>)
    requires
        media < session_attributes(*session).len(),
    ensures
        r@ == session_attributes(*session)[media as int].map_values(
            |a: SdpAttributeView| a.kind(),
        ),
{
    let kind = |attribute: &webrtc_sdp::attribute_type::SdpAttribute| match attribute {
        webrtc_sdp::attribute_type::SdpAttribute::Recvonly => AttributeKind::Recvonly,
        webrtc_sdp::attribute_type::SdpAttribute::Sendrecv => AttributeKind::Sendrecv,
        webrtc_sdp::attribute_type::SdpAttribute::Inactive => AttributeKind::Inactive,
        webrtc_sdp::attribute_type::SdpAttribute::Fmtp(_) => AttributeKind::Fmtp,
        _ => AttributeKind::Other,
    };
    session.media[media].get_attributes().iter().map(kind).collect()
}

/// The attributes that are not of a kind, in order.
pub open spec fn without_kind(attributes: Seq<SdpAttributeView>, kind: AttributeKind) -> Seq<
    SdpAttributeView,
> {
    attributes.filter(|a: SdpAttributeView| a.kind() != kind)
}

/// `webrtc_sdp::media_type::SdpMedia::remove_attribute`: every attribute of one
/// kind leaves a media section, the others stay in order.
#[verifier::external_body]
fn remove_attribute(session: &mut webrtc_sdp::SdpSession, media: usize, kind: AttributeKind)
    requires
        media < session_attributes(*old(session)).len(),
        kind != AttributeKind::Other,
    ensures
        session_frame(*final(session)) == session_frame(*old(session)),
        session_attributes(*final(session)) == session_attributes(*old(session)).update(
            media as int,
            without_kind(session_attributes(*old(session))[media as int], kind),
        ),
{
    session.media[media].remove_attribute(match kind {
        AttributeKind::Recvonly => webrtc_sdp::attribute_type::SdpAttributeType::Recvonly,
        AttributeKind::Sendrecv => webrtc_sdp::attribute_type::SdpAttributeType::Sendrecv,
        AttributeKind::Inactive => webrtc_sdp::attribute_type::SdpAttributeType::Inactive,
        AttributeKind::Fmtp => webrtc_sdp::attribute_type::SdpAttributeType::Fmtp,
        AttributeKind::Other => return,
    });
}

/// `webrtc_sdp::media_type::SdpMedia::set_attribute` with format parameters:
/// those of `source`, with other values for the profile level and the
/// asymmetry, come in place of all format parameters of the media section, at
/// the end. Format parameters are allowed in media sections, so that the call
/// succeeds.
#[verifier::external_body]
fn set_fmtp(
    session: &mut webrtc_sdp::SdpSession,
    media: usize,
    source: &webrtc_sdp::SdpSession,
    index: usize,
    profile_level_id: u32,
    level_asymmetry_allowed: bool,
)
    requires
        media < session_attributes(*old(session)).len(),
        media < session_attributes(*source).len(),
        index < session_attributes(*source)[media as int].len(),
        session_attributes(*source)[media as int][index as int] is Fmtp,
    ensures
        session_frame(*final(session)) == session_frame(*old(session)),
        session_attributes(*final(session)) == session_attributes(*old(session)).update(
            media as int,
            without_kind(
                session_attributes(*old(session))[media as int],
                AttributeKind::Fmtp,
            ).push(
                session_attributes(*source)[media as int][index as int].with_profile(
                    profile_level_id,
                    level_asymmetry_allowed,
                ),
            ),
        ),
{
    let attribute = source.media[media].get_attributes()[index].clone();
    if let webrtc_sdp::attribute_type::SdpAttribute::Fmtp(mut fmtp) = attribute {
        fmtp.parameters.profile_level_id = profile_level_id;
        fmtp.parameters.level_asymmetry_allowed = level_asymmetry_allowed;
        let attribute = webrtc_sdp::attribute_type::SdpAttribute::Fmtp(fmtp);
        let _ = session.media[media].set_attribute(attribute);
    }
}

/// `Display` of `webrtc_sdp::SdpSession`: the session written out, from what it
/// holds.
#[verifier::external_body]
fn write_session(session: &webrtc_sdp::SdpSession) -> (r: String)
    ensures
        r@ == written_sdp(session_frame(*session), session_attributes(*session)),
{
    session.to_string()
}

/// The last format parameters of a media section.
pub open spec fn last_fmtp(attributes: Seq<SdpAttributeView>) -> Option<SdpAttributeView>
    decreases attributes.len(),
{
    if attributes.len() == 0 {
        None
    } else if attributes.last() is Fmtp {
        Some(attributes.last())
    } else {
        last_fmtp(attributes.drop_last())
    }
}

/// Attributes that are neither a direction other than sending nor format
/// parameters.
pub open spec fn is_kept(attribute: SdpAttributeView) -> bool {
    attribute.kind() == AttributeKind::Other
}

/// What is announced of format parameters.
pub open spec fn customized_fmtp(fmtp: SdpAttributeView) -> SdpAttributeView {
    fmtp.with_profile(CONSTRAINED_BASELINE_LEVEL_ID, true)
}

/// A media section as it is announced: without directions other than sending,
/// and with the last of its format parameters, if it has any, claiming the
/// profile that every browser takes.
pub open spec fn customized_media(attributes: Seq<SdpAttributeView>) -> Seq<SdpAttributeView> {
    let kept = attributes.filter(|a: SdpAttributeView| is_kept(a));
    match last_fmtp(attributes) {
        Some(fmtp) => kept.push(customized_fmtp(fmtp)),
        None => kept,
    }
}

/// Every media section as it is announced.
pub open spec fn customized_sections(sections: Seq<Seq<SdpAttributeView>>) -> Seq<
    Seq<SdpAttributeView>,
> {
    sections.map_values(|attributes: Seq<SdpAttributeView>| customized_media(attributes))
}

/// A session description as it is announced, if the text is one.
pub open spec fn customized_text(text: Seq<char>) -> Option<Seq<char>> {
    match parsed_sdp(text) {
        Some((frame, sections)) => Some(written_sdp(frame, customized_sections(sections))),
        None => None,
    }
}

/// The text is not a session description.
#[derive(Clone, Copy, Debug, PartialEq, Eq, Structural)]
pub struct InvalidSdp;

/// Some attribute of a kind is among the first `n`.
spec fn seen(attributes: Seq<SdpAttributeView>, kind: AttributeKind, n: int) -> bool {
    exists|j: int| 0 <= j < n && (#[trigger] attributes[j]).kind() == kind
}

/// What is left of the original attributes after the first `n` were handled.
spec fn is_left(attributes: Seq<SdpAttributeView>, n: int, a: SdpAttributeView) -> bool {
    a.kind() == AttributeKind::Other || !seen(attributes, a.kind(), n)
}

/// The attributes of a media section after the first `n` of the original ones
/// were handled.
spec fn handled(attributes: Seq<SdpAttributeView>, n: int) -> Seq<SdpAttributeView> {
    let left = attributes.filter(|a: SdpAttributeView| is_left(attributes, n, a));
    match last_fmtp(attributes.take(n)) {
        Some(fmtp) => left.push(customized_fmtp(fmtp)),
        None => left,
    }
}

proof fn filter_twice<A>(
    s: Seq<A>,
    p: spec_fn(A) -> bool,
    q: spec_fn(A) -> bool,
    both: spec_fn(A) -> bool,
)
    requires
        forall|a: A| #[trigger] both(a) == (p(a) && q(a)),
    ensures
        s.filter(p).filter(q) == s.filter(both),
    decreases s.len(),
{
    reveal(Seq::filter);
    if s.len() > 0 {
        filter_twice(s.drop_last(), p, q, both);
        assert(both(s.last()) == (p(s.last()) && q(s.last())));
        if p(s.last()) {
            assert(s.filter(p).drop_last() =~= s.drop_last().filter(p));
        }
    }
}

proof fn filter_same<A>(s: Seq<A>, p: spec_fn(A) -> bool, q: spec_fn(A) -> bool)
    requires
        forall|i: int| 0 <= i < s.len() ==> #[trigger] p(s[i]) == q(s[i]),
    ensures
        s.filter(p) == s.filter(q),
    decreases s.len(),
{
    reveal(Seq::filter);
    if s.len() > 0 {
        let front = s.drop_last();
        assert forall|i: int| 0 <= i < front.len() implies #[trigger] p(front[i]) == q(
            front[i],
        ) by {
            assert(front[i] == s[i]);
        }
        filter_same(front, p, q);
        assert(p(s[s.len() - 1]) == q(s[s.len() - 1]));
    }
}

proof fn filter_all<A>(s: Seq<A>, p: spec_fn(A) -> bool)
    requires
        forall|i: int| 0 <= i < s.len() ==> #[trigger] p(s[i]),
    ensures
        s.filter(p) == s,
    decreases s.len(),
{
    reveal(Seq::filter);
    if s.len() > 0 {
        let front = s.drop_last();
        assert forall|i: int| 0 <= i < front.len() implies #[trigger] p(front[i]) by {
            assert(front[i] == s[i]);
        }
        filter_all(front, p);
        assert(p(s[s.len() - 1]));
        assert(s.filter(p) =~= s);
    }
}

proof fn last_fmtp_is_fmtp(attributes: Seq<SdpAttributeView>)
    ensures
        last_fmtp(attributes) matches Some(fmtp) ==> fmtp is Fmtp,
    decreases attributes.len(),
{
    if attributes.len() > 0 {
        last_fmtp_is_fmtp(attributes.drop_last());
    }
}

/// Handling one attribute leads from what is handled so far to what is handled
/// next.
proof fn handled_next(attributes: Seq<SdpAttributeView>, n: int)
    requires
        0 <= n < attributes.len(),
    ensures
        ({
            let kind = attributes[n].kind();
            let before = handled(attributes, n);
            handled(attributes, n + 1) == (match kind {
                AttributeKind::Other => before,
                AttributeKind::Fmtp => without_kind(before, kind).push(
                    customized_fmtp(attributes[n]),
                ),
                _ => without_kind(before, kind),
            })
        }),
{
    let kind = attributes[n].kind();
    let left = |a: SdpAttributeView| is_left(attributes, n, a);
    let left_next = |a: SdpAttributeView| is_left(attributes, n + 1, a);
    let not_kind = |a: SdpAttributeView| a.kind() != kind;
    assert(attributes.take(n + 1).drop_last() =~= attributes.take(n));
    assert(attributes.take(n + 1).last() == attributes[n]);
    assert forall|k: AttributeKind| k != kind implies seen(attributes, k, n) == seen(
        attributes,
        k,
        n + 1,
    ) by {
        if seen(attributes, k, n + 1) {
            let j = choose|j: int| 0 <= j < n + 1 && (#[trigger] attributes[j]).kind() == k;
            assert(j != n);
            assert(attributes[j].kind() == k);
        }
        if seen(attributes, k, n) {
            let j = choose|j: int| 0 <= j < n && (#[trigger] attributes[j]).kind() == k;
            assert(attributes[j].kind() == k);
        }
    }
    assert(seen(attributes, kind, n + 1)) by {
        assert(attributes[n].kind() == kind);
    }
    last_fmtp_is_fmtp(attributes.take(n));
    if kind == AttributeKind::Other {
        filter_same(attributes, left, left_next);
    } else {
        assert forall|a: SdpAttributeView| #[trigger] left_next(a) == (left(a) && not_kind(a)) by {}
        filter_twice(attributes, left, not_kind, left_next);
        match last_fmtp(attributes.take(n)) {
            Some(fmtp) => {
                attributes.filter(left).lemma_filter_push(customized_fmtp(fmtp), not_kind);
            },
            None => {},
        }
    }
}

proof fn handled_first(attributes: Seq<SdpAttributeView>)
    ensures
        handled(attributes, 0) == attributes,
{
    filter_all(attributes, |a: SdpAttributeView| is_left(attributes, 0, a));
    assert(attributes.take(0) =~= Seq::empty());
}

proof fn handled_last(attributes: Seq<SdpAttributeView>)
    ensures
        handled(attributes, attributes.len() as int) == customized_media(attributes),
{
    let n = attributes.len() as int;
    assert(attributes.take(n) =~= attributes);
    let left = |a: SdpAttributeView| is_left(attributes, n, a);
    let kept = |a: SdpAttributeView| is_kept(a);
    assert forall|i: int| 0 <= i < attributes.len() implies #[trigger] left(attributes[i]) == kept(
        attributes[i],
    ) by {
        assert(attributes[i].kind() == attributes[i].kind());
        assert(seen(attributes, attributes[i].kind(), n));
    }
    filter_same(attributes, left, kept);
}

/// What is done about one attribute of a media section.
#[derive(Clone, Copy, Debug, PartialEq, Eq, Structural)]
pub enum AttributeChange {
    Keep,
    /// Every attribute of the kind goes.
    Remove(AttributeKind),
    /// The format parameters come in place of all there are, and claim the
    /// given profile level, and whether levels may differ.
    Claim { profile_level_id: u32, level_asymmetry_allowed: bool },
}

/// Decides about an attribute by its kind: directions other than sending go,
/// format parameters claim the constrained baseline profile.
pub fn change_for(kind: AttributeKind) -> (r: AttributeChange)
    ensures
        r == (match kind {
            AttributeKind::Other => AttributeChange::Keep,
            AttributeKind::Fmtp => AttributeChange::Claim {
                profile_level_id: CONSTRAINED_BASELINE_LEVEL_ID,
                level_asymmetry_allowed: true,
            },
            _ => AttributeChange::Remove(kind),
        }),
{
    match kind {
        AttributeKind::Other => AttributeChange::Keep,
        AttributeKind::Fmtp => AttributeChange::Claim {
            profile_level_id: CONSTRAINED_BASELINE_LEVEL_ID,
            level_asymmetry_allowed: true,
        },
        _ => AttributeChange::Remove(kind),
    }
}

fn customize_media(session: &mut webrtc_sdp::SdpSession, media: usize)
    requires
        media < session_attributes(*old(session)).len(),
    ensures
        session_frame(*final(session)) == session_frame(*old(session)),
        session_attributes(*final(session)) == session_attributes(*old(session)).update(
            media as int,
            customized_media(session_attributes(*old(session))[media as int]),
        ),
{
    let source = clone_session(session);
    let kinds = attribute_kinds(session, media);
    let ghost sections = session_attributes(*session);
    let ghost attributes = sections[media as int];
    let mut i: usize = 0;
    proof {
        handled_first(attributes);
        assert(sections.update(media as int, handled(attributes, 0)) =~= sections);
    }
    while i < kinds.len()
        invariant
            i <= kinds.len(),
            media < sections.len(),
            attributes == sections[media as int],
            sections == session_attributes(*old(session)),
            session_attributes(source) == sections,
            kinds@ == attributes.map_values(|a: SdpAttributeView| a.kind()),
            session_frame(*session) == session_frame(*old(session)),
            session_attributes(*session) == sections.update(
                media as int,
                handled(attributes, i as int),
            ),
        decreases kinds.len() - i,
    {
        let ghost before = session_attributes(*session);
        assert(kinds@[i as int] == attributes[i as int].kind());
        proof {
            handled_next(attributes, i as int);
        }
        match change_for(kinds[i]) {
            AttributeChange::Keep => {},
            AttributeChange::Remove(kind) => {
                remove_attribute(session, media, kind);
            },
            AttributeChange::Claim { profile_level_id, level_asymmetry_allowed } => {
                set_fmtp(session, media, &source, i, profile_level_id, level_asymmetry_allowed);
            },
        }
        i += 1;
        assert(session_attributes(*session) =~= sections.update(
            media as int,
            handled(attributes, i as int),
        ));
    }
    proof {
        handled_last(attributes);
    }
}

/// Adjusts a session description before it is handed on: directions other than
/// sending are dropped, and format parameters claim the constrained baseline
/// profile and that levels may differ, so that any browser accepts them.
pub fn customize_sdp(text: &str) -> (r: Result<String, InvalidSdp>)
    ensures
        match r {
            Ok(customized) => customized_text(text@) == Some(customized@),
            Err(_) => customized_text(text@) is None,
        },
{
    let mut session = match parse_sdp(text) {
        Ok(session) => session,
        Err(_) => {
            return Err(InvalidSdp);
        },
    };
    let n: usize = media_count(&session);
    let ghost frame = session_frame(session);
    let ghost sections = session_attributes(session);
    let mut media: usize = 0;
    while media < n
        invariant
            media <= n,
            n == sections.len(),
            session_frame(session) == frame,
            session_attributes(session).len() == n,
            forall|j: int|
                0 <= j < media ==> #[trigger] session_attributes(session)[j] == customized_media(
                    sections[j],
                ),
            forall|j: int|
                media <= j < n ==> #[trigger] session_attributes(session)[j] == sections[j],
        decreases n - media,
    {
        customize_media(&mut session, media);
        media += 1;
    }
    assert(session_attributes(session) =~= customized_sections(sections));
    Ok(write_session(&session))
}

/// Format parameters that claim the constrained baseline profile.
pub open spec fn claims_baseline(attribute: SdpAttributeView) -> bool {
    match attribute {
        SdpAttributeView::Fmtp {
            profile_level_id,
            level_asymmetry_allowed,
            ..
        } => profile_level_id == CONSTRAINED_BASELINE_LEVEL_ID && level_asymmetry_allowed,
        _ => false,
    }
}

/// In every media section that is announced there is no direction but sending,
/// at most one set of format parameters, and that claims the constrained
/// baseline profile; everything else is announced as it was, in order.
pub proof fn announced_sections_are_acceptable(attributes: Seq<SdpAttributeView>)
    ensures
        ({
            let announced = customized_media(attributes);
            &&& forall|i: int|
                0 <= i < announced.len() ==> is_kept(#[trigger] announced[i]) || (i
                    == announced.len() - 1 && claims_baseline(announced[i]))
            &&& without_kind(announced, AttributeKind::Fmtp) == attributes.filter(
                |a: SdpAttributeView| is_kept(a),
            )
        }),
{
    let kept = |a: SdpAttributeView| is_kept(a);
    let not_fmtp = |a: SdpAttributeView| a.kind() != AttributeKind::Fmtp;
    let k = attributes.filter(kept);
    others_are_kept(attributes);
    last_fmtp_is_fmtp(attributes);
    filter_all(k, not_fmtp);
    match last_fmtp(attributes) {
        Some(fmtp) => {
            k.lemma_filter_push(customized_fmtp(fmtp), not_fmtp);
        },
        None => {},
    }
}

/// What was adjusted once is not adjusted further.
pub proof fn customizing_twice_is_customizing_once(sections: Seq<Seq<SdpAttributeView>>)
    ensures
        customized_sections(customized_sections(sections)) == customized_sections(sections),
{
    assert forall|j: int| 0 <= j < sections.len() implies customized_media(
        customized_media(#[trigger] sections[j]),
    ) == customized_media(sections[j]) by {
        media_customized_twice(sections[j]);
    }
    assert(customized_sections(customized_sections(sections)) =~= customized_sections(sections));
}

proof fn others_are_kept(attributes: Seq<SdpAttributeView>)
    ensures
        ({
            let k = attributes.filter(|a: SdpAttributeView| is_kept(a));
            forall|i: int| 0 <= i < k.len() ==> is_kept(#[trigger] k[i])
        }),
{
    let kept = |a: SdpAttributeView| is_kept(a);
    let k = attributes.filter(kept);
    assert forall|i: int| 0 <= i < k.len() implies is_kept(#[trigger] k[i]) by {
        attributes.lemma_filter_pred(kept, i);
    }
}

proof fn no_fmtp_among_others(attributes: Seq<SdpAttributeView>)
    requires
        forall|i: int| 0 <= i < attributes.len() ==> is_kept(#[trigger] attributes[i]),
    ensures
        last_fmtp(attributes) is None,
    decreases attributes.len(),
{
    if attributes.len() > 0 {
        let front = attributes.drop_last();
        assert forall|i: int| 0 <= i < front.len() implies is_kept(#[trigger] front[i]) by {
            assert(front[i] == attributes[i]);
        }
        no_fmtp_among_others(front);
        assert(is_kept(attributes[attributes.len() - 1]));
    }
}

proof fn media_customized_twice(attributes: Seq<SdpAttributeView>)
    ensures
        customized_media(customized_media(attributes)) == customized_media(attributes),
{
    let kept = |a: SdpAttributeView| is_kept(a);
    let k = attributes.filter(kept);
    others_are_kept(attributes);
    last_fmtp_is_fmtp(attributes);
    filter_all(k, kept);
    match last_fmtp(attributes) {
        Some(fmtp) => {
            let once = k.push(customized_fmtp(fmtp));
            k.lemma_filter_push(customized_fmtp(fmtp), kept);
            assert(once.last() is Fmtp);
            assert(last_fmtp(once) == Some(customized_fmtp(fmtp)));
        },
        None => {
            no_fmtp_among_others(k);
        },
    }
}

proof fn last_fmtp_is_the_last(attributes: Seq<SdpAttributeView>, i: int)
    requires
        0 <= i < attributes.len(),
        attributes[i] is Fmtp,
        forall|j: int| i < j < attributes.len() ==> !(#[trigger] attributes[j] is Fmtp),
    ensures
        last_fmtp(attributes) == Some(attributes[i]),
    decreases attributes.len(),
{
    if i < attributes.len() - 1 {
        let front = attributes.drop_last();
        assert(!(attributes[attributes.len() - 1] is Fmtp));
        assert forall|j: int| i < j < front.len() implies !(#[trigger] front[j] is Fmtp) by {
            assert(front[j] == attributes[j]);
        }
        last_fmtp_is_the_last(front, i);
    }
}

/// Of the format parameters of a media section the last are announced, at the end,
/// in everything as they were but that they claim level 3.1 of the constrained
/// baseline profile and that levels may differ.
pub proof fn last_format_parameters_are_announced(attributes: Seq<SdpAttributeView>, i: int)
    requires
        0 <= i < attributes.len(),
        attributes[i] is Fmtp,
        forall|j: int| i < j < attributes.len() ==> !(#[trigger] attributes[j] is Fmtp),
    ensures
        ({
            let announced = customized_media(attributes);
            &&& announced.len() > 0
            &&& announced.last() == (SdpAttributeView::Fmtp {
                profile_level_id: 0x42e01f,
                level_asymmetry_allowed: true,
                rest: attributes[i]->rest,
            })
            &&& announced.drop_last() == attributes.filter(
                |a: SdpAttributeView| a is Other,
            )
        }),
{
    last_fmtp_is_the_last(attributes, i);
    let others = |a: SdpAttributeView| a is Other;
    let kept = |a: SdpAttributeView| is_kept(a);
    filter_same(attributes, others, kept);
    let k = attributes.filter(kept);
    assert(k.push(customized_fmtp(attributes[i])).drop_last() =~= k);
}

/// A media section without format parameters is announced with none: what is left of
/// it are the attributes that are no direction, in order.
pub proof fn sections_without_format_parameters_get_none(attributes: Seq<SdpAttributeView>)
    requires
        forall|j: int| 0 <= j < attributes.len() ==> !(#[trigger] attributes[j] is Fmtp),
    ensures
        customized_media(attributes) == attributes.filter(|a: SdpAttributeView| a is Other),
    decreases attributes.len(),
{
    no_fmtp_to_find(attributes);
    let others = |a: SdpAttributeView| a is Other;
    let kept = |a: SdpAttributeView| is_kept(a);
    filter_same(attributes, others, kept);
}

proof fn no_fmtp_to_find(attributes: Seq<SdpAttributeView>)
    requires
        forall|j: int| 0 <= j < attributes.len() ==> !(#[trigger] attributes[j] is Fmtp),
    ensures
        last_fmtp(attributes) is None,
    decreases attributes.len(),
{
    if attributes.len() > 0 {
        let front = attributes.drop_last();
        assert forall|j: int| 0 <= j < front.len() implies !(#[trigger] front[j] is Fmtp) by {
            assert(front[j] == attributes[j]);
        }
        assert(!(attributes[attributes.len() - 1] is Fmtp));
        no_fmtp_to_find(front);
    }
}

/// A description is announced with as many media sections as it has, each adjusted in
/// its place, and nothing around them changed; what is no description is not
/// announced.
pub proof fn descriptions_are_announced_section_by_section(text: Seq<char>)
    ensures
        customized_text(text) is None <==> parsed_sdp(text) is None,
        parsed_sdp(text) matches Some((frame, sections)) ==> exists|announced: Seq<
            Seq<SdpAttributeView>,
        >| #[trigger]
            written_sdp(frame, announced) == customized_text(text)->0 && announced.len()
                == sections.len() && forall|j: int|
                0 <= j < sections.len() ==> #[trigger] announced[j] == customized_media(
                    sections[j],
                ),
{
    match parsed_sdp(text) {
        Some((frame, sections)) => {
            let announced = customized_sections(sections);
            assert(written_sdp(frame, announced) == customized_text(text)->0);
        },
        None => {},
    }
}

} // verus!
