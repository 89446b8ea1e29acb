//! Endpoints: where a stream is sent to or taken from, written as URLs.
use vstd::prelude::*;

use crate::text::same_text;

verus! {

/// What `url::Url` reads in a text, if the text is a URL: the scheme, the host,
/// the port, the path, the URL written out, and the part of that from the path
/// on.
pub uninterp spec fn url_parts(text: Seq<char>) -> Option<
    (Seq<char>, Option<Seq<char>>, Option<u16>, Seq<char>, Seq<char>, Seq<char>),
>;

/// The parts of a URL.
pub struct UrlParts {
    pub scheme: String,
    pub host: Option<String>,
    pub port: Option<u16>,
    pub path: String,
    pub text: String,
    /// The text from the path on: path, query and fragment.
    pub rest: String,
}

/// The view of an optional text.
pub open spec fn optional_text(s: Option<String>) -> Option<Seq<char>> {
    match s {
        Some(t) => Some(t@),
        None => None,
    }
}

impl View for UrlParts {
    type V = (Seq<char>, Option<Seq<char>>, Option<u16>, Seq<char>, Seq<char>, Seq<char>);

    open spec fn view(&self) -> Self::V {
        (self.scheme@, optional_text(self.host), self.port, self.path@, self.text@, self.rest@)
    }
}

/// `url::Url::parse`: the parts of the URL that `text` holds, or nothing where
/// `text` is not an absolute URL. What makes a text a URL, and how it is
/// normalised, is left to that crate.
#[verifier::external_body]
fn parse_url(text: &str) -> (r: Option<UrlParts>)
    ensures
        match r {
            Some(parts) => url_parts(text@) == Some(parts@),
            None => url_parts(text@) is None,
        },
{
    let url = url::Url::parse(text).ok()?;
    Some(UrlParts {
        scheme: url.scheme().to_string(),
        host: url.host_str().map(|host| host.to_string()),
        port: url.port(),
        path: url.path().to_string(),
        text: url.as_str().to_string(),
        rest: url[url::Position::BeforePath..].to_string(),
    })
}

/// The schemes of which `url::Url` refuses to drop the host.
pub open spec fn insists_on_host(scheme: Seq<char>) -> bool {
    ||| scheme == "http"@
    ||| scheme == "https"@
    ||| scheme == "ws"@
    ||| scheme == "wss"@
    ||| scheme == "ftp"@
}

/// The text from the path on begins with a query or a fragment.
pub open spec fn is_pathless(path: Seq<char>, rest: Seq<char>) -> bool {
    path.len() == 0 && rest.len() > 0
}

/// A scheme followed by a path, a query and a fragment; an empty rest is
/// written as the root path, and files keep the mark of an address that is
/// empty.
pub open spec fn rooted(scheme: Seq<char>, rest: Seq<char>) -> Seq<char> {
    scheme + (if scheme == "file"@ {
        "://"@
    } else {
        ":"@
    }) + (if rest.len() == 0 {
        "/"@
    } else {
        rest
    })
}

/// The text is a URL of which `url::Url` drops the address where it has one.
pub open spec fn lets_address_go(text: Seq<char>) -> bool {
    match url_parts(text) {
        Some((scheme, host, _, path, _, rest)) => host is Some ==> !insists_on_host(scheme)
            && !is_pathless(path, rest),
        None => false,
    }
}

/// `url::Url::set_host(None)` and `url::Url::set_port(None)` on the URL that
/// `text` holds, and the URL written out. Where the URL has a host, both are
/// gone, with the user, and the scheme and the text from the path on are what is
/// left; where it has none, both calls leave it as it is. Two kinds of URL with a
/// host are kept from it: those whose scheme insists on one, and those that go on
/// with a query or a fragment right behind it, at which debug builds of that
/// crate stop.
#[verifier::external_body]
fn drop_address(text: &str) -> (r: String)
    requires
        lets_address_go(text@),
    ensures
        match url_parts(text@) {
            Some((scheme, Some(_), _, _, _, rest)) => r@ == rooted(scheme, rest),
            Some((_, None, _, _, written, _)) => r@ == written,
            None => true,
        },
{
    let Ok(mut url) = url::Url::parse(text) else {
        return text.to_string();
    };
    let _ = url.set_host(None);
    let _ = url.set_port(None);
    url.to_string()
}

/// A source as it is identified by: where it is a URL with an address, without
/// that, so that the stream keeps its identity when the address changes. A URL
/// without an address is written out, and any other source stays.
pub open spec fn addressless(source: Seq<char>) -> Seq<char> {
    match url_parts(source) {
        Some((scheme, Some(_), _, _, _, rest)) => rooted(scheme, rest),
        Some((_, None, _, _, written, _)) => written,
        None => source,
    }
}

/// Writes a scheme and the text from the path on, without an address.
pub fn rooted_url(scheme: &str, rest: &str) -> (r: String)
    ensures
        r@ == rooted(scheme@, rest@),
{
    let mut s = scheme.to_owned();
    if same_text(scheme, "file") {
        s.append("://");
    } else {
        s.append(":");
    }
    if rest.is_empty() {
        s.append("/");
    } else {
        s.append(rest);
    }
    s
}

fn scheme_insists_on_host(scheme: &str) -> (r: bool)
    ensures
        r == insists_on_host(scheme@),
{
    same_text(scheme, "http") || same_text(scheme, "https") || same_text(scheme, "ws")
        || same_text(scheme, "wss") || same_text(scheme, "ftp")
}

/// Drops the address from a source that is a URL; any other source stays.
pub fn without_address(source: &str) -> (r: String)
    ensures
        r@ == addressless(source@),
{
    match parse_url(source) {
        None => source.to_owned(),
        Some(parts) => {
            let pathless = parts.path.as_str().is_empty() && !parts.rest.as_str().is_empty();
            if parts.host.is_some() && (pathless || scheme_insists_on_host(
                parts.scheme.as_str(),
            )) {
                rooted_url(parts.scheme.as_str(), parts.rest.as_str())
            } else {
                drop_address(source)
            }
        },
    }
}

/// The text that a stream's identity is derived from: the name of its source
/// and the source itself without its address.
pub open spec fn identity_seed(name: Seq<char>, source: Seq<char>) -> Seq<char> {
    name + ":"@ + addressless(source)
}

/// Writes the text that a stream's identity is derived from.
pub fn pipeline_seed(name: &str, source: &str) -> (r: String)
    ensures
        r@ == identity_seed(name@, source@),
{
    seed_of(name, without_address(source).as_str())
}

/// Writes a name and a source that has no address any more.
pub fn seed_of(name: &str, source: &str) -> (r: String)
    ensures
        r@ == name@ + ":"@ + source@,
{
    let mut s = name.to_owned();
    s.append(":");
    s.append(source);
    s
}

/// The text is a URL of the scheme that has a host and goes on with `rest`.
pub open spec fn is_addressed(text: Seq<char>, scheme: Seq<char>, rest: Seq<char>) -> bool {
    match url_parts(text) {
        Some((its_scheme, host, _, _, _, its_rest)) => its_scheme == scheme && host is Some
            && its_rest == rest,
        None => false,
    }
}

/// Two sources with one name, whose URLs have the same scheme and the same text
/// from the path on, have one identity, whatever hosts, ports and users they
/// name.
pub proof fn identity_ignores_the_address(
    name: Seq<char>,
    a: Seq<char>,
    b: Seq<char>,
    scheme: Seq<char>,
    rest: Seq<char>,
)
    requires
        is_addressed(a, scheme, rest),
        is_addressed(b, scheme, rest),
    ensures
        identity_seed(name, a) == identity_seed(name, b),
{
}

/// A URL that a stream is sent to or taken from.
pub struct Endpoint {
    pub scheme: String,
    pub host: Option<String>,
    pub port: Option<u16>,
    pub path: String,
    /// The whole URL.
    pub text: String,
}

/// What an [`Endpoint`] stands for.
#[verifier::ext_equal]
pub struct EndpointView {
    pub scheme: Seq<char>,
    pub host: Option<Seq<char>>,
    pub port: Option<u16>,
    pub path: Seq<char>,
    pub text: Seq<char>,
}

impl View for Endpoint {
    type V = EndpointView;

    open spec fn view(&self) -> EndpointView {
        EndpointView {
            scheme: self.scheme@,
            host: optional_text(self.host),
            port: self.port,
            path: self.path@,
            text: self.text@,
        }
    }
}

/// The endpoint that a text holds.
pub open spec fn endpoint_of(text: Seq<char>) -> Option<EndpointView> {
    match url_parts(text) {
        Some((scheme, host, port, path, written, _)) => Some(
            EndpointView { scheme, host, port, path, text: written },
        ),
        None => None,
    }
}

impl Endpoint {
    /// Reads an endpoint; `None` where the text is not an absolute URL.
    pub fn parse(text: &str) -> (r: Option<Endpoint>)
        ensures
            match r {
                Some(endpoint) => endpoint_of(text@) == Some(endpoint@),
                None => endpoint_of(text@) is None,
            },
    {
        match parse_url(text) {
            Some(parts) => Some(
                Endpoint {
                    scheme: parts.scheme,
                    host: parts.host,
                    port: parts.port,
                    path: parts.path,
                    text: parts.text,
                },
            ),
            None => None,
        }
    }

    /// Whether the scheme is `scheme`.
    pub fn has_scheme(&self, scheme: &str) -> (r: bool)
        ensures
            r == (self@.scheme == scheme@),
    {
        same_text(self.scheme.as_str(), scheme)
    }
}

impl Clone for Endpoint {
    fn clone(&self) -> (r: Endpoint)
        ensures
            r@ == self@,
    {
        Endpoint {
            scheme: self.scheme.clone(),
            host: match &self.host {
                Some(host) => Some(host.clone()),
                None => None,
            },
            port: self.port,
            path: self.path.clone(),
            text: self.text.clone(),
        }
    }
}

/// What a list of endpoints stands for.
pub open spec fn endpoint_views(s: Seq<Endpoint>) -> Seq<EndpointView> {
    s.map_values(|e: Endpoint| e@)
}

/// Some endpoint has the scheme.
pub open spec fn any_scheme(endpoints: Seq<EndpointView>, scheme: Seq<char>) -> bool {
    exists|i: int| 0 <= i < endpoints.len() && (#[trigger] endpoints[i]).scheme == scheme
}

/// Whether some endpoint has the scheme.
pub fn has_any_scheme(endpoints: &Vec<Endpoint>, scheme: &str) -> (r: bool)
    ensures
        r == any_scheme(endpoint_views(endpoints@), scheme@),
{
    let mut i: usize = 0;
    let ghost views = endpoint_views(endpoints@);
    while i < endpoints.len()
        invariant
            i <= endpoints.len(),
            views == endpoint_views(endpoints@),
            forall|j: int| 0 <= j < i ==> (#[trigger] views[j]).scheme != scheme@,
        decreases endpoints.len() - i,
    {
        assert(views[i as int] == endpoints[i as int]@);
        if endpoints[i].has_scheme(scheme) {
            return true;
        }
        i += 1;
    }
    false
}

/// Copies a list of endpoints.
pub fn clone_endpoints(endpoints: &Vec<Endpoint>) -> (r: Vec<Endpoint>)
    ensures
        endpoint_views(r@) == endpoint_views(endpoints@),
{
    let mut r: Vec<Endpoint> = Vec::new();
    let mut i: usize = 0;
    while i < endpoints.len()
        invariant
            i <= endpoints.len(),
            r.len() == i,
            forall|j: int| 0 <= j < i ==> (#[trigger] r[j])@ == endpoints[j]@,
        decreases endpoints.len() - i,
    {
        r.push(endpoints[i].clone());
        i += 1;
    }
    assert(endpoint_views(r@) =~= endpoint_views(endpoints@));
    r
}

/// A stream is identified by its name and, where its source is a URL with a host, by
/// the scheme and everything from the path on; an empty rest counts as the root, and
/// files keep their empty address. A URL without a host counts as it is written, and
/// a source that is no URL as it is. So sources that differ in name, scheme, path,
/// query or fragment are told apart.
pub proof fn identities_hold_all_but_the_address(name: Seq<char>, source: Seq<char>)
    ensures
        url_parts(source) is None ==> identity_seed(name, source) == name + ":"@ + source,
        url_parts(source) matches Some((scheme, host, port, path, written, rest)) ==> {
            &&& host is None ==> identity_seed(name, source) == name + ":"@ + written
            &&& host is Some && scheme != "file"@ && rest.len() > 0 ==> identity_seed(name, source)
                == name + ":"@ + (scheme + ":"@ + rest)
            &&& host is Some && scheme != "file"@ && rest.len() == 0 ==> identity_seed(
                name,
                source,
            ) == name + ":"@ + (scheme + ":"@ + "/"@)
            &&& host is Some && scheme == "file"@ && rest.len() > 0 ==> identity_seed(name, source)
                == name + ":"@ + (scheme + "://"@ + rest)
        },
{
}

/// Two streams of one name whose sources are URLs with a host have one identity only
/// where they have one scheme and go on the same from the path on.
pub proof fn other_paths_have_other_identities(
    name: Seq<char>,
    scheme: Seq<char>,
    a: Seq<char>,
    b: Seq<char>,
    source_a: Seq<char>,
    source_b: Seq<char>,
)
    requires
        is_addressed(source_a, scheme, a),
        is_addressed(source_b, scheme, b),
        a.len() > 0,
        b.len() > 0,
        identity_seed(name, source_a) == identity_seed(name, source_b),
    ensures
        a == b,
{
    let front = if scheme == "file"@ {
        scheme + "://"@
    } else {
        scheme + ":"@
    };
    let x = name + ":"@;
    assert(identity_seed(name, source_a) == x + (front + a));
    assert(identity_seed(name, source_b) == x + (front + b));
    assert((x + (front + a)).skip((x.len() + front.len()) as int) =~= a);
    assert((x + (front + b)).skip((x.len() + front.len()) as int) =~= b);
}

/// An endpoint is what its URL says: each part in its place, and the URL as it is
/// written out.
pub proof fn endpoints_are_what_their_urls_say(text: Seq<char>)
    ensures
        endpoint_of(text) is None <==> url_parts(text) is None,
        url_parts(text) matches Some((scheme, host, port, path, written, rest)) ==> {
            let endpoint = endpoint_of(text)->0;
            &&& endpoint.scheme == scheme && endpoint.host == host && endpoint.port == port
            &&& endpoint.path == path && endpoint.text == written
        },
{
}

} // verus!
