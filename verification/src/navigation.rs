use vstd::prelude::*;

use crate::text::str_equal;

verus! {

/// What navigation decisions read of a parsed URL, as plain values.
pub struct WebUrl {
    /// The scheme, lower-cased, without the `:`.
    pub scheme: String,
    /// The host, where the URL has one.
    pub host: Option<String>,
    /// The explicit port, or the scheme's known default port.
    pub port: Option<u16>,
    /// The user name, empty where there is none.
    pub username: String,
    /// The password, where there is one.
    pub password: Option<String>,
}

/// The mathematical model of a `WebUrl`.
pub struct UrlView {
    pub scheme: Seq<char>,
    pub host: Option<Seq<char>>,
    pub port: Option<u16>,
    pub username: Seq<char>,
    pub password: Option<Seq<char>>,
}

/// The view of an optional string.
pub open spec fn opt_str_view(s: Option<String>) -> Option<Seq<char>> {
    match s {
        Some(v) => Some(v@),
        None => None,
    }
}

impl View for WebUrl {
    type V = UrlView;

    open spec fn view(&self) -> UrlView {
        UrlView {
            scheme: self.scheme@,
            host: opt_str_view(self.host),
            port: self.port,
            username: self.username@,
            password: opt_str_view(self.password),
        }
    }
}

/// The view of an optional parsed URL.
pub open spec fn opt_url_view(u: Option<WebUrl>) -> Option<UrlView> {
    match u {
        Some(v) => Some(v@),
        None => None,
    }
}

/// What `url::Url::parse` makes of a string: `None` where it refuses it, otherwise the
/// scheme, host, port (or the scheme's known default), user name and password it reads.
pub uninterp spec fn url_parse(input: Seq<char>) -> Option<UrlView>;

/// Calls `url::Url::parse` and reads the parsed URL's `scheme`, `host_str`,
/// `port_or_known_default`, `username` and `password`.
/// The contract claims only that the outcome is the one that `url_parse` names for the input:
/// the WHATWG parsing rules that decide it are left unsaid.
#[verifier::external_body]
fn url_crate_parse(input: &str) -> (res: Option<WebUrl>)
    ensures
        opt_url_view(res) == url_parse(input@),
{
    url::Url::parse(input).ok().map(|u| WebUrl {
        scheme: u.scheme().to_string(),
        host: u.host_str().map(|h| h.to_string()),
        port: u.port_or_known_default(),
        username: u.username().to_string(),
        password: u.password().map(|p| p.to_string()),
    })
}

impl WebUrl {
    /// Parses an absolute URL; `None` where the text is no URL.
    pub fn parse(input: &str) -> (res: Option<WebUrl>)
        ensures
            opt_url_view(res) == url_parse(input@),
    {
        url_crate_parse(input)
    }
}

/// Where a navigation request may go.
#[derive(Debug, Clone, Copy, PartialEq, Eq, Structural)]
pub enum NavigationDecision {
    AllowInApp,
    OpenExternal,
    Deny,
}

/// The primary WhatsApp Web host, the only one trusted with sensitive permissions.
pub open spec fn primary_host() -> Seq<char> {
    "web.whatsapp.com"@
}

/// The hosts whose documents may load inside the application: the primary host and the
/// exact auxiliary hosts that WhatsApp Web loads in child frames.
pub open spec fn is_app_host(h: Seq<char>) -> bool {
    ||| h == "web.whatsapp.com"@
    ||| h == "flows.whatsapp.net"@
    ||| h == "webtp.whatsapp.net"@
}

/// `u` is an HTTPS URL on the default port, with no credentials, whose host is one of `hosts`.
pub open spec fn has_secure_origin_spec(u: UrlView, hosts: Seq<Seq<char>>) -> bool {
    &&& u.scheme == "https"@
    &&& u.host matches Some(h) && hosts.contains(h)
    &&& u.port == Some(443u16)
    &&& u.username.len() == 0
    &&& u.password is None
}

/// `u` may be granted sensitive permissions: it is on the primary origin.
pub open spec fn trusted_origin(u: UrlView) -> bool {
    has_secure_origin_spec(u, seq![primary_host()])
}

/// `u` may load inside the application.
pub open spec fn allowed_app_navigation(u: UrlView) -> bool {
    has_secure_origin_spec(u, seq!["web.whatsapp.com"@, "flows.whatsapp.net"@, "webtp.whatsapp.net"@])
}

/// `s` is `http` or `https`.
pub open spec fn is_web_scheme(s: Seq<char>) -> bool {
    s == "http"@ || s == "https"@
}

/// Where a navigation to `u` goes.
pub open spec fn decide_spec(u: UrlView) -> NavigationDecision {
    if allowed_app_navigation(u) {
        NavigationDecision::AllowInApp
    } else if is_web_scheme(u.scheme) {
        NavigationDecision::OpenExternal
    } else {
        NavigationDecision::Deny
    }
}

fn has_secure_origin(url: &WebUrl, allowed_hosts: &[&str]) -> (res: bool)
    ensures
        res == has_secure_origin_spec(url@, allowed_hosts@.map_values(|h: &str| h@)),
{
    proof {
        reveal_strlit("https");
    }
    if !str_equal(url.scheme.as_str(), "https") {
        return false;
    }
    let ghost hosts = allowed_hosts@.map_values(|h: &str| h@);
    let host_ok = match &url.host {
        Some(host) => {
            let mut found = false;
            let mut i: usize = 0;
            while i < allowed_hosts.len()
                invariant
                    i <= allowed_hosts@.len(),
                    hosts == allowed_hosts@.map_values(|h: &str| h@),
                    found == (exists|j: int| 0 <= j < i && hosts[j] == host@),
                decreases allowed_hosts@.len() - i,
            {
                let same = str_equal(host.as_str(), allowed_hosts[i]);
                assert(hosts[i as int] == allowed_hosts@[i as int]@);
                if same {
                    found = true;
                }
                proof {
                    if same {
                        assert(0 <= i < i + 1 && hosts[i as int] == host@);
                    } else {
                        assert forall|j: int| 0 <= j < i + 1 && hosts[j] == host@ implies 0 <= j < i by {}
                    }
                }
                i = i + 1;
            }
            proof {
                if found {
                    let j = choose|j: int| 0 <= j < i && hosts[j] == host@;
                    assert(hosts.contains(host@));
                }
            }
            found
        },
        None => false,
    };
    host_ok && url.port == Some(443u16) && url.username.as_str().is_empty()
        && url.password.is_none()
}

/// `url` is on the primary WhatsApp Web origin, the only one trusted with camera,
/// microphone and notification permissions.
pub fn is_trusted_origin(url: &WebUrl) -> (res: bool)
    ensures
        res == trusted_origin(url@),
{
    let hosts = ["web.whatsapp.com"];
    assert(hosts@.map_values(|h: &str| h@) =~= seq!["web.whatsapp.com"@]);
    has_secure_origin(url, &hosts)
}

/// `url` may load inside the application: it is on the primary WhatsApp Web origin or on one
/// of the exact auxiliary origins that WhatsApp Web loads in child frames.
pub fn is_allowed_app_navigation(url: &WebUrl) -> (res: bool)
    ensures
        res == allowed_app_navigation(url@),
{
    let hosts = ["web.whatsapp.com", "flows.whatsapp.net", "webtp.whatsapp.net"];
    assert(hosts@.map_values(|h: &str| h@) =~= seq![
        "web.whatsapp.com"@,
        "flows.whatsapp.net"@,
        "webtp.whatsapp.net"@,
    ]);
    has_secure_origin(url, &hosts)
}

/// Whether `url` is an `http` or `https` URL, the only kind that is ever handed to the
/// system browser.
pub fn is_web_url(url: &WebUrl) -> (res: bool)
    ensures
        res == is_web_scheme(url@.scheme),
        res == (url@.scheme == "http"@ || url@.scheme == "https"@),
{
    str_equal(url.scheme.as_str(), "http") || str_equal(url.scheme.as_str(), "https")
}

/// Where a navigation to `url` goes: into the application for the allowed WhatsApp origins,
/// to the system browser for other web URLs, and nowhere for every other scheme.
pub fn decide(url: &WebUrl) -> (res: NavigationDecision)
    ensures
        res == decide_spec(url@),
{
    if is_allowed_app_navigation(url) {
        NavigationDecision::AllowInApp
    } else if is_web_url(url) {
        NavigationDecision::OpenExternal
    } else {
        NavigationDecision::Deny
    }
}

/// What the web view does with a navigation request.
#[derive(Debug, Clone, Copy, PartialEq, Eq, Structural)]
pub enum PolicyAction {
    /// Let the web view load the document.
    Use,
    /// Hand the URL to the system browser and keep the web view where it is.
    OpenExternally,
    /// Keep the web view where it is.
    Ignore,
}

/// What the web view does with a navigation to the parsed URL `parsed` (`None` where the
/// requested text is no URL), given whether the user started it.
pub open spec fn policy_spec(parsed: Option<UrlView>, user_gesture: bool) -> PolicyAction {
    match parsed {
        None => PolicyAction::Ignore,
        Some(u) => match decide_spec(u) {
            NavigationDecision::AllowInApp => PolicyAction::Use,
            NavigationDecision::OpenExternal => if user_gesture {
                PolicyAction::OpenExternally
            } else {
                PolicyAction::Ignore
            },
            NavigationDecision::Deny => PolicyAction::Ignore,
        },
    }
}

/// What the web view does with a navigation whose requested text parsed to `parsed`.
pub fn policy_for(parsed: &Option<WebUrl>, user_gesture: bool) -> (res: PolicyAction)
    ensures
        res == policy_spec(opt_url_view(*parsed), user_gesture),
{
    match parsed {
        None => PolicyAction::Ignore,
        Some(url) => match decide(url) {
            NavigationDecision::AllowInApp => PolicyAction::Use,
            NavigationDecision::OpenExternal => if user_gesture {
                PolicyAction::OpenExternally
            } else {
                PolicyAction::Ignore
            },
            NavigationDecision::Deny => PolicyAction::Ignore,
        },
    }
}

/// What the web view does with a navigation request for `uri`: text that is no URL is
/// ignored; allowed WhatsApp origins load; other web URLs go to the system browser only when
/// the user started the navigation; everything else is ignored.
pub fn navigation_policy(uri: &str, user_gesture: bool) -> (res: PolicyAction)
    ensures
        res == policy_spec(url_parse(uri@), user_gesture),
{
    let parsed = WebUrl::parse(uri);
    policy_for(&parsed, user_gesture)
}

/// Whether the page at `uri` (`None` where the web view shows none) is on the primary
/// WhatsApp Web origin.
pub fn page_is_trusted(uri: Option<&str>) -> (res: bool)
    ensures
        res == (match uri {
            Some(s) => match url_parse(s@) {
                Some(u) => trusted_origin(u),
                None => false,
            },
            None => false,
        }),
{
    match uri {
        Some(s) => match WebUrl::parse(s) {
            Some(url) => is_trusted_origin(&url),
            None => false,
        },
        None => false,
    }
}

/// Every origin trusted with sensitive permissions may also load inside the application.
pub proof fn law_trusted_origin_is_app_origin(u: UrlView)
    requires
        trusted_origin(u),
    ensures
        allowed_app_navigation(u),
{
    let h = u.host->0;
    assert(seq!["web.whatsapp.com"@].contains(h));
    assert(seq!["web.whatsapp.com"@, "flows.whatsapp.net"@, "webtp.whatsapp.net"@][0] == h);
}

/// A URL loads inside the application exactly when it is an allowed app origin, and every
/// URL that does is an HTTPS URL on port 443 without credentials.
pub proof fn law_in_app_exactly_for_allowed_origins(u: UrlView)
    ensures
        (decide_spec(u) == NavigationDecision::AllowInApp) == allowed_app_navigation(u),
        decide_spec(u) == NavigationDecision::AllowInApp ==> {
            &&& u.scheme == "https"@
            &&& u.port == Some(443u16)
            &&& u.username.len() == 0
            &&& u.password is None
            &&& u.host matches Some(h) && is_app_host(h)
        },
{
    if allowed_app_navigation(u) {
        let h = u.host->0;
        let hosts = seq!["web.whatsapp.com"@, "flows.whatsapp.net"@, "webtp.whatsapp.net"@];
        let j = choose|j: int| 0 <= j < hosts.len() && hosts[j] == h;
        assert(is_app_host(h));
    }
}

/// Only `http` and `https` URLs ever leave the application: a URL is denied exactly when its
/// scheme is neither.
pub proof fn law_denied_exactly_for_non_web_schemes(u: UrlView)
    ensures
        (decide_spec(u) == NavigationDecision::Deny) == !(u.scheme == "http"@ || u.scheme
            == "https"@),
        decide_spec(u) == NavigationDecision::OpenExternal <==> ((u.scheme == "http"@
            || u.scheme == "https"@) && !allowed_app_navigation(u)),
{
}

/// Exactly the user-started navigations to foreign `http` and `https` URLs open the system
/// browser, a navigation loads in the web view exactly when its URL is an allowed app origin,
/// and everything else (text that is no URL among it) is ignored.
pub proof fn law_navigation_policy_is_safe(parsed: Option<UrlView>, user_gesture: bool)
    ensures
        policy_spec(parsed, user_gesture) == PolicyAction::OpenExternally <==> (parsed matches Some(
            u) && user_gesture && (u.scheme == "http"@ || u.scheme == "https"@)
            && !allowed_app_navigation(u)),
        policy_spec(parsed, user_gesture) == PolicyAction::Use <==> (parsed matches Some(u)
            && allowed_app_navigation(u)),
        parsed is None ==> policy_spec(parsed, user_gesture) == PolicyAction::Ignore,
{
}

} // verus!
