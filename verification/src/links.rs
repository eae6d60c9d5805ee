//! Routing of links that web content requests: the attached Web app's own
//! origin stays in the shell, web and app links go to the system's default
//! handler, anything else is blocked.

use vstd::prelude::*;

use crate::web_url::{TupleOrigin, WebUrl, WebUrlView};

verus! {

/// What the shell should do with a URL requested by web content.
#[derive(Debug, Clone, Copy, PartialEq, Eq, Structural)]
pub enum LinkAction {
    /// Same-origin URL of the attached Web runtime: keep it in the shell.
    KeepInWebview,
    /// Hand off to the operating system's default browser/app.
    OpenExternally,
    /// Unsupported or untrusted scheme: neither navigate nor launch an app.
    Block,
}

/// Two URLs share an origin when both have a tuple origin and the tuples are
/// equal; an opaque origin equals no other.
pub open spec fn same_origin(a: WebUrlView, b: WebUrlView) -> bool {
    a.origin is Some && a.origin == b.origin
}

/// The schemes handed to the system: `http`, `https`, `mailto` and `tel`.
pub open spec fn is_external_scheme(scheme: Seq<char>) -> bool {
    ||| scheme == seq!['h', 't', 't', 'p']
    ||| scheme == seq!['h', 't', 't', 'p', 's']
    ||| scheme == seq!['m', 'a', 'i', 'l', 't', 'o']
    ||| scheme == seq!['t', 'e', 'l']
}

/// How a requested link is handled, given the attached app's URL.
pub open spec fn link_decision(url: WebUrlView, app_url: Option<WebUrlView>) -> LinkAction {
    if app_url matches Some(app) && same_origin(url, app) {
        LinkAction::KeepInWebview
    } else if is_external_scheme(url.scheme) {
        LinkAction::OpenExternally
    } else {
        LinkAction::Block
    }
}

pub open spec fn opt_ref_url_view(u: Option<&WebUrl>) -> Option<WebUrlView> {
    match u {
        Some(u) => Some(u@),
        None => None,
    }
}

fn same_tuple_origin(a: &Option<TupleOrigin>, b: &Option<TupleOrigin>) -> (res: bool)
    ensures
        res == (a is Some && crate::web_url::origin_view(*a) == crate::web_url::origin_view(*b)),
{
    match (a, b) {
        (Some(x), Some(y)) => x.scheme == y.scheme && x.host == y.host && x.port == y.port,
        _ => false,
    }
}

fn external_scheme(scheme: &String) -> (res: bool)
    ensures
        res == is_external_scheme(scheme@),
{
    let http = "http".to_owned();
    let https = "https".to_owned();
    let mailto = "mailto".to_owned();
    let tel = "tel".to_owned();
    proof {
        reveal_strlit("http");
        reveal_strlit("https");
        reveal_strlit("mailto");
        reveal_strlit("tel");
        assert(http@ =~= seq!['h', 't', 't', 'p']);
        assert(https@ =~= seq!['h', 't', 't', 'p', 's']);
        assert(mailto@ =~= seq!['m', 'a', 'i', 'l', 't', 'o']);
        assert(tel@ =~= seq!['t', 'e', 'l']);
    }
    *scheme == http || *scheme == https || *scheme == mailto || *scheme == tel
}

/// Decides how a requested link should be handled.
pub fn link_action(url: &WebUrl, app_url: Option<&WebUrl>) -> (res: LinkAction)
    ensures
        res == link_decision(url@, opt_ref_url_view(app_url)),
{
    let same = match app_url {
        Some(app_url) => same_tuple_origin(&url.origin, &app_url.origin),
        None => false,
    };
    if same {
        LinkAction::KeepInWebview
    } else if external_scheme(&url.scheme) {
        LinkAction::OpenExternally
    } else {
        LinkAction::Block
    }
}

/// Without an attached app, nothing stays in the shell.
pub proof fn no_app_keeps_nothing(url: WebUrlView)
    ensures
        link_decision(url, None) != LinkAction::KeepInWebview,
{
}

/// A URL with an opaque origin (`file:`, `data:`, `mailto:`, ...) never stays
/// in the shell: it opens externally exactly when its scheme is handed to
/// the system, and is blocked otherwise.
pub proof fn opaque_origin_never_kept(url: WebUrlView, app_url: Option<WebUrlView>)
    requires
        url.origin is None,
    ensures
        link_decision(url, app_url) == (if is_external_scheme(url.scheme) {
            LinkAction::OpenExternally
        } else {
            LinkAction::Block
        }),
{
}

/// The attached app's own URL, and any URL of the same origin, stays in the
/// shell whatever its path.
pub proof fn app_origin_is_kept(url: WebUrlView, app: WebUrlView)
    requires
        app.origin is Some,
        url.origin == app.origin,
    ensures
        link_decision(url, Some(app)) == LinkAction::KeepInWebview,
        link_decision(app, Some(app)) == LinkAction::KeepInWebview,
{
}

/// A link stays in the shell exactly when an app URL is attached and the
/// link's tuple origin equals the app's in scheme, host and port; a link
/// to any other host, scheme or port never stays. Every other link opens
/// externally exactly when its scheme is `http`, `https`, `mailto` or
/// `tel`, and is blocked otherwise.
pub proof fn routing_by_origin_then_scheme(url: WebUrlView, app_url: Option<WebUrlView>)
    ensures
        link_decision(url, app_url) == LinkAction::KeepInWebview <==> (app_url matches Some(app)
            && url.origin matches Some(o) && app.origin matches Some(p) && o.0 == p.0 && o.1
            == p.1 && o.2 == p.2),
        link_decision(url, app_url) != LinkAction::KeepInWebview ==> (link_decision(url, app_url)
            == LinkAction::OpenExternally <==> (url.scheme == seq!['h', 't', 't', 'p'] || url.scheme
            == seq!['h', 't', 't', 'p', 's'] || url.scheme == seq!['m', 'a', 'i', 'l', 't', 'o']
            || url.scheme == seq!['t', 'e', 'l'])),
        link_decision(url, app_url) == LinkAction::KeepInWebview || link_decision(url, app_url)
            == LinkAction::OpenExternally || link_decision(url, app_url) == LinkAction::Block,
{
}

/// A link whose host differs from the attached app's host is never kept in
/// the shell.
pub proof fn other_hosts_never_kept(url: WebUrlView, app: WebUrlView)
    requires
        url.origin matches Some(o) && app.origin matches Some(p) && o.1 != p.1,
    ensures
        link_decision(url, Some(app)) != LinkAction::KeepInWebview,
{
}

} // verus!
