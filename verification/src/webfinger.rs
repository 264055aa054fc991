//! WebFinger discovery: turning an `account@domain` handle into a
//! canonical actor URL.
//!
//! The caller performs the HTTPS round-trip; this module builds the query
//! URL and resolves the response body. Decoding the JSON body is delegated
//! to serde_json behind one trusted wrapper whose result is named; the
//! selection of the `rel == "self"` link is verified.

use vstd::prelude::*;
use vstd::string::{StrSliceExecFns, StringExecFns};

use crate::text::{concat4, find_last, last_index_of, str_eq};

verus! {

/// Failure of WebFinger discovery.
#[derive(Clone, Debug, PartialEq, Eq)]
pub enum DiscoveryError {
    /// The response has no usable `rel == "self"` link.
    NotFound,
    /// The transport failed before any response body arrived.
    Network,
    /// The body is not valid JSON or lacks a `links` array.
    MalformedResponse,
}

/// One entry of a WebFinger `links` array: its `rel` value and, when
/// present, its `href`.
pub struct WebfingerLink {
    pub rel: String,
    pub href: Option<String>,
}

/// The mathematical value of a `WebfingerLink`.
pub struct WebfingerLinkV {
    pub rel: Seq<char>,
    pub href: Option<Seq<char>>,
}

impl View for WebfingerLink {
    type V = WebfingerLinkV;

    open spec fn view(&self) -> WebfingerLinkV {
        WebfingerLinkV { rel: self.rel@, href: self.href.deep_view() }
    }
}

impl DeepView for WebfingerLink {
    type V = WebfingerLinkV;

    open spec fn deep_view(&self) -> WebfingerLinkV {
        self.view()
    }
}

/// The `links` array of a WebFinger JSON document: for each entry its
/// `rel` string (empty when absent or not a string) and its `href` string
/// when present; `None` when the body is not a JSON object carrying a
/// `links` array. Deserialization is a function of the body text alone.
pub uninterp spec fn webfinger_links(body: Seq<char>) -> Option<Seq<WebfingerLinkV>>;

/// Relies on `serde_json::from_str` and the `serde_json::Value` accessors
/// `get`, `as_array` and `as_str` to read the `links` array of the body;
/// the result is deterministic in the body text and is named by
/// `webfinger_links`.
#[verifier::external_body]
fn decode_webfinger_links(body: &str) -> (r: Option<Vec<WebfingerLink>>)
    ensures
        match r {
            Some(links) => webfinger_links(body@) == Some(links.deep_view()),
            None => webfinger_links(body@) is None,
        },
{
    let v: serde_json::Value = serde_json::from_str(body).ok()?;
    let arr = match v.get("links").and_then(|l| l.as_array()) {
        Some(a) => a,
        None => return None,
    };
    let mut out = Vec::with_capacity(arr.len());
    for e in arr {
        out.push(WebfingerLink {
            rel: e.get("rel").and_then(|x| x.as_str()).unwrap_or("").to_string(),
            href: e.get("href").and_then(|x| x.as_str()).map(|s| s.to_string()),
        });
    }
    Some(out)
}

/// A link that can serve as the canonical self reference: `rel` is
/// exactly `"self"` and an `href` is present.
pub open spec fn link_selectable(l: WebfingerLinkV) -> bool {
    l.rel == "self"@ && l.href is Some
}

/// The `href` of the first selectable link, if any; links with other
/// `rel` values are passed over, as is a self link without an `href`.
pub open spec fn select_self_href(links: Seq<WebfingerLinkV>) -> Option<Seq<char>>
    decreases links.len(),
{
    if links.len() == 0 {
        None
    } else if link_selectable(links[0]) {
        links[0].href
    } else {
        select_self_href(links.drop_first())
    }
}

/// Picks the first `rel == "self"` link that carries an `href`.
pub fn select_self_link(links: &Vec<WebfingerLink>) -> (r: Option<String>)
    ensures
        match r {
            Some(h) => select_self_href(links.deep_view()) == Some(h@),
            None => select_self_href(links.deep_view()) is None,
        },
{
    let ghost dv = links.deep_view();
    let n = links.len();
    proof {
        assert(dv.skip(0) =~= dv);
    }
    let mut i: usize = 0;
    while i < n
        invariant
            n == links.len(),
            dv == links.deep_view(),
            dv.len() == n,
            0 <= i <= n,
            select_self_href(dv) == select_self_href(dv.skip(i as int)),
        decreases n - i,
    {
        proof {
            assert(dv.skip(i as int)[0] == dv[i as int]);
            assert(dv.skip(i as int).drop_first() =~= dv.skip(i + 1));
        }
        let l = &links[i];
        if str_eq(l.rel.as_str(), "self") {
            match &l.href {
                Some(h) => {
                    proof {
                        assert(link_selectable(dv[i as int]));
                    }
                    return Some(h.clone());
                },
                None => {
                    proof {
                        assert(!link_selectable(dv[i as int]));
                    }
                },
            }
        } else {
            proof {
                assert(!link_selectable(dv[i as int]));
            }
        }
        i += 1;
    }
    proof {
        assert(dv.skip(n as int).len() == 0);
    }
    None
}

/// Resolves a WebFinger response into the canonical actor URL.
///
/// The caller hands in `Some(body)` when its HTTPS request produced a
/// response, `None` when the transport failed. The result is the `href`
/// of the first usable `rel == "self"` link of the decoded `links` array.
pub fn resolve_webfinger(response_body: Option<&str>) -> (r: Result<String, DiscoveryError>)
    ensures
        match response_body {
            None => r matches Err(DiscoveryError::Network),
            Some(b) => match webfinger_links(b@) {
                None => r matches Err(DiscoveryError::MalformedResponse),
                Some(links) => match select_self_href(links) {
                    Some(h) => r matches Ok(u) && u@ == h,
                    None => r matches Err(DiscoveryError::NotFound),
                },
            },
        },
{
    let body = match response_body {
        Some(b) => b,
        None => return Err(DiscoveryError::Network),
    };
    let links = match decode_webfinger_links(body) {
        Some(l) => l,
        None => return Err(DiscoveryError::MalformedResponse),
    };
    match select_self_link(&links) {
        Some(h) => Ok(h),
        None => Err(DiscoveryError::NotFound),
    }
}

/// The domain of a handle: everything after its last `@`, or the whole
/// string when it has none.
pub open spec fn domain_of(s: Seq<char>) -> Seq<char> {
    match last_index_of(s, '@') {
        Some(k) => s.subrange(k + 1, s.len() as int),
        None => s,
    }
}

/// Builds the WebFinger query URL for a handle: an HTTPS request to the
/// handle's domain with the handle itself as the `acct:` resource.
pub fn webfinger_url(account: &str) -> (r: String)
    ensures
        r@ == "https://"@ + domain_of(account@) + "/.well-known/webfinger?resource=acct:"@
            + account@,
{
    let n = account.unicode_len();
    let host: &str = match find_last(account, '@') {
        Some(k) => account.substring_char(k + 1, n),
        None => account,
    };
    concat4("https://", host, "/.well-known/webfinger?resource=acct:", account)
}

} // verus!
