//! Whether a configured proxy value can be used.

use vstd::prelude::*;

verus! {

/// Whether `reqwest::Proxy::all` makes a proxy of `url`.
pub uninterp spec fn proxy_url_accepted(url: Seq<char>) -> bool;

/// Calls `reqwest::Proxy::all` on `url` and tells whether it gave a proxy or
/// an error. That call parses the text as a URL and reads nothing else, so its
/// answer is named by `proxy_url_accepted`; the contract says nothing of which
/// texts it takes.
#[verifier::external_body]
fn proxy_accepts(url: &str) -> (accepted: bool)
    ensures
        accepted == proxy_url_accepted(url@),
{
    reqwest::Proxy::all(url).is_ok()
}

/// Whether a send can go on with this proxy setting: with none it can, and
/// with one where the value is accepted as a proxy URL.
pub open spec fn proxy_usable(proxy: Option<Seq<char>>) -> bool {
    match proxy {
        None => true,
        Some(url) => proxy_url_accepted(url),
    }
}

/// Checks the proxy setting. An absent one is in order; a present one is
/// parsed.
pub fn check_proxy(proxy: &Option<String>) -> (usable: bool)
    ensures
        usable == proxy_usable(
            match *proxy {
                Some(url) => Some(url@),
                None => None,
            },
        ),
{
    match proxy {
        None => true,
        Some(url) => proxy_accepts(url.as_str()),
    }
}

} // verus!
