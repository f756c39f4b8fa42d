//! Absolute URLs of the resources in an archive.
//!
//! URLs are made and resolved by the `url` crate. The library reads a URL
//! only through its serialization, the text by which two URLs compare.

use vstd::prelude::*;

verus! {

/// `url::Url`, an absolute URL.
#[verifier::external_type_specification]
#[verifier::external_body]
pub struct ExUrl(url::Url);

/// The serialization of a URL.
pub uninterp spec fn url_text(u: url::Url) -> Seq<char>;

/// The serialization of the URL that `text` is parsed to, or `None` where
/// it is no URL.
pub uninterp spec fn url_parsed(text: Seq<char>) -> Option<Seq<char>>;

/// The serialization of the URL that `reference` resolves to against the
/// URL serialized as `base`, or `None` where it does not resolve.
pub uninterp spec fn url_joined(base: Seq<char>, reference: Seq<char>) -> Option<Seq<char>>;

/// Calls `Url::as_str`, which hands out the serialization.
#[verifier::external_body]
pub(crate) fn url_str(u: &url::Url) -> (r: &str)
    ensures
        r@ == url_text(*u),
{
    u.as_str()
}

/// Calls `Url::parse`. The contract names the serialization of the
/// result and says nothing of which texts are URLs.
#[verifier::external_body]
pub(crate) fn url_parse(text: &str) -> (r: Option<url::Url>)
    ensures
        match r {
            Some(u) => url_parsed(text@) == Some(url_text(u)),
            None => url_parsed(text@) is None,
        },
{
    url::Url::parse(text).ok()
}

/// Calls `Url::join`. The contract names the serialization of the result
/// as a function of the base's serialization and of the reference.
#[verifier::external_body]
pub(crate) fn url_join(base: &url::Url, reference: &str) -> (r: Option<url::Url>)
    ensures
        match r {
            Some(u) => url_joined(url_text(*base), reference@) == Some(url_text(u)),
            None => url_joined(url_text(*base), reference@) is None,
        },
{
    base.join(reference).ok()
}

} // verus!
