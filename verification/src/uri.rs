//! The two things the build server asks of a URI: the path in it, and the
//! URI of a directory.
use vstd::prelude::*;
use vstd::string::*;
use crate::types::text_of;

verus! {

/// The path of the URL that the text `uri` is parsed as: `None` where the
/// text is no absolute URL.
pub uninterp spec fn uri_path_of(uri: Seq<char>) -> Option<Seq<char>>;

/// Parses the text with `url::Url::parse` and takes the path of the URL
/// with `url::Url::path`: the percent-encoded text between the authority
/// and the query. A text that does not parse gives `None`.
#[verifier::external_body]
pub(crate) fn uri_path(uri: &str) -> (r: Option<String>)
    ensures
        text_of(r) == uri_path_of(uri@),
{
    match url::Url::parse(uri) {
        Ok(url) => Some(url.path().to_string()),
        Err(_) => None,
    }
}

/// Makes the URL of a directory with `url::Url::from_directory_path`: a
/// URL in the `file` scheme whose text ends with a slash, or `None` where
/// the path is not absolute. How a path is read depends on the platform,
/// so no more is said of the text.
#[verifier::external_body]
pub(crate) fn directory_uri(path: &str) -> (r: Option<String>)
    ensures
        r.is_some() ==> r.unwrap()@.len() > 0 && r.unwrap()@.last() == '/',
{
    match url::Url::from_directory_path(path) {
        Ok(url) => Some(url.as_str().to_string()),
        Err(_) => None,
    }
}

} // verus!
