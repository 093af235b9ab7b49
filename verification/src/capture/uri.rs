//! The file a screenshot portal names by a `file://` URI.
use vstd::prelude::*;

use crate::text::{append_chars, str_chars, str_to_string};

verus! {

/// Why a URI names no file.
pub enum UriError {
    /// The text is no URL; the parser's explanation.
    Invalid(String),
    /// The URL names no local file.
    NotAFilePath,
}

/// The bytes of the local path that `uri` names, percent-decoded, when it
/// parses as a URL and names a local file (`url::Url::parse`, then
/// `url::Url::to_file_path`), as that conversion is done on Unix, the only
/// platform the overlay runs on.
pub uninterp spec fn uri_file_path(uri: Seq<char>) -> Option<Seq<u8>>;

/// The explanation `url::Url::parse` gives when `uri` is no URL.
pub uninterp spec fn uri_parse_error(uri: Seq<char>) -> Option<Seq<char>>;

/// The local path a URI names: `url::Url::parse` and then
/// `url::Url::to_file_path`, the path taken as its bytes.
///
/// Claimed of it: the result is `uri_file_path(uri)` when there is one;
/// otherwise the parse error's text (`uri_parse_error`) when the text does
/// not parse, else `NotAFilePath`. The named results depend on the URI alone.
#[verifier::external_body]
fn file_path_of_uri(uri: &str) -> (r: Result<Vec<u8>, UriError>)
    ensures
        r is Ok <==> uri_file_path(uri@) is Some,
        r matches Ok(p) ==> uri_file_path(uri@) == Some(p@),
        r matches Err(UriError::Invalid(m)) ==> uri_parse_error(uri@) == Some(m@),
        r matches Err(UriError::NotAFilePath) ==> uri_parse_error(uri@) is None,
{
    match url::Url::parse(uri) {
        Err(e) => Err(UriError::Invalid(e.to_string())),
        Ok(url) => match url.to_file_path() {
            Ok(path) => Ok(path.into_os_string().into_encoded_bytes()),
            Err(()) => Err(UriError::NotAFilePath),
        },
    }
}

/// The message for a URI that does not parse.
pub open spec fn invalid_uri_message(uri: Seq<char>, reason: Seq<char>) -> Seq<char> {
    "Invalid file URI '"@ + uri + "': "@ + reason
}

/// The message for a URI that names no local file.
pub open spec fn not_a_path_message(uri: Seq<char>) -> Seq<char> {
    "Cannot convert URI to path: "@ + uri
}

/// What `portal_file_path` gives for `uri`, given the named results.
pub open spec fn portal_file_path_spec(uri: Seq<char>) -> Result<Seq<u8>, Seq<char>> {
    match uri_file_path(uri) {
        Some(p) => Ok(p),
        None => match uri_parse_error(uri) {
            Some(m) => Err(invalid_uri_message(uri, m)),
            None => Err(not_a_path_message(uri)),
        },
    }
}

/// The error message of a URI that names no file.
pub fn uri_error_message(uri: &str, e: UriError) -> (m: String)
    ensures
        m@ == match e {
            UriError::Invalid(reason) => invalid_uri_message(uri@, reason@),
            UriError::NotAFilePath => not_a_path_message(uri@),
        },
{
    let u = str_chars(uri);
    match e {
        UriError::Invalid(reason) => {
            let mut m = str_to_string("Invalid file URI '");
            append_chars(&mut m, &u);
            let sep = str_chars("': ");
            append_chars(&mut m, &sep);
            let r = str_chars(reason.as_str());
            append_chars(&mut m, &r);
            m
        },
        UriError::NotAFilePath => {
            let mut m = str_to_string("Cannot convert URI to path: ");
            append_chars(&mut m, &u);
            m
        },
    }
}

/// The local path of the screenshot file the portal names by `uri`, as bytes,
/// or the message saying why the URI names none.
pub fn portal_file_path(uri: &str) -> (r: Result<Vec<u8>, String>)
    ensures
        match (r, portal_file_path_spec(uri@)) {
            (Ok(p), Ok(q)) => p@ == q,
            (Err(m), Err(n)) => m@ == n,
            _ => false,
        },
{
    match file_path_of_uri(uri) {
        Ok(path) => Ok(path),
        Err(e) => Err(uri_error_message(uri, e)),
    }
}

} // verus!
