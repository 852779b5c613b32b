use vstd::prelude::*;
use vstd::string::StringExecFns;
use url::Url;

verus! {

/// Whether `url::Url::parse` accepts the text.
pub uninterp spec fn url_parses(s: Seq<char>) -> bool;

/// The path that `url::Url::path` gives for the URL parsed from the text.
pub uninterp spec fn url_path(s: Seq<char>) -> Seq<char>;

/// The serialisation of the URL parsed from `s` after `url::Url::set_path`
/// with `p`.
pub uninterp spec fn url_with_path(s: Seq<char>, p: Seq<char>) -> Seq<char>;

/// What `str::to_lowercase` gives for the text.
pub uninterp spec fn lower_of(s: Seq<char>) -> Seq<char>;

/// Relies on `url::Url::parse` and `url::Url::path`: whether parsing succeeds,
/// and the path then, depend on the input alone.
#[verifier::external_body]
fn parsed_path(s: &str) -> (r: Option<String>)
    ensures
        r is Some <==> url_parses(s@),
        r is Some ==> r->0@ == url_path(s@),
{
    match Url::parse(s) {
        Ok(u) => Some(u.path().to_string()),
        Err(_) => None,
    }
}

/// Relies on `url::Url::parse`, `url::Url::set_path` and `url::Url::as_str`:
/// whether parsing succeeds, and the serialisation after the path is
/// replaced, depend on the arguments alone.
#[verifier::external_body]
fn parsed_with_path(s: &str, p: &str) -> (r: Option<String>)
    ensures
        r is Some <==> url_parses(s@),
        r is Some ==> r->0@ == url_with_path(s@, p@),
{
    match Url::parse(s) {
        Ok(mut u) => {
            u.set_path(p);
            Some(u.as_str().to_string())
        },
        Err(_) => None,
    }
}

/// Relies on `str::to_lowercase`: the result depends on the characters alone.
#[verifier::external_body]
fn lowercase(s: &str) -> (r: String)
    ensures
        r@ == lower_of(s@),
{
    s.to_lowercase()
}

/// The path to redirect to, given a path and its lower-case form: the
/// lower-case form when the two differ, else none.
pub fn redirect_path(path: &str, lowered: String) -> (r: Option<String>)
    ensures
        r is Some <==> lowered@ != path@,
        r is Some ==> r->0@ == lowered@,
{
    let original = String::from_str(path);
    if original == lowered {
        None
    } else {
        Some(lowered)
    }
}

/// The lower-case form of `path` when it differs from `path`, else none.
pub fn lowercase_redirect_path(path: &str) -> (r: Option<String>)
    ensures
        r is Some <==> lower_of(path@) != path@,
        r is Some ==> r->0@ == lower_of(path@),
{
    redirect_path(path, lowercase(path))
}

/// For a URL whose path holds upper-case letters, the same URL with the path
/// in lower case; none when the path is already lower case or the text is not
/// a URL.
pub fn redirect_to_lowercase(url_str: &str) -> (r: Option<String>)
    ensures
        r is Some <==> url_parses(url_str@) && lower_of(url_path(url_str@)) != url_path(url_str@),
        r is Some ==> r->0@ == url_with_path(url_str@, lower_of(url_path(url_str@))),
{
    let path = match parsed_path(url_str) {
        Some(path) => path,
        None => return None,
    };
    match lowercase_redirect_path(path.as_str()) {
        Some(lowered) => parsed_with_path(url_str, lowered.as_str()),
        None => None,
    }
}

} // verus!
