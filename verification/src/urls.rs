use vstd::prelude::*;

verus! {

/// The components of a configured source URL that the backends read:
/// scheme, host, and path, each as a plain string.
pub(crate) struct UrlParts {
    pub scheme: String,
    pub host: String,
    pub path: String,
}

/// The (scheme, host, path) of a URL string, or `None` when the string does
/// not parse as an absolute URL with a host, as the `url` crate decides it.
pub uninterp spec fn url_parts_of(s: Seq<char>) -> Option<(Seq<char>, Seq<char>, Seq<char>)>;

/// The resolution of a relative reference against a base URL string, or
/// `None` when the base does not parse or the reference cannot be resolved
/// against it, as the `url` crate decides it.
pub uninterp spec fn url_resolve(base: Seq<char>, rel: Seq<char>) -> Option<Seq<char>>;

/// Relies on `url::Url::parse` and the accessors `scheme`, `host_str` and
/// `path`: the parse result depends on the input string alone.
#[verifier::external_body]
pub(crate) fn parse_url_parts(s: &str) -> (r: Option<UrlParts>)
    ensures
        (r is Some) == (url_parts_of(s@) is Some),
        r matches Some(p) ==> url_parts_of(s@) == Some((p.scheme@, p.host@, p.path@)),
{
    match url::Url::parse(s) {
        Ok(u) => match u.host_str() {
            Some(h) => Some(
                UrlParts {
                    scheme: u.scheme().to_owned(),
                    host: h.to_owned(),
                    path: u.path().to_owned(),
                },
            ),
            None => None,
        },
        Err(_) => None,
    }
}

/// Relies on `url::Url::parse` and `url::Url::join`: relative-reference
/// resolution depends on the two strings alone.
#[verifier::external_body]
pub(crate) fn resolve_url(base: &str, rel: &str) -> (r: Option<String>)
    ensures
        (r is Some) == (url_resolve(base@, rel@) is Some),
        r matches Some(u) ==> url_resolve(base@, rel@) == Some(u@),
{
    match url::Url::parse(base) {
        Ok(b) => match b.join(rel) {
            Ok(u) => Some(u.as_str().to_owned()),
            Err(_) => None,
        },
        Err(_) => None,
    }
}

} // verus!
