use crate::error::SourceError;
use crate::feed::AppIdentity;
use crate::feed::VelopackAsset;
use crate::feed::VelopackAssetFeed;
use crate::feed::parse_feed;
use crate::feed::feed_entries;
use crate::feed::feed_of;
use crate::text::feed_file_name;
use crate::text::releases_feed_name;
use crate::text::strip_trailing_slashes;
use crate::text::trim_trailing_slashes;
use crate::urls::resolve_url;
use crate::urls::url_resolve;
use vstd::prelude::*;
use vstd::string::StringExecFns;

verus! {

/// Retrieves updates from a static file host or other web server. Holds
/// only the configured base URL; transport is injected per call.
#[derive(Debug, Clone)]
pub struct HttpSource {
    pub url: String,
}

/// The configured base, stripped of trailing slashes and given back exactly
/// one, so that relative references resolve under it.
pub open spec fn normalized_base(base: Seq<char>) -> Seq<char> {
    strip_trailing_slashes(base) + "/"@
}

/// The feed request URL: `releases.{channel}.json` resolved against the
/// normalized base, with `localVersion` and `id` query parameters appended.
pub open spec fn http_feed_url(
    base: Seq<char>,
    channel: Seq<char>,
    id: Seq<char>,
    version: Seq<char>,
) -> Option<Seq<char>> {
    match url_resolve(normalized_base(base), feed_file_name(channel)) {
        Some(u) => Some(u + "?localVersion="@ + version + "&id="@ + id),
        None => None,
    }
}

/// The asset request URL: the asset's file name resolved against the
/// normalized base.
pub open spec fn http_asset_url(base: Seq<char>, file_name: Seq<char>) -> Option<Seq<char>> {
    url_resolve(normalized_base(base), file_name)
}

impl HttpSource {
    /// Create a new HttpSource with the specified base URL.
    pub fn new(url: &str) -> (r: HttpSource)
        ensures
            r.url@ == url@,
    {
        HttpSource { url: url.to_owned() }
    }

    /// The URL the feed for `channel` is requested from, decorated with the
    /// application's identity for server-side filtering.
    pub fn feed_url(&self, channel: &str, app: &AppIdentity) -> (r: Result<String, SourceError>)
        ensures
            (r is Ok) == (http_feed_url(self.url@, channel@, app.id@, app.version@) is Some),
            r matches Ok(u) ==> Some(u@) == http_feed_url(
                self.url@,
                channel@,
                app.id@,
                app.version@,
            ),
            r is Err ==> r == Err::<String, SourceError>(SourceError::ConfigurationError),
    {
        let mut base = trim_trailing_slashes(self.url.as_str());
        base.append("/");
        let name = releases_feed_name(channel);
        let mut resolved = match resolve_url(base.as_str(), name.as_str()) {
            Some(u) => u,
            None => {
                return Err(SourceError::ConfigurationError);
            },
        };
        resolved.append("?localVersion=");
        resolved.append(app.version.as_str());
        resolved.append("&id=");
        resolved.append(app.id.as_str());
        proof {
            assert(resolved@ =~= http_feed_url(
                self.url@,
                channel@,
                app.id@,
                app.version@,
            ).unwrap());
        }
        Ok(resolved)
    }

    /// The URL an asset is downloaded from.
    pub fn asset_url(&self, asset: &VelopackAsset) -> (r: Result<String, SourceError>)
        ensures
            (r is Ok) == (http_asset_url(self.url@, asset.FileName@) is Some),
            r matches Ok(u) ==> Some(u@) == http_asset_url(self.url@, asset.FileName@),
            r is Err ==> r == Err::<String, SourceError>(SourceError::ConfigurationError),
    {
        let mut base = trim_trailing_slashes(self.url.as_str());
        base.append("/");
        match resolve_url(base.as_str(), asset.FileName.as_str()) {
            Some(u) => Ok(u),
            None => Err(SourceError::ConfigurationError),
        }
    }

    /// Fetches and parses the feed for `channel`. `fetch` is the injected
    /// transport: it takes a URL and gives the response body as text; it is
    /// asked for exactly the feed URL. Every outcome is tied to what the
    /// transport did: `ConfigurationError` exactly when no feed URL can be
    /// built, a `TransportError` carries exactly the fetch's failure,
    /// `FormatError` means the fetched body was not a well-formed feed
    /// document, and an `Ok` feed is exactly what the fetched body yields.
    pub fn get_release_feed<F: Fn(&str) -> Result<String, String>>(
        &self,
        channel: &str,
        app: &AppIdentity,
        fetch: &F,
    ) -> (r: Result<VelopackAssetFeed, SourceError>)
        requires
            forall|u: &str|
                Some(u@) == http_feed_url(self.url@, channel@, app.id@, app.version@)
                    ==> call_requires(*fetch, (u,)),
        ensures
            (r == Err::<VelopackAssetFeed, SourceError>(SourceError::ConfigurationError)) == (
            http_feed_url(self.url@, channel@, app.id@, app.version@) is None),
            r matches Err(e) ==> (e == SourceError::ConfigurationError || e
                == SourceError::FormatError || e matches SourceError::TransportError(_)),
            r matches Err(SourceError::TransportError(_)) ==> exists|u: &str, msg: String|
                Some(u@) == http_feed_url(self.url@, channel@, app.id@, app.version@) && r
                    == Err::<VelopackAssetFeed, SourceError>(SourceError::TransportError(msg))
                    && #[trigger] call_ensures(*fetch, (u,), Err::<String, String>(msg)),
            r == Err::<VelopackAssetFeed, SourceError>(SourceError::FormatError) ==> exists|
                u: &str,
                b: String,
            |
                Some(u@) == http_feed_url(self.url@, channel@, app.id@, app.version@)
                    && #[trigger] call_ensures(*fetch, (u,), Ok(b)) && feed_of(b@) is None,
            r matches Ok(f) ==> exists|u: &str, b: String|
                Some(u@) == http_feed_url(self.url@, channel@, app.id@, app.version@)
                    && #[trigger] call_ensures(*fetch, (u,), Ok(b)) && Some(feed_entries(f))
                    == feed_of(b@),
    {
        let url = match self.feed_url(channel, app) {
            Ok(u) => u,
            Err(e) => {
                return Err(e);
            },
        };
        let url_ref = url.as_str();
        let body = match fetch(url_ref) {
            Ok(b) => b,
            Err(m) => {
                proof {
                    assert(call_ensures(*fetch, (url_ref,), Err::<String, String>(m)));
                }
                return Err(SourceError::TransportError(m));
            },
        };
        proof {
            assert(call_ensures(*fetch, (url_ref,), Ok(body)));
        }
        parse_feed(body.as_str())
    }

    /// Streams an asset to `local_file`. `stream` is the injected transport:
    /// it takes the source URL and the destination path, and reports its own
    /// progress to whatever the caller gave it. It is asked for exactly the
    /// asset URL and destination, succeeds exactly when it succeeded, and a
    /// `TransportError` carries exactly its failure.
    pub fn download_release_entry<S: Fn(&str, &str) -> Result<(), String>>(
        &self,
        asset: &VelopackAsset,
        local_file: &str,
        stream: &S,
    ) -> (r: Result<(), SourceError>)
        requires
            forall|u: &str, p: &str|
                Some(u@) == http_asset_url(self.url@, asset.FileName@) && p@ == local_file@
                    ==> call_requires(*stream, (u, p)),
        ensures
            (r == Err::<(), SourceError>(SourceError::ConfigurationError)) == (http_asset_url(
                self.url@,
                asset.FileName@,
            ) is None),
            r matches Err(e) ==> (e == SourceError::ConfigurationError || e
                matches SourceError::TransportError(_)),
            r is Ok ==> exists|u: &str, p: &str|
                Some(u@) == http_asset_url(self.url@, asset.FileName@) && p@ == local_file@
                    && #[trigger] call_ensures(*stream, (u, p), Ok(())),
            (http_asset_url(self.url@, asset.FileName@) is Some && r is Err) ==> exists|
                u: &str,
                p: &str,
                msg: String,
            |
                Some(u@) == http_asset_url(self.url@, asset.FileName@) && p@ == local_file@ && r
                    == Err::<(), SourceError>(SourceError::TransportError(msg)) && #[trigger]
                call_ensures(*stream, (u, p), Err::<(), String>(msg)),
    {
        let url = match self.asset_url(asset) {
            Ok(u) => u,
            Err(e) => {
                return Err(e);
            },
        };
        let url_ref = url.as_str();
        match stream(url_ref, local_file) {
            Ok(u) => {
                proof {
                    assert(call_ensures(*stream, (url_ref, local_file), Ok::<(), String>(u)));
                }
                Ok(())
            },
            Err(m) => Err(SourceError::TransportError(m)),
        }
    }
}

/// Two configured bases that agree once trailing slashes are stripped give
/// the same feed request URL; in particular a base with and without a
/// trailing slash resolves the feed identically.
pub proof fn lemma_feed_url_ignores_trailing_slash(
    base: Seq<char>,
    channel: Seq<char>,
    id: Seq<char>,
    version: Seq<char>,
)
    ensures
        http_feed_url(base + "/"@, channel, id, version) == http_feed_url(
            base,
            channel,
            id,
            version,
        ),
{
    crate::text::lemma_strip_trailing_slash_append(base);
}

} // verus!
