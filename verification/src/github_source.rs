use crate::error::SourceError;
use crate::feed::AppIdentity;
use crate::feed::VelopackAsset;
use crate::feed::VelopackAssetFeed;
use crate::feed::feed_entries;
use crate::feed::feed_of;
use crate::feed::parse_feed;
use crate::jsondoc::field_items;
use crate::jsondoc::field_text;
use crate::jsondoc::field_truth;
use crate::jsondoc::get_array_field;
use crate::jsondoc::get_bool_field;
use crate::jsondoc::get_str_field;
use crate::jsondoc::json_as_array;
use crate::jsondoc::json_items;
use crate::jsondoc::json_of;
use crate::jsondoc::parse_json;
use crate::text::feed_file_name;
use crate::text::releases_feed_name;
use crate::text::strip_trailing_slashes;
use crate::text::trim_trailing_slashes;
use crate::urls::parse_url_parts;
use crate::urls::url_parts_of;
use vstd::prelude::*;
use vstd::string::StringExecFns;

verus! {

/// Retrieves updates from GitHub Releases, on github.com or on an
/// Enterprise server. Holds only the configured repository URL and the
/// prerelease policy (when `prerelease` is set, prerelease-flagged releases
/// are eligible in the feed scan; otherwise they are skipped); transport is
/// injected per call.
#[derive(Debug, Clone)]
pub struct GithubUpdateSource {
    pub url: String,
    pub prerelease: bool,
}

/// One release of a releases-list response, as far as this source reads it.
#[derive(Debug, Clone)]
pub struct GithubRelease {
    pub name: String,
    pub prerelease: bool,
    pub published_at: String,
    pub assets: Vec<GithubAsset>,
}

/// One asset of a release of a releases-list response.
#[derive(Debug, Clone)]
pub struct GithubAsset {
    pub url: String,
    pub browser_download_url: String,
    pub name: String,
    pub content_type: String,
}

/// The mathematical content of a `GithubAsset`.
pub struct AssetView {
    pub url: Seq<char>,
    pub browser_download_url: Seq<char>,
    pub name: Seq<char>,
    pub content_type: Seq<char>,
}

/// The mathematical content of a `GithubRelease`.
pub struct ReleaseView {
    pub name: Seq<char>,
    pub prerelease: bool,
    pub published_at: Seq<char>,
    pub assets: Seq<AssetView>,
}

pub open spec fn asset_view(a: GithubAsset) -> AssetView {
    AssetView {
        url: a.url@,
        browser_download_url: a.browser_download_url@,
        name: a.name@,
        content_type: a.content_type@,
    }
}

pub open spec fn release_view(r: GithubRelease) -> ReleaseView {
    ReleaseView {
        name: r.name@,
        prerelease: r.prerelease,
        published_at: r.published_at@,
        assets: r.assets@.map(|j: int, a: GithubAsset| asset_view(a)),
    }
}

pub open spec fn release_views(rs: Seq<GithubRelease>) -> Seq<ReleaseView> {
    rs.map(|i: int, r: GithubRelease| release_view(r))
}

/// The asset a release-asset object of the releases-list response carries,
/// or `None` when a required string field is absent or not a string.
pub open spec fn gh_asset_of(v: serde_json::Value) -> Option<AssetView> {
    match (
        field_text(v, "url"@),
        field_text(v, "browser_download_url"@),
        field_text(v, "name"@),
        field_text(v, "content_type"@),
    ) {
        (Some(u), Some(b), Some(n), Some(c)) => Some(
            AssetView { url: u, browser_download_url: b, name: n, content_type: c },
        ),
        _ => None,
    }
}

/// The release a release object of the releases-list response carries, or
/// `None` when a required field is absent, of the wrong type, or an asset
/// is malformed.
pub open spec fn gh_release_of(v: serde_json::Value) -> Option<ReleaseView> {
    match (
        field_text(v, "name"@),
        field_truth(v, "prerelease"@),
        field_text(v, "published_at"@),
        field_items(v, "assets"@),
    ) {
        (Some(n), Some(p), Some(pa), Some(avs)) => if (forall|k: int|
            0 <= k < avs.len() ==> (#[trigger] gh_asset_of(avs[k])) is Some) {
            Some(
                ReleaseView {
                    name: n,
                    prerelease: p,
                    published_at: pa,
                    assets: Seq::new(avs.len(), |k: int| gh_asset_of(avs[k]).unwrap()),
                },
            )
        } else {
            None
        },
        _ => None,
    }
}

/// The releases a releases-list response yields: the body must be
/// well-formed JSON, a top-level array every element of which is a
/// well-formed release object; otherwise `None`.
pub open spec fn releases_of(s: Seq<char>) -> Option<Seq<ReleaseView>> {
    match json_of(s) {
        Some(doc) => match json_items(doc) {
            Some(items) => if (forall|k: int|
                0 <= k < items.len() ==> (#[trigger] gh_release_of(items[k])) is Some) {
                Some(Seq::new(items.len(), |k: int| gh_release_of(items[k]).unwrap()))
            } else {
                None
            },
            None => None,
        },
        None => None,
    }
}

/// The API base for a configured URL with this scheme and host: the fixed
/// public endpoint for github.com, `{scheme}://{host}/api/v3/` for any other
/// (Enterprise) host.
pub open spec fn github_api_base(scheme: Seq<char>, host: Seq<char>) -> Seq<char> {
    if host == "github.com"@ {
        "https://api.github.com/"@
    } else {
        scheme + "://"@ + host + "/api/v3/"@
    }
}

/// The releases-list request URL for a configured repository URL, or `None`
/// when that URL does not parse.
pub open spec fn github_releases_url(cfg: Seq<char>) -> Option<Seq<char>> {
    match url_parts_of(cfg) {
        Some(p) => Some(
            github_api_base(p.0, p.1) + "repos"@ + strip_trailing_slashes(p.2)
                + "/releases?per_page=10&page=1"@,
        ),
        None => None,
    }
}

/// The download URL for an asset: host and repository path of the configured
/// URL (GitHub's download CDN uses the web-facing domain, not the API
/// domain), then `/releases/download/{version}/{file_name}`.
pub open spec fn github_download_url(
    cfg: Seq<char>,
    version: Seq<char>,
    file_name: Seq<char>,
) -> Option<Seq<char>> {
    match url_parts_of(cfg) {
        Some(p) => Some(
            p.1 + strip_trailing_slashes(p.2) + "/releases/download/"@ + version + "/"@
                + file_name,
        ),
        None => None,
    }
}

/// Release `i` qualifies under the prerelease policy (a release flagged
/// prerelease is eligible only when `allow_prerelease` is set) and its asset
/// `j` is named `target`.
pub open spec fn release_match(
    rs: Seq<ReleaseView>,
    target: Seq<char>,
    allow_prerelease: bool,
    i: int,
    j: int,
) -> bool {
    &&& 0 <= i < rs.len()
    &&& (allow_prerelease || !rs[i].prerelease)
    &&& 0 <= j < rs[i].assets.len()
    &&& rs[i].assets[j].name == target
}

/// Some qualifying release carries an asset named `target`.
pub open spec fn has_release_match(
    rs: Seq<ReleaseView>,
    target: Seq<char>,
    allow_prerelease: bool,
) -> bool {
    exists|i: int, j: int| release_match(rs, target, allow_prerelease, i, j)
}

/// Position (i2, j2) comes before position (i, j) in the scan order:
/// releases in response order, assets in order within each release.
pub open spec fn scan_earlier(i2: int, j2: int, i: int, j: int) -> bool {
    i2 < i || (i2 == i && j2 < j)
}

/// `u` is the download URL of asset `j` of release `i` of the releases a
/// body yields.
pub open spec fn url_at_in(o: Option<Seq<ReleaseView>>, u: Seq<char>, i: int, j: int) -> bool {
    &&& o matches Some(rs)
    &&& 0 <= i < rs.len()
    &&& 0 <= j < rs[i].assets.len()
    &&& rs[i].assets[j].browser_download_url == u
}

/// `u` is the download URL of some asset of the releases a body yields.
pub open spec fn url_in_releases(o: Option<Seq<ReleaseView>>, u: Seq<char>) -> bool {
    exists|i: int, j: int| url_at_in(o, u, i, j)
}

impl GithubUpdateSource {
    /// Create a new GithubUpdateSource with the specified base URL.
    pub fn new(url: &str, prerelease: bool) -> (r: GithubUpdateSource)
        ensures
            r.url@ == url@,
            r.prerelease == prerelease,
    {
        GithubUpdateSource { url: url.to_owned(), prerelease }
    }

    /// The API endpoint the releases list is requested from. A configured
    /// URL that does not parse, or has no host, is a configuration error:
    /// no endpoint is guessed.
    pub fn get_api_base_url(&self) -> (r: Result<String, SourceError>)
        ensures
            (r is Ok) == (url_parts_of(self.url@) is Some),
            r is Err ==> r == Err::<String, SourceError>(SourceError::ConfigurationError),
            url_parts_of(self.url@) matches Some(p) ==> r matches Ok(u) && u@ == github_api_base(
                p.0,
                p.1,
            ),
    {
        let parts = match parse_url_parts(self.url.as_str()) {
            Some(p) => p,
            None => {
                return Err(SourceError::ConfigurationError);
            },
        };
        let public_host = "github.com".to_owned();
        if parts.host == public_host {
            Ok("https://api.github.com/".to_owned())
        } else {
            let mut r = parts.scheme;
            r.append("://");
            r.append(parts.host.as_str());
            r.append("/api/v3/");
            proof {
                assert(r@ =~= github_api_base(parts.scheme@, parts.host@));
            }
            Ok(r)
        }
    }

    /// The releases-list request URL:
    /// `{api_base}repos{repo_path}/releases?per_page=10&page=1`, the
    /// repository path taken from the configured URL with trailing slashes
    /// removed.
    pub fn releases_url(&self) -> (r: Result<String, SourceError>)
        ensures
            (r is Ok) == (github_releases_url(self.url@) is Some),
            r matches Ok(u) ==> Some(u@) == github_releases_url(self.url@),
            r is Err ==> r == Err::<String, SourceError>(SourceError::ConfigurationError),
    {
        let parts = match parse_url_parts(self.url.as_str()) {
            Some(p) => p,
            None => {
                return Err(SourceError::ConfigurationError);
            },
        };
        let mut r = match self.get_api_base_url() {
            Ok(u) => u,
            Err(e) => {
                return Err(e);
            },
        };
        r.append("repos");
        let trimmed = trim_trailing_slashes(parts.path.as_str());
        r.append(trimmed.as_str());
        r.append("/releases?per_page=10&page=1");
        proof {
            assert(r@ =~= github_releases_url(self.url@).unwrap());
        }
        Ok(r)
    }

    /// The URL an asset is downloaded from.
    pub fn download_url(&self, asset: &VelopackAsset) -> (r: Result<String, SourceError>)
        ensures
            (r is Ok) == (github_download_url(self.url@, asset.Version@, asset.FileName@) is Some),
            r matches Ok(u) ==> Some(u@) == github_download_url(
                self.url@,
                asset.Version@,
                asset.FileName@,
            ),
            r is Err ==> r == Err::<String, SourceError>(SourceError::ConfigurationError),
    {
        let parts = match parse_url_parts(self.url.as_str()) {
            Some(p) => p,
            None => {
                return Err(SourceError::ConfigurationError);
            },
        };
        let mut r = parts.host;
        let trimmed = trim_trailing_slashes(parts.path.as_str());
        r.append(trimmed.as_str());
        r.append("/releases/download/");
        r.append(asset.Version.as_str());
        r.append("/");
        r.append(asset.FileName.as_str());
        proof {
            assert(r@ =~= github_download_url(
                self.url@,
                asset.Version@,
                asset.FileName@,
            ).unwrap());
        }
        Ok(r)
    }

    /// Fetches the releases list, selects the first feed asset for
    /// `channel` among qualifying releases, fetches that asset's body and
    /// parses it as the feed. The application identity is accepted but
    /// unused: the releases API offers no server-side filtering for it.
    /// Every outcome is tied to what the injected transport did:
    /// `ConfigurationError` exactly when no releases URL can be built, a
    /// `TransportError` carries the failure of a fetch of a URL this source
    /// asked for, `FormatError` means a fetched body was malformed,
    /// `NotFoundError` means the fetched releases list holds no qualifying
    /// asset, and an `Ok` feed is exactly what some fetched body yields.
    pub fn get_release_feed<F: Fn(&str) -> Result<String, String>>(
        &self,
        channel: &str,
        _app: &AppIdentity,
        fetch: &F,
    ) -> (r: Result<VelopackAssetFeed, SourceError>)
        requires
            forall|u: &str|
                Some(u@) == github_releases_url(self.url@) ==> call_requires(*fetch, (u,)),
            forall|u: &str, v: &str, b: String|
                #![trigger call_ensures(*fetch, (v,), Ok(b)), call_requires(*fetch, (u,))]
                call_ensures(*fetch, (v,), Ok(b)) && Some(v@) == github_releases_url(self.url@)
                    && url_in_releases(releases_of(b@), u@) ==> call_requires(*fetch, (u,)),
        ensures
            (r == Err::<VelopackAssetFeed, SourceError>(SourceError::ConfigurationError)) == (
            github_releases_url(self.url@) is None),
            r matches Err(e) ==> (e == SourceError::ConfigurationError || e
                == SourceError::FormatError || e == SourceError::NotFoundError || e
                matches SourceError::TransportError(_)),
            r matches Err(SourceError::TransportError(_)) ==> exists|u: &str, msg: String|
                r == Err::<VelopackAssetFeed, SourceError>(SourceError::TransportError(msg))
                    && #[trigger] call_ensures(*fetch, (u,), Err::<String, String>(msg)) && (Some(
                    u@,
                ) == github_releases_url(self.url@) || exists|v: &str, b: String|
                    Some(v@) == github_releases_url(self.url@) && #[trigger] call_ensures(
                        *fetch,
                        (v,),
                        Ok(b),
                    ) && url_in_releases(releases_of(b@), u@)),
            r == Err::<VelopackAssetFeed, SourceError>(SourceError::FormatError) ==> exists|
                u: &str,
                b: String,
            |
                #[trigger] call_ensures(*fetch, (u,), Ok(b)) && ((Some(u@) == github_releases_url(
                    self.url@,
                ) && releases_of(b@) is None) || feed_of(b@) is None),
            r == Err::<VelopackAssetFeed, SourceError>(SourceError::NotFoundError) ==> exists|
                u: &str,
                b: String,
            |
                Some(u@) == github_releases_url(self.url@) && #[trigger] call_ensures(
                    *fetch,
                    (u,),
                    Ok(b),
                ) && (releases_of(b@) matches Some(rvs) && !has_release_match(
                    rvs,
                    feed_file_name(channel@),
                    self.prerelease,
                )),
            r matches Ok(f) ==> exists|u: &str, b: String|
                #[trigger] call_ensures(*fetch, (u,), Ok(b)) && Some(feed_entries(f)) == feed_of(
                    b@,
                ),
    {
        let url = match self.releases_url() {
            Ok(u) => u,
            Err(e) => {
                return Err(e);
            },
        };
        let url_ref = url.as_str();
        let body = match fetch(url_ref) {
            Ok(b) => b,
            Err(m) => {
                proof {
                    assert(call_ensures(*fetch, (url_ref,), Err::<String, String>(m)));
                }
                return Err(SourceError::TransportError(m));
            },
        };
        proof {
            assert(call_ensures(*fetch, (url_ref,), Ok(body)));
        }
        let releases = match parse_releases(body.as_str()) {
            Ok(rs) => rs,
            Err(e) => {
                proof {
                    assert(releases_of(body@) is None);
                }
                return Err(e);
            },
        };
        let feed_asset_url = match find_channel_asset(&releases, channel, self.prerelease) {
            Ok(u) => u,
            Err(e) => {
                proof {
                    assert(releases_of(body@) == Some(release_views(releases@)));
                    assert(!has_release_match(
                        release_views(releases@),
                        feed_file_name(channel@),
                        self.prerelease,
                    ));
                }
                return Err(e);
            },
        };
        let far = feed_asset_url.as_str();
        proof {
            let rv = release_views(releases@);
            assert(exists|i: int, j: int|
                release_match(rv, feed_file_name(channel@), self.prerelease, i, j) && far@ == rv[i].assets[j].browser_download_url);
            let (i, j): (int, int) = choose|i: int, j: int|
                release_match(rv, feed_file_name(channel@), self.prerelease, i, j) && far@
                    == rv[i].assets[j].browser_download_url;
            assert(releases_of(body@) == Some(rv));
            assert(url_at_in(releases_of(body@), far@, i, j));
            assert(url_in_releases(releases_of(body@), far@));
        }
        let feed_body = match fetch(far) {
            Ok(b) => b,
            Err(m) => {
                proof {
                    assert(call_ensures(*fetch, (far,), Err::<String, String>(m)));
                }
                return Err(SourceError::TransportError(m));
            },
        };
        proof {
            assert(call_ensures(*fetch, (far,), Ok(feed_body)));
        }
        parse_feed(feed_body.as_str())
    }

    /// Streams an asset to `local_file` from the web-facing download URL.
    /// `stream` is the injected transport; it is asked for exactly the
    /// download URL and destination, succeeds exactly when it succeeded,
    /// and a `TransportError` carries exactly its failure.
    pub fn download_release_entry<S: Fn(&str, &str) -> Result<(), String>>(
        &self,
        asset: &VelopackAsset,
        local_file: &str,
        stream: &S,
    ) -> (r: Result<(), SourceError>)
        requires
            forall|u: &str, p: &str|
                Some(u@) == github_download_url(self.url@, asset.Version@, asset.FileName@) && p@
                    == local_file@ ==> call_requires(*stream, (u, p)),
        ensures
            (r == Err::<(), SourceError>(SourceError::ConfigurationError)) == (github_download_url(
                self.url@,
                asset.Version@,
                asset.FileName@,
            ) is None),
            r matches Err(e) ==> (e == SourceError::ConfigurationError || e
                matches SourceError::TransportError(_)),
            r is Ok ==> exists|u: &str, p: &str|
                Some(u@) == github_download_url(self.url@, asset.Version@, asset.FileName@) && p@
                    == local_file@ && #[trigger] call_ensures(*stream, (u, p), Ok(())),
            (github_download_url(self.url@, asset.Version@, asset.FileName@) is Some && r is Err)
                ==> exists|u: &str, p: &str, msg: String|
                Some(u@) == github_download_url(self.url@, asset.Version@, asset.FileName@) && p@
                    == local_file@ && r == Err::<(), SourceError>(SourceError::TransportError(msg))
                    && #[trigger] call_ensures(*stream, (u, p), Err::<(), String>(msg)),
    {
        let url = match self.download_url(asset) {
            Ok(u) => u,
            Err(e) => {
                return Err(e);
            },
        };
        let url_ref = url.as_str();
        match stream(url_ref, local_file) {
            Ok(u) => {
                proof {
                    assert(call_ensures(*stream, (url_ref, local_file), Ok::<(), String>(u)));
                }
                Ok(())
            },
            Err(m) => {
                proof {
                    assert(call_ensures(*stream, (url_ref, local_file), Err::<(), String>(m)));
                }
                Err(SourceError::TransportError(m))
            },
        }
    }
}

/// Parses one asset object of a release: the four required string fields.
fn parse_gh_asset(v: &serde_json::Value) -> (r: Option<GithubAsset>)
    ensures
        (r is Some) == (gh_asset_of(*v) is Some),
        r matches Some(a) ==> gh_asset_of(*v) == Some(asset_view(a)),
{
    let url = match get_str_field(v, "url") {
        Some(s) => s,
        None => {
            return None;
        },
    };
    let browser_download_url = match get_str_field(v, "browser_download_url") {
        Some(s) => s,
        None => {
            return None;
        },
    };
    let name = match get_str_field(v, "name") {
        Some(s) => s,
        None => {
            return None;
        },
    };
    let content_type = match get_str_field(v, "content_type") {
        Some(s) => s,
        None => {
            return None;
        },
    };
    Some(
        GithubAsset {
            url: url,
            browser_download_url: browser_download_url,
            name: name,
            content_type: content_type,
        },
    )
}

/// Parses one release object: string `name`, boolean `prerelease`, string
/// `published_at`, and an `assets` array of well-formed asset objects.
fn parse_gh_release(v: &serde_json::Value) -> (r: Option<GithubRelease>)
    ensures
        (r is Some) == (gh_release_of(*v) is Some),
        r matches Some(rel) ==> gh_release_of(*v) == Some(release_view(rel)),
{
    let name = match get_str_field(v, "name") {
        Some(s) => s,
        None => {
            return None;
        },
    };
    let prerelease = match get_bool_field(v, "prerelease") {
        Some(b) => b,
        None => {
            return None;
        },
    };
    let published_at = match get_str_field(v, "published_at") {
        Some(s) => s,
        None => {
            return None;
        },
    };
    let asset_items = match get_array_field(v, "assets") {
        Some(a) => a,
        None => {
            return None;
        },
    };
    let mut assets: Vec<GithubAsset> = Vec::new();
    let mut j: usize = 0;
    while j < asset_items.len()
        invariant
            field_text(*v, "name"@) == Some(name@),
            field_truth(*v, "prerelease"@) == Some(prerelease),
            field_text(*v, "published_at"@) == Some(published_at@),
            field_items(*v, "assets"@) == Some(asset_items@),
            j <= asset_items@.len(),
            assets@.len() == j,
            forall|k: int|
                0 <= k < j ==> (#[trigger] gh_asset_of(asset_items@[k])) == Some(
                    asset_view(assets@[k]),
                ),
        decreases asset_items@.len() - j,
    {
        let av = &asset_items[j];
        let a = match parse_gh_asset(av) {
            Some(a) => a,
            None => {
                proof {
                    assert(gh_asset_of(asset_items@[j as int]) is None);
                }
                return None;
            },
        };
        assets.push(a);
        j = j + 1;
    }
    let rel = GithubRelease {
        name: name,
        prerelease: prerelease,
        published_at: published_at,
        assets: assets,
    };
    proof {
        assert(gh_release_of(*v) is Some);
        assert(release_view(rel).assets =~= gh_release_of(*v).unwrap().assets);
        assert(release_view(rel) == gh_release_of(*v).unwrap());
    }
    Some(rel)
}

/// Parses a releases-list response: a JSON array of release objects.
/// Anything else is a `FormatError`; no partial list is ever returned. The
/// result is exactly what `releases_of` names of the body.
pub fn parse_releases(body: &str) -> (r: Result<Vec<GithubRelease>, SourceError>)
    ensures
        (r is Ok) == (releases_of(body@) is Some),
        r matches Ok(rs) ==> Some(release_views(rs@)) == releases_of(body@),
        r is Err ==> r == Err::<Vec<GithubRelease>, SourceError>(SourceError::FormatError),
{
    let doc = match parse_json(body) {
        Some(v) => v,
        None => {
            return Err(SourceError::FormatError);
        },
    };
    let items = match json_as_array(&doc) {
        Some(a) => a,
        None => {
            return Err(SourceError::FormatError);
        },
    };
    let mut out: Vec<GithubRelease> = Vec::new();
    let mut i: usize = 0;
    while i < items.len()
        invariant
            json_of(body@) == Some(doc),
            json_items(doc) == Some(items@),
            i <= items@.len(),
            out@.len() == i,
            forall|k: int|
                0 <= k < i ==> (#[trigger] gh_release_of(items@[k])) == Some(
                    release_view(out@[k]),
                ),
        decreases items@.len() - i,
    {
        let item = &items[i];
        let rel = match parse_gh_release(item) {
            Some(r2) => r2,
            None => {
                proof {
                    assert(gh_release_of(items@[i as int]) is None);
                }
                return Err(SourceError::FormatError);
            },
        };
        out.push(rel);
        i = i + 1;
    }
    proof {
        assert(releases_of(body@) is Some);
        assert(release_views(out@) =~= releases_of(body@).unwrap());
    }
    Ok(out)
}

/// Scans the releases in response order, skipping prerelease-flagged ones
/// unless `allow_prerelease` is set, and within each qualifying release
/// scans its assets in order for one named `releases.{channel}.json`; gives
/// the `browser_download_url` of the first match, falling through to older
/// releases when a newer one lacks a matching asset. When no qualifying
/// release carries such an asset the result is `NotFoundError`, never an
/// empty feed.
pub fn find_channel_asset(
    releases: &Vec<GithubRelease>,
    channel: &str,
    allow_prerelease: bool,
) -> (r: Result<String, SourceError>)
    ensures
        (r is Err) == !has_release_match(
            release_views(releases@),
            feed_file_name(channel@),
            allow_prerelease,
        ),
        r is Err ==> r == Err::<String, SourceError>(SourceError::NotFoundError),
        r matches Ok(u) ==> exists|i: int, j: int|
            #[trigger] release_match(
                release_views(releases@),
                feed_file_name(channel@),
                allow_prerelease,
                i,
                j,
            ) && u@ == release_views(releases@)[i].assets[j].browser_download_url && forall|
                i2: int,
                j2: int,
            |
                scan_earlier(i2, j2, i, j) ==> !release_match(
                    release_views(releases@),
                    feed_file_name(channel@),
                    allow_prerelease,
                    i2,
                    j2,
                ),
{
    let target = releases_feed_name(channel);
    let mut i: usize = 0;
    while i < releases.len()
        invariant
            i <= releases@.len(),
            target@ == feed_file_name(channel@),
            forall|i2: int, j2: int|
                i2 < i ==> !release_match(
                    release_views(releases@),
                    feed_file_name(channel@),
                    allow_prerelease,
                    i2,
                    j2,
                ),
        decreases releases@.len() - i,
    {
        let rel = &releases[i];
        proof {
            assert(release_views(releases@)[i as int] == release_view(releases@[i as int]));
        }
        if allow_prerelease || !rel.prerelease {
            let mut j: usize = 0;
            while j < rel.assets.len()
                invariant
                    i < releases@.len(),
                    j <= releases@[i as int].assets@.len(),
                    target@ == feed_file_name(channel@),
                    *rel == releases@[i as int],
                    allow_prerelease || !releases@[i as int].prerelease,
                    forall|i2: int, j2: int|
                        i2 < i ==> !release_match(
                            release_views(releases@),
                            feed_file_name(channel@),
                            allow_prerelease,
                            i2,
                            j2,
                        ),
                    forall|j2: int|
                        j2 < j ==> !release_match(
                            release_views(releases@),
                            feed_file_name(channel@),
                            allow_prerelease,
                            i as int,
                            j2,
                        ),
                decreases releases@.len() - i, rel.assets@.len() - j,
            {
                let a = &rel.assets[j];
                proof {
                    assert(release_views(releases@)[i as int] == release_view(
                        releases@[i as int],
                    ));
                    assert(release_view(releases@[i as int]).assets[j as int] == asset_view(
                        releases@[i as int].assets@[j as int],
                    ));
                }
                if a.name == target {
                    let u = a.browser_download_url.clone();
                    proof {
                        assert(release_match(
                            release_views(releases@),
                            feed_file_name(channel@),
                            allow_prerelease,
                            i as int,
                            j as int,
                        ));
                        assert forall|i2: int, j2: int|
                            scan_earlier(i2, j2, i as int, j as int) implies !release_match(
                            release_views(releases@),
                            feed_file_name(channel@),
                            allow_prerelease,
                            i2,
                            j2,
                        ) by {};
                    }
                    return Ok(u);
                }
                proof {
                    assert(!release_match(
                        release_views(releases@),
                        feed_file_name(channel@),
                        allow_prerelease,
                        i as int,
                        j as int,
                    ));
                }
                j = j + 1;
            }
            proof {
                assert forall|j2: int|
                    !release_match(
                        release_views(releases@),
                        feed_file_name(channel@),
                        allow_prerelease,
                        i as int,
                        j2,
                    ) by {
                    assert(release_views(releases@)[i as int] == release_view(
                        releases@[i as int],
                    ));
                }
            }
        } else {
            proof {
                assert(forall|j2: int|
                    !release_match(
                        release_views(releases@),
                        feed_file_name(channel@),
                        allow_prerelease,
                        i as int,
                        j2,
                    ));
            }
        }
        i = i + 1;
    }
    proof {
        assert(forall|i2: int, j2: int|
            !release_match(
                release_views(releases@),
                feed_file_name(channel@),
                allow_prerelease,
                i2,
                j2,
            ));
    }
    Err(SourceError::NotFoundError)
}

} // verus!
