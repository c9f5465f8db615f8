use std::cell::RefCell;
use velopack_sources::AppIdentity;
use velopack_sources::GithubAsset;
use velopack_sources::GithubRelease;
use velopack_sources::GithubUpdateSource;
use velopack_sources::HttpSource;
use velopack_sources::SourceError;
use velopack_sources::VelopackAsset;
use velopack_sources::github_source::find_channel_asset;
use velopack_sources::github_source::parse_releases;
use velopack_sources::text::releases_feed_name;

fn app() -> AppIdentity {
    AppIdentity::new("myapp", "1.0.0")
}

fn asset(file_name: &str, version: &str) -> VelopackAsset {
    VelopackAsset { FileName: file_name.to_string(), Version: version.to_string() }
}

fn gh_asset(name: &str, dl: &str) -> GithubAsset {
    GithubAsset {
        url: "https://api.example/asset".to_string(),
        browser_download_url: dl.to_string(),
        name: name.to_string(),
        content_type: "application/octet-stream".to_string(),
    }
}

fn gh_release(prerelease: bool, assets: Vec<GithubAsset>) -> GithubRelease {
    GithubRelease {
        name: "a release".to_string(),
        prerelease,
        published_at: "2024-01-01T00:00:00Z".to_string(),
        assets,
    }
}

#[test]
fn get_github_api_base_url() {
    let normal_gh_url = "https://github.com/velopack/velopack/";
    let enterprise_gh_url = "http://internal.github.server.local/";

    let normal_gh_source = GithubUpdateSource::new(normal_gh_url, false);
    let enterprise_gh_source = GithubUpdateSource::new(enterprise_gh_url, false);

    assert_eq!("https://api.github.com/", normal_gh_source.get_api_base_url().unwrap());
    assert_eq!(
        "http://internal.github.server.local/api/v3/",
        enterprise_gh_source.get_api_base_url().unwrap()
    );
}

#[test]
fn api_base_rejects_unparseable_url() {
    let source = GithubUpdateSource::new("not a url", false);
    assert_eq!(source.get_api_base_url(), Err(SourceError::ConfigurationError));
    let hostless = GithubUpdateSource::new("mailto:someone@example.test", false);
    assert_eq!(hostless.get_api_base_url(), Err(SourceError::ConfigurationError));
}

#[test]
fn releases_url_for_public_github() {
    let source = GithubUpdateSource::new("https://github.com/owner/repo", false);
    assert_eq!(
        "https://api.github.com/repos/owner/repo/releases?per_page=10&page=1",
        source.releases_url().unwrap()
    );
    let with_slash = GithubUpdateSource::new("https://github.com/owner/repo/", false);
    assert_eq!(source.releases_url().unwrap(), with_slash.releases_url().unwrap());
}

#[test]
fn download_url_uses_web_facing_host() {
    let source = GithubUpdateSource::new("https://github.com/owner/repo", false);
    let a = asset("pkg-1.2.3-full.nupkg", "1.2.3");
    assert_eq!(
        "github.com/owner/repo/releases/download/1.2.3/pkg-1.2.3-full.nupkg",
        source.download_url(&a).unwrap()
    );
}

#[test]
fn feed_name_for_channel() {
    assert_eq!("releases.win.json", releases_feed_name("win"));
    assert_eq!("releases.stable.json", releases_feed_name("stable"));
}

#[test]
fn find_channel_asset_picks_first_match() {
    let releases = vec![
        gh_release(false, vec![gh_asset("other.bin", "http://h/other")]),
        gh_release(
            false,
            vec![
                gh_asset("releases.stable.json", "http://h/first"),
                gh_asset("releases.stable.json", "http://h/second"),
            ],
        ),
        gh_release(false, vec![gh_asset("releases.stable.json", "http://h/third")]),
    ];
    assert_eq!(Ok("http://h/first".to_string()), find_channel_asset(&releases, "stable", false));
}

#[test]
fn find_channel_asset_skips_prereleases() {
    let releases = vec![
        gh_release(true, vec![gh_asset("releases.stable.json", "http://h/pre")]),
        gh_release(false, vec![gh_asset("releases.stable.json", "http://h/stable")]),
    ];
    assert_eq!(Ok("http://h/stable".to_string()), find_channel_asset(&releases, "stable", false));
}

#[test]
fn find_channel_asset_honours_prerelease_flag() {
    let releases = vec![
        gh_release(true, vec![gh_asset("releases.stable.json", "http://h/pre")]),
        gh_release(false, vec![gh_asset("releases.stable.json", "http://h/stable")]),
    ];
    assert_eq!(Ok("http://h/pre".to_string()), find_channel_asset(&releases, "stable", true));
    assert_eq!(Ok("http://h/stable".to_string()), find_channel_asset(&releases, "stable", false));
}

#[test]
fn find_channel_asset_not_found() {
    let releases = vec![
        gh_release(true, vec![gh_asset("releases.stable.json", "http://h/pre")]),
        gh_release(false, vec![gh_asset("releases.win.json", "http://h/win")]),
    ];
    assert_eq!(Err(SourceError::NotFoundError), find_channel_asset(&releases, "stable", false));
    assert_eq!(Err(SourceError::NotFoundError), find_channel_asset(&Vec::new(), "stable", false));
}

const RELEASES_BODY: &str = r#"[
  {
    "name": "v2.0.0-beta",
    "prerelease": true,
    "published_at": "2024-02-01T00:00:00Z",
    "assets": [
      {
        "url": "https://api.example/1",
        "browser_download_url": "http://h/beta-feed",
        "name": "releases.stable.json",
        "content_type": "application/json"
      }
    ]
  },
  {
    "name": "v1.9.0",
    "prerelease": false,
    "published_at": "2024-01-01T00:00:00Z",
    "assets": [
      {
        "url": "https://api.example/2",
        "browser_download_url": "http://h/feed",
        "name": "releases.stable.json",
        "content_type": "application/json",
        "size": 123
      }
    ]
  }
]"#;

#[test]
fn parse_releases_reads_fields() {
    let releases = parse_releases(RELEASES_BODY).unwrap();
    assert_eq!(2, releases.len());
    assert!(releases[0].prerelease);
    assert!(!releases[1].prerelease);
    assert_eq!("v1.9.0", releases[1].name);
    assert_eq!("releases.stable.json", releases[1].assets[0].name);
    assert_eq!("http://h/feed", releases[1].assets[0].browser_download_url);
}

#[test]
fn parse_releases_rejects_malformed() {
    assert_eq!(Err(SourceError::FormatError), parse_releases("{}").map(|_| ()));
    assert_eq!(Err(SourceError::FormatError), parse_releases("not json").map(|_| ()));
    let missing_prerelease = r#"[{"name": "x", "published_at": "y", "assets": []}]"#;
    assert_eq!(Err(SourceError::FormatError), parse_releases(missing_prerelease).map(|_| ()));
}

#[test]
fn github_feed_not_found_for_channel() {
    let source = GithubUpdateSource::new("https://github.com/owner/repo", false);
    let fetch = |_u: &str| -> Result<String, String> { Ok(RELEASES_BODY.to_string()) };
    let r = source.get_release_feed("win", &app(), &fetch);
    assert_eq!(Err(SourceError::NotFoundError), r.map(|_| ()));
}

#[test]
fn github_feed_prerelease_source_uses_newest_prerelease() {
    let source = GithubUpdateSource::new("https://github.com/owner/repo", true);
    let requested = RefCell::new(Vec::<String>::new());
    let fetch = |u: &str| -> Result<String, String> {
        requested.borrow_mut().push(u.to_string());
        if u == "http://h/beta-feed" {
            Ok(r#"{"Assets":[{"FileName":"beta.nupkg","Version":"2.0.0-beta"}]}"#.to_string())
        } else {
            Ok(RELEASES_BODY.to_string())
        }
    };
    let feed = source.get_release_feed("stable", &app(), &fetch).unwrap();
    assert_eq!("beta.nupkg", feed.Assets[0].FileName);
    assert_eq!("http://h/beta-feed", requested.borrow()[1]);
}

#[test]
fn github_feed_end_to_end() {
    let source = GithubUpdateSource::new("https://github.com/owner/repo", false);
    let requested = RefCell::new(Vec::<String>::new());
    let fetch = |u: &str| -> Result<String, String> {
        requested.borrow_mut().push(u.to_string());
        if u == "http://h/feed" {
            Ok(r#"{"Assets":[{"FileName":"pkg.nupkg","Version":"1.9.0"}]}"#.to_string())
        } else {
            Ok(RELEASES_BODY.to_string())
        }
    };
    let feed = source.get_release_feed("stable", &app(), &fetch).unwrap();
    assert_eq!(1, feed.Assets.len());
    assert_eq!("pkg.nupkg", feed.Assets[0].FileName);
    assert_eq!(
        vec![
            "https://api.github.com/repos/owner/repo/releases?per_page=10&page=1".to_string(),
            "http://h/feed".to_string(),
        ],
        *requested.borrow()
    );
}

#[test]
fn github_feed_transport_error() {
    let source = GithubUpdateSource::new("https://github.com/owner/repo", false);
    let fetch = |_u: &str| -> Result<String, String> { Err("connection refused".to_string()) };
    let r = source.get_release_feed("stable", &app(), &fetch);
    assert_eq!(Err(SourceError::TransportError("connection refused".to_string())), r.map(|_| ()));
}

#[test]
fn github_download_streams_from_download_url() {
    let source = GithubUpdateSource::new("https://github.com/owner/repo", false);
    let requested = RefCell::new(Vec::<(String, String)>::new());
    let stream = |u: &str, p: &str| -> Result<(), String> {
        requested.borrow_mut().push((u.to_string(), p.to_string()));
        Ok(())
    };
    let a = asset("pkg.nupkg", "1.9.0");
    source.download_release_entry(&a, "/tmp/pkg.nupkg", &stream).unwrap();
    assert_eq!(
        vec![(
            "github.com/owner/repo/releases/download/1.9.0/pkg.nupkg".to_string(),
            "/tmp/pkg.nupkg".to_string(),
        )],
        *requested.borrow()
    );
}
