use std::cell::RefCell;
use velopack_sources::AppIdentity;
use velopack_sources::FileSource;
use velopack_sources::HttpSource;
use velopack_sources::SourceError;
use velopack_sources::VelopackAsset;
use velopack_sources::feed::parse_feed;

fn app() -> AppIdentity {
    AppIdentity::new("myapp", "1.0.0")
}

fn asset(file_name: &str, version: &str) -> VelopackAsset {
    VelopackAsset { FileName: file_name.to_string(), Version: version.to_string() }
}

#[test]
fn feed_parses_empty_assets() {
    let feed = parse_feed(r#"{"Assets": []}"#).unwrap();
    assert_eq!(0, feed.Assets.len());
}

#[test]
fn feed_reads_assets_in_order() {
    let body = r#"{"Assets":[
        {"FileName":"a.nupkg","Version":"1.0.0","SHA1":"ignored"},
        {"FileName":"b.nupkg","Version":"1.1.0"}
    ]}"#;
    let feed = parse_feed(body).unwrap();
    assert_eq!(2, feed.Assets.len());
    assert_eq!("a.nupkg", feed.Assets[0].FileName);
    assert_eq!("1.0.0", feed.Assets[0].Version);
    assert_eq!("b.nupkg", feed.Assets[1].FileName);
}

#[test]
fn feed_rejects_missing_assets_field_and_bad_json() {
    assert_eq!(Err(SourceError::FormatError), parse_feed("{}").map(|_| ()));
    assert_eq!(Err(SourceError::FormatError), parse_feed("not json at all").map(|_| ()));
    assert_eq!(Err(SourceError::FormatError), parse_feed(r#"{"Assets": 5}"#).map(|_| ()));
    let missing_version = r#"{"Assets":[{"FileName":"a.nupkg"}]}"#;
    assert_eq!(Err(SourceError::FormatError), parse_feed(missing_version).map(|_| ()));
}

#[test]
fn http_feed_url_ignores_trailing_slash() {
    let with = HttpSource::new("http://x/a/");
    let without = HttpSource::new("http://x/a");
    let u1 = with.feed_url("stable", &app()).unwrap();
    let u2 = without.feed_url("stable", &app()).unwrap();
    assert_eq!(u1, u2);
    assert_eq!("http://x/a/releases.stable.json?localVersion=1.0.0&id=myapp", u1);
}

#[test]
fn http_feed_end_to_end() {
    let source = HttpSource::new("http://example.test/upd");
    let requested = RefCell::new(Vec::<String>::new());
    let fetch = |u: &str| -> Result<String, String> {
        requested.borrow_mut().push(u.to_string());
        Ok(r#"{"Assets":[{"FileName":"app-1.2.0.bin","Version":"1.2.0"}]}"#.to_string())
    };
    let feed = source.get_release_feed("stable", &app(), &fetch).unwrap();
    assert_eq!(1, feed.Assets.len());
    assert_eq!("app-1.2.0.bin", feed.Assets[0].FileName);
    assert_eq!("1.2.0", feed.Assets[0].Version);
    assert_eq!(
        vec!["http://example.test/upd/releases.stable.json?localVersion=1.0.0&id=myapp"
            .to_string()],
        *requested.borrow()
    );

    let streamed = RefCell::new(Vec::<(String, String)>::new());
    let stream = |u: &str, p: &str| -> Result<(), String> {
        streamed.borrow_mut().push((u.to_string(), p.to_string()));
        Ok(())
    };
    source.download_release_entry(&feed.Assets[0], "/tmp/app-1.2.0.bin", &stream).unwrap();
    assert_eq!(
        vec![("http://example.test/upd/app-1.2.0.bin".to_string(), "/tmp/app-1.2.0.bin".to_string())],
        *streamed.borrow()
    );
}

#[test]
fn http_feed_transport_error() {
    let source = HttpSource::new("http://example.test/upd");
    let fetch = |_u: &str| -> Result<String, String> { Err("timeout".to_string()) };
    let r = source.get_release_feed("stable", &app(), &fetch);
    assert_eq!(Err(SourceError::TransportError("timeout".to_string())), r.map(|_| ()));
}

#[test]
fn http_feed_config_error_for_bad_base() {
    let source = HttpSource::new("not a url");
    let fetch = |_u: &str| -> Result<String, String> { Ok(String::new()) };
    let r = source.get_release_feed("stable", &app(), &fetch);
    assert_eq!(Err(SourceError::ConfigurationError), r.map(|_| ()));
}

#[test]
fn file_paths_join_base_and_name() {
    let source = FileSource::new("/srv/updates/");
    assert_eq!("/srv/updates/releases.stable.json", source.feed_path("stable"));
    let a = asset("pkg.nupkg", "1.0.0");
    assert_eq!("/srv/updates/pkg.nupkg", source.asset_path(&a));
    let no_slash = FileSource::new("/srv/updates");
    assert_eq!(source.feed_path("stable"), no_slash.feed_path("stable"));
}

#[test]
fn file_feed_reads_and_parses() {
    let source = FileSource::new("/srv/updates");
    let read = |p: &str| -> Result<String, String> {
        assert_eq!("/srv/updates/releases.win.json", p);
        Ok(r#"{"Assets":[{"FileName":"w.nupkg","Version":"2.0.0"}]}"#.to_string())
    };
    let feed = source.get_release_feed("win", &app(), &read).unwrap();
    assert_eq!(1, feed.Assets.len());
    assert_eq!("w.nupkg", feed.Assets[0].FileName);
}

#[test]
fn file_feed_missing_file_is_transport_error() {
    let source = FileSource::new("/srv/updates");
    let read = |_p: &str| -> Result<String, String> { Err("no such file".to_string()) };
    let r = source.get_release_feed("win", &app(), &read);
    assert_eq!(Err(SourceError::TransportError("no such file".to_string())), r.map(|_| ()));
}

#[test]
fn file_download_progress_sequence_on_success() {
    let source = FileSource::new("/srv/updates");
    let a = asset("pkg.nupkg", "1.0.0");
    let calls = RefCell::new(Vec::<i16>::new());
    let progress = |p: i16| {
        calls.borrow_mut().push(p);
    };
    let copied = RefCell::new(Vec::<(String, String)>::new());
    let copy = |from: &str, to: &str| -> Result<(), String> {
        copied.borrow_mut().push((from.to_string(), to.to_string()));
        Ok(())
    };
    source.download_release_entry(&a, "/tmp/pkg.nupkg", &copy, &progress).unwrap();
    assert_eq!(vec![50, 100], *calls.borrow());
    assert_eq!(
        vec![("/srv/updates/pkg.nupkg".to_string(), "/tmp/pkg.nupkg".to_string())],
        *copied.borrow()
    );
}

#[test]
fn file_download_no_final_progress_on_failure() {
    let source = FileSource::new("/srv/updates");
    let a = asset("pkg.nupkg", "1.0.0");
    let calls = RefCell::new(Vec::<i16>::new());
    let progress = |p: i16| {
        calls.borrow_mut().push(p);
    };
    let copy = |_from: &str, _to: &str| -> Result<(), String> { Err("disk full".to_string()) };
    let r = source.download_release_entry(&a, "/tmp/pkg.nupkg", &copy, &progress);
    assert_eq!(Err(SourceError::TransportError("disk full".to_string())), r);
    assert_eq!(vec![50], *calls.borrow());
}

#[test]
fn file_feed_missing_assets_field_is_format_error() {
    let source = FileSource::new("/updates");
    let read = |_p: &str| -> Result<String, String> { Ok(r#"{"NotAssets": []}"#.to_string()) };
    let r = source.get_release_feed("stable", &app(), &read);
    assert_eq!(Err(SourceError::FormatError), r.map(|_| ()));
}
