use crate::error::SourceError;
use crate::feed::AppIdentity;
use crate::feed::VelopackAsset;
use crate::feed::VelopackAssetFeed;
use crate::feed::parse_feed;
use crate::feed::feed_entries;
use crate::feed::feed_of;
use crate::text::feed_file_name;
use crate::text::releases_feed_name;
use crate::text::strip_trailing_slashes;
use crate::text::trim_trailing_slashes;
use vstd::prelude::*;
use vstd::string::StringExecFns;

verus! {

/// Retrieves available updates from a local or network-attached directory.
/// The directory must contain the packages and a `releases.{channel}.json`
/// index file. Holds only the configured base directory; reading and copying
/// are injected per call.
#[derive(Debug, Clone)]
pub struct FileSource {
    pub path: String,
}

/// The path of an item of the base directory: `{base}/{name}`, with trailing
/// separators of the base collapsed so a base given with or without one
/// yields the same path.
pub open spec fn file_item_path(base: Seq<char>, name: Seq<char>) -> Seq<char> {
    strip_trailing_slashes(base) + "/"@ + name
}

impl FileSource {
    /// Create a new FileSource with the specified base directory.
    pub fn new(path: &str) -> (r: FileSource)
        ensures
            r.path@ == path@,
    {
        FileSource { path: path.to_owned() }
    }

    /// The path the feed for `channel` is read from.
    pub fn feed_path(&self, channel: &str) -> (r: String)
        ensures
            r@ == file_item_path(self.path@, feed_file_name(channel@)),
    {
        let mut r = trim_trailing_slashes(self.path.as_str());
        r.append("/");
        let name = releases_feed_name(channel);
        r.append(name.as_str());
        proof {
            assert(r@ =~= file_item_path(self.path@, feed_file_name(channel@)));
        }
        r
    }

    /// The path an asset is copied from.
    pub fn asset_path(&self, asset: &VelopackAsset) -> (r: String)
        ensures
            r@ == file_item_path(self.path@, asset.FileName@),
    {
        let mut r = trim_trailing_slashes(self.path.as_str());
        r.append("/");
        r.append(asset.FileName.as_str());
        proof {
            assert(r@ =~= file_item_path(self.path@, asset.FileName@));
        }
        r
    }

    /// Reads and parses the feed for `channel`. `read_text` is the injected
    /// filesystem: it takes a path and gives the file's contents as text;
    /// it is asked for exactly the feed path. The application identity is
    /// accepted but unused: a static directory offers no server-side
    /// filtering. Every outcome is tied to what the read did: a
    /// `TransportError` carries exactly the read's failure (a missing file
    /// is an error, never an empty feed), `FormatError` means the file's
    /// text was not a well-formed feed document, and an `Ok` feed is
    /// exactly what the text yields.
    pub fn get_release_feed<F: Fn(&str) -> Result<String, String>>(
        &self,
        channel: &str,
        _app: &AppIdentity,
        read_text: &F,
    ) -> (r: Result<VelopackAssetFeed, SourceError>)
        requires
            forall|p: &str|
                p@ == file_item_path(self.path@, feed_file_name(channel@)) ==> call_requires(
                    *read_text,
                    (p,),
                ),
        ensures
            r matches Err(e) ==> (e == SourceError::FormatError || e
                matches SourceError::TransportError(_)),
            r matches Err(SourceError::TransportError(_)) ==> exists|p: &str, msg: String|
                p@ == file_item_path(self.path@, feed_file_name(channel@)) && r == Err::<
                    VelopackAssetFeed,
                    SourceError,
                >(SourceError::TransportError(msg)) && #[trigger] call_ensures(
                    *read_text,
                    (p,),
                    Err::<String, String>(msg),
                ),
            r == Err::<VelopackAssetFeed, SourceError>(SourceError::FormatError) ==> exists|
                p: &str,
                b: String,
            |
                p@ == file_item_path(self.path@, feed_file_name(channel@)) && #[trigger]
                call_ensures(*read_text, (p,), Ok(b)) && feed_of(b@) is None,
            r matches Ok(f) ==> exists|p: &str, b: String|
                p@ == file_item_path(self.path@, feed_file_name(channel@)) && #[trigger]
                call_ensures(*read_text, (p,), Ok(b)) && Some(feed_entries(f)) == feed_of(b@),
    {
        let path = self.feed_path(channel);
        let path_ref = path.as_str();
        let body = match read_text(path_ref) {
            Ok(b) => b,
            Err(m) => {
                proof {
                    assert(call_ensures(*read_text, (path_ref,), Err::<String, String>(m)));
                }
                return Err(SourceError::TransportError(m));
            },
        };
        proof {
            assert(call_ensures(*read_text, (path_ref,), Ok(body)));
        }
        parse_feed(body.as_str())
    }

    /// Copies an asset to `local_file`. `copy` is the injected filesystem
    /// copy. A file copy cannot report granular progress cheaply, so
    /// `progress` is invoked exactly twice: with `50` immediately before the
    /// copy begins and with `100` immediately after it succeeds; after a
    /// failed copy no `100` is emitted and the copy's message is surfaced as
    /// a `TransportError`.
    pub fn download_release_entry<C: Fn(&str, &str) -> Result<(), String>, P: Fn(i16)>(
        &self,
        asset: &VelopackAsset,
        local_file: &str,
        copy: &C,
        progress: &P,
    ) -> (r: Result<(), SourceError>)
        requires
            forall|from: &str, to: &str|
                from@ == file_item_path(self.path@, asset.FileName@) && to@ == local_file@
                    ==> call_requires(*copy, (from, to)),
            call_requires(*progress, (50i16,)),
            call_requires(*progress, (100i16,)),
        ensures
            r matches Err(e) ==> e matches SourceError::TransportError(_),
            r is Ok ==> exists|from: &str, to: &str|
                from@ == file_item_path(self.path@, asset.FileName@) && to@ == local_file@
                    && #[trigger] call_ensures(*copy, (from, to), Ok(())),
            r is Err ==> exists|from: &str, to: &str, msg: String|
                from@ == file_item_path(self.path@, asset.FileName@) && to@ == local_file@ && r
                    == Err::<(), SourceError>(SourceError::TransportError(msg)) && #[trigger]
                call_ensures(*copy, (from, to), Err::<(), String>(msg)),
    {
        let from = self.asset_path(asset);
        progress(50);
        let from_ref = from.as_str();
        match copy(from_ref, local_file) {
            Ok(u) => {
                proof {
                    assert(call_ensures(*copy, (from_ref, local_file), Ok::<(), String>(u)));
                }
                progress(100);
                Ok(())
            },
            Err(m) => {
                proof {
                    assert(call_ensures(*copy, (from_ref, local_file), Err::<(), String>(m)));
                }
                Err(SourceError::TransportError(m))
            },
        }
    }
}

} // verus!
