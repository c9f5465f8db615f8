#![allow(non_snake_case)]
use crate::error::SourceError;
use crate::jsondoc::field_items;
use crate::jsondoc::field_text;
use crate::jsondoc::get_array_field;
use crate::jsondoc::get_str_field;
use crate::jsondoc::json_of;
use crate::jsondoc::parse_json;
use vstd::prelude::*;

verus! {

/// One downloadable release artifact of a feed.
#[derive(Debug, Clone)]
pub struct VelopackAsset {
    /// Name under which the artifact is resolved against the source.
    pub FileName: String,
    /// Release version the artifact belongs to.
    pub Version: String,
}

/// A release feed: the ordered sequence of artifacts a source offers.
/// A feed with zero assets is valid and means "nothing to update".
#[derive(Debug, Clone)]
pub struct VelopackAssetFeed {
    pub Assets: Vec<VelopackAsset>,
}

/// Identity of the calling application; only decorates HTTP feed requests
/// with query parameters, and is never read otherwise.
#[derive(Debug, Clone)]
pub struct AppIdentity {
    pub id: String,
    pub version: String,
}

impl AppIdentity {
    pub fn new(id: &str, version: &str) -> (r: AppIdentity)
        ensures
            r.id@ == id@,
            r.version@ == version@,
    {
        AppIdentity { id: id.to_owned(), version: version.to_owned() }
    }
}

/// The (FileName, Version) pair a feed-asset object carries, or `None` when
/// either required string field is absent or not a string.
pub open spec fn asset_entry_of(v: serde_json::Value) -> Option<(Seq<char>, Seq<char>)> {
    match (field_text(v, "FileName"@), field_text(v, "Version"@)) {
        (Some(f), Some(ver)) => Some((f, ver)),
        _ => None,
    }
}

/// The (FileName, Version) pairs a feed document yields: the document must
/// be well-formed JSON, an object with an `Assets` array, every element of
/// which carries the two required string fields; otherwise `None`.
pub open spec fn feed_of(s: Seq<char>) -> Option<Seq<(Seq<char>, Seq<char>)>> {
    match json_of(s) {
        Some(doc) => match field_items(doc, "Assets"@) {
            Some(items) => if (forall|k: int|
                0 <= k < items.len() ==> (#[trigger] asset_entry_of(items[k])) is Some) {
                Some(Seq::new(items.len(), |k: int| asset_entry_of(items[k]).unwrap()))
            } else {
                None
            },
            None => None,
        },
        None => None,
    }
}

/// The (FileName, Version) pairs a parsed feed holds, in order.
pub open spec fn feed_entries(f: VelopackAssetFeed) -> Seq<(Seq<char>, Seq<char>)> {
    f.Assets@.map(|k: int, a: VelopackAsset| (a.FileName@, a.Version@))
}

/// Parses a feed document. The body must be a JSON object with an `Assets`
/// array whose elements each carry string fields `FileName` and `Version`;
/// anything else is a `FormatError`, and no partial feed is ever returned.
/// The result is exactly what `feed_of` names of the body.
pub fn parse_feed(body: &str) -> (r: Result<VelopackAssetFeed, SourceError>)
    ensures
        (r is Ok) == (feed_of(body@) is Some),
        r matches Ok(f) ==> Some(feed_entries(f)) == feed_of(body@),
        r is Err ==> r == Err::<VelopackAssetFeed, SourceError>(SourceError::FormatError),
{
    let doc = match parse_json(body) {
        Some(v) => v,
        None => {
            return Err(SourceError::FormatError);
        },
    };
    let items = match get_array_field(&doc, "Assets") {
        Some(a) => a,
        None => {
            return Err(SourceError::FormatError);
        },
    };
    let mut assets: Vec<VelopackAsset> = Vec::new();
    let mut i: usize = 0;
    while i < items.len()
        invariant
            json_of(body@) == Some(doc),
            field_items(doc, "Assets"@) == Some(items@),
            i <= items@.len(),
            assets@.len() == i,
            forall|k: int|
                0 <= k < i ==> (#[trigger] asset_entry_of(items@[k])) == Some(
                    (assets@[k].FileName@, assets@[k].Version@),
                ),
        decreases items@.len() - i,
    {
        let item = &items[i];
        let file_name = match get_str_field(item, "FileName") {
            Some(s) => s,
            None => {
                proof {
                    assert(asset_entry_of(items@[i as int]) is None);
                }
                return Err(SourceError::FormatError);
            },
        };
        let version = match get_str_field(item, "Version") {
            Some(s) => s,
            None => {
                proof {
                    assert(asset_entry_of(items@[i as int]) is None);
                }
                return Err(SourceError::FormatError);
            },
        };
        assets.push(VelopackAsset { FileName: file_name, Version: version });
        i = i + 1;
    }
    let f = VelopackAssetFeed { Assets: assets };
    proof {
        assert(feed_of(body@) is Some);
        assert(feed_entries(f) =~= feed_of(body@).unwrap());
    }
    Ok(f)
}

/// A feed document determines the feed: two feeds obtained from the same
/// body carry the same (FileName, Version) entries. Together with the feed
/// URL being unaffected by a trailing slash of the base, a source
/// configured either way returns the same feed for the same fetched body.
pub proof fn lemma_feed_determined_by_body(
    b: Seq<char>,
    f1: VelopackAssetFeed,
    f2: VelopackAssetFeed,
)
    requires
        Some(feed_entries(f1)) == feed_of(b),
        Some(feed_entries(f2)) == feed_of(b),
    ensures
        feed_entries(f1) == feed_entries(f2),
{
}

} // verus!
