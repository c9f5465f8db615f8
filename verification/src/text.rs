use vstd::prelude::*;
use vstd::string::StrSliceExecFns;
use vstd::string::StringExecFns;

verus! {

/// `s` with every trailing `/` character removed.
pub open spec fn strip_trailing_slashes(s: Seq<char>) -> Seq<char>
    decreases s.len(),
{
    if s.len() > 0 && s.last() == '/' {
        strip_trailing_slashes(s.drop_last())
    } else {
        s
    }
}

/// The name of the feed document for a channel: `releases.{channel}.json`.
pub open spec fn feed_file_name(channel: Seq<char>) -> Seq<char> {
    "releases."@ + channel + ".json"@
}

/// Removes every trailing `/` from `s`.
pub fn trim_trailing_slashes(s: &str) -> (r: String)
    ensures
        r@ == strip_trailing_slashes(s@),
{
    let mut n: usize = s.unicode_len();
    proof {
        assert(s@.subrange(0, n as int) =~= s@);
    }
    while n > 0 && s.get_char(n - 1) == '/'
        invariant
            n <= s@.len(),
            strip_trailing_slashes(s@) == strip_trailing_slashes(s@.subrange(0, n as int)),
        decreases n,
    {
        proof {
            assert(s@.subrange(0, n as int).drop_last() =~= s@.subrange(0, n as int - 1));
        }
        n = n - 1;
    }
    let r = s.substring_char(0, n).to_owned();
    proof {
        assert(r@ =~= s@.subrange(0, n as int));
    }
    r
}

/// Builds `releases.{channel}.json`.
pub fn releases_feed_name(channel: &str) -> (r: String)
    ensures
        r@ == feed_file_name(channel@),
{
    let mut r = "releases.".to_owned();
    r.append(channel);
    r.append(".json");
    proof {
        assert(r@ =~= feed_file_name(channel@));
    }
    r
}

/// Stripping trailing slashes is unaffected by first appending one more
/// slash; the backends' URL and path normalization therefore treats a
/// configured base with and without a trailing slash alike.
pub proof fn lemma_strip_trailing_slash_append(s: Seq<char>)
    ensures
        strip_trailing_slashes(s + "/"@) == strip_trailing_slashes(s),
{
    reveal_strlit("/");
    assert((s + "/"@).last() == '/');
    assert((s + "/"@).drop_last() =~= s);
}

} // verus!
