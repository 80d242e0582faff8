//! Well-known on-disk locations: the application's data directory (holding
//! the indexed-directories list) and its cover-art cache. The platform base
//! directories come from the `dirs` crate and depend on the environment, so
//! nothing more is promised of them than the fixed application suffix that
//! this module appends; creating the directories is the shell's job.

use vstd::prelude::*;
use vstd::string::StringExecFns;

verus! {

/// Whether `s` ends with `suffix`.
pub open spec fn has_suffix(s: Seq<char>, suffix: Seq<char>) -> bool {
    s.len() >= suffix.len() && s.skip(s.len() - suffix.len()) == suffix
}

/// Extending a string extends any suffix of it.
proof fn lemma_suffix_extend(s: Seq<char>, suf: Seq<char>, ext: Seq<char>)
    requires
        has_suffix(s, suf),
    ensures
        has_suffix(s + ext, suf + ext),
{
    let n: int = s.len() - suf.len();
    assert forall|i: int| 0 <= i < suf.len() + ext.len() implies (s + ext).skip(n)[i] == (suf
        + ext)[i] by {
        if i < suf.len() {
            assert(s.skip(n)[i] == suf[i]);
        }
    }
    assert((s + ext).skip(n) =~= suf + ext);
}

/// Relies on dirs::data_local_dir: the platform's per-user local data
/// directory, if the environment defines one (and its path is unicode).
#[verifier::external_body]
fn data_local_dir_string() -> (r: Option<String>) {
    dirs::data_local_dir().and_then(|p| p.to_str().map(|s| s.to_string()))
}

/// Relies on dirs::cache_dir: the platform's per-user cache directory, if
/// the environment defines one (and its path is unicode).
#[verifier::external_body]
fn cache_dir_string() -> (r: Option<String>) {
    dirs::cache_dir().and_then(|p| p.to_str().map(|s| s.to_string()))
}

/// The application's data directory: the platform's local data directory
/// plus the application's own segment. `None` when the environment defines
/// no such directory.
pub fn app_data() -> (r: Option<String>)
    ensures
        r matches Some(p) ==> has_suffix(p@, "/aurex"@),
{
    match data_local_dir_string() {
        Some(base) => {
            let mut p = base;
            p.append("/aurex");
            proof {
                assert(p@.skip(p@.len() - "/aurex"@.len()) =~= "/aurex"@);
            }
            Some(p)
        },
        None => None,
    }
}

/// The application's cache directory, under the platform's per-user cache
/// directory. `None` when the environment defines no such directory.
pub fn app_cache() -> (r: Option<String>)
    ensures
        r matches Some(p) ==> has_suffix(p@, "/.aurex/cache"@),
{
    match cache_dir_string() {
        Some(base) => {
            let mut p = base;
            p.append("/.aurex/cache");
            proof {
                assert(p@.skip(p@.len() - "/.aurex/cache"@.len()) =~= "/.aurex/cache"@);
            }
            Some(p)
        },
        None => None,
    }
}

/// The file listing the directories to index, inside [`app_data`].
pub fn dir_file() -> (r: Option<String>)
    ensures
        r matches Some(p) ==> has_suffix(p@, "/aurex/directories.txt"@),
{
    match app_data() {
        Some(base) => {
            let ghost b = base@;
            let mut p = base;
            p.append("/directories.txt");
            proof {
                reveal_strlit("/aurex");
                reveal_strlit("/directories.txt");
                reveal_strlit("/aurex/directories.txt");
                lemma_suffix_extend(b, "/aurex"@, "/directories.txt"@);
                assert("/aurex"@ + "/directories.txt"@ =~= "/aurex/directories.txt"@);
            }
            Some(p)
        },
        None => None,
    }
}

/// The cover-art cache directory, inside [`app_cache`].
pub fn cover_cache() -> (r: Option<String>)
    ensures
        r matches Some(p) ==> has_suffix(p@, "/.aurex/cache/covers"@),
{
    match app_cache() {
        Some(base) => {
            let ghost b = base@;
            let mut p = base;
            p.append("/covers");
            proof {
                reveal_strlit("/.aurex/cache");
                reveal_strlit("/covers");
                reveal_strlit("/.aurex/cache/covers");
                lemma_suffix_extend(b, "/.aurex/cache"@, "/covers"@);
                assert("/.aurex/cache"@ + "/covers"@ =~= "/.aurex/cache/covers"@);
            }
            Some(p)
        },
        None => None,
    }
}

} // verus!
