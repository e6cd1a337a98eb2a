//! The asset cache: ensure a local file exists, fetching it only where it
//! is absent.
//!
//! The cache is a model of the files this process knows to be present.
//! It is not content-addressed: correctness rests on the one-time startup
//! purge, after which every asset is lazily re-fetched once.  The caller
//! performs the download itself and hands the outcome in, so the
//! contract ties each fetch to a miss: a fetch happens exactly where the
//! file is absent.
//!
//! The check-then-fetch pattern is correct in a single-threaded host
//! only; concurrent callers must serialize their use of one cache, or
//! two downloads of the same file can interleave.

use vstd::prelude::*;

use crate::config::str_list_view;
use crate::errors::{ErrV, Error};
use crate::roblox::{
    get_definitions_file_for_level, spec_definitions_file_for_level, SECURITY_LEVEL_LOCAL_USER,
    SECURITY_LEVEL_NONE, SECURITY_LEVEL_PLUGIN, SECURITY_LEVEL_ROBLOX_SCRIPT,
};
use crate::strutil::str_eq;

verus! {

/// The fixed local filename of the remote flag snapshot.
pub const FFLAG_FILE_NAME: &'static str = "fflags.json";

/// The URL the remote flag snapshot is fetched from.
pub const FFLAG_URL: &'static str =
    "https://clientsettingscdn.roblox.com/v1/settings/application?applicationName=PCDesktopClient";

/// Whether `name` is among `files`.
pub open spec fn spec_has(files: Seq<Seq<char>>, name: Seq<char>) -> bool {
    exists|i: int| 0 <= i < files.len() && files[i] == name
}

/// What a successful ensure leaves on disk: the file, fetched only where
/// it was absent.
pub open spec fn spec_ensure_ok(files: Seq<Seq<char>>, name: Seq<char>) -> Seq<Seq<char>> {
    if spec_has(files, name) {
        files
    } else {
        files.push(name)
    }
}

/// The files this process knows to be present.
pub struct AssetCache {
    pub present: Vec<String>,
}

impl View for AssetCache {
    type V = Seq<Seq<char>>;

    open spec fn view(&self) -> Seq<Seq<char>> {
        str_list_view(self.present@)
    }
}

impl AssetCache {
    /// Whether the cache holds `name`.
    pub open spec fn has(&self, name: Seq<char>) -> bool {
        spec_has(self@, name)
    }

    /// The empty cache, as the startup purge leaves it.
    pub fn new() -> (r: AssetCache)
        ensures
            r@ == Seq::<Seq<char>>::empty(),
    {
        let r = AssetCache { present: Vec::new() };
        assert(r@ =~= Seq::<Seq<char>>::empty());
        r
    }

    /// Whether the cache holds `name`; the caller fetches exactly where
    /// it does not.
    pub fn contains(&self, name: &str) -> (b: bool)
        ensures
            b == self.has(name@),
    {
        let mut i: usize = 0;
        while i < self.present.len()
            invariant
                0 <= i <= self.present@.len(),
                forall|j: int| 0 <= j < i ==> self@[j] != name@,
            decreases self.present@.len() - i,
        {
            if str_eq(self.present[i].as_str(), name) {
                assert(self@[i as int] == name@);
                return true;
            }
            i = i + 1;
        }
        false
    }

    /// Records a file observed on disk, so that ensuring it performs no
    /// fetch.
    pub fn note_present(&mut self, name: String)
        ensures
            final(self)@ == spec_ensure_ok(old(self)@, name@),
            final(self).has(name@),
    {
        if !self.contains(name.as_str()) {
            self.present.push(name);
            assert(self@ =~= old(self)@.push(name@));
        }
        proof {
            lemma_ensure_idempotent(old(self)@, name@);
        }
    }

    /// Ensures `name` is present: a held file is answered unchanged and
    /// without a fetch; an absent one takes the fetch outcome the caller
    /// hands in, `Ok` recording the file and `Err` surfacing a download
    /// failure.  The precondition ties the fetch to the miss: `None`
    /// (no fetch was made) exactly where the file is already held.
    pub fn ensure(&mut self, name: &str, url: &str, fetch_result: Option<Result<(), String>>) -> (r:
        Result<String, Error>)
        requires
            (fetch_result is None) <==> old(self).has(name@),
        ensures
            old(self).has(name@) ==> *final(self) == *old(self) && (match r {
                Ok(p) => p@ == name@,
                Err(_) => false,
            }),
            !old(self).has(name@) ==> (match fetch_result {
                Some(Ok(())) => final(self)@ == old(self)@.push(name@) && (match r {
                    Ok(p) => p@ == name@,
                    Err(_) => false,
                }),
                Some(Err(cause)) => *final(self) == *old(self) && (match r {
                    Ok(_) => false,
                    Err(e) => e@ == (ErrV::DownloadFailed { url: url@, cause: cause@ }),
                }),
                None => false,
            }),
            (match r {
                Ok(_) => final(self)@ == spec_ensure_ok(old(self)@, name@),
                Err(_) => *final(self) == *old(self),
            }),
    {
        if self.contains(name) {
            return Ok(String::from_str(name));
        }
        match fetch_result {
            Some(fetched) => match fetched {
                Ok(()) => {
                    self.present.push(String::from_str(name));
                    assert(self@ =~= old(self)@.push(name@));
                    Ok(String::from_str(name))
                },
                Err(cause) => Err(
                    Error::DownloadFailed { url: String::from_str(url), cause },
                ),
            },
            None => {
                // Unreachable under the precondition: no fetch outcome is
                // handed in only where the file is already held.
                Err(Error::DownloadFailed { url: String::from_str(url), cause: String::new() })
            },
        }
    }
}

/// After a successful ensure the file is present, so a second ensure
/// with no intervening deletion finds it, needs no fetch, and leaves the
/// cache as it stands: two ensures in a row perform exactly one fetch.
pub proof fn lemma_ensure_idempotent(files: Seq<Seq<char>>, name: Seq<char>)
    ensures
        spec_has(spec_ensure_ok(files, name), name),
        spec_ensure_ok(spec_ensure_ok(files, name), name) == spec_ensure_ok(files, name),
{
    if !spec_has(files, name) {
        assert(files.push(name)[files.len() as int] == name);
    }
}

/// The fixed local filenames that are purged at startup, so that the next
/// resolution re-fetches fresh copies: the flag snapshot, the API
/// documentation, and the four type-definition variants.
pub fn purge_file_names() -> (r: Vec<String>)
    ensures
        str_list_view(r@) =~= seq![
            "fflags.json"@,
            "api-docs.json"@,
            spec_definitions_file_for_level("RobloxScriptSecurity"@),
            spec_definitions_file_for_level("LocalUserSecurity"@),
            spec_definitions_file_for_level("PluginSecurity"@),
            spec_definitions_file_for_level("None"@),
        ],
{
    let mut r: Vec<String> = Vec::new();
    r.push(String::from_str("fflags.json"));
    r.push(String::from_str("api-docs.json"));
    r.push(get_definitions_file_for_level(SECURITY_LEVEL_ROBLOX_SCRIPT));
    r.push(get_definitions_file_for_level(SECURITY_LEVEL_LOCAL_USER));
    r.push(get_definitions_file_for_level(SECURITY_LEVEL_PLUGIN));
    r.push(get_definitions_file_for_level(SECURITY_LEVEL_NONE));
    r
}

} // verus!
