//! Provisioning of the language-server and proxy executables: which
//! release asset fits the platform, where a version is installed, which
//! stale siblings a fresh install removes, and in what order the possible
//! binary sources are consulted.

use vstd::prelude::*;

use crate::config::{str_list_view, BinaryConfig, BinaryV};
use crate::errors::{ErrV, Error};
use crate::strutil::str_eq;

verus! {

/// The operating system the execution environment reports.
#[derive(Clone, Copy, Debug, PartialEq, Eq, Structural)]
pub enum Os {
    Mac,
    Windows,
    Linux,
}

/// The processor architecture the execution environment reports.
#[derive(Clone, Copy, Debug, PartialEq, Eq, Structural)]
pub enum Arch {
    Aarch64,
    X86,
    X8664,
}

/// The repository the language server is released from.
pub const SERVER_REPO: &'static str = "JohnnyMorganz/luau-lsp";

/// The repository and pinned tag of the companion proxy; the pin spares
/// the proxy any backwards-compatibility concern.
pub const PROXY_REPO: &'static str = "4teapo/luau-lsp-proxy";

pub const PROXY_RELEASE_TAG: &'static str = "v0.1.0";

/// The cache root that holds the language-server version directories.
pub const SERVER_BINARY_DIR_NAME: &'static str = "luau-lsp-binaries";

/// The cache root that holds the proxy version directories.
pub const PROXY_BINARY_DIR_NAME: &'static str = "proxy-binaries";

/// A downloadable asset of a release.
#[derive(Debug)]
pub struct ReleaseAsset {
    pub name: String,
    pub download_url: String,
}

/// A release: its version tag and its named assets.
#[derive(Debug)]
pub struct Release {
    pub version: String,
    pub assets: Vec<ReleaseAsset>,
}

/// The name of the language-server release asset for a platform.
pub open spec fn spec_server_asset_name(os: Os, arch: Arch) -> Seq<char> {
    match os {
        Os::Mac => "luau-lsp-macos.zip"@,
        Os::Windows => "luau-lsp-win64.zip"@,
        Os::Linux => match arch {
            Arch::Aarch64 => "luau-lsp-linux-arm64.zip"@,
            _ => "luau-lsp-linux.zip"@,
        },
    }
}

/// The name of the language-server release asset for a platform.
pub fn server_asset_name(os: Os, arch: Arch) -> (r: &'static str)
    ensures
        r@ == spec_server_asset_name(os, arch),
{
    match os {
        Os::Mac => "luau-lsp-macos.zip",
        Os::Windows => "luau-lsp-win64.zip",
        Os::Linux => match arch {
            Arch::Aarch64 => "luau-lsp-linux-arm64.zip",
            _ => "luau-lsp-linux.zip",
        },
    }
}

/// The name a platform's operating system takes in a proxy asset name.
pub open spec fn spec_os_name(os: Os) -> Seq<char> {
    match os {
        Os::Mac => "macos"@,
        Os::Windows => "windows"@,
        Os::Linux => "linux"@,
    }
}

/// The name a platform's architecture takes in a proxy asset name.
pub open spec fn spec_arch_name(arch: Arch) -> Seq<char> {
    match arch {
        Arch::Aarch64 => "aarch64"@,
        _ => "x86_64"@,
    }
}

/// A release tag without its first character, as the proxy tags carry a
/// leading `v` that its asset names do not; an empty tag stays empty.
pub open spec fn spec_tag_trimmed(tag: Seq<char>) -> Seq<char> {
    if tag.len() == 0 {
        tag
    } else {
        tag.skip(1)
    }
}

/// The name of the proxy release asset: templated by trimmed version,
/// operating system and architecture.
pub open spec fn spec_proxy_asset_name(tag: Seq<char>, os: Os, arch: Arch) -> Seq<char> {
    "luau-lsp-proxy-"@ + spec_tag_trimmed(tag) + "-"@ + spec_os_name(os) + "-"@ + spec_arch_name(
        arch,
    ) + ".zip"@
}

/// The name of the proxy release asset for a release tag and platform.
pub fn proxy_asset_name(tag: &str, os: Os, arch: Arch) -> (r: String)
    ensures
        r@ == spec_proxy_asset_name(tag@, os, arch),
{
    let mut s = String::from_str("luau-lsp-proxy-");
    let n = tag.unicode_len();
    if n > 0 {
        s.append(tag.substring_char(1, n));
    }
    s.append("-");
    match os {
        Os::Mac => s.append("macos"),
        Os::Windows => s.append("windows"),
        Os::Linux => s.append("linux"),
    }
    s.append("-");
    match arch {
        Arch::Aarch64 => s.append("aarch64"),
        _ => s.append("x86_64"),
    }
    s.append(".zip");
    assert(s@ =~= spec_proxy_asset_name(tag@, os, arch));
    s
}

/// The directory a language-server version is installed in, under the
/// cache root.
pub open spec fn spec_server_dir_name(version: Seq<char>) -> Seq<char> {
    "luau-lsp-"@ + version
}

/// The directory a proxy version is installed in, under the cache root.
pub open spec fn spec_proxy_dir_name(version: Seq<char>) -> Seq<char> {
    "luau-lsp-proxy-"@ + version
}

/// Everything a first-time install needs: the matched asset, and where
/// the version lands on disk.
#[derive(Debug)]
pub struct InstallPlan {
    /// The asset name the platform calls for.
    pub asset_name: String,
    /// Where the matched asset is downloaded from.
    pub download_url: String,
    /// The version directory's own name, the one sibling the cleanup
    /// keeps.
    pub dir_name: String,
    /// The version directory under the cache root.
    pub version_dir: String,
    /// The executable's path inside the version directory.
    pub binary_path: String,
}

/// The first asset of `assets` named `name`.
pub fn find_asset<'a>(assets: &'a Vec<ReleaseAsset>, name: &str) -> (r: Option<&'a ReleaseAsset>)
    ensures
        match r {
            Some(a) => exists|i: int|
                0 <= i < assets@.len() && assets@[i].name@ == name@ && *a == assets@[i] && (forall|
                    j: int,
                |
                    0 <= j < i ==> assets@[j].name@ != name@),
            None => forall|i: int| 0 <= i < assets@.len() ==> assets@[i].name@ != name@,
        },
{
    let mut i: usize = 0;
    while i < assets.len()
        invariant
            0 <= i <= assets@.len(),
            forall|j: int| 0 <= j < i ==> assets@[j].name@ != name@,
        decreases assets@.len() - i,
    {
        if str_eq(assets[i].name.as_str(), name) {
            return Some(&assets[i]);
        }
        i = i + 1;
    }
    None
}

/// Joins `root`, the version directory and the executable name into the
/// two install paths.
fn install_paths(root: &str, dir_name: &str, exe: &str) -> (r: (String, String))
    ensures
        r.0@ == root@ + "/"@ + dir_name@,
        r.1@ == root@ + "/"@ + dir_name@ + "/"@ + exe@,
{
    let mut version_dir = String::from_str(root);
    version_dir.append("/");
    version_dir.append(dir_name);
    let mut binary_path = version_dir.clone();
    binary_path.append("/");
    binary_path.append(exe);
    (version_dir, binary_path)
}

/// Plans a first-time language-server install from a release: the asset
/// matching the platform (required assets, latest stable release are the
/// caller's lookup concern), and the version-directory paths.
pub fn plan_server_install(release: &Release, os: Os, arch: Arch) -> (r: Result<InstallPlan, Error>)
    ensures
        match r {
            Ok(p) => {
                &&& p.asset_name@ == spec_server_asset_name(os, arch)
                &&& exists|i: int|
                    0 <= i < release.assets@.len() && release.assets@[i].name@
                        == spec_server_asset_name(os, arch) && p.download_url@
                        == release.assets@[i].download_url@ && (forall|j: int|
                        0 <= j < i ==> release.assets@[j].name@ != spec_server_asset_name(os, arch))
                &&& p.dir_name@ == spec_server_dir_name(release.version@)
                &&& p.version_dir@ == "luau-lsp-binaries"@ + "/"@ + spec_server_dir_name(
                    release.version@,
                )
                &&& p.binary_path@ == "luau-lsp-binaries"@ + "/"@ + spec_server_dir_name(
                    release.version@,
                ) + "/"@ + "luau-lsp"@
            },
            Err(e) => {
                &&& forall|i: int|
                    0 <= i < release.assets@.len() ==> release.assets@[i].name@
                        != spec_server_asset_name(os, arch)
                &&& e@ == (ErrV::NoMatchingAsset { asset_name: spec_server_asset_name(os, arch) })
            },
        },
{
    let asset_name = server_asset_name(os, arch);
    let asset = match find_asset(&release.assets, asset_name) {
        Some(a) => a,
        None => {
            return Err(Error::NoMatchingAsset { asset_name: String::from_str(asset_name) });
        },
    };
    let mut dir_name = String::from_str("luau-lsp-");
    dir_name.append(release.version.as_str());
    let (version_dir, binary_path) = install_paths(
        SERVER_BINARY_DIR_NAME,
        dir_name.as_str(),
        "luau-lsp",
    );
    Ok(
        InstallPlan {
            asset_name: String::from_str(asset_name),
            download_url: asset.download_url.clone(),
            dir_name,
            version_dir,
            binary_path,
        },
    )
}

/// Plans a first-time proxy install from the pinned release: as for the
/// server, with the asset name templated by platform and trimmed tag.
pub fn plan_proxy_install(release: &Release, os: Os, arch: Arch) -> (r: Result<InstallPlan, Error>)
    ensures
        match r {
            Ok(p) => {
                &&& p.asset_name@ == spec_proxy_asset_name(release.version@, os, arch)
                &&& exists|i: int|
                    0 <= i < release.assets@.len() && release.assets@[i].name@
                        == spec_proxy_asset_name(release.version@, os, arch) && p.download_url@
                        == release.assets@[i].download_url@ && (forall|j: int|
                        0 <= j < i ==> release.assets@[j].name@ != spec_proxy_asset_name(
                            release.version@,
                            os,
                            arch,
                        ))
                &&& p.dir_name@ == spec_proxy_dir_name(release.version@)
                &&& p.version_dir@ == "proxy-binaries"@ + "/"@ + spec_proxy_dir_name(
                    release.version@,
                )
                &&& p.binary_path@ == "proxy-binaries"@ + "/"@ + spec_proxy_dir_name(
                    release.version@,
                ) + "/"@ + "luau-lsp-proxy"@
            },
            Err(e) => {
                &&& forall|i: int|
                    0 <= i < release.assets@.len() ==> release.assets@[i].name@
                        != spec_proxy_asset_name(release.version@, os, arch)
                &&& e@ == (ErrV::NoMatchingAsset {
                    asset_name: spec_proxy_asset_name(release.version@, os, arch),
                })
            },
        },
{
    let asset_name = proxy_asset_name(release.version.as_str(), os, arch);
    let asset = match find_asset(&release.assets, asset_name.as_str()) {
        Some(a) => a,
        None => {
            return Err(Error::NoMatchingAsset { asset_name });
        },
    };
    let mut dir_name = String::from_str("luau-lsp-proxy-");
    dir_name.append(release.version.as_str());
    let (version_dir, binary_path) = install_paths(
        PROXY_BINARY_DIR_NAME,
        dir_name.as_str(),
        "luau-lsp-proxy",
    );
    Ok(
        InstallPlan {
            asset_name,
            download_url: asset.download_url.clone(),
            dir_name,
            version_dir,
            binary_path,
        },
    )
}

/// The stale entries of a cache root: every sibling whose name is not
/// `keep`, in listing order.
pub open spec fn spec_stale(entries: Seq<Seq<char>>, keep: Seq<char>) -> Seq<Seq<char>>
    decreases entries.len(),
{
    if entries.len() == 0 {
        Seq::empty()
    } else if entries.last() == keep {
        spec_stale(entries.drop_last(), keep)
    } else {
        spec_stale(entries.drop_last(), keep).push(entries.last())
    }
}

/// The siblings a fresh install of the version directory `keep` removes:
/// every listed entry not named `keep`.  Their deletion is best-effort;
/// a failure there is swallowed, not surfaced.
pub fn cleanup_targets(entries: &Vec<String>, keep: &str) -> (r: Vec<String>)
    ensures
        str_list_view(r@) == spec_stale(str_list_view(entries@), keep@),
{
    let mut r: Vec<String> = Vec::new();
    let mut i: usize = 0;
    assert(str_list_view(entries@).take(0) =~= Seq::<Seq<char>>::empty());
    assert(str_list_view(r@) =~= Seq::<Seq<char>>::empty());
    while i < entries.len()
        invariant
            0 <= i <= entries@.len(),
            str_list_view(r@) == spec_stale(str_list_view(entries@).take(i as int), keep@),
        decreases entries@.len() - i,
    {
        proof {
            let all = str_list_view(entries@);
            assert(all.take(i as int + 1).last() == all[i as int]);
            assert(all.take(i as int + 1).drop_last() =~= all.take(i as int));
        }
        if !str_eq(entries[i].as_str(), keep) {
            r.push(entries[i].clone());
            assert(str_list_view(r@) =~= str_list_view(r@.drop_last()).push(entries@[i as int]@));
        }
        i = i + 1;
    }
    assert(str_list_view(entries@).take(entries@.len() as int) =~= str_list_view(entries@));
    r
}

/// Cache-set reconciliation: the stale set holds exactly the entries not
/// named `keep`, so deleting it leaves only `keep`'s directory behind.
pub proof fn lemma_cleanup_single_version(entries: Seq<Seq<char>>, keep: Seq<char>, e: Seq<char>)
    ensures
        spec_stale(entries, keep).contains(e) <==> (entries.contains(e) && e != keep),
    decreases entries.len(),
{
    if entries.len() > 0 {
        lemma_cleanup_single_version(entries.drop_last(), keep, e);
        assert(entries.contains(e) <==> (entries.drop_last().contains(e) || entries.last() == e))
            by {
            if entries.contains(e) {
                let i = choose|i: int| 0 <= i < entries.len() && entries[i] == e;
                if i < entries.len() - 1 {
                    assert(entries.drop_last()[i] == e);
                }
            }
            if entries.drop_last().contains(e) {
                let i = choose|i: int|
                    0 <= i < entries.drop_last().len() && entries.drop_last()[i] == e;
                assert(entries[i] == e);
            }
        }
        if entries.last() != keep {
            let s = spec_stale(entries.drop_last(), keep);
            assert(s.push(entries.last()).contains(e) <==> (s.contains(e) || entries.last() == e))
                by {
                if s.contains(e) {
                    let i = choose|i: int| 0 <= i < s.len() && s[i] == e;
                    assert(s.push(entries.last())[i] == e);
                }
                assert(s.push(entries.last())[s.len() as int] == entries.last());
                if s.push(entries.last()).contains(e) {
                    let i = choose|i: int|
                        0 <= i < s.push(entries.last()).len() && s.push(entries.last())[i] == e;
                    if i < s.len() {
                        assert(s[i] == e);
                    }
                }
            }
        }
    }
}

/// Where the language server comes from when no install is needed, first
/// match wins: the explicit settings path, then the system installation
/// (unless ignored), then the path cached by an earlier install, where
/// its file still exists.  `None` calls for a download.
pub open spec fn spec_binary_lookup(
    binary: BinaryV,
    system: Option<Seq<char>>,
    cached: Option<Seq<char>>,
    cached_exists: bool,
) -> Option<(Seq<char>, bool)> {
    match binary.path {
        Some(p) => Some((p, false)),
        None => if !binary.ignore_system_version && system is Some {
            match system {
                Some(s) => Some((s, false)),
                None => None,
            }
        } else {
            match cached {
                Some(c) => if cached_exists {
                    Some((c, false))
                } else {
                    None
                },
                None => None,
            }
        },
    }
}

/// A resolved executable path, and whether this system installed it
/// itself (as opposed to an explicit or system-supplied path).
#[derive(Debug)]
pub struct BinaryPath {
    pub path: String,
    pub is_extension_owned: bool,
}

impl View for BinaryPath {
    type V = (Seq<char>, bool);

    open spec fn view(&self) -> (Seq<char>, bool) {
        (self.path@, self.is_extension_owned)
    }
}

/// Consults the possible language-server sources in their fixed order;
/// `None` means a first-time install must provision the binary.
///
/// `system_path` is what a lookup of the well-known name on the
/// execution environment's search path found; `cached_exists` whether
/// the file behind `cached_path` is still there.
pub fn plan_binary_lookup(
    binary: &BinaryConfig,
    system_path: Option<&String>,
    cached_path: Option<&String>,
    cached_exists: bool,
) -> (r: Option<BinaryPath>)
    ensures
        match r {
            Some(b) => spec_binary_lookup(
                binary@,
                opt_ref_view(system_path),
                opt_ref_view(cached_path),
                cached_exists,
            ) == Some(b@),
            None => spec_binary_lookup(
                binary@,
                opt_ref_view(system_path),
                opt_ref_view(cached_path),
                cached_exists,
            ) is None,
        },
{
    if let Some(p) = &binary.path {
        return Some(BinaryPath { path: p.clone(), is_extension_owned: false });
    }
    if !binary.ignore_system_version {
        if let Some(s) = system_path {
            return Some(BinaryPath { path: s.clone(), is_extension_owned: false });
        }
    }
    if let Some(c) = cached_path {
        if cached_exists {
            return Some(BinaryPath { path: c.clone(), is_extension_owned: false });
        }
    }
    None
}

/// The view of an optional borrowed string.
pub open spec fn opt_ref_view(v: Option<&String>) -> Option<Seq<char>> {
    match v {
        Some(s) => Some(s@),
        None => None,
    }
}

} // verus!
