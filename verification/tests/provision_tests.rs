use luau_lsp_ext::config::BinaryConfig;
use luau_lsp_ext::errors::Error;
use luau_lsp_ext::provision::{
    cleanup_targets, plan_binary_lookup, plan_proxy_install, plan_server_install,
    proxy_asset_name, server_asset_name, Arch, Os, Release, ReleaseAsset,
    PROXY_RELEASE_TAG, PROXY_REPO, SERVER_REPO,
};

fn release(version: &str, asset_names: Vec<&str>) -> Release {
    Release {
        version: String::from(version),
        assets: asset_names
            .into_iter()
            .map(|n| ReleaseAsset {
                name: String::from(n),
                download_url: format!("https://example.invalid/{n}"),
            })
            .collect(),
    }
}

#[test]
fn server_asset_name_table() {
    assert_eq!(server_asset_name(Os::Mac, Arch::X8664), "luau-lsp-macos.zip");
    assert_eq!(server_asset_name(Os::Mac, Arch::Aarch64), "luau-lsp-macos.zip");
    assert_eq!(server_asset_name(Os::Windows, Arch::X8664), "luau-lsp-win64.zip");
    assert_eq!(server_asset_name(Os::Linux, Arch::X8664), "luau-lsp-linux.zip");
    assert_eq!(server_asset_name(Os::Linux, Arch::X86), "luau-lsp-linux.zip");
    assert_eq!(server_asset_name(Os::Linux, Arch::Aarch64), "luau-lsp-linux-arm64.zip");
}

#[test]
fn proxy_asset_name_template() {
    assert_eq!(
        proxy_asset_name("v0.1.0", Os::Linux, Arch::X8664),
        "luau-lsp-proxy-0.1.0-linux-x86_64.zip"
    );
    assert_eq!(
        proxy_asset_name("v0.1.0", Os::Mac, Arch::Aarch64),
        "luau-lsp-proxy-0.1.0-macos-aarch64.zip"
    );
    assert_eq!(
        proxy_asset_name("v0.1.0", Os::Windows, Arch::X86),
        "luau-lsp-proxy-0.1.0-windows-x86_64.zip"
    );
    // An empty tag stays empty rather than losing a character.
    assert_eq!(proxy_asset_name("", Os::Linux, Arch::X8664), "luau-lsp-proxy--linux-x86_64.zip");
}

#[test]
fn server_install_plan_paths() {
    let rel = release("1.32.0", vec!["luau-lsp-linux.zip", "luau-lsp-macos.zip"]);
    let plan = plan_server_install(&rel, Os::Linux, Arch::X8664).unwrap();
    assert_eq!(plan.asset_name, "luau-lsp-linux.zip");
    assert_eq!(plan.download_url, "https://example.invalid/luau-lsp-linux.zip");
    assert_eq!(plan.dir_name, "luau-lsp-1.32.0");
    assert_eq!(plan.version_dir, "luau-lsp-binaries/luau-lsp-1.32.0");
    assert_eq!(plan.binary_path, "luau-lsp-binaries/luau-lsp-1.32.0/luau-lsp");
}

#[test]
fn server_install_no_matching_asset() {
    let rel = release("1.32.0", vec!["luau-lsp-macos.zip"]);
    let e = plan_server_install(&rel, Os::Linux, Arch::Aarch64).unwrap_err();
    match e {
        Error::NoMatchingAsset { asset_name } => {
            assert_eq!(asset_name, "luau-lsp-linux-arm64.zip");
        },
        _ => panic!("expected NoMatchingAsset"),
    }
}

#[test]
fn proxy_install_plan_paths() {
    let rel = release("v0.1.0", vec!["luau-lsp-proxy-0.1.0-linux-x86_64.zip"]);
    let plan = plan_proxy_install(&rel, Os::Linux, Arch::X8664).unwrap();
    assert_eq!(plan.asset_name, "luau-lsp-proxy-0.1.0-linux-x86_64.zip");
    assert_eq!(plan.dir_name, "luau-lsp-proxy-v0.1.0");
    assert_eq!(plan.version_dir, "proxy-binaries/luau-lsp-proxy-v0.1.0");
    assert_eq!(plan.binary_path, "proxy-binaries/luau-lsp-proxy-v0.1.0/luau-lsp-proxy");
}

#[test]
fn cleanup_removes_exactly_the_stale_siblings() {
    let entries = vec![
        String::from("luau-lsp-1.0.0"),
        String::from("luau-lsp-2.0.0"),
        String::from("stray"),
    ];
    let targets = cleanup_targets(&entries, "luau-lsp-2.0.0");
    assert_eq!(targets, vec![String::from("luau-lsp-1.0.0"), String::from("stray")]);
    // What survives the deletion is the kept version's directory alone.
    let remaining: Vec<&String> = entries.iter().filter(|e| !targets.contains(e)).collect();
    assert_eq!(remaining, vec![&String::from("luau-lsp-2.0.0")]);
}

#[test]
fn cleanup_on_fresh_root_removes_nothing() {
    let entries = vec![String::from("luau-lsp-2.0.0")];
    let targets = cleanup_targets(&entries, "luau-lsp-2.0.0");
    assert!(targets.is_empty());
}

#[test]
fn binary_lookup_explicit_path_wins() {
    let binary = BinaryConfig {
        ignore_system_version: false,
        path: Some(String::from("/opt/luau-lsp")),
        args: vec![],
    };
    let system = String::from("/usr/bin/luau-lsp");
    let cached = String::from("luau-lsp-binaries/luau-lsp-1.0.0/luau-lsp");
    let got = plan_binary_lookup(&binary, Some(&system), Some(&cached), true).unwrap();
    assert_eq!(got.path, "/opt/luau-lsp");
    assert!(!got.is_extension_owned);
}

#[test]
fn binary_lookup_system_path_second() {
    let binary = BinaryConfig { ignore_system_version: false, path: None, args: vec![] };
    let system = String::from("/usr/bin/luau-lsp");
    let got = plan_binary_lookup(&binary, Some(&system), None, false).unwrap();
    assert_eq!(got.path, "/usr/bin/luau-lsp");
    assert!(!got.is_extension_owned);
}

#[test]
fn binary_lookup_ignores_system_when_told() {
    let binary = BinaryConfig { ignore_system_version: true, path: None, args: vec![] };
    let system = String::from("/usr/bin/luau-lsp");
    let cached = String::from("luau-lsp-binaries/luau-lsp-1.0.0/luau-lsp");
    let got = plan_binary_lookup(&binary, Some(&system), Some(&cached), true).unwrap();
    assert_eq!(got.path, "luau-lsp-binaries/luau-lsp-1.0.0/luau-lsp");
}

#[test]
fn binary_lookup_cached_needs_existing_file() {
    let binary = BinaryConfig { ignore_system_version: false, path: None, args: vec![] };
    let cached = String::from("luau-lsp-binaries/luau-lsp-1.0.0/luau-lsp");
    assert!(plan_binary_lookup(&binary, None, Some(&cached), false).is_none());
    let got = plan_binary_lookup(&binary, None, Some(&cached), true).unwrap();
    assert_eq!(got.path, "luau-lsp-binaries/luau-lsp-1.0.0/luau-lsp");
}

#[test]
fn binary_lookup_falls_through_to_install() {
    let binary = BinaryConfig { ignore_system_version: false, path: None, args: vec![] };
    assert!(plan_binary_lookup(&binary, None, None, false).is_none());
}

#[test]
fn repository_pins() {
    assert_eq!(SERVER_REPO, "JohnnyMorganz/luau-lsp");
    assert_eq!(PROXY_REPO, "4teapo/luau-lsp-proxy");
    assert_eq!(PROXY_RELEASE_TAG, "v0.1.0");
}
