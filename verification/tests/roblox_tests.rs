use luau_lsp_ext::config::SecurityLevel;
use luau_lsp_ext::roblox::{
    get_definitions_file_for_level, get_definitions_url_for_level, security_level_name,
    API_DOCS_FILE_NAME, API_DOCS_URL, SECURITY_LEVEL_LOCAL_USER, SECURITY_LEVEL_NONE,
    SECURITY_LEVEL_PLUGIN, SECURITY_LEVEL_ROBLOX_SCRIPT,
};

#[test]
fn definitions_url_for_level() {
    assert_eq!(
        get_definitions_url_for_level("PluginSecurity"),
        "https://raw.githubusercontent.com/JohnnyMorganz/luau-lsp/main/scripts/globalTypes.PluginSecurity.d.luau"
    );
    assert_eq!(
        get_definitions_url_for_level("None"),
        "https://raw.githubusercontent.com/JohnnyMorganz/luau-lsp/main/scripts/globalTypes.None.d.luau"
    );
}

#[test]
fn definitions_file_for_level() {
    assert_eq!(
        get_definitions_file_for_level("RobloxScriptSecurity"),
        "globalTypes.RobloxScriptSecurity.d.luau"
    );
    assert_eq!(
        get_definitions_file_for_level("LocalUserSecurity"),
        "globalTypes.LocalUserSecurity.d.luau"
    );
}

#[test]
fn level_names() {
    assert_eq!(security_level_name(SecurityLevel::RobloxScript), SECURITY_LEVEL_ROBLOX_SCRIPT);
    assert_eq!(security_level_name(SecurityLevel::LocalUser), SECURITY_LEVEL_LOCAL_USER);
    assert_eq!(security_level_name(SecurityLevel::Plugin), SECURITY_LEVEL_PLUGIN);
    assert_eq!(security_level_name(SecurityLevel::NoSecurity), SECURITY_LEVEL_NONE);
    assert_eq!(SECURITY_LEVEL_NONE, "None");
    assert_eq!(SECURITY_LEVEL_PLUGIN, "PluginSecurity");
}

#[test]
fn fixed_asset_names() {
    assert_eq!(API_DOCS_FILE_NAME, "api-docs.json");
    assert!(API_DOCS_URL.starts_with("https://raw.githubusercontent.com/"));
}
