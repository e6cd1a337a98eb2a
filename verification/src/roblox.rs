//! Names and URLs of the Roblox auxiliary assets: the API documentation
//! and the per-security-level type-definition files.

use vstd::prelude::*;

use crate::config::SecurityLevel;

verus! {

/// The fixed local filename of the API documentation asset.
pub const API_DOCS_FILE_NAME: &'static str = "api-docs.json";

/// The URL the API documentation is fetched from.
pub const API_DOCS_URL: &'static str =
    "https://raw.githubusercontent.com/MaximumADHD/Roblox-Client-Tracker/roblox/api-docs/en-us.json";

pub const SECURITY_LEVEL_NONE: &'static str = "None";

pub const SECURITY_LEVEL_LOCAL_USER: &'static str = "LocalUserSecurity";

pub const SECURITY_LEVEL_PLUGIN: &'static str = "PluginSecurity";

pub const SECURITY_LEVEL_ROBLOX_SCRIPT: &'static str = "RobloxScriptSecurity";

/// The name a security level goes by in asset names and URLs.
pub open spec fn spec_level_name(l: SecurityLevel) -> Seq<char> {
    match l {
        SecurityLevel::RobloxScript => "RobloxScriptSecurity"@,
        SecurityLevel::LocalUser => "LocalUserSecurity"@,
        SecurityLevel::Plugin => "PluginSecurity"@,
        SecurityLevel::NoSecurity => "None"@,
    }
}

/// The name a security level goes by in asset names and URLs.
pub fn security_level_name(l: SecurityLevel) -> (r: &'static str)
    ensures
        r@ == spec_level_name(l),
{
    match l {
        SecurityLevel::RobloxScript => "RobloxScriptSecurity",
        SecurityLevel::LocalUser => "LocalUserSecurity",
        SecurityLevel::Plugin => "PluginSecurity",
        SecurityLevel::NoSecurity => "None",
    }
}

/// The URL of the type-definition file for a security level name.
pub open spec fn spec_definitions_url_for_level(lvl: Seq<char>) -> Seq<char> {
    "https://raw.githubusercontent.com/JohnnyMorganz/luau-lsp/main/scripts/globalTypes."@ + lvl
        + ".d.luau"@
}

/// The URL of the type-definition file for a security level name.
pub fn get_definitions_url_for_level(lvl: &str) -> (r: String)
    ensures
        r@ == spec_definitions_url_for_level(lvl@),
{
    let mut s = String::from_str(
        "https://raw.githubusercontent.com/JohnnyMorganz/luau-lsp/main/scripts/globalTypes.",
    );
    s.append(lvl);
    s.append(".d.luau");
    assert(s@ =~= spec_definitions_url_for_level(lvl@));
    s
}

/// The local filename of the type-definition file for a security level
/// name.
pub open spec fn spec_definitions_file_for_level(lvl: Seq<char>) -> Seq<char> {
    "globalTypes."@ + lvl + ".d.luau"@
}

/// The local filename of the type-definition file for a security level
/// name.
pub fn get_definitions_file_for_level(lvl: &str) -> (r: String)
    ensures
        r@ == spec_definitions_file_for_level(lvl@),
{
    let mut s = String::from_str("globalTypes.");
    s.append(lvl);
    s.append(".d.luau");
    assert(s@ =~= spec_definitions_file_for_level(lvl@));
    s
}

} // verus!
