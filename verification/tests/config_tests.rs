use luau_lsp_ext::config::{resolve, SecurityLevel};
use luau_lsp_ext::errors::Error;
use luau_lsp_ext::json::JsonValue;

fn obj(entries: Vec<(&str, JsonValue)>) -> JsonValue {
    JsonValue::Obj(entries.into_iter().map(|(k, v)| (String::from(k), v)).collect())
}

fn s(v: &str) -> JsonValue {
    JsonValue::Str(String::from(v))
}

#[test]
fn defaults_from_absent_settings() {
    let cfg = resolve(None).unwrap();
    assert!(!cfg.roblox.enabled);
    assert!(matches!(cfg.roblox.security_level, SecurityLevel::Plugin));
    assert!(cfg.roblox.download_api_documentation);
    assert!(cfg.roblox.download_definitions);
    assert!(!cfg.fflags.enable_by_default);
    assert!(!cfg.fflags.enable_new_solver);
    assert!(cfg.fflags.sync);
    assert!(cfg.fflags.overrides.is_empty());
    assert!(!cfg.binary.ignore_system_version);
    assert!(cfg.binary.path.is_none());
    assert!(cfg.binary.args.is_empty());
    assert!(!cfg.plugin.enabled);
    assert_eq!(cfg.plugin.port, 3667);
    assert!(cfg.plugin.proxy_path.is_none());
    assert!(cfg.definitions.is_empty());
    assert!(cfg.documentation.is_empty());
}

#[test]
fn empty_object_resolves_to_defaults() {
    let cfg = resolve(Some(&obj(vec![]))).unwrap();
    assert_eq!(cfg.plugin.port, 3667);
    assert!(cfg.fflags.sync);
}

#[test]
fn non_object_settings_rejected() {
    let e = resolve(Some(&JsonValue::Bool(true))).unwrap_err();
    assert!(matches!(e, Error::InvalidSettingsShape));
    let e = resolve(Some(&s("x"))).unwrap_err();
    assert!(matches!(e, Error::InvalidSettingsShape));
}

#[test]
fn ext_key_preferred() {
    let settings = obj(vec![
        ("ext", obj(vec![("plugin", obj(vec![("port", JsonValue::Int(4000))]))])),
        ("plugin", obj(vec![("port", JsonValue::Int(5000))])),
    ]);
    let cfg = resolve(Some(&settings)).unwrap();
    assert_eq!(cfg.plugin.port, 4000);
}

#[test]
fn whole_object_fallback_without_ext() {
    let settings = obj(vec![("plugin", obj(vec![("port", JsonValue::Int(5000))]))]);
    let cfg = resolve(Some(&settings)).unwrap();
    assert_eq!(cfg.plugin.port, 5000);
}

#[test]
fn ext_must_be_object() {
    let settings = obj(vec![("ext", s("nope"))]);
    let e = resolve(Some(&settings)).unwrap_err();
    match e {
        Error::InvalidFieldType { path, .. } => assert_eq!(path, "ext"),
        _ => panic!("expected InvalidFieldType"),
    }
}

#[test]
fn wrong_field_type_names_path() {
    let settings = obj(vec![("roblox", obj(vec![("enabled", s("yes"))]))]);
    let e = resolve(Some(&settings)).unwrap_err();
    match e {
        Error::InvalidFieldType { path, expected } => {
            assert_eq!(path, "roblox.enabled");
            assert_eq!(expected, "a boolean");
        },
        _ => panic!("expected InvalidFieldType"),
    }
}

#[test]
fn section_must_be_object() {
    let settings = obj(vec![("fflags", JsonValue::Int(1))]);
    let e = resolve(Some(&settings)).unwrap_err();
    match e {
        Error::InvalidFieldType { path, expected } => {
            assert_eq!(path, "fflags");
            assert_eq!(expected, "an object");
        },
        _ => panic!("expected InvalidFieldType"),
    }
}

#[test]
fn security_levels_parsed() {
    for (name, want) in [
        ("roblox_script", SecurityLevel::RobloxScript),
        ("local_user", SecurityLevel::LocalUser),
        ("plugin", SecurityLevel::Plugin),
        ("none", SecurityLevel::NoSecurity),
    ] {
        let settings = obj(vec![("roblox", obj(vec![("security_level", s(name))]))]);
        let cfg = resolve(Some(&settings)).unwrap();
        assert_eq!(cfg.roblox.security_level, want);
    }
}

#[test]
fn unknown_security_level_rejected() {
    let settings = obj(vec![("roblox", obj(vec![("security_level", s("root"))]))]);
    let e = resolve(Some(&settings)).unwrap_err();
    match e {
        Error::InvalidFieldType { path, .. } => assert_eq!(path, "roblox.security_level"),
        _ => panic!("expected InvalidFieldType"),
    }
}

#[test]
fn port_bounds_checked() {
    let ok = obj(vec![("plugin", obj(vec![("port", JsonValue::Int(0))]))]);
    assert_eq!(resolve(Some(&ok)).unwrap().plugin.port, 0);
    let ok = obj(vec![("plugin", obj(vec![("port", JsonValue::Int(65535))]))]);
    assert_eq!(resolve(Some(&ok)).unwrap().plugin.port, 65535);
    for bad in [JsonValue::Int(65536), JsonValue::Int(-1), JsonValue::OtherNumber, s("80")] {
        let settings = obj(vec![("plugin", obj(vec![("port", bad)]))]);
        let e = resolve(Some(&settings)).unwrap_err();
        match e {
            Error::InvalidFieldType { path, .. } => assert_eq!(path, "plugin.port"),
            _ => panic!("expected InvalidFieldType"),
        }
    }
}

#[test]
fn overrides_parsed_in_order() {
    let settings = obj(vec![(
        "fflags",
        obj(vec![("override", obj(vec![("LuauB", s("3")), ("LuauC", s("4"))]))]),
    )]);
    let cfg = resolve(Some(&settings)).unwrap();
    assert_eq!(cfg.fflags.overrides.len(), 2);
    assert_eq!(cfg.fflags.overrides[0].0, "LuauB");
    assert_eq!(cfg.fflags.overrides[0].1, "3");
    assert_eq!(cfg.fflags.overrides[1].0, "LuauC");
    assert_eq!(cfg.fflags.overrides[1].1, "4");
}

#[test]
fn override_values_must_be_strings() {
    let settings = obj(vec![("fflags", obj(vec![("override", obj(vec![("LuauB", JsonValue::Int(3))]))]))]);
    let e = resolve(Some(&settings)).unwrap_err();
    match e {
        Error::InvalidFieldType { path, .. } => assert_eq!(path, "fflags.override"),
        _ => panic!("expected InvalidFieldType"),
    }
}

#[test]
fn definitions_list_parsed() {
    let settings = obj(vec![("definitions", JsonValue::Arr(vec![s("a.d.luau"), s("b.d.luau")]))]);
    let cfg = resolve(Some(&settings)).unwrap();
    assert_eq!(cfg.definitions, vec![String::from("a.d.luau"), String::from("b.d.luau")]);
}

#[test]
fn definitions_elements_must_be_strings() {
    let settings = obj(vec![("definitions", JsonValue::Arr(vec![s("a"), JsonValue::Null]))]);
    let e = resolve(Some(&settings)).unwrap_err();
    match e {
        Error::InvalidFieldType { path, expected } => {
            assert_eq!(path, "definitions");
            assert_eq!(expected, "an array of strings");
        },
        _ => panic!("expected InvalidFieldType"),
    }
}

#[test]
fn unknown_fields_ignored() {
    let settings = obj(vec![
        ("something_else", s("x")),
        ("roblox", obj(vec![("enabled", JsonValue::Bool(true)), ("mystery", JsonValue::Null)])),
    ]);
    let cfg = resolve(Some(&settings)).unwrap();
    assert!(cfg.roblox.enabled);
}

#[test]
fn error_messages_name_the_field() {
    let settings = obj(vec![("roblox", obj(vec![("enabled", s("yes"))]))]);
    let e = resolve(Some(&settings)).unwrap_err();
    let msg = e.message();
    assert_eq!(msg, "invalid settings: field `roblox.enabled` must be a boolean");
    let msg = Error::FilesystemError { detail: String::from("boom") }.message();
    assert_eq!(msg, "filesystem error: boom");
    let msg = Error::DownloadFailed {
        url: String::from("https://example.invalid/x"),
        cause: String::from("timed out"),
    }
    .message();
    assert_eq!(msg, "failed to download https://example.invalid/x: timed out");
}
