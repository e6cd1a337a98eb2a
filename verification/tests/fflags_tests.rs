use luau_lsp_ext::config::{resolve, Configuration, FflagsConfig};
use luau_lsp_ext::errors::Error;
use luau_lsp_ext::fflags::{prepare_flags, resolve_flags, sync_flags_from_text, FlagSet};
use luau_lsp_ext::json::JsonValue;

fn obj(entries: Vec<(&str, JsonValue)>) -> JsonValue {
    JsonValue::Obj(entries.into_iter().map(|(k, v)| (String::from(k), v)).collect())
}

fn s(v: &str) -> JsonValue {
    JsonValue::Str(String::from(v))
}

fn config_with_fflags(fflags: FflagsConfig) -> Configuration {
    let mut cfg = Configuration::default();
    cfg.fflags = fflags;
    cfg
}

fn entries_of(fs: &FlagSet) -> Vec<(String, String)> {
    fs.entries.clone()
}

#[test]
fn sync_strips_recognized_prefixes() {
    let text = "{\"applicationSettings\":{\"FFlagLuauA\":\"1\",\"FIntLuauB\":\"2\",\"DFFlagLuauC\":\"3\",\"DFIntLuauD\":\"4\",\"FFlagOther\":\"x\",\"Unrelated\":\"y\"}}";
    let fs = sync_flags_from_text(text).unwrap();
    let got = entries_of(&fs);
    // serde_json keeps object members sorted by key, so the collection
    // order is the sorted prefixed-name order.
    assert_eq!(
        got,
        vec![
            (String::from("LuauC"), String::from("3")),
            (String::from("LuauD"), String::from("4")),
            (String::from("LuauA"), String::from("1")),
            (String::from("LuauB"), String::from("2")),
        ]
    );
}

#[test]
fn sync_rejects_non_string_values() {
    let text = "{\"applicationSettings\":{\"FFlagLuauA\":true}}";
    let e = sync_flags_from_text(text).unwrap_err();
    assert!(matches!(e, Error::MalformedRemoteFlags));
}

#[test]
fn sync_rejects_missing_application_settings() {
    let e = sync_flags_from_text("{}").unwrap_err();
    assert!(matches!(e, Error::MalformedRemoteFlags));
    let e = sync_flags_from_text("{\"applicationSettings\":[]}").unwrap_err();
    assert!(matches!(e, Error::MalformedRemoteFlags));
    let e = sync_flags_from_text("[1,2]").unwrap_err();
    assert!(matches!(e, Error::MalformedRemoteFlags));
}

#[test]
fn sync_rejects_invalid_json() {
    let e = sync_flags_from_text("{not json").unwrap_err();
    assert!(matches!(e, Error::MalformedRemoteFlags));
}

#[test]
fn flag_precedence_scenario() {
    // Sync-derived LuauA=1, LuauB=2; overrides LuauB=3, LuauC=4; the
    // new-solver bundle enabled.
    let text = "{\"applicationSettings\":{\"FFlagLuauA\":\"1\",\"FFlagLuauB\":\"2\"}}";
    let cfg = config_with_fflags(FflagsConfig {
        enable_by_default: false,
        enable_new_solver: true,
        sync: true,
        overrides: vec![
            (String::from("LuauB"), String::from("3")),
            (String::from("LuauC"), String::from("4")),
        ],
    });
    let fs = resolve_flags(&cfg, Some(text)).unwrap();
    assert_eq!(fs.get("LuauA"), Some(&String::from("1")));
    assert_eq!(fs.get("LuauB"), Some(&String::from("3")));
    assert_eq!(fs.get("LuauC"), Some(&String::from("4")));
    assert_eq!(fs.get("LuauSolverV2"), Some(&String::from("true")));
    assert_eq!(fs.get("LuauNewSolverPopulateTableLocations"), Some(&String::from("true")));
    assert_eq!(fs.get("LuauNewSolverPrePopulateClasses"), Some(&String::from("true")));
    assert_eq!(fs.entries.len(), 6);
    // An overridden synced flag keeps its place; new names follow.
    let got = entries_of(&fs);
    assert_eq!(got[0].0, "LuauA");
    assert_eq!(got[1], (String::from("LuauB"), String::from("3")));
    assert_eq!(got[2], (String::from("LuauC"), String::from("4")));
}

#[test]
fn new_solver_clobbers_override_of_same_key() {
    // The sources are applied sync, overrides, new-solver, so a
    // new-solver key wins even over an override that names it.
    let cfg = config_with_fflags(FflagsConfig {
        enable_by_default: false,
        enable_new_solver: true,
        sync: false,
        overrides: vec![(String::from("LuauSolverV2"), String::from("false"))],
    });
    let fs = resolve_flags(&cfg, None).unwrap();
    assert_eq!(fs.get("LuauSolverV2"), Some(&String::from("true")));
}

#[test]
fn override_beats_sync_without_solver() {
    let text = "{\"applicationSettings\":{\"FFlagLuauA\":\"1\"}}";
    let cfg = config_with_fflags(FflagsConfig {
        enable_by_default: false,
        enable_new_solver: false,
        sync: true,
        overrides: vec![(String::from("LuauA"), String::from("9"))],
    });
    let fs = resolve_flags(&cfg, Some(text)).unwrap();
    assert_eq!(entries_of(&fs), vec![(String::from("LuauA"), String::from("9"))]);
}

#[test]
fn sync_disabled_uses_overrides_alone() {
    let cfg = config_with_fflags(FflagsConfig {
        enable_by_default: false,
        enable_new_solver: false,
        sync: false,
        overrides: vec![(String::from("LuauX"), String::from("1"))],
    });
    let fs = resolve_flags(&cfg, None).unwrap();
    assert_eq!(entries_of(&fs), vec![(String::from("LuauX"), String::from("1"))]);
}

#[test]
fn malformed_override_fails_before_any_download() {
    // An empty override name fails at the preparation step, before the
    // caller would fetch the snapshot.
    let cfg = config_with_fflags(FflagsConfig {
        enable_by_default: false,
        enable_new_solver: false,
        sync: true,
        overrides: vec![(String::from(""), String::from("x"))],
    });
    let e = prepare_flags(&cfg).unwrap_err();
    assert!(matches!(e, Error::InvalidOverride));
    // Resolution without a snapshot reports the override, not a missing
    // snapshot: the overrides are validated first.
    let e = resolve_flags(&cfg, None).unwrap_err();
    assert!(matches!(e, Error::InvalidOverride));
}

#[test]
fn empty_override_value_rejected() {
    let cfg = config_with_fflags(FflagsConfig {
        enable_by_default: false,
        enable_new_solver: false,
        sync: false,
        overrides: vec![(String::from("LuauX"), String::from(""))],
    });
    let e = resolve_flags(&cfg, None).unwrap_err();
    assert!(matches!(e, Error::InvalidOverride));
}

#[test]
fn prepare_flags_reports_sync_need() {
    let cfg = Configuration::default();
    assert_eq!(prepare_flags(&cfg).unwrap(), true);
    let mut cfg = Configuration::default();
    cfg.fflags.sync = false;
    assert_eq!(prepare_flags(&cfg).unwrap(), false);
}

#[test]
fn sync_on_without_snapshot_is_malformed() {
    let cfg = Configuration::default();
    let e = resolve_flags(&cfg, None).unwrap_err();
    assert!(matches!(e, Error::MalformedRemoteFlags));
}

#[test]
fn insert_overwrites_in_place() {
    let mut fs = FlagSet::new();
    fs.insert(String::from("A"), String::from("1"));
    fs.insert(String::from("B"), String::from("2"));
    fs.insert(String::from("A"), String::from("3"));
    assert_eq!(
        entries_of(&fs),
        vec![(String::from("A"), String::from("3")), (String::from("B"), String::from("2"))]
    );
    assert_eq!(fs.get("A"), Some(&String::from("3")));
    assert_eq!(fs.get("C"), None);
}

#[test]
fn duplicate_overrides_last_wins() {
    let cfg = config_with_fflags(FflagsConfig {
        enable_by_default: false,
        enable_new_solver: false,
        sync: false,
        overrides: vec![
            (String::from("LuauX"), String::from("1")),
            (String::from("LuauX"), String::from("2")),
        ],
    });
    let fs = resolve_flags(&cfg, None).unwrap();
    assert_eq!(entries_of(&fs), vec![(String::from("LuauX"), String::from("2"))]);
}

#[test]
fn resolve_then_flags_from_settings() {
    let settings = obj(vec![(
        "fflags",
        obj(vec![
            ("sync", JsonValue::Bool(false)),
            ("override", obj(vec![("LuauY", s("7"))])),
        ]),
    )]);
    let cfg = resolve(Some(&settings)).unwrap();
    let fs = resolve_flags(&cfg, None).unwrap();
    assert_eq!(entries_of(&fs), vec![(String::from("LuauY"), String::from("7"))]);
}
