//! The typed configuration tree and its resolution from a raw settings
//! value.
//!
//! Every field has a default; absent sections resolve to defaults, never
//! to errors.  A field of the wrong JSON type fails with a typed error
//! carrying the dotted field path.

use vstd::prelude::*;

use crate::errors::{ErrV, Error};
use crate::json::{obj_get, obj_lookup, JsonValue};
use crate::strutil::str_eq;

verus! {

/// The access tier controlling which type-definition asset variant is
/// fetched.
#[derive(Clone, Copy, Debug, PartialEq, Eq, Structural)]
pub enum SecurityLevel {
    RobloxScript,
    LocalUser,
    Plugin,
    NoSecurity,
}

/// The `roblox` settings section.
#[derive(Debug)]
pub struct RobloxConfig {
    pub enabled: bool,
    pub security_level: SecurityLevel,
    pub download_api_documentation: bool,
    pub download_definitions: bool,
}

/// The `fflags` settings section.  `overrides` keeps the document order of
/// the `override` object; when it is applied, a later entry of the same
/// name wins.
#[derive(Debug)]
pub struct FflagsConfig {
    pub enable_by_default: bool,
    pub enable_new_solver: bool,
    pub sync: bool,
    pub overrides: Vec<(String, String)>,
}

/// The `binary` settings section.
#[derive(Debug)]
pub struct BinaryConfig {
    pub ignore_system_version: bool,
    pub path: Option<String>,
    pub args: Vec<String>,
}

/// The `plugin` settings section.
#[derive(Debug)]
pub struct PluginConfig {
    pub enabled: bool,
    pub port: u16,
    pub proxy_path: Option<String>,
}

/// The resolved configuration tree.
#[derive(Debug)]
pub struct Configuration {
    pub roblox: RobloxConfig,
    pub fflags: FflagsConfig,
    pub binary: BinaryConfig,
    pub plugin: PluginConfig,
    pub definitions: Vec<String>,
    pub documentation: Vec<String>,
}

/// Model of [`RobloxConfig`].
#[verifier::ext_equal]
pub struct RobloxV {
    pub enabled: bool,
    pub security_level: SecurityLevel,
    pub download_api_documentation: bool,
    pub download_definitions: bool,
}

/// Model of [`FflagsConfig`].
#[verifier::ext_equal]
pub struct FflagsV {
    pub enable_by_default: bool,
    pub enable_new_solver: bool,
    pub sync: bool,
    pub overrides: Seq<(Seq<char>, Seq<char>)>,
}

/// Model of [`BinaryConfig`].
#[verifier::ext_equal]
pub struct BinaryV {
    pub ignore_system_version: bool,
    pub path: Option<Seq<char>>,
    pub args: Seq<Seq<char>>,
}

/// Model of [`PluginConfig`].
#[verifier::ext_equal]
pub struct PluginV {
    pub enabled: bool,
    pub port: u16,
    pub proxy_path: Option<Seq<char>>,
}

/// Model of [`Configuration`].
#[verifier::ext_equal]
pub struct ConfigurationV {
    pub roblox: RobloxV,
    pub fflags: FflagsV,
    pub binary: BinaryV,
    pub plugin: PluginV,
    pub definitions: Seq<Seq<char>>,
    pub documentation: Seq<Seq<char>>,
}

/// The view of an optional string.
pub open spec fn opt_str_view(v: Option<String>) -> Option<Seq<char>> {
    match v {
        Some(s) => Some(s@),
        None => None,
    }
}

/// The views of a list of strings.
pub open spec fn str_list_view(v: Seq<String>) -> Seq<Seq<char>> {
    v.map_values(|s: String| s@)
}

/// The views of a list of string pairs.
pub open spec fn str_pairs_view(v: Seq<(String, String)>) -> Seq<(Seq<char>, Seq<char>)> {
    v.map_values(|p: (String, String)| (p.0@, p.1@))
}

impl View for RobloxConfig {
    type V = RobloxV;

    open spec fn view(&self) -> RobloxV {
        RobloxV {
            enabled: self.enabled,
            security_level: self.security_level,
            download_api_documentation: self.download_api_documentation,
            download_definitions: self.download_definitions,
        }
    }
}

impl View for FflagsConfig {
    type V = FflagsV;

    open spec fn view(&self) -> FflagsV {
        FflagsV {
            enable_by_default: self.enable_by_default,
            enable_new_solver: self.enable_new_solver,
            sync: self.sync,
            overrides: str_pairs_view(self.overrides@),
        }
    }
}

impl View for BinaryConfig {
    type V = BinaryV;

    open spec fn view(&self) -> BinaryV {
        BinaryV {
            ignore_system_version: self.ignore_system_version,
            path: opt_str_view(self.path),
            args: str_list_view(self.args@),
        }
    }
}

impl View for PluginConfig {
    type V = PluginV;

    open spec fn view(&self) -> PluginV {
        PluginV {
            enabled: self.enabled,
            port: self.port,
            proxy_path: opt_str_view(self.proxy_path),
        }
    }
}

impl View for Configuration {
    type V = ConfigurationV;

    open spec fn view(&self) -> ConfigurationV {
        ConfigurationV {
            roblox: self.roblox@,
            fflags: self.fflags@,
            binary: self.binary@,
            plugin: self.plugin@,
            definitions: str_list_view(self.definitions@),
            documentation: str_list_view(self.documentation@),
        }
    }
}

/// The documented defaults of the `roblox` section.
pub open spec fn spec_default_roblox() -> RobloxV {
    RobloxV {
        enabled: false,
        security_level: SecurityLevel::Plugin,
        download_api_documentation: true,
        download_definitions: true,
    }
}

/// The documented defaults of the `fflags` section.
pub open spec fn spec_default_fflags() -> FflagsV {
    FflagsV {
        enable_by_default: false,
        enable_new_solver: false,
        sync: true,
        overrides: Seq::empty(),
    }
}

/// The documented defaults of the `binary` section.
pub open spec fn spec_default_binary() -> BinaryV {
    BinaryV { ignore_system_version: false, path: None, args: Seq::empty() }
}

/// The documented defaults of the `plugin` section.
pub open spec fn spec_default_plugin() -> PluginV {
    PluginV { enabled: false, port: 3667, proxy_path: None }
}

/// The documented defaults of the whole tree.
pub open spec fn spec_default_config() -> ConfigurationV {
    ConfigurationV {
        roblox: spec_default_roblox(),
        fflags: spec_default_fflags(),
        binary: spec_default_binary(),
        plugin: spec_default_plugin(),
        definitions: Seq::empty(),
        documentation: Seq::empty(),
    }
}

impl Default for RobloxConfig {
    fn default() -> (r: Self)
        ensures
            r@ == spec_default_roblox(),
    {
        RobloxConfig {
            enabled: false,
            security_level: SecurityLevel::Plugin,
            download_api_documentation: true,
            download_definitions: true,
        }
    }
}

impl Default for FflagsConfig {
    fn default() -> (r: Self)
        ensures
            r@ == spec_default_fflags(),
    {
        let r = FflagsConfig {
            enable_by_default: false,
            enable_new_solver: false,
            sync: true,
            overrides: Vec::new(),
        };
        assert(r@.overrides =~= Seq::<(Seq<char>, Seq<char>)>::empty());
        r
    }
}

impl Default for BinaryConfig {
    fn default() -> (r: Self)
        ensures
            r@ == spec_default_binary(),
    {
        let r = BinaryConfig { ignore_system_version: false, path: None, args: Vec::new() };
        assert(r@.args =~= Seq::<Seq<char>>::empty());
        r
    }
}

impl Default for PluginConfig {
    fn default() -> (r: Self)
        ensures
            r@ == spec_default_plugin(),
    {
        PluginConfig { enabled: false, port: 3667, proxy_path: None }
    }
}

impl Default for Configuration {
    fn default() -> (r: Self)
        ensures
            r@ == spec_default_config(),
    {
        let r = Configuration {
            roblox: RobloxConfig::default(),
            fflags: FflagsConfig::default(),
            binary: BinaryConfig::default(),
            plugin: PluginConfig::default(),
            definitions: Vec::new(),
            documentation: Vec::new(),
        };
        assert(r@.definitions =~= Seq::<Seq<char>>::empty());
        assert(r@.documentation =~= Seq::<Seq<char>>::empty());
        assert(r@ =~= spec_default_config());
        r
    }
}

/// A present optional argument, as the spec functions see it.
pub open spec fn raw_model(raw: Option<&JsonValue>) -> Option<JsonValue> {
    match raw {
        Some(v) => Some(*v),
        None => None,
    }
}

/// A boolean field: absent falls back to `default`, any other shape is a
/// typed error naming `path`.
pub open spec fn spec_bool_field(v: Option<JsonValue>, default: bool, path: Seq<char>) -> Result<
    bool,
    ErrV,
> {
    match v {
        None => Ok(default),
        Some(JsonValue::Bool(b)) => Ok(b),
        Some(_) => Err(ErrV::InvalidFieldType { path, expected: "a boolean"@ }),
    }
}

/// A port field: absent falls back to `default`; an integer outside
/// `0 ..= 65535`, or any other shape, is a typed error.
pub open spec fn spec_port_field(v: Option<JsonValue>, default: u16, path: Seq<char>) -> Result<
    u16,
    ErrV,
> {
    match v {
        None => Ok(default),
        Some(JsonValue::Int(i)) => if 0 <= i <= 65535 {
            Ok(i as u16)
        } else {
            Err(ErrV::InvalidFieldType { path, expected: "an integer between 0 and 65535"@ })
        },
        Some(_) => Err(
            ErrV::InvalidFieldType { path, expected: "an integer between 0 and 65535"@ },
        ),
    }
}

/// An optional string field: absent stays `None`.
pub open spec fn spec_opt_string_field(v: Option<JsonValue>, path: Seq<char>) -> Result<
    Option<Seq<char>>,
    ErrV,
> {
    match v {
        None => Ok(None),
        Some(JsonValue::Str(s)) => Ok(Some(s@)),
        Some(_) => Err(ErrV::InvalidFieldType { path, expected: "a string"@ }),
    }
}

/// The elements of `a` as strings, or `None` where one is not a string.
pub open spec fn spec_string_elems(a: Seq<JsonValue>) -> Option<Seq<Seq<char>>>
    decreases a.len(),
{
    if a.len() == 0 {
        Some(Seq::empty())
    } else {
        match spec_string_elems(a.drop_last()) {
            None => None,
            Some(init) => match a.last() {
                JsonValue::Str(s) => Some(init.push(s@)),
                _ => None,
            },
        }
    }
}

/// A list-of-strings field: absent falls back to empty.
pub open spec fn spec_string_list_field(v: Option<JsonValue>, path: Seq<char>) -> Result<
    Seq<Seq<char>>,
    ErrV,
> {
    match v {
        None => Ok(Seq::empty()),
        Some(JsonValue::Arr(a)) => match spec_string_elems(a@) {
            Some(items) => Ok(items),
            None => Err(ErrV::InvalidFieldType { path, expected: "an array of strings"@ }),
        },
        Some(_) => Err(ErrV::InvalidFieldType { path, expected: "an array of strings"@ }),
    }
}

/// The entries of `es` with string values, or `None` where one value is
/// not a string.
pub open spec fn spec_string_entries(es: Seq<(String, JsonValue)>) -> Option<
    Seq<(Seq<char>, Seq<char>)>,
>
    decreases es.len(),
{
    if es.len() == 0 {
        Some(Seq::empty())
    } else {
        match spec_string_entries(es.drop_last()) {
            None => None,
            Some(init) => match es.last().1 {
                JsonValue::Str(s) => Some(init.push((es.last().0@, s@))),
                _ => None,
            },
        }
    }
}

/// A string-to-string map field: absent falls back to empty; the document
/// order of the entries is kept.
pub open spec fn spec_string_map_field(v: Option<JsonValue>, path: Seq<char>) -> Result<
    Seq<(Seq<char>, Seq<char>)>,
    ErrV,
> {
    match v {
        None => Ok(Seq::empty()),
        Some(JsonValue::Obj(es)) => match spec_string_entries(es@) {
            Some(entries) => Ok(entries),
            None => Err(
                ErrV::InvalidFieldType { path, expected: "an object with string values"@ },
            ),
        },
        Some(_) => Err(ErrV::InvalidFieldType { path, expected: "an object with string values"@ }),
    }
}

/// The security-level field: absent falls back to `plugin`; an unknown
/// name is a hard error.
pub open spec fn spec_security_level_field(v: Option<JsonValue>, path: Seq<char>) -> Result<
    SecurityLevel,
    ErrV,
> {
    match v {
        None => Ok(SecurityLevel::Plugin),
        Some(JsonValue::Str(s)) => if s@ == "roblox_script"@ {
            Ok(SecurityLevel::RobloxScript)
        } else if s@ == "local_user"@ {
            Ok(SecurityLevel::LocalUser)
        } else if s@ == "plugin"@ {
            Ok(SecurityLevel::Plugin)
        } else if s@ == "none"@ {
            Ok(SecurityLevel::NoSecurity)
        } else {
            Err(
                ErrV::InvalidFieldType {
                    path,
                    expected: "one of `roblox_script`, `local_user`, `plugin`, `none`"@,
                },
            )
        },
        Some(_) => Err(
            ErrV::InvalidFieldType {
                path,
                expected: "one of `roblox_script`, `local_user`, `plugin`, `none`"@,
            },
        ),
    }
}

/// An [`Error::InvalidFieldType`] for `path`, wanting `expected`.
fn field_err(path: &str, expected: &str) -> (e: Error)
    ensures
        e@ == (ErrV::InvalidFieldType { path: path@, expected: expected@ }),
{
    Error::InvalidFieldType { path: String::from_str(path), expected: String::from_str(expected) }
}

fn bool_field(v: Option<&JsonValue>, default: bool, path: &str) -> (r: Result<bool, Error>)
    ensures
        match r {
            Ok(b) => spec_bool_field(raw_model(v), default, path@) == Ok::<bool, ErrV>(b),
            Err(e) => spec_bool_field(raw_model(v), default, path@) == Err::<bool, ErrV>(e@),
        },
{
    match v {
        None => Ok(default),
        Some(JsonValue::Bool(b)) => Ok(*b),
        Some(_) => Err(field_err(path, "a boolean")),
    }
}

fn port_field(v: Option<&JsonValue>, default: u16, path: &str) -> (r: Result<u16, Error>)
    ensures
        match r {
            Ok(p) => spec_port_field(raw_model(v), default, path@) == Ok::<u16, ErrV>(p),
            Err(e) => spec_port_field(raw_model(v), default, path@) == Err::<u16, ErrV>(e@),
        },
{
    match v {
        None => Ok(default),
        Some(JsonValue::Int(i)) => {
            let i = *i;
            if 0 <= i && i <= 65535 {
                Ok(i as u16)
            } else {
                Err(field_err(path, "an integer between 0 and 65535"))
            }
        },
        Some(_) => Err(field_err(path, "an integer between 0 and 65535")),
    }
}

fn opt_string_field(v: Option<&JsonValue>, path: &str) -> (r: Result<Option<String>, Error>)
    ensures
        match r {
            Ok(s) => spec_opt_string_field(raw_model(v), path@) == Ok::<
                Option<Seq<char>>,
                ErrV,
            >(opt_str_view(s)),
            Err(e) => spec_opt_string_field(raw_model(v), path@) == Err::<
                Option<Seq<char>>,
                ErrV,
            >(e@),
        },
{
    match v {
        None => Ok(None),
        Some(JsonValue::Str(s)) => Ok(Some(s.clone())),
        Some(_) => Err(field_err(path, "a string")),
    }
}

/// Collects the elements of `a` as strings; `None` where one is not a
/// string.
fn collect_strings(a: &Vec<JsonValue>) -> (r: Option<Vec<String>>)
    ensures
        match r {
            Some(items) => spec_string_elems(a@) == Some(str_list_view(items@)),
            None => spec_string_elems(a@) is None,
        },
{
    let mut items: Vec<String> = Vec::new();
    let mut i: usize = 0;
    assert(a@.take(0) =~= Seq::<JsonValue>::empty());
    assert(str_list_view(items@) =~= Seq::<Seq<char>>::empty());
    while i < a.len()
        invariant
            0 <= i <= a@.len(),
            spec_string_elems(a@.take(i as int)) == Some(str_list_view(items@)),
        decreases a@.len() - i,
    {
        proof {
            assert(a@.take(i as int + 1).last() == a@[i as int]);
            assert(a@.take(i as int + 1).drop_last() =~= a@.take(i as int));
        }
        match &a[i] {
            JsonValue::Str(s) => {
                items.push(s.clone());
                assert(str_list_view(items@) =~= str_list_view(items@.drop_last()).push(s@));
            },
            _ => {
                proof {
                    lemma_string_elems_none(a@, i as int);
                }
                return None;
            },
        }
        i = i + 1;
    }
    assert(a@.take(a@.len() as int) =~= a@);
    Some(items)
}

fn string_list_field(v: Option<&JsonValue>, path: &str) -> (r: Result<Vec<String>, Error>)
    ensures
        match r {
            Ok(items) => spec_string_list_field(raw_model(v), path@) == Ok::<
                Seq<Seq<char>>,
                ErrV,
            >(str_list_view(items@)),
            Err(e) => spec_string_list_field(raw_model(v), path@) == Err::<Seq<Seq<char>>, ErrV>(
                e@,
            ),
        },
{
    match v {
        None => {
            let items: Vec<String> = Vec::new();
            assert(str_list_view(items@) =~= Seq::<Seq<char>>::empty());
            Ok(items)
        },
        Some(JsonValue::Arr(a)) => match collect_strings(a) {
            Some(items) => Ok(items),
            None => Err(field_err(path, "an array of strings")),
        },
        Some(_) => Err(field_err(path, "an array of strings")),
    }
}

/// A non-string element at `i` poisons the whole list.
proof fn lemma_string_elems_none(a: Seq<JsonValue>, i: int)
    requires
        0 <= i < a.len(),
        !(a[i] is Str),
    ensures
        spec_string_elems(a) is None,
    decreases a.len(),
{
    if a.len() > 0 {
        if i < a.len() - 1 {
            lemma_string_elems_none(a.drop_last(), i);
        }
    }
}

fn string_map_field(v: Option<&JsonValue>, path: &str) -> (r: Result<Vec<(String, String)>, Error>)
    ensures
        match r {
            Ok(entries) => spec_string_map_field(raw_model(v), path@) == Ok::<
                Seq<(Seq<char>, Seq<char>)>,
                ErrV,
            >(str_pairs_view(entries@)),
            Err(e) => spec_string_map_field(raw_model(v), path@) == Err::<
                Seq<(Seq<char>, Seq<char>)>,
                ErrV,
            >(e@),
        },
{
    match v {
        None => {
            let entries: Vec<(String, String)> = Vec::new();
            assert(str_pairs_view(entries@) =~= Seq::<(Seq<char>, Seq<char>)>::empty());
            Ok(entries)
        },
        Some(JsonValue::Obj(es)) => match collect_string_entries(es) {
            Some(entries) => Ok(entries),
            None => Err(field_err(path, "an object with string values")),
        },
        Some(_) => Err(field_err(path, "an object with string values")),
    }
}

/// Collects the entries of `es` whose values are strings; `None` where one
/// value is not a string.
fn collect_string_entries(es: &Vec<(String, JsonValue)>) -> (r: Option<Vec<(String, String)>>)
    ensures
        match r {
            Some(entries) => spec_string_entries(es@) == Some(str_pairs_view(entries@)),
            None => spec_string_entries(es@) is None,
        },
{
    let mut entries: Vec<(String, String)> = Vec::new();
    let mut i: usize = 0;
    assert(es@.take(0) =~= Seq::<(String, JsonValue)>::empty());
    assert(str_pairs_view(entries@) =~= Seq::<(Seq<char>, Seq<char>)>::empty());
    while i < es.len()
        invariant
            0 <= i <= es@.len(),
            spec_string_entries(es@.take(i as int)) == Some(str_pairs_view(entries@)),
        decreases es@.len() - i,
    {
        proof {
            assert(es@.take(i as int + 1).last() == es@[i as int]);
            assert(es@.take(i as int + 1).drop_last() =~= es@.take(i as int));
        }
        let e = &es[i];
        match &e.1 {
            JsonValue::Str(s) => {
                entries.push((e.0.clone(), s.clone()));
                assert(str_pairs_view(entries@) =~= str_pairs_view(entries@.drop_last()).push(
                    (e.0@, s@),
                ));
            },
            _ => {
                proof {
                    lemma_string_entries_none(es@, i as int);
                }
                return None;
            },
        }
        i = i + 1;
    }
    assert(es@.take(es@.len() as int) =~= es@);
    Some(entries)
}

/// A non-string value at `i` poisons the whole entry list.
proof fn lemma_string_entries_none(es: Seq<(String, JsonValue)>, i: int)
    requires
        0 <= i < es.len(),
        !(es[i].1 is Str),
    ensures
        spec_string_entries(es) is None,
    decreases es.len(),
{
    if es.len() > 0 {
        if i < es.len() - 1 {
            lemma_string_entries_none(es.drop_last(), i);
        }
    }
}

/// The `roblox` section read from its entry list.
pub open spec fn spec_roblox_fields(es: Seq<(String, JsonValue)>) -> Result<RobloxV, ErrV> {
    match spec_bool_field(obj_lookup(es, "enabled"@), false, "roblox.enabled"@) {
        Err(e) => Err(e),
        Ok(enabled) => match spec_security_level_field(
            obj_lookup(es, "security_level"@),
            "roblox.security_level"@,
        ) {
            Err(e) => Err(e),
            Ok(security_level) => match spec_bool_field(
                obj_lookup(es, "download_api_documentation"@),
                true,
                "roblox.download_api_documentation"@,
            ) {
                Err(e) => Err(e),
                Ok(download_api_documentation) => match spec_bool_field(
                    obj_lookup(es, "download_definitions"@),
                    true,
                    "roblox.download_definitions"@,
                ) {
                    Err(e) => Err(e),
                    Ok(download_definitions) => Ok(
                        RobloxV {
                            enabled,
                            security_level,
                            download_api_documentation,
                            download_definitions,
                        },
                    ),
                },
            },
        },
    }
}

/// The `roblox` section: absent falls back to defaults.
pub open spec fn spec_roblox_section(v: Option<JsonValue>) -> Result<RobloxV, ErrV> {
    match v {
        None => Ok(spec_default_roblox()),
        Some(JsonValue::Obj(es)) => spec_roblox_fields(es@),
        Some(_) => Err(ErrV::InvalidFieldType { path: "roblox"@, expected: "an object"@ }),
    }
}

/// The `fflags` section read from its entry list.
pub open spec fn spec_fflags_fields(es: Seq<(String, JsonValue)>) -> Result<FflagsV, ErrV> {
    match spec_bool_field(obj_lookup(es, "enable_by_default"@), false, "fflags.enable_by_default"@) {
        Err(e) => Err(e),
        Ok(enable_by_default) => match spec_bool_field(
            obj_lookup(es, "enable_new_solver"@),
            false,
            "fflags.enable_new_solver"@,
        ) {
            Err(e) => Err(e),
            Ok(enable_new_solver) => match spec_bool_field(
                obj_lookup(es, "sync"@),
                true,
                "fflags.sync"@,
            ) {
                Err(e) => Err(e),
                Ok(sync) => match spec_string_map_field(
                    obj_lookup(es, "override"@),
                    "fflags.override"@,
                ) {
                    Err(e) => Err(e),
                    Ok(overrides) => Ok(
                        FflagsV { enable_by_default, enable_new_solver, sync, overrides },
                    ),
                },
            },
        },
    }
}

/// The `fflags` section: absent falls back to defaults.
pub open spec fn spec_fflags_section(v: Option<JsonValue>) -> Result<FflagsV, ErrV> {
    match v {
        None => Ok(spec_default_fflags()),
        Some(JsonValue::Obj(es)) => spec_fflags_fields(es@),
        Some(_) => Err(ErrV::InvalidFieldType { path: "fflags"@, expected: "an object"@ }),
    }
}

/// The `binary` section read from its entry list.
pub open spec fn spec_binary_fields(es: Seq<(String, JsonValue)>) -> Result<BinaryV, ErrV> {
    match spec_bool_field(
        obj_lookup(es, "ignore_system_version"@),
        false,
        "binary.ignore_system_version"@,
    ) {
        Err(e) => Err(e),
        Ok(ignore_system_version) => match spec_opt_string_field(
            obj_lookup(es, "path"@),
            "binary.path"@,
        ) {
            Err(e) => Err(e),
            Ok(path) => match spec_string_list_field(obj_lookup(es, "args"@), "binary.args"@) {
                Err(e) => Err(e),
                Ok(args) => Ok(BinaryV { ignore_system_version, path, args }),
            },
        },
    }
}

/// The `binary` section: absent falls back to defaults.
pub open spec fn spec_binary_section(v: Option<JsonValue>) -> Result<BinaryV, ErrV> {
    match v {
        None => Ok(spec_default_binary()),
        Some(JsonValue::Obj(es)) => spec_binary_fields(es@),
        Some(_) => Err(ErrV::InvalidFieldType { path: "binary"@, expected: "an object"@ }),
    }
}

/// The `plugin` section read from its entry list.
pub open spec fn spec_plugin_fields(es: Seq<(String, JsonValue)>) -> Result<PluginV, ErrV> {
    match spec_bool_field(obj_lookup(es, "enabled"@), false, "plugin.enabled"@) {
        Err(e) => Err(e),
        Ok(enabled) => match spec_port_field(obj_lookup(es, "port"@), 3667, "plugin.port"@) {
            Err(e) => Err(e),
            Ok(port) => match spec_opt_string_field(
                obj_lookup(es, "proxy_path"@),
                "plugin.proxy_path"@,
            ) {
                Err(e) => Err(e),
                Ok(proxy_path) => Ok(PluginV { enabled, port, proxy_path }),
            },
        },
    }
}

/// The `plugin` section: absent falls back to defaults.
pub open spec fn spec_plugin_section(v: Option<JsonValue>) -> Result<PluginV, ErrV> {
    match v {
        None => Ok(spec_default_plugin()),
        Some(JsonValue::Obj(es)) => spec_plugin_fields(es@),
        Some(_) => Err(ErrV::InvalidFieldType { path: "plugin"@, expected: "an object"@ }),
    }
}

/// The whole tree read from the settings object's entry list, section by
/// section in a fixed order.
pub open spec fn spec_resolve_sections(es: Seq<(String, JsonValue)>) -> Result<
    ConfigurationV,
    ErrV,
> {
    match spec_roblox_section(obj_lookup(es, "roblox"@)) {
        Err(e) => Err(e),
        Ok(roblox) => match spec_fflags_section(obj_lookup(es, "fflags"@)) {
            Err(e) => Err(e),
            Ok(fflags) => match spec_binary_section(obj_lookup(es, "binary"@)) {
                Err(e) => Err(e),
                Ok(binary) => match spec_plugin_section(obj_lookup(es, "plugin"@)) {
                    Err(e) => Err(e),
                    Ok(plugin) => match spec_string_list_field(
                        obj_lookup(es, "definitions"@),
                        "definitions"@,
                    ) {
                        Err(e) => Err(e),
                        Ok(definitions) => match spec_string_list_field(
                            obj_lookup(es, "documentation"@),
                            "documentation"@,
                        ) {
                            Err(e) => Err(e),
                            Ok(documentation) => Ok(
                                ConfigurationV {
                                    roblox,
                                    fflags,
                                    binary,
                                    plugin,
                                    definitions,
                                    documentation,
                                },
                            ),
                        },
                    },
                },
            },
        },
    }
}

/// The whole tree read from a present settings value.  The nested `ext`
/// key is preferred; without one the whole object is the settings.
pub open spec fn spec_settings_value(v: JsonValue) -> Result<ConfigurationV, ErrV> {
    match v {
        JsonValue::Obj(es) => match obj_lookup(es@, "ext"@) {
            Some(JsonValue::Obj(ext_es)) => spec_resolve_sections(ext_es@),
            Some(_) => Err(ErrV::InvalidFieldType { path: "ext"@, expected: "an object"@ }),
            None => spec_resolve_sections(es@),
        },
        _ => Err(ErrV::InvalidSettingsShape),
    }
}

/// What resolution returns: defaults for an absent value, the tree read
/// from a present one, or the first typed error in a fixed field order.
pub open spec fn spec_resolve(raw: Option<JsonValue>) -> Result<ConfigurationV, ErrV> {
    match raw {
        None => Ok(spec_default_config()),
        Some(v) => spec_settings_value(v),
    }
}

fn security_level_field(v: Option<&JsonValue>, path: &str) -> (r: Result<SecurityLevel, Error>)
    ensures
        match r {
            Ok(l) => spec_security_level_field(raw_model(v), path@) == Ok::<
                SecurityLevel,
                ErrV,
            >(l),
            Err(e) => spec_security_level_field(raw_model(v), path@) == Err::<
                SecurityLevel,
                ErrV,
            >(e@),
        },
{
    match v {
        None => Ok(SecurityLevel::Plugin),
        Some(JsonValue::Str(s)) => {
            if str_eq(s.as_str(), "roblox_script") {
                Ok(SecurityLevel::RobloxScript)
            } else if str_eq(s.as_str(), "local_user") {
                Ok(SecurityLevel::LocalUser)
            } else if str_eq(s.as_str(), "plugin") {
                Ok(SecurityLevel::Plugin)
            } else if str_eq(s.as_str(), "none") {
                Ok(SecurityLevel::NoSecurity)
            } else {
                Err(field_err(path, "one of `roblox_script`, `local_user`, `plugin`, `none`"))
            }
        },
        Some(_) => Err(field_err(path, "one of `roblox_script`, `local_user`, `plugin`, `none`")),
    }
}

fn roblox_section(v: Option<&JsonValue>) -> (r: Result<RobloxConfig, Error>)
    ensures
        match r {
            Ok(c) => spec_roblox_section(raw_model(v)) == Ok::<RobloxV, ErrV>(c@),
            Err(e) => spec_roblox_section(raw_model(v)) == Err::<RobloxV, ErrV>(e@),
        },
{
    match v {
        None => Ok(RobloxConfig::default()),
        Some(JsonValue::Obj(es)) => {
            let enabled = match bool_field(obj_get(es, "enabled"), false, "roblox.enabled") {
                Ok(b) => b,
                Err(e) => return Err(e),
            };
            let security_level = match security_level_field(
                obj_get(es, "security_level"),
                "roblox.security_level",
            ) {
                Ok(l) => l,
                Err(e) => return Err(e),
            };
            let download_api_documentation = match bool_field(
                obj_get(es, "download_api_documentation"),
                true,
                "roblox.download_api_documentation",
            ) {
                Ok(b) => b,
                Err(e) => return Err(e),
            };
            let download_definitions = match bool_field(
                obj_get(es, "download_definitions"),
                true,
                "roblox.download_definitions",
            ) {
                Ok(b) => b,
                Err(e) => return Err(e),
            };
            Ok(
                RobloxConfig {
                    enabled,
                    security_level,
                    download_api_documentation,
                    download_definitions,
                },
            )
        },
        Some(_) => Err(field_err("roblox", "an object")),
    }
}

fn fflags_section(v: Option<&JsonValue>) -> (r: Result<FflagsConfig, Error>)
    ensures
        match r {
            Ok(c) => spec_fflags_section(raw_model(v)) == Ok::<FflagsV, ErrV>(c@),
            Err(e) => spec_fflags_section(raw_model(v)) == Err::<FflagsV, ErrV>(e@),
        },
{
    match v {
        None => Ok(FflagsConfig::default()),
        Some(JsonValue::Obj(es)) => {
            let enable_by_default = match bool_field(
                obj_get(es, "enable_by_default"),
                false,
                "fflags.enable_by_default",
            ) {
                Ok(b) => b,
                Err(e) => return Err(e),
            };
            let enable_new_solver = match bool_field(
                obj_get(es, "enable_new_solver"),
                false,
                "fflags.enable_new_solver",
            ) {
                Ok(b) => b,
                Err(e) => return Err(e),
            };
            let sync = match bool_field(obj_get(es, "sync"), true, "fflags.sync") {
                Ok(b) => b,
                Err(e) => return Err(e),
            };
            let overrides = match string_map_field(obj_get(es, "override"), "fflags.override") {
                Ok(m) => m,
                Err(e) => return Err(e),
            };
            Ok(FflagsConfig { enable_by_default, enable_new_solver, sync, overrides })
        },
        Some(_) => Err(field_err("fflags", "an object")),
    }
}

fn binary_section(v: Option<&JsonValue>) -> (r: Result<BinaryConfig, Error>)
    ensures
        match r {
            Ok(c) => spec_binary_section(raw_model(v)) == Ok::<BinaryV, ErrV>(c@),
            Err(e) => spec_binary_section(raw_model(v)) == Err::<BinaryV, ErrV>(e@),
        },
{
    match v {
        None => Ok(BinaryConfig::default()),
        Some(JsonValue::Obj(es)) => {
            let ignore_system_version = match bool_field(
                obj_get(es, "ignore_system_version"),
                false,
                "binary.ignore_system_version",
            ) {
                Ok(b) => b,
                Err(e) => return Err(e),
            };
            let path = match opt_string_field(obj_get(es, "path"), "binary.path") {
                Ok(p) => p,
                Err(e) => return Err(e),
            };
            let args = match string_list_field(obj_get(es, "args"), "binary.args") {
                Ok(a) => a,
                Err(e) => return Err(e),
            };
            Ok(BinaryConfig { ignore_system_version, path, args })
        },
        Some(_) => Err(field_err("binary", "an object")),
    }
}

fn plugin_section(v: Option<&JsonValue>) -> (r: Result<PluginConfig, Error>)
    ensures
        match r {
            Ok(c) => spec_plugin_section(raw_model(v)) == Ok::<PluginV, ErrV>(c@),
            Err(e) => spec_plugin_section(raw_model(v)) == Err::<PluginV, ErrV>(e@),
        },
{
    match v {
        None => Ok(PluginConfig::default()),
        Some(JsonValue::Obj(es)) => {
            let enabled = match bool_field(obj_get(es, "enabled"), false, "plugin.enabled") {
                Ok(b) => b,
                Err(e) => return Err(e),
            };
            let port = match port_field(obj_get(es, "port"), 3667, "plugin.port") {
                Ok(p) => p,
                Err(e) => return Err(e),
            };
            let proxy_path = match opt_string_field(
                obj_get(es, "proxy_path"),
                "plugin.proxy_path",
            ) {
                Ok(p) => p,
                Err(e) => return Err(e),
            };
            Ok(PluginConfig { enabled, port, proxy_path })
        },
        Some(_) => Err(field_err("plugin", "an object")),
    }
}

fn resolve_sections(es: &Vec<(String, JsonValue)>) -> (r: Result<Configuration, Error>)
    ensures
        match r {
            Ok(cfg) => spec_resolve_sections(es@) == Ok::<ConfigurationV, ErrV>(cfg@),
            Err(e) => spec_resolve_sections(es@) == Err::<ConfigurationV, ErrV>(e@),
        },
{
    let roblox = match roblox_section(obj_get(es, "roblox")) {
        Ok(c) => c,
        Err(e) => return Err(e),
    };
    let fflags = match fflags_section(obj_get(es, "fflags")) {
        Ok(c) => c,
        Err(e) => return Err(e),
    };
    let binary = match binary_section(obj_get(es, "binary")) {
        Ok(c) => c,
        Err(e) => return Err(e),
    };
    let plugin = match plugin_section(obj_get(es, "plugin")) {
        Ok(c) => c,
        Err(e) => return Err(e),
    };
    let definitions = match string_list_field(obj_get(es, "definitions"), "definitions") {
        Ok(d) => d,
        Err(e) => return Err(e),
    };
    let documentation = match string_list_field(obj_get(es, "documentation"), "documentation") {
        Ok(d) => d,
        Err(e) => return Err(e),
    };
    Ok(Configuration { roblox, fflags, binary, plugin, definitions, documentation })
}

/// Resolves a raw settings value into the configuration tree.
///
/// An absent value resolves to the documented defaults.  A present value
/// must be an object; its nested `ext` key, where one exists, holds the
/// settings, else the whole object does.  Every missing section or field
/// falls back to its default; a field of the wrong JSON type is a typed
/// error carrying the dotted field path.
pub fn resolve(raw: Option<&JsonValue>) -> (r: Result<Configuration, Error>)
    ensures
        match r {
            Ok(cfg) => spec_resolve(raw_model(raw)) == Ok::<ConfigurationV, ErrV>(cfg@),
            Err(e) => spec_resolve(raw_model(raw)) == Err::<ConfigurationV, ErrV>(e@),
        },
{
    match raw {
        None => Ok(Configuration::default()),
        Some(JsonValue::Obj(es)) => match obj_get(es, "ext") {
            Some(JsonValue::Obj(ext_es)) => resolve_sections(ext_es),
            Some(_) => Err(field_err("ext", "an object")),
            None => resolve_sections(es),
        },
        Some(_) => Err(Error::InvalidSettingsShape),
    }
}

} // verus!
