//! Feature-flag resolution: the flag set, the remote snapshot, and the
//! merge of the flag sources in their fixed precedence.
//!
//! The sources are applied in the literal order sync, then overrides,
//! then the new-solver bundle.  An override therefore wins over a synced
//! flag, and a new-solver key, applied last, wins over both.

use vstd::prelude::*;

use crate::config::{str_pairs_view, Configuration, ConfigurationV};
use crate::errors::{ErrV, Error};
use crate::json::{json_of_text, obj_get, obj_lookup, parse_json, JsonValue};
use crate::strutil::{is_prefix_of, str_eq, str_starts_with};

verus! {

/// A flat set of flags: names to values, each name held once, in the
/// order the entries were first inserted.
#[derive(Debug)]
pub struct FlagSet {
    pub entries: Vec<(String, String)>,
}

impl View for FlagSet {
    type V = Seq<(Seq<char>, Seq<char>)>;

    open spec fn view(&self) -> Seq<(Seq<char>, Seq<char>)> {
        str_pairs_view(self.entries@)
    }
}

/// No name occurs twice.
pub open spec fn unique_keys(s: Seq<(Seq<char>, Seq<char>)>) -> bool {
    forall|i: int, j: int| 0 <= i < j < s.len() ==> s[i].0 != s[j].0
}

/// The value under the first entry named `k`.
pub open spec fn flags_lookup(s: Seq<(Seq<char>, Seq<char>)>, k: Seq<char>) -> Option<Seq<char>>
    decreases s.len(),
{
    if s.len() == 0 {
        None
    } else if s.first().0 == k {
        Some(s.first().1)
    } else {
        flags_lookup(s.drop_first(), k)
    }
}

/// Inserting overwrites the value of an entry already named `k` in place,
/// and appends a new entry otherwise.
pub open spec fn seq_insert(
    s: Seq<(Seq<char>, Seq<char>)>,
    k: Seq<char>,
    v: Seq<char>,
) -> Seq<(Seq<char>, Seq<char>)>
    decreases s.len(),
{
    if s.len() == 0 {
        seq![(k, v)]
    } else if s.first().0 == k {
        seq![(k, v)] + s.drop_first()
    } else {
        seq![s.first()] + seq_insert(s.drop_first(), k, v)
    }
}

/// `items` inserted one after the other, first to last.
pub open spec fn seq_insert_all(
    s: Seq<(Seq<char>, Seq<char>)>,
    items: Seq<(Seq<char>, Seq<char>)>,
) -> Seq<(Seq<char>, Seq<char>)>
    decreases items.len(),
{
    if items.len() == 0 {
        s
    } else {
        seq_insert(seq_insert_all(s, items.drop_last()), items.last().0, items.last().1)
    }
}

/// The value of the last entry of `items` named `q`, as an insertion
/// order makes the later entry win.
pub open spec fn last_value_of(items: Seq<(Seq<char>, Seq<char>)>, q: Seq<char>) -> Option<
    Seq<char>,
>
    decreases items.len(),
{
    if items.len() == 0 {
        None
    } else if items.last().0 == q {
        Some(items.last().1)
    } else {
        last_value_of(items.drop_last(), q)
    }
}

proof fn lemma_seq_insert_at(s: Seq<(Seq<char>, Seq<char>)>, k: Seq<char>, v: Seq<char>, i: int)
    requires
        0 <= i < s.len(),
        s[i].0 == k,
        forall|j: int| 0 <= j < i ==> s[j].0 != k,
    ensures
        seq_insert(s, k, v) == s.update(i, (k, v)),
    decreases s.len(),
{
    if i == 0 {
        assert(seq![(k, v)] + s.drop_first() =~= s.update(0, (k, v)));
    } else {
        assert(s.drop_first()[i - 1].0 == k);
        lemma_seq_insert_at(s.drop_first(), k, v, i - 1);
        assert(seq![s.first()] + s.drop_first().update(i - 1, (k, v)) =~= s.update(i, (k, v)));
    }
}

proof fn lemma_seq_insert_absent(s: Seq<(Seq<char>, Seq<char>)>, k: Seq<char>, v: Seq<char>)
    requires
        forall|j: int| 0 <= j < s.len() ==> s[j].0 != k,
    ensures
        seq_insert(s, k, v) == s.push((k, v)),
    decreases s.len(),
{
    if s.len() == 0 {
        assert(seq![(k, v)] =~= s.push((k, v)));
    } else {
        lemma_seq_insert_absent(s.drop_first(), k, v);
        assert(seq![s.first()] + s.drop_first().push((k, v)) =~= s.push((k, v)));
    }
}

/// Looking a name up after an insert: the inserted name answers with the
/// new value, every other name as before.
pub proof fn lemma_flags_lookup_insert(
    s: Seq<(Seq<char>, Seq<char>)>,
    k: Seq<char>,
    v: Seq<char>,
    q: Seq<char>,
)
    ensures
        flags_lookup(seq_insert(s, k, v), q) == if q == k {
            Some(v)
        } else {
            flags_lookup(s, q)
        },
    decreases s.len(),
{
    if s.len() == 0 {
        assert(seq![(k, v)].first() == (k, v));
        assert(seq![(k, v)].drop_first() =~= Seq::<(Seq<char>, Seq<char>)>::empty());
        assert(flags_lookup(seq![(k, v)], q) == if q == k {
            Some(v)
        } else {
            flags_lookup(seq![(k, v)].drop_first(), q)
        });
    } else if s.first().0 == k {
        assert((seq![(k, v)] + s.drop_first()).first() == (k, v));
        assert((seq![(k, v)] + s.drop_first()).drop_first() =~= s.drop_first());
    } else {
        lemma_flags_lookup_insert(s.drop_first(), k, v, q);
        assert((seq![s.first()] + seq_insert(s.drop_first(), k, v)).first() == s.first());
        assert((seq![s.first()] + seq_insert(s.drop_first(), k, v)).drop_first() =~= seq_insert(
            s.drop_first(),
            k,
            v,
        ));
    }
}

/// Looking a name up after a run of inserts: the last insert of that name
/// answers, and a name never inserted answers as before.
pub proof fn lemma_flags_lookup_insert_all(
    s: Seq<(Seq<char>, Seq<char>)>,
    items: Seq<(Seq<char>, Seq<char>)>,
    q: Seq<char>,
)
    ensures
        flags_lookup(seq_insert_all(s, items), q) == match last_value_of(items, q) {
            Some(v) => Some(v),
            None => flags_lookup(s, q),
        },
    decreases items.len(),
{
    if items.len() > 0 {
        lemma_flags_lookup_insert_all(s, items.drop_last(), q);
        lemma_flags_lookup_insert(
            seq_insert_all(s, items.drop_last()),
            items.last().0,
            items.last().1,
            q,
        );
    }
}

/// An insert keeps the names unique.
pub proof fn lemma_seq_insert_unique(s: Seq<(Seq<char>, Seq<char>)>, k: Seq<char>, v: Seq<char>)
    requires
        unique_keys(s),
    ensures
        unique_keys(seq_insert(s, k, v)),
{
    if exists|i: int| 0 <= i < s.len() && s[i].0 == k {
        let i = choose|i: int| 0 <= i < s.len() && s[i].0 == k;
        assert(forall|j: int| 0 <= j < i ==> s[j].0 != k);
        lemma_seq_insert_at(s, k, v, i);
    } else {
        lemma_seq_insert_absent(s, k, v);
    }
}

impl FlagSet {
    /// An empty set.
    pub fn new() -> (r: FlagSet)
        ensures
            r@ == Seq::<(Seq<char>, Seq<char>)>::empty(),
    {
        let r = FlagSet { entries: Vec::new() };
        assert(r@ =~= Seq::<(Seq<char>, Seq<char>)>::empty());
        r
    }

    /// Sets `name` to `value`: an entry already named `name` keeps its
    /// place and takes the new value, else the entry is appended.
    pub fn insert(&mut self, name: String, value: String)
        ensures
            final(self)@ == seq_insert(old(self)@, name@, value@),
    {
        let mut i: usize = 0;
        while i < self.entries.len()
            invariant
                0 <= i <= self.entries@.len(),
                self.entries == old(self).entries,
                forall|j: int| 0 <= j < i ==> self.entries@[j].0@ != name@,
            decreases self.entries@.len() - i,
        {
            if str_eq(self.entries[i].0.as_str(), name.as_str()) {
                proof {
                    assert(old(self)@[i as int].0 == name@);
                    lemma_seq_insert_at(old(self)@, name@, value@, i as int);
                }
                self.entries[i] = (name, value);
                assert(final(self)@ =~= old(self)@.update(i as int, (name@, value@)));
                return ;
            }
            i = i + 1;
        }
        proof {
            lemma_seq_insert_absent(old(self)@, name@, value@);
        }
        self.entries.push((name, value));
        assert(final(self)@ =~= old(self)@.push((name@, value@)));
    }

    /// The value under `name`, where the set holds one.
    pub fn get(&self, name: &str) -> (r: Option<&String>)
        ensures
            match r {
                Some(v) => flags_lookup(self@, name@) == Some(v@),
                None => flags_lookup(self@, name@) is None,
            },
    {
        let mut i: usize = 0;
        assert(self@.skip(0) =~= self@);
        while i < self.entries.len()
            invariant
                0 <= i <= self.entries@.len(),
                flags_lookup(self@, name@) == flags_lookup(self@.skip(i as int), name@),
            decreases self.entries@.len() - i,
        {
            proof {
                assert(self@.skip(i as int).first() == self@[i as int]);
                assert(self@.skip(i as int).drop_first() =~= self@.skip(i as int + 1));
            }
            if str_eq(self.entries[i].0.as_str(), name) {
                return Some(&self.entries[i].1);
            }
            i = i + 1;
        }
        assert(self@.skip(self.entries@.len() as int) =~= Seq::<(Seq<char>, Seq<char>)>::empty());
        None
    }
}

/// A flag name stripped of its recognized prefix: one of `FFlag`, `FInt`,
/// `DFFlag`, `DFInt` followed by the literal `Luau`.  Only the prefix
/// falls away; the `Luau` part stays.
pub open spec fn luau_strip(name: Seq<char>) -> Option<Seq<char>> {
    if is_prefix_of("FFlagLuau"@, name) {
        Some(name.skip(5))
    } else if is_prefix_of("FIntLuau"@, name) {
        Some(name.skip(4))
    } else if is_prefix_of("DFFlagLuau"@, name) {
        Some(name.skip(6))
    } else if is_prefix_of("DFIntLuau"@, name) {
        Some(name.skip(5))
    } else {
        None
    }
}

/// Strips the recognized prefix from a flag name that carries one.
fn strip_flag_name(name: &str) -> (r: Option<String>)
    ensures
        match r {
            Some(s) => luau_strip(name@) == Some(s@),
            None => luau_strip(name@) is None,
        },
{
    let n = name.unicode_len();
    if str_starts_with(name, "FFlagLuau") {
        proof {
            reveal_strlit("FFlagLuau");
        }
        let rest = String::from_str(name.substring_char(5, n));
        assert(rest@ =~= name@.skip(5));
        Some(rest)
    } else if str_starts_with(name, "FIntLuau") {
        proof {
            reveal_strlit("FIntLuau");
        }
        let rest = String::from_str(name.substring_char(4, n));
        assert(rest@ =~= name@.skip(4));
        Some(rest)
    } else if str_starts_with(name, "DFFlagLuau") {
        proof {
            reveal_strlit("DFFlagLuau");
        }
        let rest = String::from_str(name.substring_char(6, n));
        assert(rest@ =~= name@.skip(6));
        Some(rest)
    } else if str_starts_with(name, "DFIntLuau") {
        proof {
            reveal_strlit("DFIntLuau");
        }
        let rest = String::from_str(name.substring_char(5, n));
        assert(rest@ =~= name@.skip(5));
        Some(rest)
    } else {
        None
    }
}

/// The flags read off the `applicationSettings` entries, in document
/// order: every value must be a string; a name with a recognized prefix
/// is inserted under its stripped name, any other name is passed over.
pub open spec fn spec_collect_snapshot(apps: Seq<(String, JsonValue)>) -> Result<
    Seq<(Seq<char>, Seq<char>)>,
    ErrV,
>
    decreases apps.len(),
{
    if apps.len() == 0 {
        Ok(Seq::empty())
    } else {
        match spec_collect_snapshot(apps.drop_last()) {
            Err(e) => Err(e),
            Ok(acc) => match apps.last().1 {
                JsonValue::Str(v) => match luau_strip(apps.last().0@) {
                    Some(stripped) => Ok(seq_insert(acc, stripped, v@)),
                    None => Ok(acc),
                },
                _ => Err(ErrV::MalformedRemoteFlags),
            },
        }
    }
}

/// The only error the collection can surface is the malformed-snapshot
/// one.
proof fn lemma_collect_snapshot_err_shape(apps: Seq<(String, JsonValue)>)
    ensures
        spec_collect_snapshot(apps) is Err ==> spec_collect_snapshot(apps) == Err::<
            Seq<(Seq<char>, Seq<char>)>,
            ErrV,
        >(ErrV::MalformedRemoteFlags),
    decreases apps.len(),
{
    if apps.len() > 0 {
        lemma_collect_snapshot_err_shape(apps.drop_last());
    }
}

/// A non-string value anywhere poisons the whole collection.
proof fn lemma_collect_snapshot_err(apps: Seq<(String, JsonValue)>, i: int)
    requires
        0 <= i < apps.len(),
        !(apps[i].1 is Str),
    ensures
        spec_collect_snapshot(apps) == Err::<Seq<(Seq<char>, Seq<char>)>, ErrV>(
            ErrV::MalformedRemoteFlags,
        ),
    decreases apps.len(),
{
    if i < apps.len() - 1 {
        lemma_collect_snapshot_err(apps.drop_last(), i);
    } else {
        lemma_collect_snapshot_err_shape(apps.drop_last());
    }
}

fn collect_snapshot(apps: &Vec<(String, JsonValue)>) -> (r: Result<FlagSet, Error>)
    ensures
        match r {
            Ok(fs) => spec_collect_snapshot(apps@) == Ok::<Seq<(Seq<char>, Seq<char>)>, ErrV>(fs@)
                && unique_keys(fs@),
            Err(e) => spec_collect_snapshot(apps@) == Err::<Seq<(Seq<char>, Seq<char>)>, ErrV>(
                e@,
            ),
        },
{
    let mut fs = FlagSet::new();
    let mut i: usize = 0;
    assert(apps@.take(0) =~= Seq::<(String, JsonValue)>::empty());
    while i < apps.len()
        invariant
            0 <= i <= apps@.len(),
            spec_collect_snapshot(apps@.take(i as int)) == Ok::<
                Seq<(Seq<char>, Seq<char>)>,
                ErrV,
            >(fs@),
            unique_keys(fs@),
        decreases apps@.len() - i,
    {
        proof {
            assert(apps@.take(i as int + 1).last() == apps@[i as int]);
            assert(apps@.take(i as int + 1).drop_last() =~= apps@.take(i as int));
        }
        let e = &apps[i];
        match &e.1 {
            JsonValue::Str(v) => {
                match strip_flag_name(e.0.as_str()) {
                    Some(stripped) => {
                        proof {
                            lemma_seq_insert_unique(fs@, stripped@, v@);
                        }
                        fs.insert(stripped, v.clone());
                    },
                    None => {},
                }
            },
            _ => {
                proof {
                    lemma_collect_snapshot_err(apps@, i as int);
                }
                return Err(Error::MalformedRemoteFlags);
            },
        }
        i = i + 1;
    }
    assert(apps@.take(apps@.len() as int) =~= apps@);
    Ok(fs)
}

/// The flags a remote snapshot document yields: the document must be an
/// object whose `applicationSettings` member is an object of strings.
pub open spec fn spec_snapshot_flags(doc: JsonValue) -> Result<Seq<(Seq<char>, Seq<char>)>, ErrV> {
    match doc {
        JsonValue::Obj(es) => match obj_lookup(es@, "applicationSettings"@) {
            Some(JsonValue::Obj(apps)) => spec_collect_snapshot(apps@),
            Some(_) => Err(ErrV::MalformedRemoteFlags),
            None => Err(ErrV::MalformedRemoteFlags),
        },
        _ => Err(ErrV::MalformedRemoteFlags),
    }
}

/// Reads the flags out of a remote snapshot document.
pub fn snapshot_flags(doc: &JsonValue) -> (r: Result<FlagSet, Error>)
    ensures
        match r {
            Ok(fs) => spec_snapshot_flags(*doc) == Ok::<Seq<(Seq<char>, Seq<char>)>, ErrV>(fs@)
                && unique_keys(fs@),
            Err(e) => spec_snapshot_flags(*doc) == Err::<Seq<(Seq<char>, Seq<char>)>, ErrV>(e@),
        },
{
    match doc {
        JsonValue::Obj(es) => match obj_get(es, "applicationSettings") {
            Some(JsonValue::Obj(apps)) => collect_snapshot(apps),
            Some(_) => Err(Error::MalformedRemoteFlags),
            None => Err(Error::MalformedRemoteFlags),
        },
        _ => Err(Error::MalformedRemoteFlags),
    }
}

/// The flags a remote snapshot text yields: a text that is not JSON is as
/// malformed as a document of the wrong shape.
pub open spec fn spec_sync_flags(text: Seq<char>) -> Result<Seq<(Seq<char>, Seq<char>)>, ErrV> {
    match json_of_text(text) {
        Some(doc) => spec_snapshot_flags(doc),
        None => Err(ErrV::MalformedRemoteFlags),
    }
}

/// Parses a remote snapshot text and reads the flags out of it.
pub fn sync_flags_from_text(text: &str) -> (r: Result<FlagSet, Error>)
    ensures
        match r {
            Ok(fs) => spec_sync_flags(text@) == Ok::<Seq<(Seq<char>, Seq<char>)>, ErrV>(fs@)
                && unique_keys(fs@),
            Err(e) => spec_sync_flags(text@) == Err::<Seq<(Seq<char>, Seq<char>)>, ErrV>(e@),
        },
{
    match parse_json(text) {
        Some(doc) => snapshot_flags(&doc),
        None => Err(Error::MalformedRemoteFlags),
    }
}

/// Every override carries a non-empty name and a non-empty value.
pub open spec fn spec_overrides_valid(ov: Seq<(Seq<char>, Seq<char>)>) -> bool {
    forall|i: int| 0 <= i < ov.len() ==> ov[i].0.len() > 0 && ov[i].1.len() > 0
}

fn overrides_valid(ov: &Vec<(String, String)>) -> (b: bool)
    ensures
        b == spec_overrides_valid(str_pairs_view(ov@)),
{
    let mut i: usize = 0;
    while i < ov.len()
        invariant
            0 <= i <= ov@.len(),
            forall|j: int|
                0 <= j < i ==> str_pairs_view(ov@)[j].0.len() > 0 && str_pairs_view(ov@)[j].1.len()
                    > 0,
        decreases ov@.len() - i,
    {
        let e = &ov[i];
        if e.0.as_str().is_empty() || e.1.as_str().is_empty() {
            assert(!(str_pairs_view(ov@)[i as int].0.len() > 0 && str_pairs_view(ov@)[
                i as int
            ].1.len() > 0));
            return false;
        }
        i = i + 1;
    }
    true
}

/// Whether a resolution can go on to fetch the snapshot: the overrides
/// are validated first, so an invalid one fails before any download.
pub fn prepare_flags(cfg: &Configuration) -> (r: Result<bool, Error>)
    ensures
        match r {
            Ok(need_snapshot) => spec_overrides_valid(cfg@.fflags.overrides) && need_snapshot
                == cfg@.fflags.sync,
            Err(e) => !spec_overrides_valid(cfg@.fflags.overrides) && e@ == ErrV::InvalidOverride,
        },
{
    if overrides_valid(&cfg.fflags.overrides) {
        Ok(cfg.fflags.sync)
    } else {
        Err(Error::InvalidOverride)
    }
}

/// The three new-solver keys set to `"true"`, applied after everything
/// else.
pub open spec fn solver_applied(s: Seq<(Seq<char>, Seq<char>)>) -> Seq<(Seq<char>, Seq<char>)> {
    seq_insert(
        seq_insert(
            seq_insert(s, "LuauSolverV2"@, "true"@),
            "LuauNewSolverPopulateTableLocations"@,
            "true"@,
        ),
        "LuauNewSolverPrePopulateClasses"@,
        "true"@,
    )
}

/// The merge of the flag sources in their literal order: synced flags,
/// then overrides, then the new-solver bundle where it is enabled.
pub open spec fn spec_merged(
    base: Seq<(Seq<char>, Seq<char>)>,
    overrides: Seq<(Seq<char>, Seq<char>)>,
    enable_new_solver: bool,
) -> Seq<(Seq<char>, Seq<char>)> {
    if enable_new_solver {
        solver_applied(seq_insert_all(base, overrides))
    } else {
        seq_insert_all(base, overrides)
    }
}

/// The model of an optional text argument.
pub open spec fn opt_text(t: Option<&str>) -> Option<Seq<char>> {
    match t {
        Some(s) => Some(s@),
        None => None,
    }
}

/// What flag resolution returns for a configuration and the snapshot text
/// handed to it: an invalid override fails first; with `sync` on, a
/// missing or malformed snapshot fails; else the merged flag set.
pub open spec fn spec_resolve_flags(cfg: ConfigurationV, text: Option<Seq<char>>) -> Result<
    Seq<(Seq<char>, Seq<char>)>,
    ErrV,
> {
    if !spec_overrides_valid(cfg.fflags.overrides) {
        Err(ErrV::InvalidOverride)
    } else {
        let base = if cfg.fflags.sync {
            match text {
                Some(t) => spec_sync_flags(t),
                None => Err(ErrV::MalformedRemoteFlags),
            }
        } else {
            Ok(Seq::empty())
        };
        match base {
            Err(e) => Err(e),
            Ok(b) => Ok(spec_merged(b, cfg.fflags.overrides, cfg.fflags.enable_new_solver)),
        }
    }
}

/// Resolves the feature flags of `cfg`, folding the sources in their
/// fixed precedence over the snapshot text (`None` where no snapshot was
/// fetched).
pub fn resolve_flags(cfg: &Configuration, snapshot_text: Option<&str>) -> (r: Result<
    FlagSet,
    Error,
>)
    ensures
        match r {
            Ok(fs) => spec_resolve_flags(cfg@, opt_text(snapshot_text)) == Ok::<
                Seq<(Seq<char>, Seq<char>)>,
                ErrV,
            >(fs@) && unique_keys(fs@),
            Err(e) => spec_resolve_flags(cfg@, opt_text(snapshot_text)) == Err::<
                Seq<(Seq<char>, Seq<char>)>,
                ErrV,
            >(e@),
        },
{
    if !overrides_valid(&cfg.fflags.overrides) {
        return Err(Error::InvalidOverride);
    }
    let mut fs = if cfg.fflags.sync {
        match snapshot_text {
            Some(t) => match sync_flags_from_text(t) {
                Ok(fs) => fs,
                Err(e) => return Err(e),
            },
            None => {
                return Err(Error::MalformedRemoteFlags);
            },
        }
    } else {
        FlagSet::new()
    };
    let ghost base = fs@;
    let mut i: usize = 0;
    assert(str_pairs_view(cfg.fflags.overrides@).take(0) =~= Seq::<(Seq<char>, Seq<char>)>::empty());
    while i < cfg.fflags.overrides.len()
        invariant
            0 <= i <= cfg.fflags.overrides@.len(),
            fs@ == seq_insert_all(base, str_pairs_view(cfg.fflags.overrides@).take(i as int)),
            unique_keys(base) ==> unique_keys(fs@),
        decreases cfg.fflags.overrides@.len() - i,
    {
        proof {
            let ov = str_pairs_view(cfg.fflags.overrides@);
            assert(ov.take(i as int + 1).last() == ov[i as int]);
            assert(ov.take(i as int + 1).drop_last() =~= ov.take(i as int));
            if unique_keys(base) {
                lemma_seq_insert_unique(
                    fs@,
                    cfg.fflags.overrides@[i as int].0@,
                    cfg.fflags.overrides@[i as int].1@,
                );
            }
        }
        let e = &cfg.fflags.overrides[i];
        fs.insert(e.0.clone(), e.1.clone());
        i = i + 1;
    }
    proof {
        let ov = str_pairs_view(cfg.fflags.overrides@);
        assert(ov.take(ov.len() as int) =~= ov);
    }
    if cfg.fflags.enable_new_solver {
        proof {
            lemma_seq_insert_unique(fs@, "LuauSolverV2"@, "true"@);
        }
        fs.insert(String::from_str("LuauSolverV2"), String::from_str("true"));
        proof {
            lemma_seq_insert_unique(fs@, "LuauNewSolverPopulateTableLocations"@, "true"@);
        }
        fs.insert(String::from_str("LuauNewSolverPopulateTableLocations"), String::from_str("true"));
        proof {
            lemma_seq_insert_unique(fs@, "LuauNewSolverPrePopulateClasses"@, "true"@);
        }
        fs.insert(String::from_str("LuauNewSolverPrePopulateClasses"), String::from_str("true"));
    }
    Ok(fs)
}

/// The precedence law of the merge: a new-solver key, where the bundle is
/// enabled, answers `"true"`; any other name answers with its last
/// override; a name never overridden answers as the synced flags had it.
pub proof fn lemma_flag_precedence(
    base: Seq<(Seq<char>, Seq<char>)>,
    overrides: Seq<(Seq<char>, Seq<char>)>,
    enable_new_solver: bool,
    q: Seq<char>,
)
    ensures
        flags_lookup(spec_merged(base, overrides, enable_new_solver), q) == if enable_new_solver
            && (q == "LuauSolverV2"@ || q == "LuauNewSolverPopulateTableLocations"@ || q
            == "LuauNewSolverPrePopulateClasses"@) {
            Some("true"@)
        } else {
            match last_value_of(overrides, q) {
                Some(v) => Some(v),
                None => flags_lookup(base, q),
            }
        },
{
    lemma_flags_lookup_insert_all(base, overrides, q);
    if enable_new_solver {
        let after_ov = seq_insert_all(base, overrides);
        lemma_flags_lookup_insert(after_ov, "LuauSolverV2"@, "true"@, q);
        lemma_flags_lookup_insert(
            seq_insert(after_ov, "LuauSolverV2"@, "true"@),
            "LuauNewSolverPopulateTableLocations"@,
            "true"@,
            q,
        );
        lemma_flags_lookup_insert(
            seq_insert(
                seq_insert(after_ov, "LuauSolverV2"@, "true"@),
                "LuauNewSolverPopulateTableLocations"@,
                "true"@,
            ),
            "LuauNewSolverPrePopulateClasses"@,
            "true"@,
            q,
        );
    }
}

} // verus!
