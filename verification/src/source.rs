//! The command-line configuration source: wraps a set of parsed argument
//! matches from the clap parser, together with an optional metadata table
//! of per-key shape hints, and collects every recognized key into an
//! ordered map of typed values tagged with a fixed origin label.

use vstd::prelude::*;

use crate::error::{ConfigError, ErrorView};
use crate::resolve::{
    hint_view, resolve, result_view, spec_resolve, strings_view, ArgData, ArgDataView,
};
use crate::value::{DeclaredKind, Value, ValueKind, ValueView};
use crate::value_map::{entries_view, ValueMap};

use clap::parser::ArgMatches;

verus! {

#[verifier::external_type_specification]
#[verifier::external_body]
pub struct ExArgMatches(ArgMatches);

/// Outcome of probing the matches for one key's boolean value.
#[derive(Clone, Copy, PartialEq, Eq, Structural, Debug)]
pub enum BoolLookup {
    /// The key holds boolean data; this is its first stored value.
    Found(bool),
    /// The key is unknown to the matches, or holds no stored value.
    NotFound,
    /// The key holds data of some other kind.
    WrongType,
}

/// Outcome of probing the matches for one key's string occurrences.
#[derive(Clone, Debug)]
pub enum StringLookup {
    /// The key holds string data: all occurrences, in supplied order.
    Found(Vec<String>),
    /// The key is unknown to the matches, or holds no stored value.
    NotFound,
    /// The key holds data of some other kind.
    WrongType,
}

/// Mathematical view of a `StringLookup`.
#[verifier::ext_equal]
pub enum StringLookupView {
    Found(Seq<Seq<char>>),
    NotFound,
    WrongType,
}

impl View for StringLookup {
    type V = StringLookupView;

    open spec fn view(&self) -> StringLookupView {
        match self {
            StringLookup::Found(vs) => StringLookupView::Found(strings_view(vs@)),
            StringLookup::NotFound => StringLookupView::NotFound,
            StringLookup::WrongType => StringLookupView::WrongType,
        }
    }
}

/// Relies on clap's `ArgMatches::clone`, a derived impl: a field-wise copy,
/// equal to the original.
pub assume_specification[ <ArgMatches as Clone>::clone ](m: &ArgMatches) -> (r: ArgMatches)
    ensures
        r == *m,
;

/// The keys of a set of argument matches, in declaration order.
pub uninterp spec fn am_keys(m: ArgMatches) -> Seq<Seq<char>>;

/// What probing a set of argument matches for a boolean under a key yields.
pub uninterp spec fn am_bool(m: ArgMatches, key: Seq<char>) -> BoolLookup;

/// What probing a set of argument matches for string occurrences under a
/// key yields.
pub uninterp spec fn am_strings(m: ArgMatches, key: Seq<char>) -> StringLookupView;

/// Relies on clap's `ArgMatches::ids`: one id per argument with matched
/// data, in declaration order. The ids are pairwise distinct, as the
/// matches hold them as keys of a map.
#[verifier::external_body]
fn am_key_vec(m: &ArgMatches) -> (r: Vec<String>)
    ensures
        strings_view(r@) == am_keys(*m),
        forall|i: int, j: int| 0 <= i < j < r@.len() ==> r@[i]@ != r@[j]@,
{
    m.ids().map(|id| id.as_str().to_owned()).collect()
}

/// Relies on clap's `ArgMatches::try_get_one::<bool>`: the first boolean
/// stored under the key when the key's data is boolean; a downcast error
/// when it is of another kind; nothing when the key is unknown or holds no
/// value (clap reports an unknown key as an error only in debug builds, so
/// those two outcomes are deliberately merged).
#[verifier::external_body]
fn am_bool_lookup(m: &ArgMatches, key: &str) -> (r: BoolLookup)
    ensures
        r == am_bool(*m, key@),
{
    match m.try_get_one::<bool>(key) {
        Ok(Some(b)) => BoolLookup::Found(*b),
        Ok(None) => BoolLookup::NotFound,
        Err(clap::parser::MatchesError::Downcast { .. }) => BoolLookup::WrongType,
        Err(_) => BoolLookup::NotFound,
    }
}

/// Relies on clap's `ArgMatches::try_get_many::<String>`: every string
/// stored under the key in supplied order when the key's data is strings; a
/// downcast error when it is of another kind; nothing when the key is
/// unknown or holds no value (merged as in the boolean probe).
#[verifier::external_body]
fn am_strings_lookup(m: &ArgMatches, key: &str) -> (r: StringLookup)
    ensures
        r@ == am_strings(*m, key@),
{
    match m.try_get_many::<String>(key) {
        Ok(Some(vals)) => StringLookup::Found(vals.cloned().collect()),
        Ok(None) => StringLookup::NotFound,
        Err(clap::parser::MatchesError::Downcast { .. }) => StringLookup::WrongType,
        Err(_) => StringLookup::NotFound,
    }
}

/// The fixed origin label every value this source produces carries.
pub open spec fn origin_label() -> Seq<char> {
    "clap"@
}

/// The fixed origin label, as a string slice.
pub fn origin_str() -> (r: &'static str)
    ensures
        r@ == origin_label(),
{
    "clap"
}

/// The first hint listed under `key` in a metadata table, if any.
pub open spec fn spec_md_lookup(
    entries: Seq<(String, ValueKind)>,
    key: Seq<char>,
) -> Option<ValueKind>
    decreases entries.len(),
{
    if entries.len() == 0 {
        None
    } else if entries[0].0@ == key {
        Some(entries[0].1)
    } else {
        spec_md_lookup(entries.drop_first(), key)
    }
}

/// The shape hint an optional metadata table supplies for `key`, if any.
/// Absence is an expected outcome, not an error: it selects the default
/// count-based inference.
pub open spec fn spec_hint(
    metadata: Option<Vec<(String, ValueKind)>>,
    key: Seq<char>,
) -> Option<ValueKind> {
    match metadata {
        Some(entries) => spec_md_lookup(entries@, key),
        None => None,
    }
}

/// Looks one key up in a metadata table; returns the first entry's hint.
fn metadata_lookup<'a>(entries: &'a Vec<(String, ValueKind)>, key: &str) -> (r: Option<
    &'a ValueKind,
>)
    ensures
        hint_view(r) == spec_md_lookup(entries@, key@),
{
    let k: String = key.to_owned();
    let mut i: usize = 0;
    proof {
        assert(entries@.skip(0) =~= entries@);
    }
    while i < entries.len()
        invariant
            i <= entries.len(),
            k@ == key@,
            spec_md_lookup(entries@, key@) == spec_md_lookup(entries@.skip(i as int), key@),
        decreases entries.len() - i,
    {
        if entries[i].0 == k {
            proof {
                assert(entries@.skip(i as int)[0] == entries@[i as int]);
            }
            return Some(&entries[i].1);
        }
        proof {
            assert(entries@.skip(i as int)[0] == entries@[i as int]);
            assert(entries@.skip(i as int).drop_first() =~= entries@.skip(i as int + 1));
        }
        i += 1;
    }
    proof {
        assert(entries@.skip(entries@.len() as int) =~= Seq::<(String, ValueKind)>::empty());
    }
    None
}

/// What resolving one key against the matches and the metadata yields.
///
/// The boolean probe decides the declared kind: boolean data resolves as a
/// boolean whatever the metadata says; string data goes through the string
/// policies; data of any other kind has no string occurrence to fall back
/// on, so it surfaces as a missing value. An unknown key cannot be
/// retrieved, and a key whose probes disagree has no usable kind.
pub open spec fn spec_item(
    m: ArgMatches,
    metadata: Option<Vec<(String, ValueKind)>>,
    key: Seq<char>,
) -> Result<ValueView, ErrorView> {
    match am_bool(m, key) {
        BoolLookup::Found(b) => spec_resolve(
            ArgDataView { declared: DeclaredKind::Boolean, bool_value: Some(b), string_values: None },
            spec_hint(metadata, key),
            key,
            origin_label(),
        ),
        BoolLookup::NotFound => Err(ErrorView::KeyNotFound(key)),
        BoolLookup::WrongType => match am_strings(m, key) {
            StringLookupView::Found(vals) => spec_resolve(
                ArgDataView {
                    declared: DeclaredKind::Str,
                    bool_value: None,
                    string_values: Some(vals),
                },
                spec_hint(metadata, key),
                key,
                origin_label(),
            ),
            StringLookupView::NotFound => Err(ErrorView::MissingTypeInfo(key)),
            StringLookupView::WrongType => spec_resolve(
                ArgDataView { declared: DeclaredKind::Other, bool_value: None, string_values: None },
                spec_hint(metadata, key),
                key,
                origin_label(),
            ),
        },
    }
}

/// What collecting the given keys yields: their ordered entries, or the
/// first resolution error.
pub open spec fn spec_collect_keys(
    m: ArgMatches,
    metadata: Option<Vec<(String, ValueKind)>>,
    keys: Seq<Seq<char>>,
) -> Result<Seq<(Seq<char>, ValueView)>, ErrorView>
    decreases keys.len(),
{
    if keys.len() == 0 {
        Ok(Seq::empty())
    } else {
        match spec_item(m, metadata, keys[0]) {
            Err(e) => Err(e),
            Ok(v) => match spec_collect_keys(m, metadata, keys.drop_first()) {
                Err(e) => Err(e),
                Ok(rest) => Ok(seq![(keys[0], v)] + rest),
            },
        }
    }
}

/// What collecting a source yields: one entry per recognized key, in
/// declaration order, or the first resolution error.
pub open spec fn spec_collect(m: ArgMatches, metadata: Option<Vec<(String, ValueKind)>>) -> Result<
    Seq<(Seq<char>, ValueView)>,
    ErrorView,
> {
    spec_collect_keys(m, metadata, am_keys(m))
}

/// Everything `collect` promises of its outcome.
pub open spec fn collect_post(
    m: ArgMatches,
    metadata: Option<Vec<(String, ValueKind)>>,
    r: Result<ValueMap, ConfigError>,
) -> bool {
    match r {
        Ok(map) => spec_collect(m, metadata) == Ok::<Seq<(Seq<char>, ValueView)>, ErrorView>(map@)
            && map.wf() && map.spec_keys() == am_keys(m),
        Err(e) => spec_collect(m, metadata) == Err::<Seq<(Seq<char>, ValueView)>, ErrorView>(e@),
    }
}

/// A configuration source wrapping a set of parsed argument matches and an
/// optional metadata table of per-key shape hints.
#[derive(Clone, Debug)]
pub struct ClapConfig {
    pub arg_matches: ArgMatches,
    /// Optional shape hints, one per key. Only an entry's shape is ever
    /// inspected: it overrides count-based inference for that key. A key
    /// without an entry follows the default inference.
    pub metadata: Option<Vec<(String, ValueKind)>>,
}

impl ClapConfig {
    /// A source with no metadata: count-based default inference applies to
    /// every string-typed key.
    pub fn new(arg_matches: ArgMatches) -> (r: ClapConfig)
        ensures
            r.arg_matches == arg_matches,
            r.metadata == None::<Vec<(String, ValueKind)>>,
    {
        ClapConfig { arg_matches, metadata: None }
    }

    /// A source with a metadata table: for each key listed there, the
    /// entry's shape overrides the count-based default.
    pub fn new_with_metadata(arg_matches: ArgMatches, metadata: Vec<(String, ValueKind)>) -> (r:
        ClapConfig)
        ensures
            r.arg_matches == arg_matches,
            r.metadata == Some(metadata),
    {
        ClapConfig { arg_matches, metadata: Some(metadata) }
    }

    /// All recognized keys, in declaration order; they are pairwise
    /// distinct.
    pub fn get_keys(&self) -> (r: Vec<String>)
        ensures
            strings_view(r@) == am_keys(self.arg_matches),
            forall|i: int, j: int|
                0 <= i < j < am_keys(self.arg_matches).len() ==> am_keys(self.arg_matches)[i]
                    != am_keys(self.arg_matches)[j],
    {
        let r = am_key_vec(&self.arg_matches);
        proof {
            assert forall|i: int, j: int|
                0 <= i < j < am_keys(self.arg_matches).len() implies am_keys(self.arg_matches)[i]
                != am_keys(self.arg_matches)[j] by {
                assert(am_keys(self.arg_matches)[i] == strings_view(r@)[i]);
                assert(am_keys(self.arg_matches)[j] == strings_view(r@)[j]);
            }
        }
        r
    }

    /// The shape hint this source's metadata supplies for one key, if any.
    fn hint_for(&self, key: &str) -> (r: Option<&ValueKind>)
        ensures
            hint_view(r) == spec_hint(self.metadata, key@),
    {
        match &self.metadata {
            Some(entries) => metadata_lookup(entries, key),
            None => None,
        }
    }

    /// Resolve one key into a typed value tagged with this source's origin
    /// label: probe the matches for the key's kind and raw occurrences,
    /// then apply the resolver under the key's optional shape hint.
    pub fn get_item(&self, key: &str) -> (r: Result<Value, ConfigError>)
        ensures
            result_view(r) == spec_item(self.arg_matches, self.metadata, key@),
    {
        let origin = origin_str();
        match am_bool_lookup(&self.arg_matches, key) {
            BoolLookup::Found(b) => {
                let data = ArgData {
                    declared: DeclaredKind::Boolean,
                    bool_value: Some(b),
                    string_values: None,
                };
                resolve(key, &data, self.hint_for(key), origin)
            },
            BoolLookup::NotFound => Err(ConfigError::KeyNotFound(key.to_owned())),
            BoolLookup::WrongType => match am_strings_lookup(&self.arg_matches, key) {
                StringLookup::Found(values) => {
                    let data = ArgData {
                        declared: DeclaredKind::Str,
                        bool_value: None,
                        string_values: Some(values),
                    };
                    resolve(key, &data, self.hint_for(key), origin)
                },
                StringLookup::NotFound => Err(ConfigError::MissingTypeInfo(key.to_owned())),
                StringLookup::WrongType => {
                    let data = ArgData {
                        declared: DeclaredKind::Other,
                        bool_value: None,
                        string_values: None,
                    };
                    resolve(key, &data, self.hint_for(key), origin)
                },
            },
        }
    }

    /// Enumerate every recognized key, resolve each, and assemble the
    /// ordered map, failing fast on the first resolution error. The matches
    /// and the metadata are not touched beyond reading.
    pub fn collect(&self) -> (r: Result<ValueMap, ConfigError>)
        ensures
            collect_post(self.arg_matches, self.metadata, r),
    {
        let keys = self.get_keys();
        let ghost keyseq: Seq<Seq<char>> = am_keys(self.arg_matches);
        let mut entries: Vec<(String, Value)> = Vec::new();
        let mut i: usize = 0;
        proof {
            assert(keyseq.skip(0) =~= keyseq);
            match spec_collect(self.arg_matches, self.metadata) {
                Ok(rest) => {
                    assert(entries_view(entries@) =~= Seq::<(Seq<char>, ValueView)>::empty());
                    assert(entries_view(entries@) + rest =~= rest);
                },
                Err(_) => {},
            }
        }
        while i < keys.len()
            invariant
                i <= keys.len(),
                strings_view(keys@) == keyseq,
                keyseq == am_keys(self.arg_matches),
                forall|a: int, b: int| 0 <= a < b < keyseq.len() ==> keyseq[a] != keyseq[b],
                entries@.len() == i,
                forall|j: int| 0 <= j < i ==> entries@[j].0@ == keyseq[j],
                spec_collect(self.arg_matches, self.metadata) == (match spec_collect_keys(
                    self.arg_matches,
                    self.metadata,
                    keyseq.skip(i as int),
                ) {
                    Ok(rest) => Ok::<Seq<(Seq<char>, ValueView)>, ErrorView>(
                        entries_view(entries@) + rest,
                    ),
                    Err(e) => Err(e),
                }),
            decreases keys.len() - i,
        {
            proof {
                assert(keyseq[i as int] == keys@[i as int]@);
                assert(keyseq.skip(i as int)[0] == keyseq[i as int]);
                assert(keyseq.skip(i as int).drop_first() =~= keyseq.skip(i as int + 1));
            }
            let key = keys[i].clone();
            match self.get_item(key.as_str()) {
                Ok(v) => {
                    let ghost old_entries = entries@;
                    entries.push((key, v));
                    proof {
                        assert(entries_view(entries@) =~= entries_view(old_entries).push(
                            (keyseq[i as int], v@),
                        ));
                        match spec_collect_keys(
                            self.arg_matches,
                            self.metadata,
                            keyseq.skip(i as int + 1),
                        ) {
                            Ok(rest) => {
                                assert(entries_view(old_entries) + (seq![(keyseq[i as int], v@)]
                                    + rest) =~= entries_view(entries@) + rest);
                            },
                            Err(_) => {},
                        }
                    }
                },
                Err(e) => {
                    return Err(e);
                },
            }
            i += 1;
        }
        proof {
            assert(keyseq.skip(keys@.len() as int) =~= Seq::<Seq<char>>::empty());
            assert(entries_view(entries@) + Seq::<(Seq<char>, ValueView)>::empty() =~= entries_view(
                entries@,
            ));
        }
        let map = ValueMap { entries };
        proof {
            assert forall|j: int| 0 <= j < map@.len() implies #[trigger] map@[j].0
                == keyseq[j] by {
                assert(map@[j] == (entries@[j].0@, entries@[j].1@));
            }
            assert(map.spec_keys() =~= am_keys(self.arg_matches));
            assert forall|a: int, b: int|
                0 <= a < b < map@.len() implies map@[a].0 != map@[b].0 by {
                assert(map@[a].0 == keyseq[a]);
                assert(map@[b].0 == keyseq[b]);
            }
        }
        Ok(map)
    }
}

/// Law: collection is a pure function of the matches and the metadata, so
/// collecting twice against an unchanged source yields equal outcomes: two
/// successful collections yield maps with equal entries, and two failed
/// ones the same error.
pub proof fn lemma_collect_idempotent(
    m: ArgMatches,
    metadata: Option<Vec<(String, ValueKind)>>,
    r1: Result<ValueMap, ConfigError>,
    r2: Result<ValueMap, ConfigError>,
)
    requires
        collect_post(m, metadata, r1),
        collect_post(m, metadata, r2),
    ensures
        match (r1, r2) {
            (Ok(map1), Ok(map2)) => map1@ == map2@,
            (Err(e1), Err(e2)) => e1@ == e2@,
            _ => false,
        },
{
}

/// Law: a successful collection is total over the recognized keys: every
/// recognized key has an entry, no two entries share a key, and no entry
/// stands under an unrecognized key — so each recognized key has exactly
/// one entry.
pub proof fn lemma_collect_total(m: ArgMatches, map: ValueMap, key: Seq<char>)
    requires
        map.spec_keys() == am_keys(m),
        map.wf(),
    ensures
        am_keys(m).contains(key) ==> exists|i: int|
            0 <= i < map@.len() && #[trigger] map@[i].0 == key,
        !am_keys(m).contains(key) ==> forall|i: int|
            0 <= i < map@.len() ==> #[trigger] map@[i].0 != key,
        forall|i: int, j: int| 0 <= i < j < map@.len() ==> map@[i].0 != map@[j].0,
{
    assert(forall|i: int|
        0 <= i < map@.len() ==> #[trigger] map.spec_keys()[i] == map@[i].0);
    if am_keys(m).contains(key) {
        let w = choose|w: int| 0 <= w < am_keys(m).len() && am_keys(m)[w] == key;
        assert(map@[w].0 == key);
    }
    if !am_keys(m).contains(key) {
        assert forall|i: int| 0 <= i < map@.len() implies #[trigger] map@[i].0 != key by {
            assert(am_keys(m)[i] == map@[i].0);
        }
    }
}

} // verus!
