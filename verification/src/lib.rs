//! A configuration source that turns parsed command-line arguments into a
//! flat map of typed configuration values.
//!
//! Raw parsed arguments carry weak typing: a multi-value argument supplied
//! once looks just like a single-value argument. The resolver in this crate
//! decides, per key, whether the data stands for a boolean flag, a single
//! scalar string, or a sequence of strings, and lets the integrator override
//! the count-based default through an optional shape hint per key.

mod error;
mod resolve;
mod source;
mod value;
mod value_map;

pub use error::{ConfigError, ErrorView};
pub use resolve::{
    default_policy, hint_view, lemma_boolean_ignores_hint, lemma_default_multiple_occurrences,
    lemma_default_single_occurrence, lemma_override_scalar, lemma_override_sequence_single,
    override_policy, parse_multiple_values_as_array, parse_multiple_values_default, resolve,
    result_view, spec_resolve, spec_resolve_strings, strings_view, tagged, tagged_elems, ArgData,
    ArgDataView,
};
pub use source::{
    am_bool, am_keys, am_strings, collect_post, lemma_collect_idempotent, lemma_collect_total,
    origin_label, origin_str, spec_collect, spec_collect_keys, spec_hint, spec_item,
    spec_md_lookup, BoolLookup, ClapConfig, StringLookup, StringLookupView,
};
pub use value::{
    origin_view, DeclaredKind, KindView, TaggedString, TaggedStringView, Value, ValueKind,
    ValueView,
};
pub use value_map::{entries_first_match, entries_view, ValueMap};
