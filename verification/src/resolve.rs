//! The type resolver: decides, for one key, whether the raw argument data
//! stands for a boolean flag, a single scalar string, or a sequence of
//! strings, and applies an optional caller-supplied shape hint that
//! overrides the count-based default inference.

use vstd::prelude::*;

use crate::error::{ConfigError, ErrorView};
use crate::value::{
    DeclaredKind, KindView, TaggedString, TaggedStringView, Value, ValueKind, ValueView,
};

verus! {

/// What the argument store reports for one key: the declared primitive
/// kind, and the raw occurrences (a boolean, or ordered strings).
#[derive(Clone, Debug)]
pub struct ArgData {
    pub declared: DeclaredKind,
    pub bool_value: Option<bool>,
    pub string_values: Option<Vec<String>>,
}

/// Mathematical view of `ArgData`.
#[verifier::ext_equal]
pub struct ArgDataView {
    pub declared: DeclaredKind,
    pub bool_value: Option<bool>,
    pub string_values: Option<Seq<Seq<char>>>,
}

/// View of a sequence of strings.
pub open spec fn strings_view(vs: Seq<String>) -> Seq<Seq<char>> {
    vs.map_values(|s: String| s@)
}

impl View for ArgData {
    type V = ArgDataView;

    open spec fn view(&self) -> ArgDataView {
        ArgDataView {
            declared: self.declared,
            bool_value: self.bool_value,
            string_values: match self.string_values {
                Some(vs) => Some(strings_view(vs@)),
                None => None,
            },
        }
    }
}

/// A resolved kind tagged with an origin label.
pub open spec fn tagged(origin: Seq<char>, kind: KindView) -> ValueView {
    ValueView { origin: Some(origin), kind }
}

/// Each raw string wrapped as a tagged scalar element of a sequence value,
/// in supplied order.
pub open spec fn tagged_elems(origin: Seq<char>, vals: Seq<Seq<char>>) -> Seq<TaggedStringView> {
    vals.map_values(|s: Seq<char>| TaggedStringView { origin: Some(origin), value: s })
}

/// The default policy for string-typed data with no shape hint: exactly one
/// occurrence is a scalar string; any other count is a sequence of all
/// occurrences in supplied order.
pub open spec fn default_policy(vals: Seq<Seq<char>>, origin: Seq<char>) -> ValueView {
    if vals.len() == 1 {
        tagged(origin, KindView::Str(vals[0]))
    } else {
        tagged(origin, KindView::Array(tagged_elems(origin, vals)))
    }
}

/// The override policy for string-typed data with a shape hint: the hint's
/// shape decides the output shape regardless of occurrence count. A scalar
/// hint keeps only the first occurrence (later ones are dropped by design);
/// a sequence hint always yields a sequence; any other hint shape is
/// unsupported.
pub open spec fn override_policy(
    vals: Seq<Seq<char>>,
    hint: ValueKind,
    key: Seq<char>,
    origin: Seq<char>,
) -> Result<ValueView, ErrorView> {
    match hint {
        ValueKind::Array(_) => Ok(tagged(origin, KindView::Array(tagged_elems(origin, vals)))),
        ValueKind::String(_) => if vals.len() >= 1 {
            Ok(tagged(origin, KindView::Str(vals[0])))
        } else {
            Err(ErrorView::MissingValue(key))
        },
        ValueKind::Boolean(_) => Err(ErrorView::UnsupportedShape(key)),
    }
}

/// Resolution of string-typed data: default policy without a hint, override
/// policy with one.
pub open spec fn spec_resolve_strings(
    vals: Seq<Seq<char>>,
    hint: Option<ValueKind>,
    key: Seq<char>,
    origin: Seq<char>,
) -> Result<ValueView, ErrorView> {
    match hint {
        None => Ok(default_policy(vals, origin)),
        Some(h) => override_policy(vals, h, key, origin),
    }
}

/// What the resolver returns for one key: a pure function of the declared
/// kind, the raw occurrences, and the optional shape hint.
///
/// A boolean-declared key always resolves to its boolean, regardless of any
/// hint. A string-declared key follows `spec_resolve_strings`. Any other
/// declared kind falls back to a scalar string holding the first available
/// occurrence. Missing raw data surfaces as `MissingValue`.
pub open spec fn spec_resolve(
    data: ArgDataView,
    hint: Option<ValueKind>,
    key: Seq<char>,
    origin: Seq<char>,
) -> Result<ValueView, ErrorView> {
    match data.declared {
        DeclaredKind::Boolean => match data.bool_value {
            Some(b) => Ok(tagged(origin, KindView::Boolean(b))),
            None => Err(ErrorView::MissingValue(key)),
        },
        DeclaredKind::Str => match data.string_values {
            Some(vals) => spec_resolve_strings(vals, hint, key, origin),
            None => Err(ErrorView::MissingValue(key)),
        },
        DeclaredKind::Other => match data.string_values {
            Some(vals) => if vals.len() >= 1 {
                Ok(tagged(origin, KindView::Str(vals[0])))
            } else {
                Err(ErrorView::MissingValue(key))
            },
            None => Err(ErrorView::MissingValue(key)),
        },
    }
}

/// View of a resolver result.
pub open spec fn result_view(r: Result<Value, ConfigError>) -> Result<ValueView, ErrorView> {
    match r {
        Ok(v) => Ok(v@),
        Err(e) => Err(e@),
    }
}

/// View of an optional borrowed hint.
pub open spec fn hint_view(hint: Option<&ValueKind>) -> Option<ValueKind> {
    match hint {
        Some(h) => Some(*h),
        None => None,
    }
}

/// Builds the elements of a sequence value: each raw string tagged with the
/// origin label, in supplied order.
fn build_string_array(origin: &str, values: &Vec<String>) -> (r: Vec<TaggedString>)
    ensures
        r@.map_values(|t: TaggedString| t@) == tagged_elems(origin@, strings_view(values@)),
{
    let mut out: Vec<TaggedString> = Vec::new();
    let mut i: usize = 0;
    while i < values.len()
        invariant
            i <= values.len(),
            out@.len() == i,
            forall|j: int| 0 <= j < i ==> out@[j]@ == (TaggedStringView {
                origin: Some(origin@),
                value: values@[j]@,
            }),
        decreases values.len() - i,
    {
        out.push(TaggedString { origin: Some(origin.to_owned()), value: values[i].clone() });
        i += 1;
    }
    proof {
        assert(out@.map_values(|t: TaggedString| t@) =~= tagged_elems(origin@, strings_view(values@)));
    }
    out
}

/// Default inference for a string-typed key with no hint: one occurrence is
/// a scalar string; otherwise a sequence of all occurrences in order.
pub fn parse_multiple_values_default(origin: &str, values: &Vec<String>) -> (r: Value)
    ensures
        r@ == default_policy(strings_view(values@), origin@),
{
    if values.len() == 1 {
        Value::new(Some(origin), ValueKind::String(values[0].clone()))
    } else {
        Value::new(Some(origin), ValueKind::Array(build_string_array(origin, values)))
    }
}

/// Override resolution for a string-typed key with a hint: the hint's shape
/// wins over the occurrence count. A scalar hint keeps only the first
/// occurrence; a sequence hint yields a sequence even for a single
/// occurrence; a boolean hint is an unsupported shape.
pub fn parse_multiple_values_as_array(
    origin: &str,
    key: &str,
    values: &Vec<String>,
    hint: &ValueKind,
) -> (r: Result<Value, ConfigError>)
    ensures
        result_view(r) == override_policy(strings_view(values@), *hint, key@, origin@),
{
    match hint {
        ValueKind::Array(_) => Ok(Value::new(Some(origin), ValueKind::Array(build_string_array(origin, values)))),
        ValueKind::String(_) => {
            if values.len() >= 1 {
                Ok(Value::new(Some(origin), ValueKind::String(values[0].clone())))
            } else {
                Err(ConfigError::MissingValue(key.to_owned()))
            }
        },
        ValueKind::Boolean(_) => Err(ConfigError::UnsupportedShape(key.to_owned())),
    }
}

/// The type resolver: produces exactly one typed value for `key` from the
/// declared kind, the raw occurrences, and the optional shape hint, tagged
/// with the origin label. Returns exactly what `spec_resolve` says, for
/// every input.
pub fn resolve(key: &str, data: &ArgData, hint: Option<&ValueKind>, origin: &str) -> (r: Result<
    Value,
    ConfigError,
>)
    ensures
        result_view(r) == spec_resolve(data@, hint_view(hint), key@, origin@),
{
    match data.declared {
        DeclaredKind::Boolean => match data.bool_value {
            Some(b) => Ok(Value::new(Some(origin), ValueKind::Boolean(b))),
            None => Err(ConfigError::MissingValue(key.to_owned())),
        },
        DeclaredKind::Str => match &data.string_values {
            Some(values) => match hint {
                Some(h) => parse_multiple_values_as_array(origin, key, values, h),
                None => Ok(parse_multiple_values_default(origin, values)),
            },
            None => Err(ConfigError::MissingValue(key.to_owned())),
        },
        DeclaredKind::Other => match &data.string_values {
            Some(values) => {
                if values.len() >= 1 {
                    Ok(Value::new(Some(origin), ValueKind::String(values[0].clone())))
                } else {
                    Err(ConfigError::MissingValue(key.to_owned()))
                }
            },
            None => Err(ConfigError::MissingValue(key.to_owned())),
        },
    }
}

/// Law: a string-declared key supplied exactly once, with no shape hint,
/// resolves to a scalar string equal to that occurrence.
pub proof fn lemma_default_single_occurrence(
    data: ArgDataView,
    vals: Seq<Seq<char>>,
    key: Seq<char>,
    origin: Seq<char>,
)
    requires
        data.declared == DeclaredKind::Str,
        data.string_values == Some(vals),
        vals.len() == 1,
    ensures
        spec_resolve(data, None, key, origin) == Ok::<ValueView, ErrorView>(
            tagged(origin, KindView::Str(vals[0])),
        ),
{
}

/// Law: a string-declared key supplied more than once, with no shape hint,
/// resolves to a sequence of all occurrences, with the supplied length and
/// in supplied order.
pub proof fn lemma_default_multiple_occurrences(
    data: ArgDataView,
    vals: Seq<Seq<char>>,
    key: Seq<char>,
    origin: Seq<char>,
)
    requires
        data.declared == DeclaredKind::Str,
        data.string_values == Some(vals),
        vals.len() > 1,
    ensures
        spec_resolve(data, None, key, origin) == Ok::<ValueView, ErrorView>(
            tagged(origin, KindView::Array(tagged_elems(origin, vals))),
        ),
        tagged_elems(origin, vals).len() == vals.len(),
        forall|i: int| 0 <= i < vals.len() ==> tagged_elems(origin, vals)[i].value == vals[i],
{
}

/// Law: a scalar-string shape hint forces a scalar whatever the occurrence
/// count: the resolver keeps the first occurrence and silently drops the
/// rest (a documented policy, not an accident).
pub proof fn lemma_override_scalar(
    data: ArgDataView,
    vals: Seq<Seq<char>>,
    hint: ValueKind,
    key: Seq<char>,
    origin: Seq<char>,
)
    requires
        data.declared == DeclaredKind::Str,
        data.string_values == Some(vals),
        vals.len() >= 1,
        hint matches ValueKind::String(_),
    ensures
        spec_resolve(data, Some(hint), key, origin) == Ok::<ValueView, ErrorView>(
            tagged(origin, KindView::Str(vals[0])),
        ),
{
}

/// Law: a sequence shape hint forces a sequence even when exactly one
/// occurrence was supplied: the result is a one-element sequence holding
/// that occurrence, unlike the hintless default, which keeps it scalar.
pub proof fn lemma_override_sequence_single(
    data: ArgDataView,
    vals: Seq<Seq<char>>,
    hint: ValueKind,
    key: Seq<char>,
    origin: Seq<char>,
)
    requires
        data.declared == DeclaredKind::Str,
        data.string_values == Some(vals),
        vals.len() == 1,
        hint matches ValueKind::Array(_),
    ensures
        spec_resolve(data, Some(hint), key, origin) == Ok::<ValueView, ErrorView>(
            tagged(origin, KindView::Array(tagged_elems(origin, vals))),
        ),
        tagged_elems(origin, vals).len() == 1,
        tagged_elems(origin, vals)[0].value == vals[0],
{
}

/// Law: a boolean-declared key is unaffected by any shape hint: resolution
/// returns the same outcome whatever hint is supplied.
pub proof fn lemma_boolean_ignores_hint(
    data: ArgDataView,
    h1: Option<ValueKind>,
    h2: Option<ValueKind>,
    key: Seq<char>,
    origin: Seq<char>,
)
    requires
        data.declared == DeclaredKind::Boolean,
    ensures
        spec_resolve(data, h1, key, origin) == spec_resolve(data, h2, key, origin),
{
}

} // verus!
