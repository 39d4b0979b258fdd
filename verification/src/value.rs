//! Typed configuration values and their mathematical views.

use vstd::prelude::*;

verus! {

/// The primitive kind the argument store declares for a key, independent of
/// how many raw values were actually supplied for it.
#[derive(Clone, Copy, PartialEq, Eq, Structural, Debug)]
pub enum DeclaredKind {
    /// The key holds a boolean flag.
    Boolean,
    /// The key holds one or more string occurrences.
    Str,
    /// The store declared a kind this resolver does not specially understand.
    Other,
}

/// One element of a produced sequence value: a string tagged with an
/// optional origin label.
#[derive(Clone, Debug, PartialEq)]
pub struct TaggedString {
    pub origin: Option<String>,
    pub value: String,
}

/// The payload of a typed configuration value: a boolean flag, a scalar
/// string, or a sequence of tagged strings.
#[derive(Clone, Debug, PartialEq)]
pub enum ValueKind {
    Boolean(bool),
    String(String),
    Array(Vec<TaggedString>),
}

/// A typed configuration value with an optional origin label identifying
/// the source it came from. Immutable once constructed.
#[derive(Clone, Debug, PartialEq)]
pub struct Value {
    pub origin: Option<String>,
    pub kind: ValueKind,
}

/// Mathematical view of a `TaggedString`.
#[verifier::ext_equal]
pub struct TaggedStringView {
    pub origin: Option<Seq<char>>,
    pub value: Seq<char>,
}

/// Mathematical view of a `ValueKind`.
#[verifier::ext_equal]
pub enum KindView {
    Boolean(bool),
    Str(Seq<char>),
    Array(Seq<TaggedStringView>),
}

/// Mathematical view of a `Value`.
#[verifier::ext_equal]
pub struct ValueView {
    pub origin: Option<Seq<char>>,
    pub kind: KindView,
}

/// View of an optional origin label.
pub open spec fn origin_view(o: Option<String>) -> Option<Seq<char>> {
    match o {
        Some(s) => Some(s@),
        None => None,
    }
}

impl View for TaggedString {
    type V = TaggedStringView;

    open spec fn view(&self) -> TaggedStringView {
        TaggedStringView { origin: origin_view(self.origin), value: self.value@ }
    }
}

impl View for ValueKind {
    type V = KindView;

    open spec fn view(&self) -> KindView {
        match self {
            ValueKind::Boolean(b) => KindView::Boolean(*b),
            ValueKind::String(s) => KindView::Str(s@),
            ValueKind::Array(ts) => KindView::Array(ts@.map_values(|t: TaggedString| t@)),
        }
    }
}

impl View for Value {
    type V = ValueView;

    open spec fn view(&self) -> ValueView {
        ValueView { origin: origin_view(self.origin), kind: self.kind@ }
    }
}

impl Value {
    /// Wrap a resolved kind with an origin label (the value builder).
    /// Pure and total: no failure modes.
    pub fn new(origin: Option<&str>, kind: ValueKind) -> (r: Value)
        ensures
            r@ == (ValueView {
                origin: match origin {
                    Some(s) => Some(s@),
                    None => None::<Seq<char>>,
                },
                kind: kind@,
            }),
    {
        Value {
            origin: match origin {
                Some(s) => Some(s.to_owned()),
                None => None,
            },
            kind,
        }
    }
}

} // verus!
