//! Errors a resolution can surface, each carrying the offending key.

use vstd::prelude::*;

verus! {

/// An error raised while resolving one key. Collection fails fast on the
/// first of these; there is no partial-success mode.
#[derive(Clone, Debug, PartialEq)]
pub enum ConfigError {
    /// A key enumerated by the store could not be retrieved when resolution
    /// was attempted (store/enumerator inconsistency).
    KeyNotFound(String),
    /// The store could not report a declared kind for an otherwise
    /// recognized key.
    MissingTypeInfo(String),
    /// A metadata entry specified a shape the resolver does not know how to
    /// apply (anything outside scalar string and sequence).
    UnsupportedShape(String),
    /// A key declared with a given primitive kind had no corresponding raw
    /// value available.
    MissingValue(String),
}

/// Mathematical view of a `ConfigError`.
#[verifier::ext_equal]
pub enum ErrorView {
    KeyNotFound(Seq<char>),
    MissingTypeInfo(Seq<char>),
    UnsupportedShape(Seq<char>),
    MissingValue(Seq<char>),
}

impl View for ConfigError {
    type V = ErrorView;

    open spec fn view(&self) -> ErrorView {
        match self {
            ConfigError::KeyNotFound(k) => ErrorView::KeyNotFound(k@),
            ConfigError::MissingTypeInfo(k) => ErrorView::MissingTypeInfo(k@),
            ConfigError::UnsupportedShape(k) => ErrorView::UnsupportedShape(k@),
            ConfigError::MissingValue(k) => ErrorView::MissingValue(k@),
        }
    }
}

impl ConfigError {
    /// The key this error is about.
    pub fn key(&self) -> (r: &String)
        ensures
            self@ matches ErrorView::KeyNotFound(k) ==> r@ == k,
            self@ matches ErrorView::MissingTypeInfo(k) ==> r@ == k,
            self@ matches ErrorView::UnsupportedShape(k) ==> r@ == k,
            self@ matches ErrorView::MissingValue(k) ==> r@ == k,
    {
        match self {
            ConfigError::KeyNotFound(k) => k,
            ConfigError::MissingTypeInfo(k) => k,
            ConfigError::UnsupportedShape(k) => k,
            ConfigError::MissingValue(k) => k,
        }
    }
}

} // verus!
