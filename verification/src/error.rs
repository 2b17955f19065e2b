//! What can be wrong with the tables that the themes are made from.

use vstd::prelude::*;

verus! {

/// What is wrong with a palette, a highlight set or a table of roles.
#[derive(Debug, Clone, PartialEq, Eq)]
pub enum ConfigError {
    /// A color is referred to that the palette does not hold.
    UnknownColorName(String),
    /// Two entries of a highlight set define the same style class.
    DuplicateHighlight(String),
    /// The two definitions of one entry are for different style classes.
    MismatchedHighlight(String, String),
}

/// A defect with its names as texts.
pub enum ConfigErrorSpec {
    UnknownColorName(Seq<char>),
    DuplicateHighlight(Seq<char>),
    MismatchedHighlight(Seq<char>, Seq<char>),
}

impl View for ConfigError {
    type V = ConfigErrorSpec;

    open spec fn view(&self) -> ConfigErrorSpec {
        match self {
            ConfigError::UnknownColorName(n) => ConfigErrorSpec::UnknownColorName(n@),
            ConfigError::DuplicateHighlight(n) => ConfigErrorSpec::DuplicateHighlight(n@),
            ConfigError::MismatchedHighlight(a, b) => ConfigErrorSpec::MismatchedHighlight(a@, b@),
        }
    }
}

} // verus!
