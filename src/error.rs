use vstd::prelude::*;

verus! {

/// Errors reported by the core.
#[derive(Debug, Clone, PartialEq, Eq)]
pub enum ResymCoreError {
    /// The requested type exists in none of the PDB files involved.
    TypeNameNotFoundError(String),
    /// The requested module exists in none of the PDB files involved.
    ModuleNotFoundError(String),
    /// The requested symbol exists in none of the PDB files involved.
    SymbolNotFoundError(String),
    /// A primitive flavor name that is not recognized.
    ParsePrimitiveFlavorError(String),
    /// An access specifier flavor name that is not recognized.
    ParseAccessSpecifierFlavorError(String),
    /// A construct that the formatter cannot spell; the payload is a
    /// placeholder that a renderer may emit instead.
    NotImplementedError(String),
}

pub type Result<T> = core::result::Result<T, ResymCoreError>;

} // verus!
