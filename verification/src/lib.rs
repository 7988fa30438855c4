use vstd::prelude::*;

pub mod assemble;
pub mod diag;
pub mod extract;
pub mod laws;
pub mod model;
pub mod outside;
pub mod pipeline;
pub mod synth;
pub mod text;

verus! {

/// Associates each variant of a tagged union with a constant of one shared type.
pub trait Associated {
    /// The type of the constants associated with the variants.
    type AssociatedType;

    /// Returns a reference, alive for the whole program, to the constant
    /// associated with this variant.
    fn get_associated(&self) -> &'static Self::AssociatedType;
}

/// Fallible counterpart of `Associated`: a variant may have no constant.
pub trait TryAssociated {
    /// The type of the constants associated with the variants.
    type AssociatedType;

    /// Returns the constant associated with this variant, if it has one.
    fn try_get_associated(&self) -> Option<&'static Self::AssociatedType>;
}

} // verus!
