use vstd::prelude::*;

verus! {

/// The field shape of one variant of a tagged union. It decides only which
/// wildcard pattern the dispatch arm gets, never the generated value.
#[derive(Clone, Copy, PartialEq, Eq, Structural, Debug)]
pub enum FieldShape {
    /// The variant carries no fields.
    Unit,
    /// The variant carries positional fields.
    Unnamed,
    /// The variant carries named fields.
    Named,
}

/// What kind of declaration the host parser handed over. Only tagged unions
/// are supported; the other two are rejected with a diagnostic.
#[derive(Clone, Copy, PartialEq, Eq, Structural, Debug)]
pub enum DeclKind {
    /// A tagged union (a sum type with a closed set of variants).
    Enum,
    /// A single-shape record.
    Struct,
    /// A raw memory union.
    Union,
}

/// Which of the two per-variant directives chose the associated value.
#[derive(Clone, Copy, PartialEq, Eq, Structural, Debug)]
pub enum DirectiveKind {
    /// `assoc_const`: bind the expression to a scoped constant of the declared
    /// associated type and return a reference to that constant.
    Constant,
    /// `assoc`: emit the expression verbatim as the arm's result.
    Static,
}

/// One annotation attached to a declaration or to a variant: its key, its
/// payload both as raw token text and as the original tokens (whose source
/// locations the emitted code keeps), and where the annotation stands.
#[derive(Debug)]
pub struct AttrDecl {
    pub key: String,
    pub payload: String,
    pub payload_tokens: proc_macro2::TokenStream,
    pub span: proc_macro2::Span,
}

/// One variant of the input declaration: its identifier, its field shape, its
/// annotations in declaration order, and where it stands in the source.
#[derive(Debug)]
pub struct VariantDecl {
    pub ident: String,
    pub shape: FieldShape,
    pub attrs: Vec<AttrDecl>,
    pub span: proc_macro2::Span,
}

/// The input declaration as the host parser produced it: identifier, kind,
/// generic parameters (already split for an implementation header and passed
/// through unchanged), top-level annotations, and the ordered variants.
#[derive(Debug)]
pub struct Declaration {
    pub ident: String,
    pub ident_span: proc_macro2::Span,
    pub kind: DeclKind,
    pub kind_span: proc_macro2::Span,
    pub impl_generics: String,
    pub ty_generics: String,
    pub where_clause: String,
    pub attrs: Vec<AttrDecl>,
    pub variants: Vec<VariantDecl>,
}

/// The directive kind a key selects: `assoc` picks the verbatim form,
/// `assoc_const` the constant-binding form, anything else is no directive.
pub open spec fn directive_kind_of_key(k: Seq<char>) -> Option<DirectiveKind> {
    if k == "assoc"@ {
        Some(DirectiveKind::Static)
    } else if k == "assoc_const"@ {
        Some(DirectiveKind::Constant)
    } else {
        None
    }
}

/// Index of the first directive-keyed annotation at or after `i`, if any.
pub open spec fn first_directive_from(attrs: Seq<AttrDecl>, i: int) -> Option<int>
    decreases attrs.len() - i,
{
    if i < 0 || i >= attrs.len() {
        None
    } else if directive_kind_of_key(attrs[i].key@) is Some {
        Some(i)
    } else {
        first_directive_from(attrs, i + 1)
    }
}

/// Index of the first `associated` annotation at or after `i`, if any.
pub open spec fn assoc_attr_from(attrs: Seq<AttrDecl>, i: int) -> Option<int>
    decreases attrs.len() - i,
{
    if i < 0 || i >= attrs.len() {
        None
    } else if attrs[i].key@ == "associated"@ {
        Some(i)
    } else {
        assoc_attr_from(attrs, i + 1)
    }
}

} // verus!
