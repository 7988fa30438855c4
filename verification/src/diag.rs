use vstd::prelude::*;
use vstd::string::StringExecFns;
use crate::outside::compile_error_tokens;

verus! {

/// The error taxonomy. Every failure of the pipeline is exactly one of these,
/// surfaced at the source location of the offending construct.
#[derive(Clone, Copy, PartialEq, Eq, Structural, Debug)]
pub enum DiagnosticKind {
    /// The top-level associated-type annotation is absent.
    MissingTypeDirective,
    /// The top-level annotation is present but its key is not `Type`.
    UnrecognizedDirectiveKey,
    /// The declaration is a record or a raw memory union, not a tagged union.
    UnsupportedDeclarationKind,
    /// A variant has neither an `assoc` nor an `assoc_const` annotation.
    MissingVariantDirective,
    /// A directive's payload failed to parse; the host parser's message is
    /// carried unchanged.
    MalformedExpression,
}

/// A structured compile-time error: what went wrong, the human-readable
/// message, and the source location it is keyed to.
#[derive(Debug)]
pub struct Diagnostic {
    pub kind: DiagnosticKind,
    pub message: String,
    pub span: proc_macro2::Span,
}

impl Diagnostic {
    /// Converts this diagnostic into a fragment that, emitted in place of an
    /// implementation, surfaces the message at its source location.
    pub fn report(&self) -> proc_macro2::TokenStream {
        compile_error_tokens(self.span.clone(), self.message.as_str())
    }
}

pub open spec fn missing_type_message_spec() -> Seq<char> {
    "Missing `associated` attribute"@
}

pub open spec fn wrong_key_message_spec() -> Seq<char> {
    "Expected `Type`"@
}

pub open spec fn struct_message_spec() -> Seq<char> {
    "Cannot derive `Associated` for structs"@
}

pub open spec fn union_message_spec() -> Seq<char> {
    "Cannot derive `Associated` for unions"@
}

/// The message for a variant that carries no recognized directive, naming
/// both the enclosing declaration and the variant.
pub open spec fn missing_variant_message_spec(
    enum_ident: Seq<char>,
    variant_ident: Seq<char>,
) -> Seq<char> {
    "Cannot derive `Associated` for `"@ + enum_ident
        + "`: Missing `assoc` or `assoc_const` attribute on variant `"@ + variant_ident + "`"@
}

/// Builds the missing-directive message for one variant.
pub fn missing_variant_message(enum_ident: &String, variant_ident: &String) -> (m: String)
    ensures
        m@ == missing_variant_message_spec(enum_ident@, variant_ident@),
{
    let mut m: String = "Cannot derive `Associated` for `".to_owned();
    m.append(enum_ident.as_str());
    m.append("`: Missing `assoc` or `assoc_const` attribute on variant `");
    m.append(variant_ident.as_str());
    m.append("`");
    proof {
        assert(m@ =~= missing_variant_message_spec(enum_ident@, variant_ident@));
    }
    m
}

} // verus!
