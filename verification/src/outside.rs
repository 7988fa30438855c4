use vstd::prelude::*;

verus! {

// The host toolchain's source-location and token-stream types. Both are
// opaque: values of them are only carried through or handed to the host.
#[verifier::external_type_specification]
#[verifier::external_body]
pub struct ExSpan(proc_macro2::Span);

#[verifier::external_type_specification]
#[verifier::external_body]
pub struct ExTokenStream(proc_macro2::TokenStream);

/// Relies on `proc_macro2::Span` deriving `Copy, Clone`: cloning a span hands
/// back the span itself.
pub assume_specification[ <proc_macro2::Span as Clone>::clone ](
    s: &proc_macro2::Span,
) -> (r: proc_macro2::Span)
    ensures
        r == *s,
;

/// Relies on `Clone` for `proc_macro2::TokenStream`: the clone holds the same
/// token sequence as the original.
#[verifier::external_body]
pub fn clone_tokens(t: &proc_macro2::TokenStream) -> (r: proc_macro2::TokenStream)
    ensures
        r == *t,
{
    t.clone()
}

/// Relies on `syn::parse_str::<syn::Binding>` (an `ident = type` pair in the
/// host grammar): on success hands back the binding's name as text, the
/// name's source location, and the type's tokens (their original source
/// locations kept); on failure the parser's message. Whether a given text
/// parses, and how tokens render as text, differ between the host compiler's
/// own printer and the standalone one, so nothing is promised of the outcome.
#[verifier::external_body]
pub fn parse_type_binding(s: &str) -> Result<
    (String, proc_macro2::Span, proc_macro2::TokenStream),
    String,
> {
    match syn::parse_str::<syn::Binding>(s) {
        Ok(b) => {
            let ty = quote::ToTokens::to_token_stream(&b.ty);
            Ok((b.ident.to_string(), b.ident.span(), ty))
        },
        Err(e) => Err(e.to_string()),
    }
}

/// Relies on `syn::parse_str::<syn::Expr>`: `None` when the text parsed as a
/// host-grammar expression, otherwise the parser's message. The outcome can
/// differ between the host compiler's lexer and the standalone one, so
/// nothing is promised of it.
#[verifier::external_body]
pub fn check_expression(s: &str) -> Option<String> {
    match syn::parse_str::<syn::Expr>(s) {
        Ok(_) => None,
        Err(e) => Some(e.to_string()),
    }
}

/// Relies on `syn::Error::new` and `syn::Error::to_compile_error`: builds the
/// `compile_error!` invocation that surfaces `message` at `span`.
#[verifier::external_body]
pub fn compile_error_tokens(span: proc_macro2::Span, message: &str) -> proc_macro2::TokenStream {
    syn::Error::new(span, message).to_compile_error()
}

/// Relies on `<proc_macro2::TokenStream as core::str::FromStr>::from_str`:
/// turns source text into a token stream, or hands back the lexer's message.
#[verifier::external_body]
pub fn source_tokens(s: &str) -> Result<proc_macro2::TokenStream, String> {
    match s.parse::<proc_macro2::TokenStream>() {
        Ok(t) => Ok(t),
        Err(e) => Err(e.to_string()),
    }
}

/// Relies on `Extend<proc_macro2::TokenStream>` for `proc_macro2::TokenStream`:
/// the result is `a`'s tokens followed by `b`'s, each keeping its source
/// location.
#[verifier::external_body]
pub fn concat_tokens(
    a: proc_macro2::TokenStream,
    b: proc_macro2::TokenStream,
) -> proc_macro2::TokenStream {
    let mut a = a;
    a.extend(core::iter::once(b));
    a
}

/// Relies on `proc_macro2::Group::new` with `Delimiter::Brace`: wraps the
/// given tokens in one brace-delimited group.
#[verifier::external_body]
pub fn brace_group(inner: proc_macro2::TokenStream) -> proc_macro2::TokenStream {
    proc_macro2::TokenStream::from(proc_macro2::TokenTree::Group(proc_macro2::Group::new(
        proc_macro2::Delimiter::Brace,
        inner,
    )))
}

} // verus!
