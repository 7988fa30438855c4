use associated::model::{AttrDecl, VariantDecl, Declaration, DeclKind, FieldShape};
use associated::diag::DiagnosticKind;
use associated::extract::extract;
use associated::pipeline::{derive_associated, derive_tokens};
use proc_macro2::Span;

fn attr(key: &str, payload: &str) -> AttrDecl {
    AttrDecl {
        key: key.to_string(),
        payload: payload.to_string(),
        payload_tokens: payload.parse().unwrap_or_else(|_| proc_macro2::TokenStream::new()),
        span: Span::call_site(),
    }
}

fn variant(ident: &str, shape: FieldShape, attrs: Vec<AttrDecl>) -> VariantDecl {
    VariantDecl { ident: ident.to_string(), shape, attrs, span: Span::call_site() }
}

fn decl(ident: &str, kind: DeclKind, attrs: Vec<AttrDecl>, variants: Vec<VariantDecl>) -> Declaration {
    Declaration {
        ident: ident.to_string(),
        ident_span: Span::call_site(),
        kind,
        kind_span: Span::call_site(),
        impl_generics: String::new(),
        ty_generics: String::new(),
        where_clause: String::new(),
        attrs,
        variants,
    }
}

#[test]
fn missing_type_directive() {
    let d = decl(
        "Sample",
        DeclKind::Enum,
        vec![],
        vec![variant("A", FieldShape::Unit, vec![attr("assoc_const", "1")])],
    );
    let e = extract(&d).unwrap_err();
    assert_eq!(e.kind, DiagnosticKind::MissingTypeDirective);
    assert_eq!(e.message, "Missing `associated` attribute");
}

#[test]
fn missing_type_directive_other_keys_only() {
    let d = decl(
        "Sample",
        DeclKind::Enum,
        vec![attr("doc", "\"notes\"")],
        vec![variant("A", FieldShape::Unit, vec![attr("assoc_const", "1")])],
    );
    let e = extract(&d).unwrap_err();
    assert_eq!(e.kind, DiagnosticKind::MissingTypeDirective);
}

#[test]
fn unrecognized_directive_key() {
    let d = decl(
        "Sample",
        DeclKind::Enum,
        vec![attr("associated", "Kind = u8")],
        vec![variant("A", FieldShape::Unit, vec![attr("assoc_const", "1")])],
    );
    let e = extract(&d).unwrap_err();
    assert_eq!(e.kind, DiagnosticKind::UnrecognizedDirectiveKey);
    assert_eq!(e.message, "Expected `Type`");
}

#[test]
fn malformed_type_binding() {
    let d = decl(
        "Sample",
        DeclKind::Enum,
        vec![attr("associated", "= = =")],
        vec![variant("A", FieldShape::Unit, vec![attr("assoc_const", "1")])],
    );
    let e = extract(&d).unwrap_err();
    assert_eq!(e.kind, DiagnosticKind::MalformedExpression);
    assert!(!e.message.is_empty());
}

#[test]
fn rejects_struct() {
    let d = decl(
        "Point",
        DeclKind::Struct,
        vec![attr("associated", "Type = u8")],
        vec![],
    );
    let e = derive_associated(&d).unwrap_err();
    assert_eq!(e.kind, DiagnosticKind::UnsupportedDeclarationKind);
    assert_eq!(e.message, "Cannot derive `Associated` for structs");
}

#[test]
fn rejects_union() {
    let d = decl(
        "Raw",
        DeclKind::Union,
        vec![attr("associated", "Type = u8")],
        vec![],
    );
    let e = derive_associated(&d).unwrap_err();
    assert_eq!(e.kind, DiagnosticKind::UnsupportedDeclarationKind);
    assert_eq!(e.message, "Cannot derive `Associated` for unions");
}

#[test]
fn missing_variant_directive_names_the_variant() {
    let d = decl(
        "Sample",
        DeclKind::Enum,
        vec![attr("associated", "Type = u8")],
        vec![
            variant("A", FieldShape::Unit, vec![attr("assoc_const", "1")]),
            variant("B", FieldShape::Unnamed, vec![]),
            variant("C", FieldShape::Named, vec![attr("assoc_const", "3")]),
        ],
    );
    let e = derive_associated(&d).unwrap_err();
    assert_eq!(e.kind, DiagnosticKind::MissingVariantDirective);
    assert_eq!(
        e.message,
        "Cannot derive `Associated` for `Sample`: Missing `assoc` or `assoc_const` attribute on variant `B`"
    );
}

#[test]
fn fail_fast_first_missing_variant_reported() {
    let d = decl(
        "Sample",
        DeclKind::Enum,
        vec![attr("associated", "Type = u8")],
        vec![
            variant("A", FieldShape::Unit, vec![attr("note", "1")]),
            variant("B", FieldShape::Unit, vec![]),
        ],
    );
    let e = extract(&d).unwrap_err();
    assert_eq!(e.kind, DiagnosticKind::MissingVariantDirective);
    assert_eq!(
        e.message,
        "Cannot derive `Associated` for `Sample`: Missing `assoc` or `assoc_const` attribute on variant `A`"
    );
}

#[test]
fn malformed_variant_expression() {
    let d = decl(
        "Sample",
        DeclKind::Enum,
        vec![attr("associated", "Type = u8")],
        vec![variant("A", FieldShape::Unit, vec![attr("assoc", "1 +")])],
    );
    let e = extract(&d).unwrap_err();
    assert_eq!(e.kind, DiagnosticKind::MalformedExpression);
    assert!(!e.message.is_empty());
}

#[test]
fn failure_emits_compile_error_fragment() {
    let d = decl(
        "Sample",
        DeclKind::Enum,
        vec![],
        vec![variant("A", FieldShape::Unit, vec![])],
    );
    let tokens = derive_tokens(&d);
    let text = tokens.to_string();
    assert!(text.contains("compile_error"));
    assert!(text.contains("Missing `associated` attribute"));
}
