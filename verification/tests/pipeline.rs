use associated::model::{AttrDecl, VariantDecl, Declaration, DeclKind, FieldShape, DirectiveKind};
use associated::extract::extract;
use associated::pipeline::{derive_associated, derive_tokens};
use proc_macro2::Span;

fn attr(key: &str, payload: &str) -> AttrDecl {
    AttrDecl {
        key: key.to_string(),
        payload: payload.to_string(),
        payload_tokens: payload.parse().unwrap_or_else(|_| proc_macro2::TokenStream::new()),
        span: Span::call_site(),
    }
}

fn variant(ident: &str, shape: FieldShape, attrs: Vec<AttrDecl>) -> VariantDecl {
    VariantDecl { ident: ident.to_string(), shape, attrs, span: Span::call_site() }
}

fn decl(ident: &str, kind: DeclKind, attrs: Vec<AttrDecl>, variants: Vec<VariantDecl>) -> Declaration {
    Declaration {
        ident: ident.to_string(),
        ident_span: Span::call_site(),
        kind,
        kind_span: Span::call_site(),
        impl_generics: String::new(),
        ty_generics: String::new(),
        where_clause: String::new(),
        attrs,
        variants,
    }
}

#[test]
fn extracts_declared_type() {
    let d = decl(
        "Color",
        DeclKind::Enum,
        vec![attr("associated", "Type = u8")],
        vec![variant("Red", FieldShape::Unit, vec![attr("assoc_const", "1")])],
    );
    let ex = extract(&d).unwrap();
    assert_eq!(ex.assoc_type, "u8");
    assert_eq!(ex.variants.len(), 1);
    assert_eq!(ex.variants[0].ident, "Red");
    assert_eq!(ex.variants[0].kind, DirectiveKind::Constant);
    assert_eq!(ex.variants[0].expr, "1");
}

#[test]
fn exhaustive_one_arm_per_variant_in_order() {
    let d = decl(
        "Sample",
        DeclKind::Enum,
        vec![attr("associated", "Type = u8")],
        vec![
            variant("A", FieldShape::Unit, vec![attr("assoc_const", "1")]),
            variant("B", FieldShape::Unnamed, vec![attr("assoc", "&2")]),
            variant("C", FieldShape::Named, vec![attr("assoc_const", "3")]),
        ],
    );
    let f = derive_associated(&d).unwrap();
    assert_eq!(f.arms.len(), 3);
    assert_eq!(f.arms[0].pattern, "A");
    assert_eq!(f.arms[1].pattern, "B(..)");
    assert_eq!(f.arms[2].pattern, "C { .. }");
}

#[test]
fn kind_fidelity_constant_and_static() {
    let d = decl(
        "Sample",
        DeclKind::Enum,
        vec![attr("associated", "Type = u8")],
        vec![
            variant("A", FieldShape::Unit, vec![attr("assoc_const", "7")]),
            variant("B", FieldShape::Unit, vec![attr("assoc", "&7")]),
        ],
    );
    let f = derive_associated(&d).unwrap();
    assert_eq!(f.arms[0].expression, "{ const ASSOCIATED: u8 = 7; &ASSOCIATED }");
    assert_eq!(f.arms[1].expression, "&7");
}

#[test]
fn first_directive_wins_constant_first() {
    let d = decl(
        "Sample",
        DeclKind::Enum,
        vec![attr("associated", "Type = u8")],
        vec![variant(
            "A",
            FieldShape::Unit,
            vec![attr("assoc_const", "1"), attr("assoc", "&2")],
        )],
    );
    let ex = extract(&d).unwrap();
    assert_eq!(ex.variants[0].kind, DirectiveKind::Constant);
    assert_eq!(ex.variants[0].expr, "1");
}

#[test]
fn first_directive_wins_static_first() {
    let d = decl(
        "Sample",
        DeclKind::Enum,
        vec![attr("associated", "Type = u8")],
        vec![variant(
            "A",
            FieldShape::Unit,
            vec![attr("assoc", "&2"), attr("assoc_const", "1")],
        )],
    );
    let ex = extract(&d).unwrap();
    assert_eq!(ex.variants[0].kind, DirectiveKind::Static);
    assert_eq!(ex.variants[0].expr, "&2");
}

#[test]
fn duplicate_directives_of_one_kind_first_wins() {
    let d = decl(
        "Sample",
        DeclKind::Enum,
        vec![attr("associated", "Type = u8")],
        vec![variant(
            "A",
            FieldShape::Unit,
            vec![attr("assoc", "&1"), attr("assoc", "&2")],
        )],
    );
    let ex = extract(&d).unwrap();
    assert_eq!(ex.variants[0].kind, DirectiveKind::Static);
    assert_eq!(ex.variants[0].expr, "&1");
}

#[test]
fn unrelated_annotations_are_ignored() {
    let d = decl(
        "Sample",
        DeclKind::Enum,
        vec![attr("doc", "\"notes\""), attr("associated", "Type = u8")],
        vec![variant(
            "A",
            FieldShape::Unit,
            vec![attr("serde", "skip"), attr("assoc_const", "1")],
        )],
    );
    let ex = extract(&d).unwrap();
    assert_eq!(ex.assoc_type, "u8");
    assert_eq!(ex.variants[0].kind, DirectiveKind::Constant);
    assert_eq!(ex.variants[0].expr, "1");
}

#[test]
fn generics_pass_through_unchanged() {
    let mut d = decl(
        "Holder",
        DeclKind::Enum,
        vec![attr("associated", "Type = u8")],
        vec![variant("A", FieldShape::Unnamed, vec![attr("assoc_const", "1")])],
    );
    d.impl_generics = "<T: Clone>".to_string();
    d.ty_generics = "<T>".to_string();
    d.where_clause = "where T: Send".to_string();
    let f = derive_associated(&d).unwrap();
    assert_eq!(f.impl_generics, "<T: Clone>");
    assert_eq!(f.ty_generics, "<T>");
    assert_eq!(f.where_clause, "where T: Send");
    let text = f.render();
    assert!(text.starts_with("impl <T: Clone> associated::Associated for Holder<T> where T: Send {"));
}

#[test]
fn zero_variants_render_empty_dispatch() {
    let d = decl(
        "Never",
        DeclKind::Enum,
        vec![attr("associated", "Type = u8")],
        vec![],
    );
    let f = derive_associated(&d).unwrap();
    assert_eq!(f.arms.len(), 0);
    let text = f.render();
    assert_eq!(
        text,
        "impl  associated::Associated for Never  { type AssociatedType = u8; \
         fn get_associated(&self) -> &'static Self::AssociatedType { match self { } } }"
    );
}

#[test]
fn end_to_end_three_variant_render() {
    let d = decl(
        "Sample",
        DeclKind::Enum,
        vec![attr("associated", "Type = &'static str")],
        vec![
            variant("A", FieldShape::Unit, vec![attr("assoc_const", "\"alpha\"")]),
            variant("B", FieldShape::Unnamed, vec![attr("assoc", "&\"bravo\"")]),
            variant("C", FieldShape::Named, vec![attr("assoc_const", "\"gamma\"")]),
        ],
    );
    let f = derive_associated(&d).unwrap();
    assert_eq!(f.assoc_type, "&'static str");
    let text = f.render();
    let expected = "impl  associated::Associated for Sample  { \
        type AssociatedType = &'static str; \
        fn get_associated(&self) -> &'static Self::AssociatedType { match self { \
        Sample::A => { const ASSOCIATED: &'static str = \"alpha\"; &ASSOCIATED }, \
        Sample::B(..) => &\"bravo\", \
        Sample::C { .. } => { const ASSOCIATED: &'static str = \"gamma\"; &ASSOCIATED }, \
        } } }";
    assert_eq!(text, expected);
}

#[test]
fn emitted_tokens_lex() {
    let d = decl(
        "Sample",
        DeclKind::Enum,
        vec![attr("associated", "Type = u8")],
        vec![variant("A", FieldShape::Unit, vec![attr("assoc_const", "1")])],
    );
    let tokens = derive_tokens(&d);
    let text = tokens.to_string();
    assert!(text.contains("AssociatedType"));
    assert!(text.contains("get_associated"));
    assert!(!text.contains("compile_error"));
}

#[test]
fn declared_type_is_kept_verbatim_and_trimmed() {
    let d = decl(
        "Sample",
        DeclKind::Enum,
        vec![attr("associated", "Type =   &'static str  ")],
        vec![variant("A", FieldShape::Unit, vec![attr("assoc_const", "\"alpha\"")])],
    );
    let ex = extract(&d).unwrap();
    assert_eq!(ex.assoc_type, "&'static str");
}

#[test]
fn emitted_tokens_splice_the_directive_expressions() {
    let d = decl(
        "Sample",
        DeclKind::Enum,
        vec![attr("associated", "Type = &'static str")],
        vec![
            variant("A", FieldShape::Unit, vec![attr("assoc_const", "\"alpha\"")]),
            variant("B", FieldShape::Unnamed, vec![attr("assoc", "&\"bravo\"")]),
        ],
    );
    let text = derive_tokens(&d).to_string();
    assert!(text.contains("\"alpha\""));
    assert!(text.contains("\"bravo\""));
    assert!(text.contains("ASSOCIATED"));
    assert!(text.contains("match self"));
    assert!(!text.contains("compile_error"));
}
