use vstd::prelude::*;
use crate::model::{
    AttrDecl, VariantDecl, Declaration, DeclKind, FieldShape, DirectiveKind,
    directive_kind_of_key, first_directive_from, assoc_attr_from,
};
use crate::diag::{
    Diagnostic, DiagnosticKind, missing_type_message_spec, wrong_key_message_spec,
    struct_message_spec, union_message_spec, missing_variant_message_spec,
    missing_variant_message,
};
use crate::outside::{parse_type_binding, check_expression, clone_tokens};
use crate::text::{declared_type_of, declared_type_text};

verus! {

/// One variant's validated metadata: identifier, field shape, the winning
/// directive's kind, and that directive's expression, both as its raw text
/// and as its original tokens (their source locations kept for emission).
#[derive(Debug)]
pub struct VariantMetadata {
    pub ident: String,
    pub shape: FieldShape,
    pub kind: DirectiveKind,
    pub expr: String,
    pub expr_tokens: proc_macro2::TokenStream,
}

/// A successful extraction: the declared associated type, as its text and as
/// the host parser's tokens, and the per-variant metadata, aligned one-to-one
/// with the declaration's variants.
#[derive(Debug)]
pub struct Extraction {
    pub assoc_type: String,
    pub assoc_type_tokens: proc_macro2::TokenStream,
    pub variants: Vec<VariantMetadata>,
}

/// `m` is the metadata extraction owes for variant `v`: same identifier and
/// shape, and kind, expression text and expression tokens taken from the
/// first directive-keyed annotation of `v`.
pub open spec fn meta_matches(v: VariantDecl, m: VariantMetadata) -> bool {
    &&& m.ident@ == v.ident@
    &&& m.shape == v.shape
    &&& (first_directive_from(v.attrs@, 0) matches Some(j)
        && directive_kind_of_key(v.attrs@[j].key@) == Some(m.kind)
        && m.expr@ == v.attrs@[j].payload@
        && m.expr_tokens == v.attrs@[j].payload_tokens)
}

/// Index of the first variant at or after `i` that carries no directive.
pub open spec fn first_missing_variant_from(vs: Seq<VariantDecl>, i: int) -> Option<int>
    decreases vs.len() - i,
{
    if i < 0 || i >= vs.len() {
        None
    } else if first_directive_from(vs[i].attrs@, 0) is None {
        Some(i)
    } else {
        first_missing_variant_from(vs, i + 1)
    }
}

/// The structural conditions extraction checks itself: an `associated`
/// annotation is present, the declaration is a tagged union, and every
/// variant carries a directive. The host parser decides the rest (whether the
/// type binding and the expressions parse), so a declaration meeting these
/// can still fail with the parser's own diagnostic.
pub open spec fn extraction_passable(decl: Declaration) -> bool {
    &&& assoc_attr_from(decl.attrs@, 0) is Some
    &&& decl.kind == DeclKind::Enum
    &&& first_missing_variant_from(decl.variants@, 0) is None
}

/// The token text of the declared associated type, sliced verbatim out of the
/// type directive's payload.
pub open spec fn declared_type_spec(decl: Declaration) -> Seq<char> {
    declared_type_of(decl.attrs@[assoc_attr_from(decl.attrs@, 0)->Some_0].payload@)
}

/// A malformed-expression diagnostic sits at variant `i`'s winning directive,
/// and every variant up to and including `i` carries a directive (the scan is
/// in declaration order and had not failed structurally before `i`).
pub open spec fn malformed_at_variant(decl: Declaration, d: Diagnostic, i: int) -> bool {
    &&& 0 <= i < decl.variants@.len()
    &&& forall|k: int|
        0 <= k <= i ==> first_directive_from(#[trigger] decl.variants@[k].attrs@, 0) is Some
    &&& (first_directive_from(decl.variants@[i].attrs@, 0) matches Some(j) && d.span
        == decl.variants@[i].attrs@[j].span)
}

/// What a failed extraction owes, by diagnostic kind. Each kind's content and
/// the structural facts it presupposes are exact here. Which kind comes out
/// depends on the host parser's answers, so this predicate alone cannot force
/// it; the decision taken after each answer is pinned, if and only if per
/// case, by `resolve_type_directive` and `resolve_variant`, which `extract`
/// applies in pipeline order. An `UnrecognizedDirectiveKey` diagnostic is
/// located at the binding's key identifier, which the host parser hands back,
/// so its location is stated there and not restated here.
pub open spec fn extract_err_spec(decl: Declaration, d: Diagnostic) -> bool {
    let ai = assoc_attr_from(decl.attrs@, 0);
    match d.kind {
        DiagnosticKind::MissingTypeDirective => {
            &&& ai is None
            &&& d.message@ == missing_type_message_spec()
            &&& d.span == decl.ident_span
        },
        DiagnosticKind::UnrecognizedDirectiveKey => {
            &&& ai is Some
            &&& d.message@ == wrong_key_message_spec()
        },
        DiagnosticKind::UnsupportedDeclarationKind => {
            &&& ai is Some
            &&& ((decl.kind == DeclKind::Struct && d.message@ == struct_message_spec()) || (
            decl.kind == DeclKind::Union && d.message@ == union_message_spec()))
            &&& d.span == decl.kind_span
        },
        DiagnosticKind::MissingVariantDirective => {
            &&& ai is Some
            &&& decl.kind == DeclKind::Enum
            &&& (first_missing_variant_from(decl.variants@, 0) matches Some(i) && d.message@
                == missing_variant_message_spec(decl.ident@, decl.variants@[i].ident@) && d.span
                == decl.variants@[i].span)
        },
        DiagnosticKind::MalformedExpression => {
            ai matches Some(a) && (d.span == decl.attrs@[a].span || (decl.kind == DeclKind::Enum
                && exists|i: int| malformed_at_variant(decl, d, i)))
        },
    }
}

/// What a successful extraction owes: the structural conditions hold, the
/// associated type's text is sliced verbatim from the type directive, and the
/// metadata is aligned one-to-one with the variants in declaration order.
/// The type's tokens come from the host parser and are not restated.
pub open spec fn extract_ok_spec(decl: Declaration, ex: Extraction) -> bool {
    &&& extraction_passable(decl)
    &&& ex.assoc_type@ == declared_type_spec(decl)
    &&& ex.variants@.len() == decl.variants@.len()
    &&& forall|i: int|
        0 <= i < decl.variants@.len() ==> meta_matches(
            decl.variants@[i],
            #[trigger] ex.variants@[i],
        )
}

/// True exactly when the text of `k` equals the text of `lit`.
fn string_eq_lit(k: &String, lit: &str) -> (r: bool)
    ensures
        r == (k@ == lit@),
{
    let s: String = lit.to_owned();
    *k == s
}

/// The directive kind a key selects, as `directive_kind_of_key` says.
fn key_to_kind(k: &String) -> (r: Option<DirectiveKind>)
    ensures
        r == directive_kind_of_key(k@),
{
    if string_eq_lit(k, "assoc") {
        Some(DirectiveKind::Static)
    } else if string_eq_lit(k, "assoc_const") {
        Some(DirectiveKind::Constant)
    } else {
        None
    }
}

/// Finds the first directive-keyed annotation, with its kind: first wins,
/// later annotations have no effect.
pub fn find_variant_directive(attrs: &Vec<AttrDecl>) -> (r: Option<(usize, DirectiveKind)>)
    ensures
        match r {
            Some(p) => p.0 < attrs@.len() && first_directive_from(attrs@, 0) == Some(p.0 as int)
                && directive_kind_of_key(attrs@[p.0 as int].key@) == Some(p.1),
            None => first_directive_from(attrs@, 0) is None,
        },
{
    let mut i: usize = 0;
    while i < attrs.len()
        invariant
            i <= attrs@.len(),
            first_directive_from(attrs@, 0) == first_directive_from(attrs@, i as int),
        decreases attrs@.len() - i,
    {
        match key_to_kind(&attrs[i].key) {
            Some(kind) => {
                assert(first_directive_from(attrs@, i as int) == Some(i as int));
                return Some((i, kind));
            },
            None => {
                assert(first_directive_from(attrs@, i as int) == first_directive_from(
                    attrs@,
                    i as int + 1,
                ));
            },
        }
        i = i + 1;
    }
    None
}

/// Finds the first `associated` annotation on the declaration itself.
pub fn find_assoc_attr(attrs: &Vec<AttrDecl>) -> (r: Option<usize>)
    ensures
        match r {
            Some(i) => i < attrs@.len() && assoc_attr_from(attrs@, 0) == Some(i as int),
            None => assoc_attr_from(attrs@, 0) is None,
        },
{
    let mut i: usize = 0;
    while i < attrs.len()
        invariant
            i <= attrs@.len(),
            assoc_attr_from(attrs@, 0) == assoc_attr_from(attrs@, i as int),
        decreases attrs@.len() - i,
    {
        if string_eq_lit(&attrs[i].key, "associated") {
            assert(assoc_attr_from(attrs@, i as int) == Some(i as int));
            return Some(i);
        }
        assert(assoc_attr_from(attrs@, i as int) == assoc_attr_from(attrs@, i as int + 1));
        i = i + 1;
    }
    None
}

/// Decides the type directive from the host parser's answer on its payload,
/// if and only if per case: the parser's message is carried unchanged at the
/// annotation's location; a binding whose name is not `Type` is refused with
/// the wrong-key message at the name's own location; a binding named `Type`
/// on a record or a raw union is refused at the offending keyword; and only
/// when none of these holds do the declared type's tokens come back.
pub fn resolve_type_directive(
    decl: &Declaration,
    attr_index: usize,
    parsed: Result<(String, proc_macro2::Span, proc_macro2::TokenStream), String>,
) -> (r: Result<proc_macro2::TokenStream, Diagnostic>)
    requires
        attr_index < decl.attrs@.len(),
    ensures
        match r {
            Ok(ty) => decl.kind == DeclKind::Enum && (parsed matches Ok(p) && p.0@ == "Type"@
                && ty == p.2),
            Err(d) => match parsed {
                Err(m) => {
                    &&& d.kind == DiagnosticKind::MalformedExpression
                    &&& d.message@ == m@
                    &&& d.span == decl.attrs@[attr_index as int].span
                },
                Ok(p) => if p.0@ != "Type"@ {
                    &&& d.kind == DiagnosticKind::UnrecognizedDirectiveKey
                    &&& d.message@ == wrong_key_message_spec()
                    &&& d.span == p.1
                } else if decl.kind == DeclKind::Struct {
                    &&& d.kind == DiagnosticKind::UnsupportedDeclarationKind
                    &&& d.message@ == struct_message_spec()
                    &&& d.span == decl.kind_span
                } else if decl.kind == DeclKind::Union {
                    &&& d.kind == DiagnosticKind::UnsupportedDeclarationKind
                    &&& d.message@ == union_message_spec()
                    &&& d.span == decl.kind_span
                } else {
                    false
                },
            },
        },
{
    let p = match parsed {
        Ok(p) => p,
        Err(m) => {
            return Err(Diagnostic {
                kind: DiagnosticKind::MalformedExpression,
                message: m,
                span: decl.attrs[attr_index].span.clone(),
            });
        },
    };
    let (name, name_span, ty_tokens) = p;
    if !string_eq_lit(&name, "Type") {
        return Err(Diagnostic {
            kind: DiagnosticKind::UnrecognizedDirectiveKey,
            message: "Expected `Type`".to_owned(),
            span: name_span,
        });
    }
    match decl.kind {
        DeclKind::Struct => Err(Diagnostic {
            kind: DiagnosticKind::UnsupportedDeclarationKind,
            message: "Cannot derive `Associated` for structs".to_owned(),
            span: decl.kind_span.clone(),
        }),
        DeclKind::Union => Err(Diagnostic {
            kind: DiagnosticKind::UnsupportedDeclarationKind,
            message: "Cannot derive `Associated` for unions".to_owned(),
            span: decl.kind_span.clone(),
        }),
        DeclKind::Enum => Ok(ty_tokens),
    }
}

/// Decides one variant from the host parser's answer on its winning
/// directive's payload, if and only if per case: the parser's message is
/// carried unchanged at the directive's own location; and only when the
/// payload parsed does the variant's metadata come back, taken verbatim from
/// the winning directive.
pub fn resolve_variant(
    v: &VariantDecl,
    directive: usize,
    kind: DirectiveKind,
    checked: Option<String>,
) -> (r: Result<VariantMetadata, Diagnostic>)
    requires
        directive < v.attrs@.len(),
        first_directive_from(v.attrs@, 0) == Some(directive as int),
        directive_kind_of_key(v.attrs@[directive as int].key@) == Some(kind),
    ensures
        match r {
            Ok(m) => checked is None && meta_matches(*v, m),
            Err(d) => checked matches Some(msg) && {
                &&& d.kind == DiagnosticKind::MalformedExpression
                &&& d.message@ == msg@
                &&& d.span == v.attrs@[directive as int].span
            },
        },
{
    let a = &v.attrs[directive];
    match checked {
        Some(msg) => Err(Diagnostic {
            kind: DiagnosticKind::MalformedExpression,
            message: msg,
            span: a.span.clone(),
        }),
        None => Ok(VariantMetadata {
            ident: v.ident.clone(),
            shape: v.shape,
            kind,
            expr: a.payload.clone(),
            expr_tokens: clone_tokens(&a.payload_tokens),
        }),
    }
}

/// The Annotation Extractor: validates the declaration and its variants and
/// hands back either the declared type with the per-variant metadata, or the
/// first failure as a located diagnostic. Single pass, fail fast: a
/// declaration that fails a structural check never extracts, and the
/// structural parts of the result are pinned exactly, whatever the host
/// parser answered for the payloads. The decisions taken after each parser
/// answer are pinned, if and only if per case, by `resolve_type_directive`
/// and `resolve_variant`, which this function applies in pipeline order.
pub fn extract(decl: &Declaration) -> (r: Result<Extraction, Diagnostic>)
    ensures
        match r {
            Ok(ex) => extract_ok_spec(*decl, ex),
            Err(d) => extract_err_spec(*decl, d),
        },
        !extraction_passable(*decl) ==> r is Err,
{
    let ai: usize = match find_assoc_attr(&decl.attrs) {
        Some(i) => i,
        None => {
            return Err(Diagnostic {
                kind: DiagnosticKind::MissingTypeDirective,
                message: "Missing `associated` attribute".to_owned(),
                span: decl.ident_span.clone(),
            });
        },
    };
    let attr = &decl.attrs[ai];
    let parsed = parse_type_binding(attr.payload.as_str());
    let assoc_type_tokens: proc_macro2::TokenStream = match resolve_type_directive(
        decl,
        ai,
        parsed,
    ) {
        Ok(ty) => ty,
        Err(d) => {
            return Err(d);
        },
    };
    let assoc_type: String = declared_type_text(attr.payload.as_str());
    let mut metas: Vec<VariantMetadata> = Vec::new();
    let mut i: usize = 0;
    while i < decl.variants.len()
        invariant
            i <= decl.variants@.len(),
            assoc_attr_from(decl.attrs@, 0) is Some,
            decl.kind == DeclKind::Enum,
            assoc_type@ == declared_type_spec(*decl),
            first_missing_variant_from(decl.variants@, 0) == first_missing_variant_from(
                decl.variants@,
                i as int,
            ),
            metas@.len() == i,
            forall|j: int| 0 <= j < i ==> meta_matches(decl.variants@[j], #[trigger] metas@[j]),
        decreases decl.variants@.len() - i,
    {
        let v = &decl.variants[i];
        match find_variant_directive(&v.attrs) {
            None => {
                assert(first_missing_variant_from(decl.variants@, i as int) == Some(i as int));
                return Err(Diagnostic {
                    kind: DiagnosticKind::MissingVariantDirective,
                    message: missing_variant_message(&decl.ident, &v.ident),
                    span: v.span.clone(),
                });
            },
            Some(p) => {
                let (j, kind) = p;
                let checked = check_expression(v.attrs[j].payload.as_str());
                match resolve_variant(v, j, kind, checked) {
                    Err(d) => {
                        proof {
                            assert forall|k: int| 0 <= k <= i as int
                                implies first_directive_from(
                                #[trigger] decl.variants@[k].attrs@,
                                0,
                            ) is Some by {
                                if k < i as int {
                                    assert(meta_matches(decl.variants@[k], metas@[k]));
                                }
                            }
                            assert(malformed_at_variant(*decl, d, i as int));
                        }
                        return Err(d);
                    },
                    Ok(m) => {
                        metas.push(m);
                        assert(first_missing_variant_from(decl.variants@, i as int)
                            == first_missing_variant_from(decl.variants@, i as int + 1));
                    },
                }
            },
        }
        i = i + 1;
    }
    Ok(Extraction { assoc_type, assoc_type_tokens, variants: metas })
}

} // verus!
