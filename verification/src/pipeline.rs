use vstd::prelude::*;
use vstd::string::StringExecFns;
use crate::model::{
    VariantDecl, Declaration, DeclKind, directive_kind_of_key, first_directive_from,
};
use crate::diag::Diagnostic;
use crate::extract::{
    Extraction, extract, extract_err_spec, extract_ok_spec, meta_matches, extraction_passable,
    declared_type_spec,
};
use crate::synth::{ArmFragment, synthesize, arm_matches, arm_pattern_spec, arm_expression_spec, arm_head_text};
use crate::assemble::{ImplementationFragment, assemble};
use crate::outside::{source_tokens, concat_tokens, brace_group, clone_tokens};

verus! {

/// The arm the pipeline owes for variant `v` under associated type `ty`: its
/// pattern is the variant's own, and its expression comes from the first
/// directive-keyed annotation of `v`, by that directive's kind.
pub open spec fn arm_for_variant(v: VariantDecl, ty: Seq<char>, a: ArmFragment) -> bool {
    first_directive_from(v.attrs@, 0) matches Some(j) && {
        &&& a.pattern@ == arm_pattern_spec(v.ident@, v.shape)
        &&& a.expression@ == arm_expression_spec(
            directive_kind_of_key(v.attrs@[j].key@)->Some_0,
            ty,
            v.attrs@[j].payload@,
        )
    }
}

/// The fragment the pipeline owes for a declaration: identity, generics and
/// associated type carried through unchanged, and exactly one arm per
/// variant, in declaration order.
pub open spec fn fragment_matches(decl: Declaration, f: ImplementationFragment) -> bool {
    &&& f.enum_ident@ == decl.ident@
    &&& f.impl_generics@ == decl.impl_generics@
    &&& f.ty_generics@ == decl.ty_generics@
    &&& f.where_clause@ == decl.where_clause@
    &&& f.assoc_type@ == declared_type_spec(decl)
    &&& f.arms@.len() == decl.variants@.len()
    &&& forall|i: int|
        0 <= i < decl.variants@.len() ==> arm_for_variant(
            decl.variants@[i],
            declared_type_spec(decl),
            #[trigger] f.arms@[i],
        )
}

/// The whole pipeline: extraction, per-variant synthesis, assembly. Returns
/// the implementation fragment, or the first failure as a located diagnostic;
/// never a mix, never more than one diagnostic. A declaration that fails a
/// structural check never yields a fragment; one that passes them can still
/// fail with the host parser's own diagnostic on a payload -- the decision
/// taken after each parser answer is pinned, if and only if per case, by
/// `resolve_type_directive` and `resolve_variant` in the extractor.
pub fn derive_associated(decl: &Declaration) -> (r: Result<ImplementationFragment, Diagnostic>)
    ensures
        r matches Ok(f) ==> fragment_matches(*decl, f),
        r matches Err(d) ==> extract_err_spec(*decl, d),
        !extraction_passable(*decl) ==> r is Err,
{
    let ex = match extract(decl) {
        Ok(ex) => ex,
        Err(d) => {
            return Err(d);
        },
    };
    let mut arms: Vec<ArmFragment> = Vec::new();
    let mut i: usize = 0;
    while i < ex.variants.len()
        invariant
            i <= ex.variants@.len(),
            extract_ok_spec(*decl, ex),
            arms@.len() == i,
            forall|j: int|
                0 <= j < i ==> arm_matches(ex.variants@[j], ex.assoc_type@, #[trigger] arms@[j]),
        decreases ex.variants@.len() - i,
    {
        let a = synthesize(&ex.variants[i], &ex.assoc_type);
        arms.push(a);
        i = i + 1;
    }
    proof {
        assert forall|k: int| 0 <= k < decl.variants@.len() implies arm_for_variant(
            decl.variants@[k],
            declared_type_spec(*decl),
            #[trigger] arms@[k],
        ) by {
            assert(meta_matches(decl.variants@[k], ex.variants@[k]));
            assert(arm_matches(ex.variants@[k], ex.assoc_type@, arms@[k]));
        }
    }
    let f = assemble(
        decl.ident.clone(),
        decl.impl_generics.clone(),
        decl.ty_generics.clone(),
        decl.where_clause.clone(),
        ex.assoc_type,
        arms,
    );
    Ok(f)
}

/// Text of the implementation header, before its brace-delimited body: the
/// same text `impl_text_spec` opens with.
pub open spec fn impl_head_spec(decl: Declaration) -> Seq<char> {
    "impl "@ + decl.impl_generics@ + " associated::Associated for "@ + decl.ident@
        + decl.ty_generics@ + " "@ + decl.where_clause@
}

/// Builds the implementation header's text, character for character what
/// `impl_head_spec` says.
fn impl_head_text(decl: &Declaration) -> (r: String)
    ensures
        r@ == impl_head_spec(*decl),
{
    let mut head: String = "impl ".to_owned();
    head.append(decl.impl_generics.as_str());
    head.append(" associated::Associated for ");
    head.append(decl.ident.as_str());
    head.append(decl.ty_generics.as_str());
    head.append(" ");
    head.append(decl.where_clause.as_str());
    proof {
        assert(head@ =~= impl_head_spec(*decl));
    }
    head
}

/// Builds the implementation as tokens, splicing in the type directive's and
/// each expression's original tokens so the host attributes its own errors to
/// their source locations. Every piece of text handed to the lexer is pinned
/// by a contract (`impl_head_spec`, `arm_head_spec`, or a literal); the
/// skeleton mirrors `impl_text_spec`. Fails only when a piece of the
/// declaration's own text does not lex.
fn emit_impl_tokens(decl: &Declaration, ex: &Extraction) -> Result<
    proc_macro2::TokenStream,
    String,
> {
    let head = impl_head_text(decl);
    let head_tokens = source_tokens(head.as_str())?;
    let mut body = concat_tokens(
        source_tokens("type AssociatedType =")?,
        clone_tokens(&ex.assoc_type_tokens),
    );
    body = concat_tokens(
        body,
        source_tokens("; fn get_associated(&self) -> &'static Self::AssociatedType")?,
    );
    let mut arms = source_tokens("")?;
    let mut i: usize = 0;
    while i < ex.variants.len()
        decreases ex.variants@.len() - i,
    {
        let m = &ex.variants[i];
        let arm_head = arm_head_text(&decl.ident, m);
        arms = concat_tokens(arms, source_tokens(arm_head.as_str())?);
        match m.kind {
            crate::model::DirectiveKind::Static => {
                arms = concat_tokens(arms, clone_tokens(&m.expr_tokens));
            },
            crate::model::DirectiveKind::Constant => {
                let mut inner = concat_tokens(
                    source_tokens("const ASSOCIATED:")?,
                    clone_tokens(&ex.assoc_type_tokens),
                );
                inner = concat_tokens(inner, source_tokens("=")?);
                inner = concat_tokens(inner, clone_tokens(&m.expr_tokens));
                inner = concat_tokens(inner, source_tokens("; &ASSOCIATED")?);
                arms = concat_tokens(arms, brace_group(inner));
            },
        }
        arms = concat_tokens(arms, source_tokens(",")?);
        i = i + 1;
    }
    let dispatch = concat_tokens(source_tokens("match self")?, brace_group(arms));
    body = concat_tokens(body, brace_group(dispatch));
    Ok(concat_tokens(head_tokens, brace_group(body)))
}

/// Runs the pipeline and emits the resulting fragment as a token stream: the
/// implementation on success (the directive expressions and the declared type
/// spliced in as their original tokens), otherwise a `compile_error!`
/// fragment -- the pipeline's own diagnostic, or the lexer's message at the
/// declaration when a piece of its text does not lex. Never empty, never a
/// mix of the two.
pub fn derive_tokens(decl: &Declaration) -> proc_macro2::TokenStream {
    match extract(decl) {
        Ok(ex) => match emit_impl_tokens(decl, &ex) {
            Ok(t) => t,
            Err(m) => crate::outside::compile_error_tokens(decl.ident_span.clone(), m.as_str()),
        },
        Err(d) => d.report(),
    }
}

} // verus!
