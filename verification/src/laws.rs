use vstd::prelude::*;
use crate::model::{AttrDecl, VariantDecl, Declaration, directive_kind_of_key, first_directive_from};
use crate::extract::{first_missing_variant_from, VariantMetadata};
use crate::model::DirectiveKind;
use crate::synth::{arm_pattern_spec, arm_matches, ArmFragment};
use crate::assemble::ImplementationFragment;
use crate::pipeline::fragment_matches;

verus! {

proof fn lemma_first_directive_append(a: Seq<AttrDecl>, b: Seq<AttrDecl>, i: int)
    requires
        0 <= i,
        first_directive_from(a, i) is Some,
    ensures
        first_directive_from(a + b, i) == first_directive_from(a, i),
        i <= first_directive_from(a, i)->Some_0 < a.len(),
    decreases a.len() - i,
{
    if i >= a.len() {
        assert(false);
    } else {
        assert((a + b)[i] == a[i]);
        if directive_kind_of_key(a[i].key@) is None {
            lemma_first_directive_append(a, b, i + 1);
        }
    }
}

/// First wins: once a prefix of a variant's annotations carries a directive,
/// the annotations that follow -- more directives of either kind, in any
/// order, or none at all -- change neither which annotation wins nor the
/// winning annotation itself. In particular, a variant carrying both a bound
/// constant and a direct static resolves by whichever is declared first.
pub proof fn lemma_first_directive_wins(prefix: Seq<AttrDecl>, tail: Seq<AttrDecl>)
    requires
        first_directive_from(prefix, 0) is Some,
    ensures
        first_directive_from(prefix + tail, 0) == first_directive_from(prefix, 0),
        (prefix + tail)[first_directive_from(prefix, 0)->Some_0] == prefix[first_directive_from(
            prefix,
            0,
        )->Some_0],
{
    lemma_first_directive_append(prefix, tail, 0);
}

proof fn lemma_first_missing_skip(vs: Seq<VariantDecl>, k: int, i: int)
    requires
        0 <= k <= i < vs.len(),
        forall|j: int|
            k <= j < i ==> first_directive_from(#[trigger] vs[j].attrs@, 0) is Some,
        first_directive_from(vs[i].attrs@, 0) is None,
    ensures
        first_missing_variant_from(vs, k) == Some(i),
    decreases i - k,
{
    if k < i {
        lemma_first_missing_skip(vs, k + 1, i);
    }
}

/// Fail fast: when every variant before `i` carries a directive and variant
/// `i` carries none, the first directive-less variant is `i` -- so, by
/// `extract`'s contract, the one missing-directive diagnostic names variant
/// `i` at its own location, and no implementation is produced.
pub proof fn lemma_fail_fast(vs: Seq<VariantDecl>, i: int)
    requires
        0 <= i < vs.len(),
        forall|j: int|
            0 <= j < i ==> first_directive_from(#[trigger] vs[j].attrs@, 0) is Some,
        first_directive_from(vs[i].attrs@, 0) is None,
    ensures
        first_missing_variant_from(vs, 0) == Some(i),
{
    lemma_first_missing_skip(vs, 0, i);
}

/// Exhaustiveness: a fragment the pipeline owes for a declaration has exactly
/// one arm per variant, in declaration order, and the arm at each position
/// carries that variant's own pattern, whatever the variant's field shape.
pub proof fn lemma_dispatch_exhaustive(decl: Declaration, f: ImplementationFragment)
    requires
        fragment_matches(decl, f),
    ensures
        f.arms@.len() == decl.variants@.len(),
        forall|i: int|
            0 <= i < decl.variants@.len() ==> (#[trigger] f.arms@[i]).pattern@
                == arm_pattern_spec(decl.variants@[i].ident@, decl.variants@[i].shape),
{
}

/// Kind fidelity: under `arm_matches`, a direct-static arm's expression is the
/// directive's expression character for character, and a bound-constant arm
/// binds that expression, once, to a scoped constant of the declared type and
/// returns a reference to the binding.
pub proof fn lemma_kind_fidelity(m: VariantMetadata, ty: Seq<char>, a: ArmFragment)
    requires
        arm_matches(m, ty, a),
    ensures
        m.kind == DirectiveKind::Static ==> a.expression@ == m.expr@,
        m.kind == DirectiveKind::Constant ==> a.expression@ == "{ const ASSOCIATED: "@ + ty
            + " = "@ + m.expr@ + "; &ASSOCIATED }"@,
{
}

} // verus!
