use vstd::prelude::*;
use vstd::string::StringExecFns;
use crate::model::FieldShape;
use crate::model::DirectiveKind;
use crate::extract::VariantMetadata;

verus! {

/// One dispatch arm: the pattern that matches the variant (without the
/// enclosing type's path, which the assembler prepends) and the expression
/// that produces the associated value.
#[derive(Debug)]
pub struct ArmFragment {
    pub pattern: String,
    pub expression: String,
}

/// The wildcard glyph a field shape selects: the pattern must match the
/// variant regardless of how many fields it carries and of their values.
pub open spec fn shape_pattern_spec(s: FieldShape) -> Seq<char> {
    match s {
        FieldShape::Unit => Seq::<char>::empty(),
        FieldShape::Unnamed => "(..)"@,
        FieldShape::Named => " { .. }"@,
    }
}

/// The arm's pattern: the variant's identifier followed by its shape's glyph.
pub open spec fn arm_pattern_spec(variant_ident: Seq<char>, shape: FieldShape) -> Seq<char> {
    variant_ident + shape_pattern_spec(shape)
}

/// The arm's result expression. A bound constant is bound to a scoped,
/// read-only binding of the declared associated type, and the arm returns a
/// reference to that binding; a direct static is emitted verbatim.
pub open spec fn arm_expression_spec(
    kind: DirectiveKind,
    assoc_type: Seq<char>,
    expr: Seq<char>,
) -> Seq<char> {
    match kind {
        DirectiveKind::Constant => "{ const ASSOCIATED: "@ + assoc_type + " = "@ + expr
            + "; &ASSOCIATED }"@,
        DirectiveKind::Static => expr,
    }
}

/// The arm the synthesizer owes for metadata `m` under associated type `ty`.
pub open spec fn arm_matches(m: VariantMetadata, ty: Seq<char>, a: ArmFragment) -> bool {
    &&& a.pattern@ == arm_pattern_spec(m.ident@, m.shape)
    &&& a.expression@ == arm_expression_spec(m.kind, ty, m.expr@)
}

/// Builds an arm's pattern text: the variant's identifier followed by its
/// shape's wildcard glyph.
pub fn pattern_text(ident: &String, shape: FieldShape) -> (r: String)
    ensures
        r@ == arm_pattern_spec(ident@, shape),
{
    match shape {
        FieldShape::Unit => {
            let p = ident.clone();
            proof {
                assert(p@ =~= arm_pattern_spec(ident@, shape));
            }
            p
        },
        FieldShape::Unnamed => {
            let mut p = ident.clone();
            p.append("(..)");
            p
        },
        FieldShape::Named => {
            let mut p = ident.clone();
            p.append(" { .. }");
            p
        },
    }
}

/// Text of an arm's qualified pattern with its arrow, as emission lexes it.
pub open spec fn arm_head_spec(
    enum_ident: Seq<char>,
    variant_ident: Seq<char>,
    shape: FieldShape,
) -> Seq<char> {
    enum_ident + "::"@ + arm_pattern_spec(variant_ident, shape) + " =>"@
}

/// Builds the qualified pattern-and-arrow text for one variant's arm.
pub fn arm_head_text(enum_ident: &String, meta: &VariantMetadata) -> (r: String)
    ensures
        r@ == arm_head_spec(enum_ident@, meta.ident@, meta.shape),
{
    let mut r = enum_ident.clone();
    r.append("::");
    let p = pattern_text(&meta.ident, meta.shape);
    r.append(p.as_str());
    r.append(" =>");
    proof {
        assert(r@ =~= arm_head_spec(enum_ident@, meta.ident@, meta.shape));
    }
    r
}

/// The Arm Synthesizer: a pure function from one variant's metadata and the
/// declared associated type to that variant's dispatch arm.
pub fn synthesize(meta: &VariantMetadata, assoc_type: &String) -> (r: ArmFragment)
    ensures
        arm_matches(*meta, assoc_type@, r),
{
    let pattern: String = pattern_text(&meta.ident, meta.shape);
    let expression: String = match meta.kind {
        DirectiveKind::Constant => {
            let mut e: String = "{ const ASSOCIATED: ".to_owned();
            e.append(assoc_type.as_str());
            e.append(" = ");
            e.append(meta.expr.as_str());
            e.append("; &ASSOCIATED }");
            proof {
                assert(e@ =~= arm_expression_spec(meta.kind, assoc_type@, meta.expr@));
            }
            e
        },
        DirectiveKind::Static => meta.expr.clone(),
    };
    ArmFragment { pattern, expression }
}

} // verus!
