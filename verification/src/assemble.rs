use vstd::prelude::*;
use vstd::string::StringExecFns;
use crate::synth::ArmFragment;

verus! {

/// The final output of a successful run: one self-contained implementation
/// block of the capability interface, closing over the declaration's identity
/// and generics, the declared associated type, and one arm per variant.
#[derive(Debug)]
pub struct ImplementationFragment {
    pub enum_ident: String,
    pub impl_generics: String,
    pub ty_generics: String,
    pub where_clause: String,
    pub assoc_type: String,
    pub arms: Vec<ArmFragment>,
}

/// Text of one arm within the dispatch: the variant pattern, qualified by the
/// enclosing type's identifier, and the arm's result expression.
pub open spec fn arm_text_spec(enum_ident: Seq<char>, a: ArmFragment) -> Seq<char> {
    enum_ident + "::"@ + a.pattern@ + " => "@ + a.expression@ + ", "@
}

/// Text of the first `i` arms, in order.
pub open spec fn arms_text_upto(enum_ident: Seq<char>, arms: Seq<ArmFragment>, i: int) -> Seq<
    char,
>
    decreases i,
{
    if i <= 0 {
        Seq::<char>::empty()
    } else {
        arms_text_upto(enum_ident, arms, i - 1) + arm_text_spec(enum_ident, arms[i - 1])
    }
}

/// The whole generated source text: an implementation of the capability
/// interface whose single method dispatches exhaustively over the arms, in
/// their given order, with no fallback arm.
pub open spec fn impl_text_spec(f: ImplementationFragment) -> Seq<char> {
    "impl "@ + f.impl_generics@ + " associated::Associated for "@ + f.enum_ident@
        + f.ty_generics@ + " "@ + f.where_clause@ + " { type AssociatedType = "@ + f.assoc_type@
        + "; fn get_associated(&self) -> &'static Self::AssociatedType { match self { "@
        + arms_text_upto(f.enum_ident@, f.arms@, f.arms@.len() as int) + "} } }"@
}

/// The Implementation Assembler: combines the declaration's identity and
/// generics (passed through unchanged), the declared associated type, and the
/// synthesized arms into one implementation fragment.
pub fn assemble(
    enum_ident: String,
    impl_generics: String,
    ty_generics: String,
    where_clause: String,
    assoc_type: String,
    arms: Vec<ArmFragment>,
) -> (f: ImplementationFragment)
    ensures
        f.enum_ident == enum_ident,
        f.impl_generics == impl_generics,
        f.ty_generics == ty_generics,
        f.where_clause == where_clause,
        f.assoc_type == assoc_type,
        f.arms == arms,
{
    ImplementationFragment { enum_ident, impl_generics, ty_generics, where_clause, assoc_type, arms }
}

impl ImplementationFragment {
    /// Renders the fragment as source text, character for character what
    /// `impl_text_spec` says.
    pub fn render(&self) -> (r: String)
        ensures
            r@ == impl_text_spec(*self),
    {
        let mut s: String = "impl ".to_owned();
        s.append(self.impl_generics.as_str());
        s.append(" associated::Associated for ");
        s.append(self.enum_ident.as_str());
        s.append(self.ty_generics.as_str());
        s.append(" ");
        s.append(self.where_clause.as_str());
        s.append(" { type AssociatedType = ");
        s.append(self.assoc_type.as_str());
        s.append("; fn get_associated(&self) -> &'static Self::AssociatedType { match self { ");
        let ghost prefix: Seq<char> = s@;
        proof {
            assert(s@ =~= prefix + arms_text_upto(self.enum_ident@, self.arms@, 0));
        }
        let mut i: usize = 0;
        while i < self.arms.len()
            invariant
                i <= self.arms@.len(),
                s@ == prefix + arms_text_upto(self.enum_ident@, self.arms@, i as int),
            decreases self.arms@.len() - i,
        {
            let a = &self.arms[i];
            s.append(self.enum_ident.as_str());
            s.append("::");
            s.append(a.pattern.as_str());
            s.append(" => ");
            s.append(a.expression.as_str());
            s.append(", ");
            proof {
                assert(s@ =~= prefix + arms_text_upto(
                    self.enum_ident@,
                    self.arms@,
                    i as int + 1,
                ));
            }
            i = i + 1;
        }
        s.append("} } }");
        proof {
            assert(s@ =~= impl_text_spec(*self));
        }
        s
    }
}

} // verus!
