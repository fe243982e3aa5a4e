//! Tri-state execution guard attached to a method invocation, and the
//! logical-AND merge used to combine an inherited guard with a method's
//! own guard.

use vstd::prelude::*;
use vstd::string::StringExecFns;

verus! {

/// Execution guard of a method call.
///
/// `Defined` always runs, `NotDefined` never runs, and `Expression`
/// runs only when the class expression it carries holds on the agent.
#[derive(Debug, PartialEq, Eq)]
pub enum Condition {
    Defined,
    NotDefined,
    Expression(String),
}

impl Clone for Condition {
    fn clone(&self) -> (r: Self)
        ensures
            r == *self,
    {
        match self {
            Condition::Defined => Condition::Defined,
            Condition::NotDefined => Condition::NotDefined,
            Condition::Expression(e) => Condition::Expression(e.clone()),
        }
    }
}

/// Mathematical model of a [`Condition`]: the expression is a
/// character sequence.
pub enum ConditionView {
    Defined,
    NotDefined,
    Expression(Seq<char>),
}

impl View for Condition {
    type V = ConditionView;

    open spec fn view(&self) -> ConditionView {
        match self {
            Condition::Defined => ConditionView::Defined,
            Condition::NotDefined => ConditionView::NotDefined,
            Condition::Expression(e) => ConditionView::Expression(e@),
        }
    }
}

/// Logical AND of two guards, with absorption: `Defined` is the
/// identity, `NotDefined` absorbs, and two expressions conjoin into
/// one parenthesized class expression.
pub open spec fn and_spec(a: ConditionView, b: ConditionView) -> ConditionView {
    match (a, b) {
        (ConditionView::Defined, x) => x,
        (x, ConditionView::Defined) => x,
        (ConditionView::NotDefined, _) => ConditionView::NotDefined,
        (_, ConditionView::NotDefined) => ConditionView::NotDefined,
        (ConditionView::Expression(e1), ConditionView::Expression(e2)) => ConditionView::Expression(
            seq!['('] + e1 + seq![')', '.', '('] + e2 + seq![')'],
        ),
    }
}

/// Textual form of a guard, as it appears inside diagnostic messages:
/// `any` for `Defined`, `!any` for `NotDefined`, and the expression
/// itself otherwise.
pub open spec fn cond_text(c: ConditionView) -> Seq<char> {
    match c {
        ConditionView::Defined => "any"@,
        ConditionView::NotDefined => "!any"@,
        ConditionView::Expression(e) => e,
    }
}

impl Condition {
    /// Merge this guard with another by logical AND.
    pub fn and(&self, other: &Condition) -> (r: Condition)
        ensures
            r@ == and_spec(self@, other@),
    {
        match (self, other) {
            (Condition::Defined, x) => x.clone(),
            (x, Condition::Defined) => x.clone(),
            (Condition::NotDefined, _) => Condition::NotDefined,
            (_, Condition::NotDefined) => Condition::NotDefined,
            (Condition::Expression(e1), Condition::Expression(e2)) => {
                let mut e = String::from_str("(");
                e.append(e1.as_str());
                e.append(").(");
                e.append(e2.as_str());
                e.append(")");
                proof {
                    reveal_strlit("(");
                    reveal_strlit(").(");
                    reveal_strlit(")");
                    assert(e@ =~= seq!['('] + e1@ + seq![')', '.', '('] + e2@ + seq![')']);
                }
                Condition::Expression(e)
            },
        }
    }

    /// Textual form of the guard, for diagnostic messages.
    pub fn render(&self) -> (r: String)
        ensures
            r@ == cond_text(self@),
    {
        match self {
            Condition::Defined => String::from_str("any"),
            Condition::NotDefined => String::from_str("!any"),
            Condition::Expression(e) => e.clone(),
        }
    }
}

/// Law: guard merging follows the absorption algebra. `Defined` is a
/// left identity, `NotDefined` absorbs on the left, and two
/// expressions conjoin into the parenthesized conjunction.
pub proof fn lemma_and_absorption(x: ConditionView, a: Seq<char>, b: Seq<char>)
    ensures
        and_spec(ConditionView::Defined, x) == x,
        and_spec(ConditionView::NotDefined, x) == ConditionView::NotDefined,
        and_spec(ConditionView::Expression(a), ConditionView::Expression(b))
            == ConditionView::Expression(seq!['('] + a + seq![')', '.', '('] + b + seq![')']),
{
}

} // verus!
