//! The call-site instruction model: a promise references a named
//! bundle, carries an optional report component and per-call report
//! key, forwards an ordered argument list, and may be guarded
//! positively (`if`) or negatively (`unless`) by a class expression.

use vstd::prelude::*;
use vstd::string::StringExecFns;

verus! {

/// Optional execution guard of one promise.
#[derive(Debug, PartialEq, Eq)]
pub enum Guard {
    Unguarded,
    If(String),
    Unless(String),
}

/// Mathematical model of a [`Guard`].
pub enum GuardView {
    Unguarded,
    If(Seq<char>),
    Unless(Seq<char>),
}

impl View for Guard {
    type V = GuardView;

    open spec fn view(&self) -> GuardView {
        match self {
            Guard::Unguarded => GuardView::Unguarded,
            Guard::If(c) => GuardView::If(c@),
            Guard::Unless(c) => GuardView::Unless(c@),
        }
    }
}

/// One instruction: a call to a named bundle with forwarded arguments,
/// an optional report component and report key, and an optional guard.
#[derive(Debug, PartialEq, Eq)]
pub struct Promise {
    pub bundle: String,
    pub component: Option<String>,
    pub report_id: Option<String>,
    pub parameters: Vec<String>,
    pub guard: Guard,
}

/// Mathematical model of a [`Promise`].
#[verifier::ext_equal]
pub struct PromiseView {
    pub bundle: Seq<char>,
    pub component: Option<Seq<char>>,
    pub report_id: Option<Seq<char>>,
    pub parameters: Seq<Seq<char>>,
    pub guard: GuardView,
}

impl View for Promise {
    type V = PromiseView;

    open spec fn view(&self) -> PromiseView {
        PromiseView {
            bundle: self.bundle@,
            component: self.component.deep_view(),
            report_id: self.report_id.deep_view(),
            parameters: self.parameters.deep_view(),
            guard: self.guard@,
        }
    }
}

impl DeepView for Promise {
    type V = PromiseView;

    open spec fn deep_view(&self) -> PromiseView {
        self.view()
    }
}

/// An unguarded call of `bundle` with the given report component,
/// report key and arguments.
pub open spec fn usebundle_view(
    bundle: Seq<char>,
    component: Option<Seq<char>>,
    report_id: Option<Seq<char>>,
    parameters: Seq<Seq<char>>,
) -> PromiseView {
    PromiseView {
        bundle: bundle,
        component: component,
        report_id: report_id,
        parameters: parameters,
        guard: GuardView::Unguarded,
    }
}

/// The same promise, guarded positively by a class expression.
pub open spec fn with_if(p: PromiseView, c: Seq<char>) -> PromiseView {
    PromiseView { guard: GuardView::If(c), ..p }
}

/// The same promise, guarded negatively by a class expression.
pub open spec fn with_unless(p: PromiseView, c: Seq<char>) -> PromiseView {
    PromiseView { guard: GuardView::Unless(c), ..p }
}

impl Promise {
    /// Build an unguarded call of a named bundle.
    pub fn usebundle(
        bundle: &str,
        component: Option<&str>,
        report_id: Option<&str>,
        parameters: Vec<String>,
    ) -> (r: Promise)
        ensures
            r@ == usebundle_view(
                bundle@,
                component.deep_view(),
                report_id.deep_view(),
                parameters.deep_view(),
            ),
    {
        let component_owned: Option<String> = match component {
            Some(c) => Some(String::from_str(c)),
            None => None,
        };
        let report_id_owned: Option<String> = match report_id {
            Some(i) => Some(String::from_str(i)),
            None => None,
        };
        Promise {
            bundle: String::from_str(bundle),
            component: component_owned,
            report_id: report_id_owned,
            parameters: parameters,
            guard: Guard::Unguarded,
        }
    }

    /// Guard this promise positively: it fires only when the class
    /// expression holds.
    pub fn if_condition(self, condition: String) -> (r: Promise)
        ensures
            r@ == with_if(self@, condition@),
    {
        Promise { guard: Guard::If(condition), ..self }
    }

    /// Guard this promise negatively: it fires only when the class
    /// expression does not hold.
    pub fn unless_condition(self, condition: String) -> (r: Promise)
        ensures
            r@ == with_unless(self@, condition@),
    {
        Promise { guard: Guard::Unless(condition), ..self }
    }
}

} // verus!
