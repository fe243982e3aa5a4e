//! The validated input model of one method invocation: identifiers,
//! the per-agent method definition, reporting and policy-mode
//! settings, and the name-to-value parameter mapping.

use vstd::prelude::*;
use vstd::string::StringExecFns;

use crate::condition::{Condition, ConditionView};

verus! {

/// Opaque identifier of a technique or of a method invocation.
#[derive(Debug, PartialEq, Eq)]
pub struct Id {
    pub value: String,
}

impl View for Id {
    type V = Seq<char>;

    open spec fn view(&self) -> Seq<char> {
        self.value@
    }
}

impl Id {
    pub fn from_str(value: &str) -> (r: Id)
        ensures
            r@ == value@,
    {
        Id { value: String::from_str(value) }
    }

    pub fn as_str(&self) -> (r: &str)
        ensures
            r@ == self@,
    {
        self.value.as_str()
    }
}

/// Target agent kinds a method may be implemented for.
#[derive(Debug, Clone, Copy, PartialEq, Eq, Structural)]
pub enum AgentKind {
    CfengineCommunity,
    Dsc,
}

/// Dry-run override requested for one call: audit only, or enforce.
#[derive(Debug, Clone, Copy, PartialEq, Eq, Structural)]
pub enum PolicyMode {
    Audit,
    Enforce,
}

/// Whether the call's own reporting is kept or suppressed.
#[derive(Debug, Clone, Copy, PartialEq, Eq, Structural)]
pub enum LeafReportingMode {
    Enabled,
    Disabled,
}

/// One declared parameter of a method definition.
#[derive(Debug, PartialEq, Eq)]
pub struct Parameter {
    pub name: String,
}

impl View for Parameter {
    type V = Seq<char>;

    open spec fn view(&self) -> Seq<char> {
        self.name@
    }
}

impl DeepView for Parameter {
    type V = Seq<char>;

    open spec fn deep_view(&self) -> Seq<char> {
        self.name@
    }
}

/// The definition a method invocation instantiates: descriptive name,
/// target bundle, class parameter, declared parameters in order, and
/// the agents it is implemented for.
#[derive(Debug, PartialEq, Eq)]
pub struct MethodInfo {
    pub name: String,
    pub bundle_name: String,
    pub class_parameter: String,
    pub parameter: Vec<Parameter>,
    pub agent_support: Vec<AgentKind>,
}

/// Mathematical model of a [`MethodInfo`].
pub struct MethodInfoView {
    pub name: Seq<char>,
    pub bundle_name: Seq<char>,
    pub class_parameter: Seq<char>,
    pub parameter: Seq<Seq<char>>,
    pub agent_support: Seq<AgentKind>,
}

impl View for MethodInfo {
    type V = MethodInfoView;

    open spec fn view(&self) -> MethodInfoView {
        MethodInfoView {
            name: self.name@,
            bundle_name: self.bundle_name@,
            class_parameter: self.class_parameter@,
            parameter: self.parameter.deep_view(),
            agent_support: self.agent_support@,
        }
    }
}

impl MethodInfo {
    /// Whether this method is implemented for the classic promise
    /// agent, the one this backend targets.
    pub fn supports_classic_agent(&self) -> (r: bool)
        ensures
            r == self@.agent_support.contains(AgentKind::CfengineCommunity),
    {
        let n = self.agent_support.len();
        let mut i: usize = 0;
        while i < n
            invariant
                i <= n,
                n == self.agent_support@.len(),
                forall|j: int|
                    0 <= j < i ==> self.agent_support@[j] != AgentKind::CfengineCommunity,
            decreases n - i,
        {
            if self.agent_support[i] == AgentKind::CfengineCommunity {
                assert(self@.agent_support.contains(AgentKind::CfengineCommunity));
                return true;
            }
            i = i + 1;
        }
        false
    }
}

/// One validated method invocation.
#[derive(Debug, PartialEq, Eq)]
pub struct Method {
    pub id: Id,
    pub name: String,
    pub params: Vec<(String, String)>,
    pub condition: Condition,
    pub policy_mode: Option<PolicyMode>,
    pub reporting: LeafReportingMode,
    pub info: MethodInfo,
}

/// Mathematical model of a [`Method`].
pub struct MethodView {
    pub id: Seq<char>,
    pub name: Seq<char>,
    pub params: Seq<(Seq<char>, Seq<char>)>,
    pub condition: ConditionView,
    pub policy_mode: Option<PolicyMode>,
    pub reporting: LeafReportingMode,
    pub info: MethodInfoView,
}

impl View for Method {
    type V = MethodView;

    open spec fn view(&self) -> MethodView {
        MethodView {
            id: self.id@,
            name: self.name@,
            params: self.params.deep_view(),
            condition: self.condition@,
            policy_mode: self.policy_mode,
            reporting: self.reporting,
            info: self.info@,
        }
    }
}

/// First value bound to `name` in an ordered name-to-value mapping,
/// if any (keys are unique upstream, so the first match is the
/// match).
pub open spec fn lookup(params: Seq<(Seq<char>, Seq<char>)>, name: Seq<char>) -> Option<Seq<char>>
    decreases params.len(),
{
    if params.len() == 0 {
        None
    } else if params[0].0 == name {
        Some(params[0].1)
    } else {
        lookup(params.drop_first(), name)
    }
}

impl Method {
    /// Look up the value supplied for a parameter name in this
    /// invocation.
    pub fn get_param(&self, name: &str) -> (r: Option<String>)
        ensures
            r.deep_view() == lookup(self@.params, name@),
    {
        let key = String::from_str(name);
        let ghost pv = self@.params;
        let n = self.params.len();
        let mut i: usize = 0;
        proof {
            assert(pv.skip(0) =~= pv);
        }
        while i < n
            invariant
                i <= n,
                n == self.params@.len(),
                pv == self@.params,
                pv.len() == n,
                key@ == name@,
                lookup(pv, name@) == lookup(pv.skip(i as int), name@),
            decreases n - i,
        {
            proof {
                assert(pv.skip(i as int)[0] == pv[i as int]);
            }
            if self.params[i].0 == key {
                let r = Some(self.params[i].1.clone());
                return r;
            }
            proof {
                assert(pv.skip(i as int).drop_first() =~= pv.skip(i + 1));
            }
            i = i + 1;
        }
        proof {
            assert(pv.skip(n as int) =~= Seq::<(Seq<char>, Seq<char>)>::empty());
        }
        None
    }
}

} // verus!
