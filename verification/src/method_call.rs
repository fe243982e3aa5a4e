//! The method-call lowering algorithm: one validated method
//! invocation plus an inherited guard becomes a calling promise and a
//! generated bundle that carries reporting scaffolding, guard
//! dispatch, dry-run bracketing and graceful degradation when the
//! target agent does not support the method.
//!
//! The invocation is trusted to have been validated upstream (method
//! signature, parameter types, constraints); the one failure raised
//! here is a required parameter missing from the invocation.

use vstd::prelude::*;
use vstd::string::StringExecFns;

use crate::bundle::{Bundle, BundleView};
use crate::cfengine::{
    canonified, canonify, canonify_condition, canonify_condition_spec, escape, escaped, expanded,
    expanded_spec, quoted, quoted_spec,
};
use crate::condition::{and_spec, cond_text, Condition, ConditionView};
use crate::dry_run_mode::{
    pop_policy_mode, pop_policy_mode_spec, push_policy_mode, push_policy_mode_spec,
};
use crate::promise::{usebundle_view, with_if, with_unless, Promise, PromiseView};
use crate::technique::{lookup, AgentKind, Id, LeafReportingMode, Method, MethodInfo, MethodView};

verus! {

/// The only failure lowering raises: a required parameter (the class
/// parameter or a declared parameter) was not supplied by the
/// invocation.
#[derive(Debug, PartialEq, Eq)]
pub enum LoweringError {
    MissingParameter(String),
}

impl View for LoweringError {
    type V = Seq<char>;

    open spec fn view(&self) -> Seq<char> {
        match self {
            LoweringError::MissingParameter(name) => name@,
        }
    }
}

/// The per-call unique report key: the invocation id combined with the
/// runtime-scoped directive token, so repeated calls of one method
/// stay distinguishable in reports.
pub open spec fn unique_of(id: Seq<char>) -> Seq<char> {
    id + "_${report_data.directive_id}"@
}

/// An optional promise as a (possibly empty) promise sequence.
pub open spec fn opt_promise_seq(o: Option<PromiseView>) -> Seq<PromiseView> {
    match o {
        Some(p) => seq![p],
        None => Seq::empty(),
    }
}

/// The escaped report component label of the invocation.
pub open spec fn spec_component(m: MethodView) -> Seq<char> {
    escaped(m.name)
}

/// The unique report key of the invocation.
pub open spec fn spec_unique(m: MethodView) -> Seq<char> {
    unique_of(m.id)
}

/// Whether the invoked method is implemented for the classic promise
/// agent.
pub open spec fn spec_supported(m: MethodView) -> bool {
    m.info.agent_support.contains(AgentKind::CfengineCommunity)
}

/// The escaped value of the class parameter: the reporting
/// correlation key.
pub open spec fn spec_report_parameter(m: MethodView) -> Seq<char> {
    escaped(lookup(m.params, m.info.class_parameter).unwrap())
}

/// The class expression under which the underlying action has already
/// been reported not applicable.
pub open spec fn spec_na_condition(m: MethodView) -> Seq<char> {
    "canonify(\"${class_prefix}_"@ + m.info.bundle_name + "_${c_key}\")"@
}

/// The in-block reference to the guard-condition parameter of the
/// generated bundle.
pub open spec fn incall_condition() -> Seq<char> {
    "${method_call_condition}"@
}

/// Diagnostic text logged when a guarded call is skipped.
pub open spec fn spec_skip_message(m: MethodView, merged: ConditionView) -> Seq<char> {
    "Skipping method '"@ + m.info.name + "' with key parameter '"@ + spec_report_parameter(m)
        + "' since condition '"@ + cond_text(merged) + "' is not reached"@
}

/// Diagnostic text logged when the method is unavailable on the
/// target agent.
pub open spec fn spec_na_message(m: MethodView) -> Seq<char> {
    "'"@ + spec_report_parameter(m) + "' method is not available on classic Rudder agent, skip"@
}

/// The reporting-context promise that seeds the correlation fields
/// every later promise of the block relies on.
pub open spec fn spec_reporting_context(m: MethodView) -> PromiseView {
    usebundle_view(
        "_method_reporting_context_v4"@,
        Some(spec_component(m)),
        Some(spec_unique(m)),
        seq![expanded_spec("c_name"@), expanded_spec("c_key"@), expanded_spec("report_id"@)],
    )
}

/// The re-enable bracket of reporting suppression.
pub open spec fn spec_enable_report(m: MethodView) -> PromiseView {
    usebundle_view("enable_reporting"@, Some(spec_component(m)), Some(spec_unique(m)), Seq::empty())
}

/// The disable bracket of reporting suppression.
pub open spec fn spec_disable_report(m: MethodView) -> PromiseView {
    usebundle_view(
        "disable_reporting"@,
        Some(spec_component(m)),
        Some(spec_unique(m)),
        Seq::empty(),
    )
}

/// Each declared parameter name as a late-bound variable reference.
pub open spec fn expanded_all(names: Seq<Seq<char>>) -> Seq<Seq<char>> {
    names.map_values(|p: Seq<char>| expanded_spec(p))
}

/// The underlying method call, forwarding the declared parameters by
/// late-bound reference in declaration order.
pub open spec fn spec_method_promise(m: MethodView) -> PromiseView {
    usebundle_view(
        m.info.bundle_name,
        Some(spec_component(m)),
        Some(spec_unique(m)),
        expanded_all(m.info.parameter),
    )
}

/// The "not applicable" classification promise.
pub open spec fn spec_noop(m: MethodView) -> PromiseView {
    usebundle_view(
        "_classes_noop"@,
        Some(spec_component(m)),
        Some(spec_unique(m)),
        seq![spec_na_condition(m)],
    )
}

/// The skip diagnostic promise of a guarded or never-run call.
pub open spec fn spec_log_skip(m: MethodView, merged: ConditionView) -> PromiseView {
    usebundle_view(
        "log_rudder"@,
        Some(spec_component(m)),
        Some(spec_unique(m)),
        seq![
            quoted_spec(spec_skip_message(m, merged)),
            quoted_spec(spec_report_parameter(m)),
            spec_na_condition(m),
            spec_na_condition(m),
            "@{args}"@,
        ],
    )
}

/// The unavailability diagnostic promise of an unsupported method.
pub open spec fn spec_log_na(m: MethodView) -> PromiseView {
    usebundle_view(
        "log_na_rudder"@,
        Some(spec_component(m)),
        Some(spec_unique(m)),
        seq![
            quoted_spec(spec_na_message(m)),
            quoted_spec(spec_report_parameter(m)),
            quoted_spec(spec_unique(m)),
            "@{args}"@,
        ],
    )
}

/// The guard/support dispatch: the promise sequence of the generated
/// block before reporting-mode bracketing. Four mutually exclusive
/// branches: guarded and supported, never-run and supported, always-run
/// and supported, and unsupported for any guard.
pub open spec fn spec_promises(m: MethodView, merged: ConditionView) -> Seq<PromiseView> {
    if !spec_supported(m) {
        seq![spec_reporting_context(m), spec_log_na(m)]
    } else {
        match merged {
            ConditionView::Expression(_) => seq![spec_reporting_context(m)] + opt_promise_seq(
                push_policy_mode_spec(m.policy_mode, spec_unique(m)),
            ) + seq![with_if(spec_method_promise(m), incall_condition())] + opt_promise_seq(
                pop_policy_mode_spec(m.policy_mode, spec_unique(m)),
            ) + seq![
                with_unless(spec_noop(m), incall_condition()),
                with_unless(spec_log_skip(m, merged), incall_condition()),
            ],
            ConditionView::NotDefined => seq![
                spec_reporting_context(m),
                spec_noop(m),
                spec_log_skip(m, merged),
            ],
            ConditionView::Defined => seq![spec_reporting_context(m)] + opt_promise_seq(
                push_policy_mode_spec(m.policy_mode, spec_unique(m)),
            ) + seq![spec_method_promise(m)] + opt_promise_seq(
                pop_policy_mode_spec(m.policy_mode, spec_unique(m)),
            ),
        }
    }
}

/// The full body of the generated block: the dispatch sequence,
/// wrapped in the disable/enable reporting bracket pair when the
/// call's reporting is suppressed.
pub open spec fn spec_body(m: MethodView, merged: ConditionView) -> Seq<PromiseView> {
    match m.reporting {
        LeafReportingMode::Disabled => seq![spec_disable_report(m)] + spec_promises(m, merged)
            + seq![spec_enable_report(m)],
        LeafReportingMode::Enabled => spec_promises(m, merged),
    }
}

/// The deterministic name of the generated block, namespaced by the
/// enclosing technique and the canonified invocation id.
pub open spec fn spec_bundle_name(tid: Seq<char>, m: MethodView) -> Seq<char> {
    "call_"@ + tid + "_"@ + canonified(m.id)
}

/// The five fixed preamble parameter names of every generated block.
pub open spec fn preamble_param_names() -> Seq<Seq<char>> {
    seq!["c_name"@, "c_key"@, "report_id"@, "args"@, "class_prefix"@]
}

/// The literal values forwarded for the five preamble slots at the
/// call site.
pub open spec fn preamble_call_args(m: MethodView) -> Seq<Seq<char>> {
    seq![
        quoted_spec(spec_component(m)),
        quoted_spec(spec_report_parameter(m)),
        quoted_spec(m.id),
        "@{args}"@,
        quoted_spec("${class_prefix}"@),
    ]
}

/// The extra guard-condition parameter name, present exactly when the
/// merged guard is an expression.
pub open spec fn guard_param_names(merged: ConditionView) -> Seq<Seq<char>> {
    match merged {
        ConditionView::Expression(_) => seq!["method_call_condition"@],
        _ => Seq::empty(),
    }
}

/// The compiled guard expression forwarded in the guard slot, present
/// exactly when the merged guard is an expression.
pub open spec fn guard_call_args(merged: ConditionView) -> Seq<Seq<char>> {
    match merged {
        ConditionView::Expression(e) => seq![canonify_condition_spec(e)],
        _ => Seq::empty(),
    }
}

/// The quoted, escaped values of the declared parameters in
/// declaration order, or the name of the first declared parameter the
/// invocation does not supply.
pub open spec fn resolve_values(
    params: Seq<(Seq<char>, Seq<char>)>,
    names: Seq<Seq<char>>,
) -> Result<Seq<Seq<char>>, Seq<char>>
    decreases names.len(),
{
    if names.len() == 0 {
        Ok(Seq::empty())
    } else {
        match lookup(params, names[0]) {
            None => Err(names[0]),
            Some(v) => match resolve_values(params, names.drop_first()) {
                Err(e) => Err(e),
                Ok(rest) => Ok(seq![quoted_spec(escaped(v))] + rest),
            },
        }
    }
}

/// The call-site promise: an unguarded call of the generated block,
/// forwarding the preamble literals, the compiled guard when there is
/// one, and the resolved parameter values in declaration order.
pub open spec fn spec_call_site(
    tid: Seq<char>,
    m: MethodView,
    merged: ConditionView,
    values: Seq<Seq<char>>,
) -> PromiseView {
    usebundle_view(
        spec_bundle_name(tid, m),
        None,
        Some(spec_unique(m)),
        preamble_call_args(m) + guard_call_args(merged) + values,
    )
}

/// The generated block: deterministic name, preamble parameters plus
/// the optional guard slot plus the declared parameter names, and the
/// (possibly bracketed) dispatch body.
pub open spec fn spec_gen_bundle(tid: Seq<char>, m: MethodView, merged: ConditionView) -> BundleView {
    BundleView {
        name: spec_bundle_name(tid, m),
        parameters: preamble_param_names() + guard_param_names(merged) + m.info.parameter,
        promises: spec_body(m, merged),
    }
}

/// What lowering returns, as a function of its inputs alone: the
/// call-site promise and the generated block, or the name of the
/// first required parameter the invocation does not supply (the class
/// parameter is checked first, then the declared parameters in
/// order).
pub open spec fn spec_method_call(tid: Seq<char>, m: MethodView, inherited: ConditionView) -> Result<
    (PromiseView, BundleView),
    Seq<char>,
> {
    let merged = and_spec(inherited, m.condition);
    if lookup(m.params, m.info.class_parameter) is None {
        Err(m.info.class_parameter)
    } else {
        match resolve_values(m.params, m.info.parameter) {
            Err(name) => Err(name),
            Ok(values) => Ok(
                (spec_call_site(tid, m, merged, values), spec_gen_bundle(tid, m, merged)),
            ),
        }
    }
}

fn args0() -> (r: Vec<String>)
    ensures
        r.deep_view() == Seq::<Seq<char>>::empty(),
{
    let r: Vec<String> = Vec::new();
    proof {
        assert(r.deep_view() =~= Seq::<Seq<char>>::empty());
    }
    r
}

fn args1(a: String) -> (r: Vec<String>)
    ensures
        r.deep_view() == seq![a@],
{
    let ghost av = a@;
    let mut r: Vec<String> = Vec::new();
    r.push(a);
    proof {
        assert(r.deep_view() =~= seq![av]);
    }
    r
}

fn args3(a: String, b: String, c: String) -> (r: Vec<String>)
    ensures
        r.deep_view() == seq![a@, b@, c@],
{
    let ghost av = a@;
    let ghost bv = b@;
    let ghost cv = c@;
    let mut r: Vec<String> = Vec::new();
    r.push(a);
    r.push(b);
    r.push(c);
    proof {
        assert(r.deep_view() =~= seq![av, bv, cv]);
    }
    r
}

fn args4(a: String, b: String, c: String, d: String) -> (r: Vec<String>)
    ensures
        r.deep_view() == seq![a@, b@, c@, d@],
{
    let ghost av = a@;
    let ghost bv = b@;
    let ghost cv = c@;
    let ghost dv = d@;
    let mut r: Vec<String> = Vec::new();
    r.push(a);
    r.push(b);
    r.push(c);
    r.push(d);
    proof {
        assert(r.deep_view() =~= seq![av, bv, cv, dv]);
    }
    r
}

fn args5(a: String, b: String, c: String, d: String, e: String) -> (r: Vec<String>)
    ensures
        r.deep_view() == seq![a@, b@, c@, d@, e@],
{
    let ghost av = a@;
    let ghost bv = b@;
    let ghost cv = c@;
    let ghost dv = d@;
    let ghost ev = e@;
    let mut r: Vec<String> = Vec::new();
    r.push(a);
    r.push(b);
    r.push(c);
    r.push(d);
    r.push(e);
    proof {
        assert(r.deep_view() =~= seq![av, bv, cv, dv, ev]);
    }
    r
}

/// Resolve the declared parameters from position `i` on: quote the
/// escaped supplied value of each, in declaration order, failing on
/// the first parameter the invocation does not supply.
fn resolve_params(m: &Method, i: usize) -> (r: Result<Vec<String>, LoweringError>)
    requires
        i <= m@.info.parameter.len(),
    ensures
        (r matches Ok(v) ==> resolve_values(m@.params, m@.info.parameter.skip(i as int)) matches Ok(
            vals,
        ) && v.deep_view() == vals),
        (r matches Err(e) ==> resolve_values(m@.params, m@.info.parameter.skip(i as int)) matches Err(
            name,
        ) && e@ == name),
    decreases m@.info.parameter.len() - i,
{
    let n = m.info.parameter.len();
    if i >= n {
        proof {
            assert(m@.info.parameter.skip(i as int) =~= Seq::<Seq<char>>::empty());
        }
        let v: Vec<String> = Vec::new();
        proof {
            assert(v.deep_view() =~= Seq::<Seq<char>>::empty());
        }
        Ok(v)
    } else {
        let ghost names = m@.info.parameter;
        proof {
            assert(names.skip(i as int)[0] == names[i as int]);
            assert(names.skip(i as int).drop_first() =~= names.skip(i as int + 1));
        }
        let name = &m.info.parameter[i].name;
        match m.get_param(name.as_str()) {
            None => Err(LoweringError::MissingParameter(name.clone())),
            Some(v) => {
                let ev = escape(v.as_str());
                let q = quoted(ev.as_str());
                match resolve_params(m, i + 1) {
                    Err(e) => Err(e),
                    Ok(rest) => {
                        let ghost qv = q@;
                        let ghost restv = rest.deep_view();
                        let mut out = rest;
                        out.insert(0, q);
                        proof {
                            assert(out.deep_view() =~= seq![qv] + restv);
                        }
                        Ok(out)
                    },
                }
            },
        }
    }
}

/// The declared parameter names as variable references, for the
/// in-block method call.
fn expanded_parameters(info: &MethodInfo) -> (r: Vec<String>)
    ensures
        r.deep_view() == expanded_all(info@.parameter),
{
    let n = info.parameter.len();
    let mut r: Vec<String> = Vec::new();
    let mut i: usize = 0;
    proof {
        assert(r.deep_view() =~= expanded_all(info@.parameter.take(0)));
    }
    while i < n
        invariant
            i <= n,
            n == info@.parameter.len(),
            r.deep_view() == expanded_all(info@.parameter.take(i as int)),
        decreases n - i,
    {
        let ghost old_dv = r.deep_view();
        let e = expanded(info.parameter[i].name.as_str());
        let ghost ev = e@;
        r.push(e);
        proof {
            assert(r.deep_view() =~= old_dv.push(ev));
            assert(r.deep_view() =~= expanded_all(info@.parameter.take(i + 1)));
        }
        i = i + 1;
    }
    proof {
        assert(info@.parameter.take(n as int) =~= info@.parameter);
    }
    r
}

/// The declared parameter names in order, for the generated block's
/// parameter list.
fn parameter_names(info: &MethodInfo) -> (r: Vec<String>)
    ensures
        r.deep_view() == info@.parameter,
{
    let n = info.parameter.len();
    let mut r: Vec<String> = Vec::new();
    let mut i: usize = 0;
    proof {
        assert(r.deep_view() =~= info@.parameter.take(0));
    }
    while i < n
        invariant
            i <= n,
            n == info@.parameter.len(),
            r.deep_view() == info@.parameter.take(i as int),
        decreases n - i,
    {
        let ghost old_dv = r.deep_view();
        let e = info.parameter[i].name.clone();
        let ghost ev = e@;
        r.push(e);
        proof {
            assert(r.deep_view() =~= old_dv.push(ev));
            assert(r.deep_view() =~= info@.parameter.take(i + 1));
        }
        i = i + 1;
    }
    proof {
        assert(info@.parameter.take(n as int) =~= info@.parameter);
    }
    r
}

/// Lower one validated method invocation under an inherited guard
/// into the call-site promise and the generated reporting bundle.
///
/// The result is the exact value of [`spec_method_call`] on the
/// inputs' models: the only error is a missing required parameter,
/// raised if and only if the class parameter or a declared parameter
/// is absent from the invocation's parameter mapping.
#[verifier::rlimit(100)]
pub fn method_call(technique_id: &Id, m: Method, condition: Condition) -> (r: Result<
    (Promise, Option<Bundle>),
    LoweringError,
>)
    requires
        m.id@.len() > 0,
    ensures
        (r matches Ok(pair) ==> spec_method_call(technique_id@, m@, condition@) matches Ok(exp)
            && pair.0@ == exp.0 && (pair.1 matches Some(b) && b@ == exp.1)),
        (r matches Err(e) ==> spec_method_call(technique_id@, m@, condition@) matches Err(name)
            && e@ == name),
{
    let ghost mv = m@;
    let ghost cond_v = condition@;
    let ghost merged_v = and_spec(condition@, m.condition@);

    // Per-call unique report key.
    let mut unique = String::from_str(m.id.as_str());
    unique.append("_${report_data.directive_id}");
    proof {
        assert(unique@ == spec_unique(mv));
    }

    let c_id = canonify(m.id.as_str());
    let merged = condition.and(&m.condition);
    let report_component = escape(m.name.as_str());
    let is_supported = m.info.supports_classic_agent();

    // The class parameter's value is the reporting correlation key;
    // its absence fails the whole invocation.
    let report_parameter = match m.get_param(m.info.class_parameter.as_str()) {
        Some(v) => escape(v.as_str()),
        None => {
            return Err(LoweringError::MissingParameter(m.info.class_parameter.clone()));
        },
    };
    proof {
        assert(report_parameter@ == spec_report_parameter(mv));
    }

    // Declared parameter values, quoted and escaped, in order.
    let values = match resolve_params(&m, 0) {
        Ok(v) => v,
        Err(e) => {
            proof {
                assert(mv.info.parameter.skip(0) =~= mv.info.parameter);
            }
            return Err(e);
        },
    };
    proof {
        assert(mv.info.parameter.skip(0) =~= mv.info.parameter);
        assert(resolve_values(mv.params, mv.info.parameter) matches Ok(vals) && vals
            == values.deep_view());
    }
    let ghost values_v = values.deep_view();

    let expanded_args = expanded_parameters(&m.info);
    let names_suffix = parameter_names(&m.info);

    // Reporting scaffolding and bracket promises.
    let reporting_context = Promise::usebundle(
        "_method_reporting_context_v4",
        Some(report_component.as_str()),
        Some(unique.as_str()),
        args3(expanded("c_name"), expanded("c_key"), expanded("report_id")),
    );
    let ghost rc_v = reporting_context@;
    proof {
        assert(rc_v =~= spec_reporting_context(mv));
    }
    let enable_report = Promise::usebundle(
        "enable_reporting",
        Some(report_component.as_str()),
        Some(unique.as_str()),
        args0(),
    );
    let ghost enable_v = enable_report@;
    proof {
        assert(enable_v =~= spec_enable_report(mv));
    }
    let disable_report = Promise::usebundle(
        "disable_reporting",
        Some(report_component.as_str()),
        Some(unique.as_str()),
        args0(),
    );
    let ghost disable_v = disable_report@;
    proof {
        assert(disable_v =~= spec_disable_report(mv));
    }

    // The underlying call, forwarding declared parameters late-bound.
    let method_promise = Promise::usebundle(
        m.info.bundle_name.as_str(),
        Some(report_component.as_str()),
        Some(unique.as_str()),
        expanded_args,
    );
    let ghost method_v = method_promise@;
    proof {
        assert(method_v =~= spec_method_promise(mv));
    }

    // Class expression marking the action already reported n/a.
    let mut na_condition = String::from_str("canonify(\"${class_prefix}_");
    na_condition.append(m.info.bundle_name.as_str());
    na_condition.append("_${c_key}\")");
    proof {
        assert(na_condition@ == spec_na_condition(mv));
    }

    let rendered_cond = merged.render();
    let mut skip_message = String::from_str("Skipping method '");
    skip_message.append(m.info.name.as_str());
    skip_message.append("' with key parameter '");
    skip_message.append(report_parameter.as_str());
    skip_message.append("' since condition '");
    skip_message.append(rendered_cond.as_str());
    skip_message.append("' is not reached");
    proof {
        assert(skip_message@ == spec_skip_message(mv, merged_v));
    }

    let mut na_message = String::from_str("'");
    na_message.append(report_parameter.as_str());
    na_message.append("' method is not available on classic Rudder agent, skip");
    proof {
        assert(na_message@ == spec_na_message(mv));
    }

    let noop_promise = Promise::usebundle(
        "_classes_noop",
        Some(report_component.as_str()),
        Some(unique.as_str()),
        args1(na_condition.clone()),
    );
    let ghost noop_v = noop_promise@;
    proof {
        assert(noop_v =~= spec_noop(mv));
    }

    let log_skip_promise = Promise::usebundle(
        "log_rudder",
        Some(report_component.as_str()),
        Some(unique.as_str()),
        args5(
            quoted(skip_message.as_str()),
            quoted(report_parameter.as_str()),
            na_condition.clone(),
            na_condition.clone(),
            String::from_str("@{args}"),
        ),
    );
    let ghost log_skip_v = log_skip_promise@;
    proof {
        assert(log_skip_v =~= spec_log_skip(mv, merged_v));
    }

    let log_na_promise = Promise::usebundle(
        "log_na_rudder",
        Some(report_component.as_str()),
        Some(unique.as_str()),
        args4(
            quoted(na_message.as_str()),
            quoted(report_parameter.as_str()),
            quoted(unique.as_str()),
            String::from_str("@{args}"),
        ),
    );
    let ghost log_na_v = log_na_promise@;
    proof {
        assert(log_na_v =~= spec_log_na(mv));
    }

    let push_mode = push_policy_mode(m.policy_mode, unique.as_str());
    let ghost push_v = push_mode.deep_view();
    let pop_mode = pop_policy_mode(m.policy_mode, unique.as_str());
    let ghost pop_v = pop_mode.deep_view();
    let incall = String::from_str("${method_call_condition}");
    proof {
        assert(incall@ == incall_condition());
    }

    // Guard/support dispatch: which promises the block holds.
    let mut promises: Vec<Promise> = Vec::new();
    if !is_supported {
        promises.push(reporting_context);
        promises.push(log_na_promise);
        proof {
            assert(promises.deep_view() =~= seq![rc_v, log_na_v]);
            assert(promises.deep_view() =~= spec_promises(mv, merged_v));
        }
    } else {
        match &merged {
            Condition::Expression(_) => {
                promises.push(reporting_context);
                match push_mode {
                    Some(p) => promises.push(p),
                    None => (),
                };
                promises.push(method_promise.if_condition(incall.clone()));
                match pop_mode {
                    Some(p) => promises.push(p),
                    None => (),
                };
                promises.push(noop_promise.unless_condition(incall.clone()));
                promises.push(log_skip_promise.unless_condition(incall));
                proof {
                    assert(promises.deep_view() =~= seq![rc_v] + opt_promise_seq(push_v) + seq![
                        with_if(method_v, incall_condition()),
                    ] + opt_promise_seq(pop_v) + seq![
                        with_unless(noop_v, incall_condition()),
                        with_unless(log_skip_v, incall_condition()),
                    ]);
                    assert(promises.deep_view() =~= spec_promises(mv, merged_v));
                }
            },
            Condition::NotDefined => {
                promises.push(reporting_context);
                promises.push(noop_promise);
                promises.push(log_skip_promise);
                proof {
                    assert(promises.deep_view() =~= seq![rc_v, noop_v, log_skip_v]);
                    assert(promises.deep_view() =~= spec_promises(mv, merged_v));
                }
            },
            Condition::Defined => {
                promises.push(reporting_context);
                match push_mode {
                    Some(p) => promises.push(p),
                    None => (),
                };
                promises.push(method_promise);
                match pop_mode {
                    Some(p) => promises.push(p),
                    None => (),
                };
                proof {
                    assert(promises.deep_view() =~= seq![rc_v] + opt_promise_seq(push_v) + seq![
                        method_v,
                    ] + opt_promise_seq(pop_v));
                    assert(promises.deep_view() =~= spec_promises(mv, merged_v));
                }
            },
        }
    }

    // Reporting-mode bracketing around the whole dispatch sequence.
    let ghost promises_v = promises.deep_view();
    let bundle_content = match m.reporting {
        LeafReportingMode::Disabled => {
            let mut res: Vec<Promise> = Vec::new();
            res.push(disable_report);
            res.append(&mut promises);
            res.push(enable_report);
            proof {
                assert(res.deep_view() =~= seq![disable_v] + promises_v + seq![enable_v]);
            }
            res
        },
        LeafReportingMode::Enabled => promises,
    };
    proof {
        assert(bundle_content.deep_view() =~= spec_body(mv, merged_v));
    }
    let ghost content_v = bundle_content.deep_view();

    // Deterministic name of the generated block.
    let mut bundle_name = String::from_str("call_");
    bundle_name.append(technique_id.as_str());
    bundle_name.append("_");
    bundle_name.append(c_id.as_str());
    proof {
        assert(bundle_name@ == spec_bundle_name(technique_id@, mv));
    }

    // Call-site arguments and block parameters: fixed preamble, then
    // the guard slot when the merged guard is an expression, then the
    // declared parameters.
    let mut call_parameters = args5(
        quoted(report_component.as_str()),
        quoted(report_parameter.as_str()),
        quoted(m.id.as_str()),
        String::from_str("@{args}"),
        quoted("${class_prefix}"),
    );
    let mut method_parameters = args5(
        String::from_str("c_name"),
        String::from_str("c_key"),
        String::from_str("report_id"),
        String::from_str("args"),
        String::from_str("class_prefix"),
    );
    let ghost preamble_args_v = call_parameters.deep_view();
    let ghost preamble_names_v = method_parameters.deep_view();
    proof {
        assert(preamble_args_v =~= preamble_call_args(mv));
        assert(preamble_names_v =~= preamble_param_names());
    }
    match &merged {
        Condition::Expression(e) => {
            call_parameters.push(canonify_condition(e.as_str()));
            method_parameters.push(String::from_str("method_call_condition"));
            proof {
                assert(call_parameters.deep_view() =~= preamble_args_v + guard_call_args(merged_v));
                assert(method_parameters.deep_view() =~= preamble_names_v + guard_param_names(
                    merged_v,
                ));
            }
        },
        _ => {
            proof {
                assert(call_parameters.deep_view() =~= preamble_args_v + guard_call_args(merged_v));
                assert(method_parameters.deep_view() =~= preamble_names_v + guard_param_names(
                    merged_v,
                ));
            }
        },
    };
    let ghost call_pre_v = call_parameters.deep_view();
    let ghost names_pre_v = method_parameters.deep_view();

    let mut values_mut = values;
    call_parameters.append(&mut values_mut);
    proof {
        assert(call_parameters.deep_view() =~= call_pre_v + values_v);
        assert(call_parameters.deep_view() =~= preamble_call_args(mv) + guard_call_args(merged_v)
            + values_v);
    }

    let bundle_call = Promise::usebundle(
        bundle_name.as_str(),
        None,
        Some(unique.as_str()),
        call_parameters,
    );
    proof {
        assert(bundle_call@ =~= spec_call_site(technique_id@, mv, merged_v, values_v));
    }

    let mut names_mut = names_suffix;
    method_parameters.append(&mut names_mut);
    proof {
        assert(method_parameters.deep_view() =~= names_pre_v + mv.info.parameter);
        assert(method_parameters.deep_view() =~= preamble_param_names() + guard_param_names(
            merged_v,
        ) + mv.info.parameter);
    }

    let gen_bundle = Bundle::agent(bundle_name).parameters(method_parameters).promise_group(
        bundle_content,
    );
    proof {
        assert(gen_bundle@ =~= spec_gen_bundle(technique_id@, mv, merged_v));
        assert(spec_method_call(technique_id@, mv, cond_v) matches Ok(exp) && exp.0 == bundle_call@
            && exp.1 == gen_bundle@);
    }

    Ok((bundle_call, Some(gen_bundle)))
}

/// Law: lowering is deterministic. The result is a pure function of
/// the technique id, the invocation and the inherited guard, so two
/// lowerings of the same inputs yield identical call-site and block
/// trees.
pub proof fn lemma_method_call_deterministic(
    tid: Seq<char>,
    m: MethodView,
    inherited: ConditionView,
    r1: Result<(PromiseView, BundleView), Seq<char>>,
    r2: Result<(PromiseView, BundleView), Seq<char>>,
)
    requires
        r1 == spec_method_call(tid, m, inherited),
        r2 == spec_method_call(tid, m, inherited),
    ensures
        r1 == r2,
{
}

/// Law: a method unsupported on the target agent lowers, for any
/// merged guard, to a dispatch sequence of exactly the reporting
/// context followed by one unavailability diagnostic; the underlying
/// call instruction is never among them.
pub proof fn lemma_unsupported_block(m: MethodView, merged: ConditionView)
    requires
        !spec_supported(m),
    ensures
        spec_promises(m, merged) == seq![spec_reporting_context(m), spec_log_na(m)],
        spec_promises(m, merged)[0].bundle == "_method_reporting_context_v4"@,
        spec_promises(m, merged)[1].bundle == "log_na_rudder"@,
{
}

/// Law: reporting-mode bracketing. With reporting disabled the
/// block's body is exactly the disable bracket, the dispatch
/// sequence, then the enable bracket; with reporting enabled it is
/// the dispatch sequence alone.
pub proof fn lemma_reporting_suppression(m: MethodView, merged: ConditionView)
    ensures
        m.reporting == LeafReportingMode::Disabled ==> spec_body(m, merged) == seq![
            spec_disable_report(m),
        ] + spec_promises(m, merged) + seq![spec_enable_report(m)],
        m.reporting == LeafReportingMode::Enabled ==> spec_body(m, merged) == spec_promises(
            m,
            merged,
        ),
{
}

/// Law: the guard slot. When the merged guard is an expression the
/// generated block has exactly one parameter more than with either
/// other guard — the guard-condition slot right after the preamble —
/// and the call site forwards the compiled guard expression in
/// exactly that slot.
pub proof fn lemma_guard_parameter(
    tid: Seq<char>,
    m: MethodView,
    e: Seq<char>,
    values: Seq<Seq<char>>,
)
    ensures
        spec_gen_bundle(tid, m, ConditionView::Expression(e)).parameters.len() == spec_gen_bundle(
            tid,
            m,
            ConditionView::Defined,
        ).parameters.len() + 1,
        spec_gen_bundle(tid, m, ConditionView::Expression(e)).parameters.len() == spec_gen_bundle(
            tid,
            m,
            ConditionView::NotDefined,
        ).parameters.len() + 1,
        spec_gen_bundle(tid, m, ConditionView::Expression(e)).parameters[5]
            == "method_call_condition"@,
        spec_call_site(tid, m, ConditionView::Expression(e), values).parameters[5]
            == canonify_condition_spec(e),
{
    let guarded = ConditionView::Expression(e);
    assert(spec_gen_bundle(tid, m, guarded).parameters[5] == "method_call_condition"@);
    assert(spec_call_site(tid, m, guarded, values).parameters[5] == canonify_condition_spec(e));
}

} // verus!
