//! End-to-end checks of the method-call lowering: block naming,
//! parameter forwarding, guard dispatch, policy-mode and reporting
//! bracketing, and the missing-parameter failure.

use rudderc::condition::Condition;
use rudderc::method_call::{method_call, LoweringError};
use rudderc::promise::Guard;
use rudderc::technique::{
    AgentKind, Id, LeafReportingMode, Method, MethodInfo, Parameter, PolicyMode,
};

fn package_present(condition: Condition) -> Method {
    Method {
        id: Id::from_str("pkg_install"),
        name: "package present".to_string(),
        params: vec![("name".to_string(), "openssh".to_string())],
        condition,
        policy_mode: None,
        reporting: LeafReportingMode::Enabled,
        info: MethodInfo {
            name: "Package present".to_string(),
            bundle_name: "package_present".to_string(),
            class_parameter: "name".to_string(),
            parameter: vec![Parameter { name: "name".to_string() }],
            agent_support: vec![AgentKind::CfengineCommunity],
        },
    }
}

const UNIQUE: &str = "pkg_install_${report_data.directive_id}";

#[test]
fn scenario_always_run_supported() {
    let technique = Id::from_str("sshd_setup");
    let (call, bundle) = method_call(&technique, package_present(Condition::Defined), Condition::Defined)
        .expect("lowering must succeed");
    let bundle = bundle.expect("a bundle is always generated");

    assert_eq!(bundle.name, "call_sshd_setup_pkg_install");
    assert_eq!(
        bundle.parameters,
        vec![
            "c_name".to_string(),
            "c_key".to_string(),
            "report_id".to_string(),
            "args".to_string(),
            "class_prefix".to_string(),
            "name".to_string(),
        ]
    );
    assert_eq!(bundle.promises.len(), 2);
    assert_eq!(bundle.promises[0].bundle, "_method_reporting_context_v4");
    assert_eq!(bundle.promises[0].component.as_deref(), Some("package present"));
    assert_eq!(bundle.promises[0].report_id.as_deref(), Some(UNIQUE));
    assert_eq!(
        bundle.promises[0].parameters,
        vec!["${c_name}".to_string(), "${c_key}".to_string(), "${report_id}".to_string()]
    );
    assert_eq!(bundle.promises[1].bundle, "package_present");
    assert_eq!(bundle.promises[1].guard, Guard::Unguarded);
    assert_eq!(bundle.promises[1].parameters, vec!["${name}".to_string()]);

    assert_eq!(call.bundle, "call_sshd_setup_pkg_install");
    assert_eq!(call.component, None);
    assert_eq!(call.report_id.as_deref(), Some(UNIQUE));
    assert_eq!(
        call.parameters,
        vec![
            "\"package present\"".to_string(),
            "\"openssh\"".to_string(),
            "\"pkg_install\"".to_string(),
            "@{args}".to_string(),
            "\"${class_prefix}\"".to_string(),
            "\"openssh\"".to_string(),
        ]
    );
    assert_eq!(call.guard, Guard::Unguarded);
}

#[test]
fn lowering_is_deterministic() {
    let r1 = method_call(
        &Id::from_str("sshd_setup"),
        package_present(Condition::Expression("os.linux".to_string())),
        Condition::Expression("pkg.present".to_string()),
    );
    let r2 = method_call(
        &Id::from_str("sshd_setup"),
        package_present(Condition::Expression("os.linux".to_string())),
        Condition::Expression("pkg.present".to_string()),
    );
    assert_eq!(r1, r2);
}

#[test]
fn missing_class_parameter_fails() {
    let mut m = package_present(Condition::Defined);
    m.params = vec![];
    m.info.class_parameter = "path".to_string();
    m.info.parameter = vec![Parameter { name: "path".to_string() }];
    let r = method_call(&Id::from_str("t"), m, Condition::Defined);
    assert_eq!(r, Err(LoweringError::MissingParameter("path".to_string())));
}

#[test]
fn missing_declared_parameter_fails() {
    let mut m = package_present(Condition::Defined);
    m.info.parameter = vec![
        Parameter { name: "name".to_string() },
        Parameter { name: "version".to_string() },
    ];
    let r = method_call(&Id::from_str("t"), m, Condition::Defined);
    assert_eq!(r, Err(LoweringError::MissingParameter("version".to_string())));
}

#[test]
fn unsupported_agent_emits_single_diagnostic() {
    let guards = ["always", "never", "guarded"];
    for g in guards {
        let condition = match g {
            "always" => Condition::Defined,
            "never" => Condition::NotDefined,
            _ => Condition::Expression("os.linux".to_string()),
        };
        let mut m = package_present(condition);
        m.info.agent_support = vec![AgentKind::Dsc];
        let (_, bundle) = method_call(&Id::from_str("t"), m, Condition::Defined).unwrap();
        let bundle = bundle.unwrap();
        assert_eq!(bundle.promises.len(), 2);
        assert_eq!(bundle.promises[0].bundle, "_method_reporting_context_v4");
        assert_eq!(bundle.promises[1].bundle, "log_na_rudder");
        assert!(bundle.promises.iter().all(|p| p.bundle != "package_present"));
        assert_eq!(
            bundle.promises[1].parameters,
            vec![
                "\"'openssh' method is not available on classic Rudder agent, skip\"".to_string(),
                "\"openssh\"".to_string(),
                format!("\"{}\"", UNIQUE),
                "@{args}".to_string(),
            ]
        );
    }
}

#[test]
fn disabled_reporting_brackets_the_block() {
    let mut m = package_present(Condition::Defined);
    m.reporting = LeafReportingMode::Disabled;
    let (_, bundle) = method_call(&Id::from_str("t"), m, Condition::Defined).unwrap();
    let bundle = bundle.unwrap();
    let names: Vec<&str> = bundle.promises.iter().map(|p| p.bundle.as_str()).collect();
    assert_eq!(
        names,
        vec!["disable_reporting", "_method_reporting_context_v4", "package_present", "enable_reporting"]
    );
    assert_eq!(bundle.promises[0].report_id.as_deref(), Some(UNIQUE));
    assert_eq!(bundle.promises[3].report_id.as_deref(), Some(UNIQUE));
    assert_eq!(bundle.promises[0].component.as_deref(), Some("package present"));
}

#[test]
fn guarded_call_adds_the_guard_slot() {
    let (unguarded_call, unguarded_bundle) = method_call(
        &Id::from_str("t"),
        package_present(Condition::Defined),
        Condition::Defined,
    )
    .unwrap();
    let unguarded_bundle = unguarded_bundle.unwrap();

    let (call, bundle) = method_call(
        &Id::from_str("t"),
        package_present(Condition::Expression("os.linux".to_string())),
        Condition::Defined,
    )
    .unwrap();
    let bundle = bundle.unwrap();

    assert_eq!(bundle.parameters.len(), unguarded_bundle.parameters.len() + 1);
    assert_eq!(bundle.parameters[5], "method_call_condition");
    assert_eq!(call.parameters.len(), unguarded_call.parameters.len() + 1);
    assert_eq!(call.parameters[5], "\"any.(os.linux)\"");

    let names: Vec<&str> = bundle.promises.iter().map(|p| p.bundle.as_str()).collect();
    assert_eq!(
        names,
        vec!["_method_reporting_context_v4", "package_present", "_classes_noop", "log_rudder"]
    );
    assert_eq!(bundle.promises[1].guard, Guard::If("${method_call_condition}".to_string()));
    assert_eq!(bundle.promises[2].guard, Guard::Unless("${method_call_condition}".to_string()));
    assert_eq!(bundle.promises[3].guard, Guard::Unless("${method_call_condition}".to_string()));
    assert_eq!(
        bundle.promises[2].parameters,
        vec!["canonify(\"${class_prefix}_package_present_${c_key}\")".to_string()]
    );
}

#[test]
fn never_run_skips_the_call_by_construction() {
    let (_, bundle) = method_call(
        &Id::from_str("t"),
        package_present(Condition::NotDefined),
        Condition::Defined,
    )
    .unwrap();
    let bundle = bundle.unwrap();
    let names: Vec<&str> = bundle.promises.iter().map(|p| p.bundle.as_str()).collect();
    assert_eq!(names, vec!["_method_reporting_context_v4", "_classes_noop", "log_rudder"]);
    assert_eq!(bundle.promises[1].guard, Guard::Unguarded);
    assert_eq!(
        bundle.promises[2].parameters[0],
        "\"Skipping method 'Package present' with key parameter 'openssh' since condition '!any' is not reached\""
    );
    assert_eq!(bundle.promises[2].parameters[4], "@{args}");
}

#[test]
fn audit_override_brackets_the_call() {
    let mut m = package_present(Condition::Defined);
    m.policy_mode = Some(PolicyMode::Audit);
    let (_, bundle) = method_call(&Id::from_str("t"), m, Condition::Defined).unwrap();
    let bundle = bundle.unwrap();
    let names: Vec<&str> = bundle.promises.iter().map(|p| p.bundle.as_str()).collect();
    assert_eq!(
        names,
        vec!["_method_reporting_context_v4", "push_dry_run_mode", "package_present", "pop_dry_run_mode"]
    );
    assert_eq!(bundle.promises[1].parameters, vec!["\"true\"".to_string()]);
    assert_eq!(bundle.promises[1].component, None);
    assert_eq!(bundle.promises[1].report_id.as_deref(), Some(UNIQUE));
    assert_eq!(bundle.promises[3].parameters.len(), 0);
}

#[test]
fn enforce_override_pushes_false() {
    let mut m = package_present(Condition::Defined);
    m.policy_mode = Some(PolicyMode::Enforce);
    let (_, bundle) = method_call(&Id::from_str("t"), m, Condition::Defined).unwrap();
    let bundle = bundle.unwrap();
    assert_eq!(bundle.promises[1].bundle, "push_dry_run_mode");
    assert_eq!(bundle.promises[1].parameters, vec!["\"false\"".to_string()]);
}

#[test]
fn block_name_canonifies_the_invocation_id() {
    let mut m = package_present(Condition::Defined);
    m.id = Id::from_str("pkg install!");
    let (call, bundle) = method_call(&Id::from_str("sshd_setup"), m, Condition::Defined).unwrap();
    let bundle = bundle.unwrap();
    assert_eq!(bundle.name, "call_sshd_setup_pkg_install_");
    assert_eq!(call.bundle, "call_sshd_setup_pkg_install_");
    assert_eq!(call.report_id.as_deref(), Some("pkg install!_${report_data.directive_id}"));
}

#[test]
fn values_are_escaped_and_quoted() {
    let mut m = package_present(Condition::Defined);
    m.params = vec![("name".to_string(), "say \"hi\"\\".to_string())];
    let (call, _) = method_call(&Id::from_str("t"), m, Condition::Defined).unwrap();
    assert_eq!(call.parameters[1], "\"say \\\"hi\\\"\\\\\"");
    assert_eq!(call.parameters[5], "\"say \\\"hi\\\"\\\\\"");
}
