use landlock::{CreateRulesetError, RulesetError};
use leucite::compiler::conclude;
use leucite::{Direction, EnforcementOutcome, Error, PathClass, Request, Rules, Stage};

fn kernel_error() -> RulesetError {
    RulesetError::CreateRuleset(CreateRulesetError::MissingHandledAccess)
}

fn is_the_kernel_error(source: &RulesetError) -> bool {
    matches!(
        source,
        RulesetError::CreateRuleset(CreateRulesetError::MissingHandledAccess)
    )
}

#[test]
fn nothing_enforced_is_kernel_unsupported() {
    assert!(matches!(
        EnforcementOutcome::NotEnforced.accept(),
        Err(Error::KernelUnsupported)
    ));
    assert!(matches!(
        conclude(Ok(EnforcementOutcome::NotEnforced)),
        Err(Error::KernelUnsupported)
    ));
}

#[test]
fn full_and_partial_enforcement_are_handed_on() {
    assert!(matches!(
        EnforcementOutcome::FullyEnforced.accept(),
        Ok(EnforcementOutcome::FullyEnforced)
    ));
    assert!(matches!(
        EnforcementOutcome::PartiallyEnforced.accept(),
        Ok(EnforcementOutcome::PartiallyEnforced)
    ));
    assert!(matches!(
        conclude(Ok(EnforcementOutcome::FullyEnforced)),
        Ok(EnforcementOutcome::FullyEnforced)
    ));
    assert!(matches!(
        conclude(Ok(EnforcementOutcome::PartiallyEnforced)),
        Ok(EnforcementOutcome::PartiallyEnforced)
    ));
}

#[test]
fn a_refused_enforcement_is_enforcement_failed_with_its_cause() {
    match conclude(Err(kernel_error())) {
        Err(Error::EnforcementFailed { source }) => assert!(is_the_kernel_error(&source)),
        other => panic!("unexpected: {:?}", other),
    }
}

#[test]
fn each_stage_has_its_own_failure() {
    match Stage::Declaration.refused(kernel_error()) {
        Error::AccessDeclarationFailed { source } => assert!(is_the_kernel_error(&source)),
        other => panic!("unexpected: {:?}", other),
    }
    match Stage::Creation.refused(kernel_error()) {
        Error::RulesetCreationFailed { source } => assert!(is_the_kernel_error(&source)),
        other => panic!("unexpected: {:?}", other),
    }
    match (Stage::PortRule {
        direction: Direction::Bind,
    })
    .refused(kernel_error())
    {
        Error::PortRuleFailed {
            direction: Direction::Bind,
            source,
        } => assert!(is_the_kernel_error(&source)),
        other => panic!("unexpected: {:?}", other),
    }
    match (Stage::PortRule {
        direction: Direction::Connect,
    })
    .refused(kernel_error())
    {
        Error::PortRuleFailed {
            direction: Direction::Connect,
            source,
        } => assert!(is_the_kernel_error(&source)),
        other => panic!("unexpected: {:?}", other),
    }
    for class in [
        PathClass::ReadOnly,
        PathClass::WriteOnly,
        PathClass::ReadWrite,
    ] {
        match (Stage::PathRule { class }).refused(kernel_error()) {
            Error::PathRuleFailed {
                class: named,
                source,
            } => {
                assert_eq!(named, class);
                assert!(is_the_kernel_error(&source));
            }
            other => panic!("unexpected: {:?}", other),
        }
    }
    match Stage::Enforcement.refused(kernel_error()) {
        Error::EnforcementFailed { source } => assert!(is_the_kernel_error(&source)),
        other => panic!("unexpected: {:?}", other),
    }
}

#[test]
fn a_refusal_names_its_stage() {
    let stages = [
        Stage::Declaration,
        Stage::Creation,
        Stage::PortRule {
            direction: Direction::Bind,
        },
        Stage::PortRule {
            direction: Direction::Connect,
        },
        Stage::PathRule {
            class: PathClass::ReadOnly,
        },
        Stage::PathRule {
            class: PathClass::WriteOnly,
        },
        Stage::PathRule {
            class: PathClass::ReadWrite,
        },
        Stage::Enforcement,
    ];
    for stage in stages {
        assert_eq!(stage.refused(kernel_error()).stage(), Some(stage));
    }
    assert_eq!(Error::KernelUnsupported.stage(), None);
}

#[test]
fn a_request_is_made_at_the_stage_of_its_kind() {
    assert_eq!(
        Request::Port {
            port: 80,
            direction: Direction::Connect
        }
        .stage(),
        Stage::PortRule {
            direction: Direction::Connect
        }
    );
    assert_eq!(
        Request::Port {
            port: 0,
            direction: Direction::Bind
        }
        .stage(),
        Stage::PortRule {
            direction: Direction::Bind
        }
    );
    assert_eq!(
        Request::Path {
            path: "/usr",
            class: PathClass::WriteOnly
        }
        .stage(),
        Stage::PathRule {
            class: PathClass::WriteOnly
        }
    );
}

/// What every outcome of an enforcement has in common, whatever the kernel.
fn check_outcome(rules: &Rules, res: Result<EnforcementOutcome, Error>) {
    match res {
        Ok(outcome) => assert_ne!(outcome, EnforcementOutcome::NotEnforced),
        Err(Error::KernelUnsupported) => {}
        Err(Error::ResourceLimitFailed { .. }) => panic!("no resource was bounded"),
        Err(error) => match error.stage() {
            Some(Stage::PathRule {
                class: PathClass::ReadOnly,
            }) => assert!(!rules.read_only().is_empty()),
            Some(Stage::PathRule {
                class: PathClass::WriteOnly,
            }) => assert!(!rules.write_only().is_empty()),
            Some(Stage::PathRule {
                class: PathClass::ReadWrite,
            }) => assert!(!rules.read_write().is_empty()),
            Some(_) => {}
            None => panic!("a refusal names its stage"),
        },
    }
}

#[test]
fn enforcing_rules_never_reports_success_with_nothing_enforced() {
    let rules = Rules::new()
        .add_read_only("/usr")
        .add_read_only("/etc")
        .add_write_only("/dev")
        .add_read_write("/tmp")
        .add_bind_port(8080)
        .add_connect_port(443);
    let res = rules.enforce();
    check_outcome(&rules, res);
}

#[test]
fn enforcing_empty_rules_asks_no_path_rule() {
    let rules = Rules::new();
    let res = rules.enforce();
    assert!(!matches!(res, Err(Error::PathRuleFailed { .. })));
    check_outcome(&rules, res);
}

#[test]
fn a_path_that_does_not_exist_is_left_to_the_kernel_interface() {
    let rules = Rules::new()
        .add_read_only("/this/path/does/not/exist")
        .add_write_only("/nor/does/this/one");
    let res = rules.enforce();
    check_outcome(&rules, res);
}

#[test]
fn restrict_succeeds_where_enforce_did() {
    let rules = Rules::new().add_read_write("/").add_bind_port(8080);
    let first = rules.enforce();
    let second = rules.restrict();
    assert!(!matches!(second, Err(Error::PathRuleFailed { class: PathClass::ReadOnly, .. })));
    assert!(!matches!(second, Err(Error::PathRuleFailed { class: PathClass::WriteOnly, .. })));
    assert!(!matches!(second, Err(Error::ResourceLimitFailed { .. })));
    if first.is_ok() {
        assert!(second.is_ok());
    }
}
