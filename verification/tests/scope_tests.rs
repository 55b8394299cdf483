use shell_scope::Command;
use shell_scope::Error;
use shell_scope::ExecuteArgs;
use shell_scope::Pattern;
use shell_scope::Scope;
use shell_scope::ScopeAllowedArg;
use shell_scope::ScopeAllowedCommand;
use shell_scope::ScopeConfig;

fn entry(name: &str, command: &str, args: Option<Vec<ScopeAllowedArg>>, sidecar: bool) -> (String, ScopeAllowedCommand) {
    (
        name.to_owned(),
        ScopeAllowedCommand { command: command.to_owned(), args, sidecar },
    )
}

fn var(pattern: &str) -> ScopeAllowedArg {
    ScopeAllowedArg::Var { validator: Pattern::compile(pattern).unwrap() }
}

fn fixed(value: &str) -> ScopeAllowedArg {
    ScopeAllowedArg::Fixed(value.to_owned())
}

fn scope_with(entries: Vec<(String, ScopeAllowedCommand)>) -> Scope {
    Scope::new(ScopeConfig { open_pattern: None, scopes: entries })
}

fn expect_ok(r: Result<Command, Error>) -> Command {
    match r {
        Ok(c) => c,
        Err(_) => panic!("expected a descriptor"),
    }
}

#[test]
fn absent_command_is_not_found() {
    let scope = scope_with(vec![entry("echo", "/bin/echo", None, false)]);
    match scope.prepare("missing", ExecuteArgs::NoArgs) {
        Err(Error::NotFound(name)) => assert_eq!(name, "missing"),
        _ => panic!("expected NotFound"),
    }
}

#[test]
fn sidecar_record_rejects_plain_entry_point() {
    let scope = scope_with(vec![entry("side", "side-bin", None, true)]);
    assert!(matches!(
        scope.prepare("side", ExecuteArgs::NoArgs),
        Err(Error::BadSidecarFlag)
    ));
}

#[test]
fn plain_record_rejects_sidecar_entry_point() {
    let scope = scope_with(vec![entry("echo", "/bin/echo", None, false)]);
    assert!(matches!(
        scope.prepare_sidecar("echo", "bin/echo", ExecuteArgs::NoArgs),
        Err(Error::BadSidecarFlag)
    ));
}

#[test]
fn fixed_and_variable_template_resolves_positionally() {
    let scope = scope_with(vec![entry(
        "run",
        "/bin/run",
        Some(vec![fixed("a"), var("^\\d+$")]),
        false,
    )]);
    let args = ExecuteArgs::List(vec!["ignored".to_owned(), "123".to_owned()]);
    let command = expect_ok(scope.prepare("run", args));
    assert_eq!(command.program, "/bin/run");
    assert_eq!(command.args, vec!["a".to_owned(), "123".to_owned()]);
    assert!(!command.sidecar);
}

#[test]
fn variable_failing_validation_is_rejected() {
    let scope = scope_with(vec![entry(
        "run",
        "/bin/run",
        Some(vec![fixed("a"), var("^\\d+$")]),
        false,
    )]);
    let args = ExecuteArgs::List(vec!["ignored".to_owned(), "abc".to_owned()]);
    match scope.prepare("run", args) {
        Err(Error::Validation { index, validation }) => {
            assert_eq!(index, 1);
            assert_eq!(validation, "^\\d+$");
        }
        _ => panic!("expected Validation"),
    }
}

#[test]
fn variable_without_supplied_value_is_missing() {
    let scope = scope_with(vec![entry(
        "run",
        "/bin/run",
        Some(vec![fixed("a"), var("^\\d+$")]),
        false,
    )]);
    let args = ExecuteArgs::List(vec!["ignored".to_owned()]);
    match scope.prepare("run", args) {
        Err(Error::MissingVar(index, validation)) => {
            assert_eq!(index, 1);
            assert_eq!(validation, "^\\d+$");
        }
        _ => panic!("expected MissingVar"),
    }
}

#[test]
fn all_fixed_template_accepts_empty_args() {
    let template = || Some(vec![fixed("x"), fixed("y")]);
    for args in [
        ExecuteArgs::NoArgs,
        ExecuteArgs::Single(String::new()),
        ExecuteArgs::List(vec![]),
    ] {
        let scope = scope_with(vec![entry("con", "/bin/con", template(), false)]);
        let command = expect_ok(scope.prepare("con", args));
        assert_eq!(command.args, vec!["x".to_owned(), "y".to_owned()]);
    }
}

#[test]
fn untemplated_command_takes_args_verbatim() {
    let scope = scope_with(vec![entry("free", "/bin/free", None, false)]);
    let single = expect_ok(scope.prepare("free", ExecuteArgs::Single("foo".to_owned())));
    assert_eq!(single.args, vec!["foo".to_owned()]);
    let list = expect_ok(scope.prepare(
        "free",
        ExecuteArgs::List(vec!["a".to_owned(), "b".to_owned()]),
    ));
    assert_eq!(list.args, vec!["a".to_owned(), "b".to_owned()]);
    let none = expect_ok(scope.prepare("free", ExecuteArgs::NoArgs));
    assert!(none.args.is_empty());
}

#[test]
fn empty_template_rejects_nonempty_single() {
    let scope = scope_with(vec![entry("bare", "/bin/bare", Some(vec![]), false)]);
    match scope.prepare("bare", ExecuteArgs::Single("x".to_owned())) {
        Err(Error::InvalidInput(name)) => assert_eq!(name, "bare"),
        _ => panic!("expected InvalidInput"),
    }
}

// A documented boundary of the reconciliation rule: a supplied list is
// reconciled against the empty template, so every value lies beyond the
// template's length and is ignored rather than rejected.
#[test]
fn empty_template_ignores_supplied_list() {
    let scope = scope_with(vec![entry("bare", "/bin/bare", Some(vec![]), false)]);
    let command = expect_ok(scope.prepare("bare", ExecuteArgs::List(vec!["a".to_owned()])));
    assert!(command.args.is_empty());
}

// The same boundary past a non-empty template: trailing supplied values
// beyond the template's length are ignored.
#[test]
fn trailing_supplied_values_are_ignored() {
    let scope = scope_with(vec![entry(
        "run",
        "/bin/run",
        Some(vec![var("^\\d+$")]),
        false,
    )]);
    let args = ExecuteArgs::List(vec!["1".to_owned(), "extra".to_owned()]);
    let command = expect_ok(scope.prepare("run", args));
    assert_eq!(command.args, vec!["1".to_owned()]);
}

#[test]
fn variable_template_rejects_single_and_none() {
    let scope = scope_with(vec![entry(
        "run",
        "/bin/run",
        Some(vec![var("^\\d+$")]),
        false,
    )]);
    assert!(matches!(
        scope.prepare("run", ExecuteArgs::Single("1".to_owned())),
        Err(Error::InvalidInput(_))
    ));
    assert!(matches!(
        scope.prepare("run", ExecuteArgs::NoArgs),
        Err(Error::InvalidInput(_))
    ));
}

#[test]
fn variable_template_with_empty_list_is_missing_var() {
    let scope = scope_with(vec![entry(
        "run",
        "/bin/run",
        Some(vec![var("^\\d+$")]),
        false,
    )]);
    match scope.prepare("run", ExecuteArgs::List(vec![])) {
        Err(Error::MissingVar(index, _)) => assert_eq!(index, 0),
        _ => panic!("expected MissingVar"),
    }
}

#[test]
fn prepare_is_deterministic() {
    let build = || {
        scope_with(vec![entry(
            "run",
            "/bin/run",
            Some(vec![fixed("a"), var("^\\d+$")]),
            false,
        )])
    };
    let args = || ExecuteArgs::List(vec!["ignored".to_owned(), "123".to_owned()]);
    let first = expect_ok(build().prepare("run", args()));
    let second = expect_ok(build().prepare("run", args()));
    assert_eq!(first.program, second.program);
    assert_eq!(first.args, second.args);
    assert_eq!(first.sidecar, second.sidecar);
}

#[test]
fn sidecar_descriptor_uses_script_basename() {
    let scope = scope_with(vec![entry("side", "side-bin", None, true)]);
    let command = expect_ok(scope.prepare_sidecar(
        "side",
        "binaries/side-app",
        ExecuteArgs::Single("v".to_owned()),
    ));
    assert_eq!(command.program, "side-app");
    assert_eq!(command.args, vec!["v".to_owned()]);
    assert!(command.sidecar);
}

#[test]
fn sidecar_script_without_directory_is_kept_whole() {
    let scope = scope_with(vec![entry("side", "side-bin", None, true)]);
    let command = expect_ok(scope.prepare_sidecar("side", "side-app", ExecuteArgs::NoArgs));
    assert_eq!(command.program, "side-app");
}
