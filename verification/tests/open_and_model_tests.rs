use shell_scope::Error;
use shell_scope::ExecuteArgs;
use shell_scope::Pattern;
use shell_scope::Scope;
use shell_scope::ScopeAllowedArg;
use shell_scope::ScopeAllowedCommand;
use shell_scope::ScopeConfig;

fn gated_scope(pattern: &str) -> Scope {
    Scope::new(ScopeConfig {
        open_pattern: Some(Pattern::compile(pattern).unwrap()),
        scopes: vec![],
    })
}

#[test]
fn open_gate_accepts_matching_path() {
    let scope = gated_scope("^https?://.+");
    assert!(scope.open_gate("https://example.com").is_ok());
    assert!(scope.open_gate("http://example.com").is_ok());
}

#[test]
fn open_gate_rejects_non_matching_path() {
    let scope = gated_scope("^https?://.+");
    match scope.open_gate("ftp://example.com") {
        Err(Error::Validation { index, validation }) => {
            assert_eq!(index, 0);
            assert_eq!(validation, "^https?://.+");
        }
        _ => panic!("expected Validation"),
    }
}

#[test]
fn open_gate_without_pattern_allows_any_path() {
    let scope = Scope::new(ScopeConfig { open_pattern: None, scopes: vec![] });
    assert!(scope.open_gate("ftp://example.com").is_ok());
    assert!(scope.open_gate("anything at all").is_ok());
}

#[test]
fn open_gate_with_canonical_default_pattern() {
    let scope = gated_scope("^((mailto:\\w+)|(tel:\\w+)|(https?://\\w+)).+");
    assert!(scope.open_gate("mailto:somebody@example.com").is_ok());
    assert!(scope.open_gate("tel:5551234").is_ok());
    assert!(scope.open_gate("https://example.com/page").is_ok());
    assert!(scope.open_gate("file:///etc/passwd").is_err());
    assert!(scope.open_gate("https://").is_err());
}

#[test]
fn invalid_pattern_fails_to_compile() {
    assert!(Pattern::compile("foo(bar").is_none());
}

#[test]
fn pattern_keeps_its_source() {
    let pattern = Pattern::compile("^\\d+$").unwrap();
    assert_eq!(pattern.source(), "^\\d+$");
}

#[test]
fn execute_args_emptiness() {
    assert!(ExecuteArgs::NoArgs.is_empty());
    assert!(ExecuteArgs::Single(String::new()).is_empty());
    assert!(!ExecuteArgs::Single("x".to_owned()).is_empty());
    assert!(ExecuteArgs::List(vec![]).is_empty());
    assert!(!ExecuteArgs::List(vec![String::new()]).is_empty());
}

#[test]
fn execute_args_conversions() {
    assert!(matches!(ExecuteArgs::from(()), ExecuteArgs::NoArgs));
    match ExecuteArgs::from("one".to_owned()) {
        ExecuteArgs::Single(s) => assert_eq!(s, "one"),
        _ => panic!("expected Single"),
    }
    match ExecuteArgs::from(vec!["a".to_owned(), "b".to_owned()]) {
        ExecuteArgs::List(l) => assert_eq!(l, vec!["a".to_owned(), "b".to_owned()]),
        _ => panic!("expected List"),
    }
}

#[test]
fn template_entries_report_their_kind() {
    assert!(ScopeAllowedArg::Fixed("a".to_owned()).is_fixed());
    let var = ScopeAllowedArg::Var { validator: Pattern::compile("^a$").unwrap() };
    assert!(!var.is_fixed());
}

#[test]
fn resolution_applies_to_plain_commands_only() {
    let plain = ScopeAllowedCommand { command: "raw".to_owned(), args: None, sidecar: false };
    let resolved = plain.apply_resolution(Some("/usr/bin/raw".to_owned()));
    assert_eq!(resolved.command, "/usr/bin/raw");

    let side = ScopeAllowedCommand { command: "raw".to_owned(), args: None, sidecar: true };
    let kept = side.apply_resolution(Some("/usr/bin/raw".to_owned()));
    assert_eq!(kept.command, "raw");

    let unresolved = ScopeAllowedCommand { command: "raw".to_owned(), args: None, sidecar: false };
    let kept = unresolved.apply_resolution(None);
    assert_eq!(kept.command, "raw");
}

#[test]
fn first_entry_governs_a_duplicated_name() {
    let scope = Scope::new(ScopeConfig {
        open_pattern: None,
        scopes: vec![
            (
                "dup".to_owned(),
                ScopeAllowedCommand { command: "first".to_owned(), args: None, sidecar: false },
            ),
            (
                "dup".to_owned(),
                ScopeAllowedCommand { command: "second".to_owned(), args: None, sidecar: false },
            ),
        ],
    });
    match scope.prepare("dup", ExecuteArgs::NoArgs) {
        Ok(command) => assert_eq!(command.program, "first"),
        Err(_) => panic!("expected a descriptor"),
    }
}
