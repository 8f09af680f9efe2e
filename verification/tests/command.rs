use nexus_core::command::{remember_peer_arguments, required, split_cli_line, text_eq, Operation};
use nexus_core::error::NexusError;
use nexus_core::identity::Identity;

#[test]
fn cli_lines() {
    let line = split_cli_line("  say abc hello   world  ");
    assert_eq!(line.command, "say");
    assert_eq!(line.first.as_deref(), Some("abc"));
    assert_eq!(line.rest.as_deref(), Some("hello   world"));
    let line = split_cli_line("pair ID");
    assert_eq!(line.command, "pair");
    assert_eq!(line.first.as_deref(), Some("ID"));
    assert_eq!(line.rest, None);
    let line = split_cli_line("peers");
    assert_eq!(line.command, "peers");
    assert_eq!(line.first, None);
    let line = split_cli_line("say  x");
    assert_eq!(line.first.as_deref(), Some(""));
    assert_eq!(line.rest.as_deref(), Some("x"));
    assert_eq!(split_cli_line("   ").command, "");
}

#[test]
fn required_arguments() {
    assert_eq!(required(Some("x".into()), "peer id"), Ok("x".to_string()));
    let err = required(None, "peer id").unwrap_err();
    assert_eq!(err.message(), "missing peer id");
}

#[test]
fn operations() {
    assert_eq!(Operation::parse("identity"), Ok(Operation::Identity));
    assert_eq!(Operation::parse("set_display_name"), Ok(Operation::SetDisplayName));
    assert_eq!(Operation::parse("materialize_file"), Ok(Operation::MaterializeFile));
    assert_eq!(Operation::parse("events"), Ok(Operation::Events));
    let err = Operation::parse("launch").unwrap_err();
    assert_eq!(err.message(), "unknown operation launch");
    assert!(text_eq("abc", "abc"));
    assert!(!text_eq("abc", "abd"));
    assert!(!text_eq("abc", "ab"));
}

#[test]
fn remember_peer_commands() {
    let alice = Identity::from_secrets("Alice", [1; 32], [2; 32]);
    let a = alice.public().clone();
    assert_eq!(remember_peer_arguments(None, "h".into(), 1), Err(NexusError::MissingPeerIdentity));
    assert_eq!(remember_peer_arguments(Some(a.clone()), "  ".into(), 1), Err(NexusError::MissingPeerHost));
    assert_eq!(remember_peer_arguments(Some(a.clone()), "h".into(), 0), Err(NexusError::MissingPeerPort));
    let (identity, endpoint) = remember_peer_arguments(Some(a.clone()), " h ".into(), 5).unwrap();
    assert_eq!(identity, a);
    assert_eq!(endpoint.host, " h ");
    assert_eq!(endpoint.port, 5);
    assert_eq!(NexusError::MissingPeerHost.message(), "missing peer host");
}
