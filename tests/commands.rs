use matrix_commands::dispatch::Action;
use matrix_commands::{
    parse_command, validate_homeserver, Argument, Command, Markup, Report, ServerRegistry,
    UsageError,
};

fn s(t: &str) -> String {
    t.to_string()
}

fn tokens(line: &str) -> Vec<String> {
    line.split_whitespace().map(|t| t.to_string()).collect()
}

fn plain() -> Markup {
    Markup { server_color: s("<c>"), reset: s("</c>"), error_prefix: s("!! ") }
}

fn registry_with(names: &[&str]) -> ServerRegistry {
    let mut r = ServerRegistry::new();
    for n in names {
        let report = r.add_server(s(n), s("https://matrix.example.org/"));
        assert_eq!(report, Report::ServerAdded(s(n)));
    }
    r
}

fn listed(r: &ServerRegistry, name: &str) -> usize {
    r.list_servers().iter().filter(|l| **l == Report::ListEntry(s(name))).count()
}

#[test]
fn add_then_list_shows_name_once() {
    let mut r = registry_with(&["alpha", "beta"]);
    r.add_server(s("gamma"), s("https://gamma.example/"));
    assert_eq!(listed(&r, "gamma"), 1);
    r.add_server(s("gamma"), s("https://other.example/"));
    assert_eq!(listed(&r, "gamma"), 1);
}

#[test]
fn delete_connected_is_refused() {
    let mut r = registry_with(&["home"]);
    assert!(r.set_connected(&s("home"), true));
    assert_eq!(r.delete_server(&s("home")), Report::StillConnected(s("home")));
    assert_eq!(r.names(), vec![s("home")]);
    assert!(r.get(&s("home")).unwrap().connected);
}

#[test]
fn delete_unknown_is_refused() {
    let mut r = registry_with(&["home"]);
    assert_eq!(r.delete_server(&s("away")), Report::NoSuchServer(s("away")));
    assert_eq!(r.names(), vec![s("home")]);
}

#[test]
fn connect_goes_on_after_unknown() {
    let r = registry_with(&["b"]);
    let plan = r.connect_command(&vec![s("a"), s("b")]);
    assert_eq!(plan, vec![Action::Print(Report::NotFound(s("a"))), Action::Connect(s("b"))]);
    let connects = plan.iter().filter(|a| **a == Action::Connect(s("b"))).count();
    assert_eq!(connects, 1);
}

#[test]
fn readd_is_refused() {
    let mut r = ServerRegistry::new();
    r.add_server(s("home"), s("https://first.example/"));
    let report = r.add_server(s("home"), s("https://second.example/"));
    assert_eq!(report, Report::ServerExists(s("home")));
    assert_eq!(r.len(), 1);
    assert_eq!(r.get(&s("home")).unwrap().homeserver, s("https://first.example/"));
}

#[test]
fn readd_through_command_stores_nothing() {
    let mut r = registry_with(&["home"]);
    let actions = r.run(&tokens("server add home https://second.example"));
    assert_eq!(actions, vec![Action::Print(Report::ServerExists(s("home")))]);
}

#[test]
fn invalid_homeserver_is_a_parse_error() {
    let parsed = parse_command(&tokens("server add myserver not-a-url"));
    assert_eq!(parsed, Err(UsageError::InvalidHomeserver(s("not-a-url"))));
    let mut r = registry_with(&["home"]);
    let actions = r.run(&tokens("server add myserver not-a-url"));
    assert_eq!(actions, vec![Action::Usage(UsageError::InvalidHomeserver(s("not-a-url")))]);
    assert_eq!(r.names(), vec![s("home")]);
}

#[test]
fn end_to_end_lifecycle() {
    let mut r = ServerRegistry::new();
    let actions = r.run(&tokens("server add example https://matrix.example.org"));
    assert_eq!(
        actions,
        vec![
            Action::StoreHomeserver { name: s("example"), homeserver: s("https://matrix.example.org/") },
            Action::Print(Report::ServerAdded(s("example"))),
        ]
    );
    assert_eq!(listed(&r, "example"), 1);
    let plan = r.run(&tokens("connect example"));
    assert_eq!(plan, vec![Action::Connect(s("example"))]);
    assert_eq!(r.record_connect(&s("example"), Ok(())), None);
    assert_eq!(
        r.run(&tokens("server delete example")),
        vec![Action::Print(Report::StillConnected(s("example")))]
    );
    assert_eq!(r.run(&tokens("disconnect example")), vec![Action::Disconnect(s("example"))]);
    assert!(r.set_connected(&s("example"), false));
    assert_eq!(
        r.run(&tokens("server delete example")),
        vec![Action::Release(s("example")), Action::Print(Report::ServerDeleted(s("example")))]
    );
    assert!(!r.contains(&s("example")));
    assert!(r.is_empty());
}

#[test]
fn empty_registry_lists_nothing() {
    let r = ServerRegistry::new();
    assert!(r.list_servers().is_empty());
}

#[test]
fn listing_has_header_then_names_in_order() {
    let r = registry_with(&["one", "two"]);
    assert_eq!(
        r.list_servers(),
        vec![Report::ListHeader, Report::ListEntry(s("one")), Report::ListEntry(s("two"))]
    );
}

#[test]
fn failed_connect_is_reported_as_is() {
    let mut r = registry_with(&["home"]);
    let report = r.record_connect(&s("home"), Err(s("connection refused")));
    assert_eq!(report, Some(Report::ConnectFailed(s("connection refused"))));
    assert!(!r.get(&s("home")).unwrap().connected);
}

#[test]
fn disconnect_unknown_reports_not_found() {
    let r = registry_with(&["home"]);
    assert_eq!(r.disconnect_command(&s("away")), Action::Print(Report::NotFound(s("away"))));
}

#[test]
fn set_connected_on_unknown_changes_nothing() {
    let mut r = registry_with(&["home"]);
    assert!(!r.set_connected(&s("away"), true));
    assert!(!r.get(&s("home")).unwrap().connected);
}

#[test]
fn parse_empty_line_asks_for_help() {
    assert_eq!(parse_command(&vec![]), Ok(Command::Help));
}

#[test]
fn parse_server_defaults_to_list() {
    assert_eq!(parse_command(&tokens("server")), Ok(Command::ListServers));
    assert_eq!(parse_command(&tokens("server list")), Ok(Command::ListServers));
    assert_eq!(
        parse_command(&tokens("server list extra")),
        Err(UsageError::UnexpectedArgument(s("extra")))
    );
}

#[test]
fn parse_unknown_subcommands() {
    assert_eq!(parse_command(&tokens("reconnect")), Err(UsageError::UnknownSubcommand(s("reconnect"))));
    assert_eq!(parse_command(&tokens("server rename a")), Err(UsageError::UnknownSubcommand(s("rename"))));
}

#[test]
fn parse_missing_arguments() {
    assert_eq!(parse_command(&tokens("server add")), Err(UsageError::MissingArgument(Argument::ServerName)));
    assert_eq!(parse_command(&tokens("server add x")), Err(UsageError::MissingArgument(Argument::Homeserver)));
    assert_eq!(parse_command(&tokens("server delete")), Err(UsageError::MissingArgument(Argument::ServerName)));
    assert_eq!(parse_command(&tokens("connect")), Err(UsageError::MissingArgument(Argument::ServerName)));
    assert_eq!(parse_command(&tokens("disconnect")), Err(UsageError::MissingArgument(Argument::ServerName)));
}

#[test]
fn parse_unexpected_arguments() {
    assert_eq!(
        parse_command(&tokens("server add x https://a.example extra")),
        Err(UsageError::UnexpectedArgument(s("extra")))
    );
    assert_eq!(parse_command(&tokens("server delete a b")), Err(UsageError::UnexpectedArgument(s("b"))));
    assert_eq!(parse_command(&tokens("disconnect a b")), Err(UsageError::UnexpectedArgument(s("b"))));
}

#[test]
fn parse_valid_commands() {
    assert_eq!(
        parse_command(&tokens("server add home https://matrix.example.org:8448")),
        Ok(Command::AddServer { name: s("home"), homeserver: s("https://matrix.example.org:8448/") })
    );
    assert_eq!(parse_command(&tokens("server delete home")), Ok(Command::DeleteServer { name: s("home") }));
    assert_eq!(
        parse_command(&tokens("connect a b c")),
        Ok(Command::Connect { names: vec![s("a"), s("b"), s("c")] })
    );
    assert_eq!(parse_command(&tokens("disconnect a")), Ok(Command::Disconnect { name: s("a") }));
}

#[test]
fn homeserver_is_normalised() {
    assert_eq!(validate_homeserver(&s("HTTPS://Matrix.Example.org")), Ok(s("https://matrix.example.org/")));
    assert_eq!(validate_homeserver(&s("/relative/path")), Err(UsageError::InvalidHomeserver(s("/relative/path"))));
}

#[test]
fn report_texts() {
    let m = plain();
    assert_eq!(Report::ServerAdded(s("h")).text(&m), "matrix: Server <c>h</c> has been added.");
    assert_eq!(Report::ServerExists(s("h")).text(&m), "!! matrix: Server <c>h</c> already exists.");
    assert_eq!(Report::NoSuchServer(s("h")).text(&m), "matrix: No such server <c>h</c> found.");
    assert_eq!(Report::StillConnected(s("h")).text(&m), "matrix: Server <c>h</c> is still connected.");
    assert_eq!(Report::ServerDeleted(s("h")).text(&m), "matrix: Server <c>h</c> has been deleted.");
    assert_eq!(Report::NotFound(s("h")).text(&m), "!! matrix: Server \"<c>h</c>\" not found.");
    assert_eq!(Report::ConnectFailed(s("boom")).text(&m), "boom");
    assert_eq!(Report::ListHeader.text(&m), "\nAll Matrix servers:");
    assert_eq!(Report::ListEntry(s("h")).text(&m), "    <c>h");
}

#[test]
fn usage_messages() {
    assert_eq!(UsageError::UnknownSubcommand(s("x")).message(), "error: unrecognized subcommand 'x'");
    assert_eq!(
        UsageError::MissingArgument(Argument::ServerName).message(),
        "error: the required argument <server-name> was not provided"
    );
    assert_eq!(
        UsageError::MissingArgument(Argument::Homeserver).message(),
        "error: the required argument <homeserver> was not provided"
    );
    assert_eq!(UsageError::UnexpectedArgument(s("y")).message(), "error: unexpected argument 'y'");
    assert_eq!(UsageError::InvalidHomeserver(s("z")).message(), "error: invalid homeserver URL 'z'");
}

#[test]
fn help_and_list_through_run() {
    let mut r = registry_with(&["home"]);
    assert_eq!(r.run(&vec![]), vec![Action::ShowHelp]);
    assert_eq!(
        r.run(&tokens("server")),
        vec![Action::Print(Report::ListHeader), Action::Print(Report::ListEntry(s("home")))]
    );
}

#[test]
fn remove_hands_back_the_server() {
    let mut r = registry_with(&["one", "two"]);
    let removed = r.remove(&s("one")).unwrap();
    assert_eq!(removed.name, s("one"));
    assert_eq!(removed.homeserver, s("https://matrix.example.org/"));
    assert_eq!(r.names(), vec![s("two")]);
    assert!(r.remove(&s("one")).is_none());
}
