use lnkr::config::{Config, Link, LinkGroup};
use lnkr::linking::LinkToCreate;
use lnkr::session::{Action, Event, LinkError, LinkResult, LinkSession, LinkingSuccessState};

fn item(force: bool) -> LinkToCreate {
    LinkToCreate::new("/opt/foo/bin/foo".to_string(), "/home/u/bin/foo".to_string(), force)
}

fn io_error(text: &str) -> std::io::Error {
    std::io::Error::new(std::io::ErrorKind::Other, text)
}

fn canonical() -> Event {
    Event::Canonicalized(Ok("/opt/foo/bin/foo".to_string()))
}

fn inspected(exists: bool, target: Option<&str>, parent_exists: bool) -> Event {
    Event::Inspected { exists, link_target: target.map(|t| t.to_string()), parent_exists }
}

fn finish(s: LinkSession) -> LinkResult {
    match s.into_result() {
        Some(r) => r,
        None => panic!("session not finished"),
    }
}

#[test]
fn fresh_link_is_created() {
    let mut s = LinkSession::new(item(false));
    assert!(matches!(s.action(), Action::Canonicalize { source } if source == "/opt/foo/bin/foo"));
    s.advance(canonical());
    match s.action() {
        Action::Inspect { destination, parent } => {
            assert_eq!(destination, "/home/u/bin/foo");
            assert_eq!(parent.as_deref(), Some("/home/u/bin"));
        }
        _ => panic!("expected an inspection"),
    }
    s.advance(inspected(false, None, true));
    assert!(matches!(s.action(), Action::Link { source, destination }
        if source == "/opt/foo/bin/foo" && destination == "/home/u/bin/foo"));
    s.advance(Event::Linked(Ok(())));
    assert!(s.is_finished());
    assert!(matches!(s.action(), Action::Finish));
    let r = finish(s);
    assert!(matches!(r, LinkResult::Success { state: LinkingSuccessState::Linked, .. }));
    assert_eq!(r.to_string(), "\u{2705} /opt/foo/bin/foo -> /home/u/bin/foo: Successfully linked.");
}

#[test]
fn existing_correct_link_is_kept() {
    let mut s = LinkSession::new(item(false));
    s.advance(canonical());
    s.advance(inspected(true, Some("/opt/foo/bin/foo"), true));
    let r = finish(s);
    assert!(matches!(r, LinkResult::Success { state: LinkingSuccessState::AlreadyLinked, .. }));
    assert_eq!(r.to_string(), "\u{2705} /opt/foo/bin/foo -> /home/u/bin/foo: Already linked.");
}

#[test]
fn applying_twice_links_then_finds_linked() {
    let mut first = LinkSession::new(item(false));
    first.advance(canonical());
    first.advance(inspected(false, None, true));
    first.advance(Event::Linked(Ok(())));
    assert!(matches!(finish(first), LinkResult::Success { state: LinkingSuccessState::Linked, .. }));
    let mut second = LinkSession::new(item(false));
    second.advance(canonical());
    second.advance(inspected(true, Some("/opt/foo/bin/foo"), true));
    assert!(matches!(second.action(), Action::Finish));
    assert!(matches!(finish(second), LinkResult::Success { state: LinkingSuccessState::AlreadyLinked, .. }));
}

#[test]
fn existing_file_is_not_clobbered() {
    let mut s = LinkSession::new(item(false));
    s.advance(canonical());
    s.advance(inspected(true, None, true));
    assert!(matches!(s.action(), Action::Finish));
    let r = finish(s);
    assert!(matches!(r, LinkResult::Failure { error: LinkError::AlreadyExists, .. }));
    assert_eq!(
        r.to_string(),
        "\u{274c} /opt/foo/bin/foo -> /home/u/bin/foo: An item already exists at the link location."
    );
}

#[test]
fn mismatched_link_is_not_replaced_without_force() {
    let mut s = LinkSession::new(item(false));
    s.advance(canonical());
    s.advance(inspected(true, Some("/elsewhere"), true));
    assert!(matches!(finish(s), LinkResult::Failure { error: LinkError::AlreadyExists, .. }));
}

#[test]
fn forced_link_replaces_the_entry() {
    let mut s = LinkSession::new(item(true));
    s.advance(canonical());
    s.advance(inspected(true, None, true));
    assert!(matches!(s.action(), Action::Remove { destination } if destination == "/home/u/bin/foo"));
    s.advance(Event::Removed(Ok(())));
    assert!(matches!(s.action(), Action::Link { .. }));
    s.advance(Event::Linked(Ok(())));
    assert!(matches!(finish(s), LinkResult::Success { state: LinkingSuccessState::Linked, .. }));
}

#[test]
fn missing_parent_is_created() {
    let mut s = LinkSession::new(item(false));
    s.advance(canonical());
    s.advance(inspected(false, None, false));
    assert!(matches!(s.action(), Action::CreateParent { parent } if parent == "/home/u/bin"));
    s.advance(Event::ParentCreated(Ok(())));
    assert!(matches!(s.action(), Action::Link { .. }));
    s.advance(Event::Linked(Ok(())));
    assert!(matches!(finish(s), LinkResult::Success { state: LinkingSuccessState::Linked, .. }));
}

#[test]
fn source_error_touches_nothing() {
    let mut s = LinkSession::new(item(true));
    s.advance(Event::Canonicalized(Err(io_error("no such file"))));
    assert!(matches!(s.action(), Action::Finish));
    let r = finish(s);
    assert!(matches!(r, LinkResult::Failure { error: LinkError::FromPathError(_), .. }));
    assert_eq!(
        r.to_string(),
        "\u{274c} /opt/foo/bin/foo -> /home/u/bin/foo: The 'from' path has an error - no such file"
    );
}

#[test]
fn parent_creation_error_is_reported() {
    let mut s = LinkSession::new(item(false));
    s.advance(canonical());
    s.advance(inspected(false, None, false));
    s.advance(Event::ParentCreated(Err(io_error("denied"))));
    let r = finish(s);
    assert!(matches!(r, LinkResult::Failure { error: LinkError::DestinationCreationError(_), .. }));
    assert_eq!(
        r.to_string(),
        "\u{274c} /opt/foo/bin/foo -> /home/u/bin/foo: Could not create the destination directory - denied"
    );
}

#[test]
fn removal_and_link_errors_are_io_errors() {
    let mut s = LinkSession::new(item(true));
    s.advance(canonical());
    s.advance(inspected(true, None, true));
    s.advance(Event::Removed(Err(io_error("busy"))));
    let r = finish(s);
    assert!(matches!(r, LinkResult::Failure { error: LinkError::IoError(_), .. }));
    assert_eq!(r.to_string(), "\u{274c} /opt/foo/bin/foo -> /home/u/bin/foo: busy");

    let mut t = LinkSession::new(item(false));
    t.advance(canonical());
    t.advance(inspected(false, None, true));
    t.advance(Event::Linked(Err(io_error("exists"))));
    assert!(matches!(finish(t), LinkResult::Failure { error: LinkError::IoError(_), .. }));
}

#[test]
fn unexpected_event_changes_nothing() {
    let mut s = LinkSession::new(item(false));
    s.advance(Event::Linked(Ok(())));
    assert!(matches!(s.action(), Action::Canonicalize { .. }));
    assert!(s.into_result().is_none());
}

#[test]
fn root_destination_has_no_parent_step() {
    let mut s = LinkSession::new(LinkToCreate::new("/src".to_string(), "/".to_string(), false));
    s.advance(Event::Canonicalized(Ok("/src".to_string())));
    assert!(matches!(s.action(), Action::Inspect { parent: None, .. }));
    s.advance(inspected(false, None, false));
    assert!(matches!(s.action(), Action::Link { .. }));
}

#[test]
fn success_messages() {
    assert_eq!(LinkingSuccessState::Linked.message(), "Successfully linked.");
    assert_eq!(LinkingSuccessState::AlreadyLinked.message(), "Already linked.");
    assert_eq!(LinkError::AlreadyExists.message(), "An item already exists at the link location.");
    assert_eq!(LinkError::IoError(io_error("x")).message(), "x");
}

fn resolved_foo() -> LinkToCreate {
    let config = Config {
        links: vec![LinkGroup {
            preset: None,
            os: Some(vec!["linux".to_string()]),
            destination: "~/bin".to_string(),
            items: vec![Link {
                name: "foo".to_string(),
                path: "/opt/foo/bin/foo".to_string(),
                force: false,
            }],
        }],
    };
    let home = Some("/home/u".to_string());
    match lnkr::linking::retrieve_links_to_create(config, "linux", &home) {
        Ok(mut v) => {
            assert_eq!(v.len(), 1);
            v.remove(0)
        }
        Err(_) => panic!("resolution failed"),
    }
}

#[test]
fn scenario_first_run_links() {
    let mut s = LinkSession::new(resolved_foo());
    s.advance(canonical());
    assert!(matches!(s.action(), Action::Inspect { parent: Some(p), .. } if p == "/home/u/bin"));
    s.advance(inspected(false, None, true));
    assert!(matches!(s.action(), Action::Link { source, destination }
        if source == "/opt/foo/bin/foo" && destination == "/home/u/bin/foo"));
    s.advance(Event::Linked(Ok(())));
    let r = finish(s);
    assert_eq!(r.to_string(), "\u{2705} /opt/foo/bin/foo -> /home/u/bin/foo: Successfully linked.");
}

#[test]
fn scenario_second_run_is_already_linked() {
    let mut s = LinkSession::new(resolved_foo());
    s.advance(canonical());
    s.advance(inspected(true, Some("/opt/foo/bin/foo"), true));
    assert!(matches!(s.action(), Action::Finish));
    let r = finish(s);
    assert!(matches!(r, LinkResult::Success { state: LinkingSuccessState::AlreadyLinked, .. }));
}

#[test]
fn scenario_regular_file_is_left_alone() {
    let mut s = LinkSession::new(resolved_foo());
    s.advance(canonical());
    s.advance(inspected(true, None, true));
    assert!(matches!(s.action(), Action::Finish));
    let r = finish(s);
    assert!(matches!(r, LinkResult::Failure { error: LinkError::AlreadyExists, .. }));
}
