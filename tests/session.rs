use aa_dashboard::{
    parse_status, Action, ActionError, Command, Controller, Directive, Exit, Mode, Registry, Stage,
    POLICY_ROOT,
};

const FIRST: &str = "2 profiles are in enforce mode.\n /usr/bin/a\n /usr/bin/b\n1 profiles are in complain mode.\n /usr/bin/c\n";
const SECOND: &str = "1 profiles are in enforce mode.\n /usr/bin/b\n2 profiles are in complain mode.\n /usr/bin/a\n /usr/bin/c\n";

fn ids(c: &Controller) -> Vec<(String, Mode)> {
    c.registry().profiles().iter().map(|p| (p.identifier.clone(), p.mode)).collect()
}

fn loaded(text: &str) -> Controller {
    let mut c = Controller::new(POLICY_ROOT.to_string());
    assert!(matches!(c.start(Action::Refresh), Directive::Run(Command::QueryStatus)));
    assert!(matches!(c.finish(Exit::Succeeded, text), Directive::Done(Ok(()))));
    c
}

#[test]
fn empty_registry_selection_stays_none() {
    let mut r = Registry::new();
    r.select_next();
    assert_eq!(r.selected(), None);
    r.select_previous();
    assert_eq!(r.selected(), None);
    assert!(r.current().is_none());
}

#[test]
fn selection_cycles() {
    let mut r = Registry::new();
    r.load(parse_status(FIRST));
    assert_eq!(r.len(), 3);
    assert_eq!(r.selected(), Some(0));
    r.select_previous();
    assert_eq!(r.selected(), Some(2));
    r.select_next();
    assert_eq!(r.selected(), Some(0));
    r.select_next();
    assert_eq!(r.selected(), Some(1));
    assert_eq!(r.current().unwrap().identifier, "/usr/bin/b");
}

#[test]
fn load_keeps_selected_profile_by_identifier() {
    let mut r = Registry::new();
    r.load(parse_status(FIRST));
    r.select_next();
    assert_eq!(r.current().unwrap().identifier, "/usr/bin/b");
    r.load(parse_status(SECOND));
    assert_eq!(r.selected(), Some(0));
    assert_eq!(r.current().unwrap().identifier, "/usr/bin/b");
}

#[test]
fn load_falls_back_to_first_and_clears_when_empty() {
    let mut r = Registry::new();
    r.load(parse_status(FIRST));
    r.select_previous();
    r.load(parse_status("1 profiles are in enforce mode.\n /x\n /y\n"));
    assert_eq!(r.selected(), Some(0));
    r.load(Vec::new());
    assert_eq!(r.selected(), None);
    assert!(r.is_empty());
}

#[test]
fn failed_mode_change_leaves_registry_unchanged() {
    let mut c = loaded(FIRST);
    c.select_next();
    let before = ids(&c);
    match c.start(Action::SetMode(Mode::Complain)) {
        Directive::Run(Command::ChangeMode { tool, identifier }) => {
            assert_eq!(tool, "aa-complain");
            assert_eq!(identifier, "/usr/bin/b");
        }
        other => panic!("unexpected {:?}", other),
    }
    assert!(matches!(c.finish(Exit::Failed, SECOND), Directive::Done(Err(ActionError::Failed))));
    assert_eq!(ids(&c), before);
    assert_eq!(c.registry().selected(), Some(1));
    assert_eq!(c.stage(), Stage::Idle);
}

#[test]
fn unstartable_command_is_reported() {
    let mut c = loaded(FIRST);
    let before = ids(&c);
    assert!(matches!(c.start(Action::Reload), Directive::Run(Command::ReloadService)));
    assert!(matches!(c.finish(Exit::NotStarted, ""), Directive::Done(Err(ActionError::NotStarted))));
    assert_eq!(ids(&c), before);
}

#[test]
fn successful_mode_change_reconciles_once() {
    let mut c = loaded(FIRST);
    assert!(matches!(c.start(Action::SetMode(Mode::Complain)), Directive::Run(Command::ChangeMode { .. })));
    assert!(matches!(c.finish(Exit::Succeeded, ""), Directive::Run(Command::QueryStatus)));
    assert_eq!(c.stage(), Stage::Querying);
    assert!(matches!(c.finish(Exit::Succeeded, SECOND), Directive::Done(Ok(()))));
    assert_eq!(
        ids(&c),
        vec![
            ("/usr/bin/b".to_string(), Mode::Enforce),
            ("/usr/bin/a".to_string(), Mode::Complain),
            ("/usr/bin/c".to_string(), Mode::Complain),
        ]
    );
    assert_eq!(c.registry().current().unwrap().identifier, "/usr/bin/a");
    assert_eq!(c.stage(), Stage::Idle);
}

#[test]
fn failed_status_query_keeps_registry() {
    let mut c = loaded(FIRST);
    let before = ids(&c);
    c.start(Action::Refresh);
    assert!(matches!(c.finish(Exit::Failed, SECOND), Directive::Done(Err(ActionError::Failed))));
    assert_eq!(ids(&c), before);
}

#[test]
fn kill_mode_and_empty_selection_run_nothing() {
    let mut c = loaded(FIRST);
    assert!(matches!(c.start(Action::SetMode(Mode::Kill)), Directive::Done(Ok(()))));
    assert_eq!(c.stage(), Stage::Idle);
    let mut e = Controller::new(POLICY_ROOT.to_string());
    assert!(matches!(e.start(Action::SetMode(Mode::Enforce)), Directive::Done(Ok(()))));
    assert!(matches!(e.start(Action::Edit), Directive::Done(Ok(()))));
}

#[test]
fn edit_then_reload_then_query() {
    let mut c = loaded("1 profiles are in enforce mode.\n {hash}\n");
    match c.start(Action::Edit) {
        Directive::Run(Command::EditPolicy { path }) => assert_eq!(path, "/etc/apparmor.d/{hash}"),
        other => panic!("unexpected {:?}", other),
    }
    assert!(matches!(c.finish(Exit::Succeeded, ""), Directive::Run(Command::ReloadService)));
    assert!(matches!(c.finish(Exit::Succeeded, ""), Directive::Run(Command::QueryStatus)));
    assert!(matches!(c.finish(Exit::Succeeded, FIRST), Directive::Done(Ok(()))));
    assert_eq!(c.registry().len(), 3);
}
