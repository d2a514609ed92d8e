use lan_tracker::autostart::{reconcile, startup_reconcile, AutostartAction};
use lan_tracker::control::{get_config, set_config, Step};
use lan_tracker::digest::hash_secret;
use lan_tracker::failure::{FailureKind, Handling};
use lan_tracker::settings::{ConfigError, Settings};
use lan_tracker::supervisor::{
    acquire, on_second_launch, role_of, step, Acquire, Action, Event, ExitStatus, LockOutcome,
    Role, SecondLaunch, State,
};

fn not_found() -> ConfigError {
    ConfigError::NotFound(String::from("No such file or directory (os error 2)"))
}

fn malformed() -> ConfigError {
    ConfigError::Parse(String::from("missing field `id`"))
}

fn unwritable() -> ConfigError {
    ConfigError::Io(String::from("Permission denied (os error 13)"))
}

fn carry_out(action: AutostartAction, registered: &mut bool, changes: &mut u32) {
    match action {
        AutostartAction::Enable => {
            *registered = true;
            *changes += 1;
        }
        AutostartAction::Disable => {
            *registered = false;
            *changes += 1;
        }
        AutostartAction::Nothing => {}
    }
}

fn stored(autostart: bool, password: Option<&str>) -> Settings {
    Settings {
        id: String::from("11111111-2222-4333-8444-555555555555"),
        remote: String::from("https://lan.example.org"),
        name: Some(String::from("laptop")),
        autostart,
        password: password.map(String::from),
    }
}

#[test]
fn reconcile_follows_the_transition_table() {
    assert_eq!(reconcile(true, false), AutostartAction::Enable);
    assert_eq!(reconcile(false, true), AutostartAction::Disable);
    assert_eq!(reconcile(true, true), AutostartAction::Nothing);
    assert_eq!(reconcile(false, false), AutostartAction::Nothing);
}

#[test]
fn reconcile_twice_changes_the_launcher_at_most_once() {
    for desired in [false, true] {
        for actual in [false, true] {
            let mut registered = actual;
            let mut changes = 0;
            carry_out(reconcile(desired, registered), &mut registered, &mut changes);
            assert_eq!(registered, desired);
            let after_first = changes;
            let second = reconcile(desired, registered);
            assert_eq!(second, AutostartAction::Nothing);
            carry_out(second, &mut registered, &mut changes);
            assert_eq!(registered, desired);
            assert_eq!(changes, after_first);
        }
    }
}

#[test]
fn startup_disables_a_launcher_that_the_settings_do_not_want() {
    let held = stored(false, None);
    let loaded = get_config(Ok(held.clone()));
    assert!(loaded.persist.is_none());
    let action = startup_reconcile(Some(loaded.settings.autostart), Some(true));
    assert_eq!(action, AutostartAction::Disable);
    assert!(!held.autostart);
}

#[test]
fn startup_counts_what_it_cannot_learn_as_off() {
    assert_eq!(startup_reconcile(None, Some(true)), AutostartAction::Disable);
    assert_eq!(startup_reconcile(None, None), AutostartAction::Nothing);
    assert_eq!(startup_reconcile(Some(true), None), AutostartAction::Enable);
    assert_eq!(startup_reconcile(Some(true), Some(true)), AutostartAction::Nothing);
    assert_eq!(startup_reconcile(Some(false), None), AutostartAction::Nothing);
}

#[test]
fn get_config_on_a_fresh_machine_gives_the_defaults() {
    let r = get_config(Err(not_found()));
    assert!(r.settings.autostart);
    assert!(!r.settings.id.is_empty());
    assert_eq!(r.settings.password, None);
    assert_eq!(r.settings.remote, "https://lan.pein-gera.de");
    assert_eq!(r.persist.unwrap().id, r.settings.id);
}

#[test]
fn get_config_never_shows_the_stored_digest() {
    let digest = hash_secret("hunter2");
    let r = get_config(Ok(stored(true, Some(&digest))));
    assert_eq!(r.settings.password.as_deref(), Some("(unchanged)"));
    assert!(r.persist.is_none());
    assert_eq!(r.settings.name.as_deref(), Some("laptop"));
}

#[test]
fn set_config_stores_the_digest_of_a_new_secret() {
    let new = stored(true, Some("hunter2"));
    let plan = set_config(Ok(stored(true, None)), &new);
    assert!(plan.create.is_none());
    assert_eq!(plan.launcher, AutostartAction::Nothing);
    assert_eq!(
        plan.record.password.as_deref(),
        Some("f52fbd32b2b3b86ff88ef6c490628285f482af15ddcb29541f94bcf526a3f6c7")
    );
    assert_ne!(plan.record.password.as_deref(), Some("hunter2"));
    assert_eq!(plan.record.id, new.id);
}

#[test]
fn set_config_moves_the_launcher_with_the_flag() {
    let plan = set_config(Ok(stored(false, None)), &stored(true, None));
    assert_eq!(plan.launcher, AutostartAction::Enable);
    assert!(plan.record.autostart);
    let plan = set_config(Ok(stored(true, None)), &stored(false, None));
    assert_eq!(plan.launcher, AutostartAction::Disable);
    assert!(!plan.record.autostart);
}

#[test]
fn set_config_with_the_sentinel_keeps_the_old_digest() {
    let digest = hash_secret("old");
    let plan = set_config(Ok(stored(true, Some(&digest))), &stored(true, Some("(unchanged)")));
    assert_eq!(plan.record.password, Some(digest));
}

#[test]
fn set_config_without_a_file_creates_the_defaults_first() {
    let new = stored(false, Some("(unchanged)"));
    let plan = set_config(Err(malformed()), &new);
    let created = plan.create.unwrap();
    assert_eq!(created.id.len(), 36);
    assert!(created.autostart);
    assert_eq!(created.password, None);
    assert_eq!(plan.launcher, AutostartAction::Disable);
    assert_eq!(plan.record.password, None);
    assert_eq!(plan.record.id, created.id);
    assert_ne!(plan.record.id, new.id);
    assert_eq!(plan.record.remote, new.remote);
    assert!(!plan.record.autostart);
}

#[test]
fn role_follows_the_service_flag() {
    assert_eq!(role_of(true), Role::Background);
    assert_eq!(role_of(false), Role::Foreground);
}

#[test]
fn background_role_with_the_lock_enters_the_loop() {
    let (s, a) = step(State::Start, Event::Launched(role_of(true)));
    assert_eq!((s, a), (State::AwaitingLock, Action::AcquireLock));
    let (s, a) = step(s, Event::Lock(LockOutcome::Acquired));
    assert_eq!((s, a), (State::Monitoring, Action::RunLoop));
    let (s, a) = step(s, Event::LoopFailed);
    assert_eq!((s, a), (State::Finished(ExitStatus::Failure), Action::Exit(ExitStatus::Failure)));
}

#[test]
fn second_background_launch_exits_with_success() {
    let (first, _) = step(State::Start, Event::Launched(Role::Background));
    let (second, _) = step(State::Start, Event::Launched(Role::Background));
    let (first, a1) = step(first, Event::Lock(LockOutcome::Acquired));
    let (second, a2) = step(second, Event::Lock(LockOutcome::WouldBlock));
    assert_eq!(first, State::Monitoring);
    assert_eq!(a1, Action::RunLoop);
    assert_eq!(second, State::Finished(ExitStatus::Success));
    assert_eq!(a2, Action::Exit(ExitStatus::Success));
}

#[test]
fn lock_failure_is_fatal_to_the_background_role() {
    let (s, a) = step(State::AwaitingLock, Event::Lock(LockOutcome::Failed));
    assert_eq!(s, State::Finished(ExitStatus::Failure));
    assert_eq!(a, Action::Exit(ExitStatus::Failure));
}

#[test]
fn foreground_role_runs_the_interface_whatever_the_spawn_did() {
    let (s, a) = step(State::Start, Event::Launched(role_of(false)));
    assert_eq!((s, a), (State::Spawning, Action::SpawnService));
    for spawned in [true, false] {
        let (s, a) = step(s, Event::Spawned(spawned));
        assert_eq!((s, a), (State::Interface, Action::RunInterface));
        let (s, a) = step(s, Event::InterfaceClosed);
        assert_eq!((s, a), (State::Finished(ExitStatus::Success), Action::Exit(ExitStatus::Success)));
    }
}

#[test]
fn events_out_of_place_are_ignored() {
    assert_eq!(step(State::Start, Event::LoopFailed), (State::Start, Action::Ignore));
    assert_eq!(
        step(State::Monitoring, Event::Lock(LockOutcome::Acquired)),
        (State::Monitoring, Action::Ignore)
    );
    assert_eq!(
        step(State::Interface, Event::Lock(LockOutcome::Acquired)),
        (State::Interface, Action::Ignore)
    );
    assert_eq!(
        step(State::Finished(ExitStatus::Success), Event::Launched(Role::Background)),
        (State::Finished(ExitStatus::Success), Action::Ignore)
    );
}

#[test]
fn second_foreground_launch_focuses_the_window() {
    assert_eq!(on_second_launch(true), SecondLaunch::Focus);
    assert_eq!(on_second_launch(false), SecondLaunch::ReportMissing);
}

#[test]
fn acquire_refuses_a_text_that_cannot_name_a_lock() {
    assert!(matches!(acquire(""), Acquire::Failed(named_lock::Error::EmptyName)));
    assert!(matches!(acquire("a/b"), Acquire::Failed(named_lock::Error::InvalidCharacter)));
    assert!(matches!(acquire("a\\b"), Acquire::Failed(named_lock::Error::InvalidCharacter)));
    assert!(matches!(acquire("a\0b"), Acquire::Failed(named_lock::Error::InvalidCharacter)));
    assert_eq!(acquire("").outcome(), LockOutcome::Failed);
}

#[test]
fn second_holder_of_a_named_lock_would_block() {
    let name = format!("lan-tracker-probe-{}", Settings::default().id);
    let first = acquire(&name);
    assert!(matches!(first, Acquire::Held(_)));
    assert_eq!(first.outcome(), LockOutcome::Acquired);
    let second = acquire(&name);
    assert!(matches!(second, Acquire::WouldBlock));
    assert_eq!(second.outcome(), LockOutcome::WouldBlock);
    let (s1, a1) = step(State::AwaitingLock, Event::Lock(first.outcome()));
    let (s2, a2) = step(State::AwaitingLock, Event::Lock(second.outcome()));
    assert_eq!((s1, a1), (State::Monitoring, Action::RunLoop));
    assert_eq!((s2, a2), (State::Finished(ExitStatus::Success), Action::Exit(ExitStatus::Success)));
    drop(first);
    assert!(matches!(acquire(&name), Acquire::Held(_)));
}

#[test]
fn each_kind_of_failure_has_its_handling() {
    for in_command in [false, true] {
        assert_eq!(FailureKind::ConfigRead.handling(in_command), Handling::FallBackToDefaults);
        assert_eq!(FailureKind::ConfigWrite.handling(in_command), Handling::ReportToCaller);
        assert_eq!(FailureKind::LockContention.handling(in_command), Handling::ExitCleanly);
        assert_eq!(FailureKind::LockAcquisition.handling(in_command), Handling::EndProcess);
        assert_eq!(FailureKind::Spawn.handling(in_command), Handling::LogAndContinue);
    }
    assert_eq!(FailureKind::AutostartToggle.handling(true), Handling::ReportToCaller);
    assert_eq!(FailureKind::AutostartToggle.handling(false), Handling::LogAndContinue);
}

#[test]
fn failures_are_sorted_into_their_kinds() {
    assert_eq!(FailureKind::of_config(&not_found()), FailureKind::ConfigRead);
    assert_eq!(FailureKind::of_config(&malformed()), FailureKind::ConfigRead);
    assert_eq!(FailureKind::of_config(&unwritable()), FailureKind::ConfigWrite);
    assert_eq!(FailureKind::of_lock(LockOutcome::Acquired), None);
    assert_eq!(FailureKind::of_lock(LockOutcome::WouldBlock), Some(FailureKind::LockContention));
    assert_eq!(FailureKind::of_lock(LockOutcome::Failed), Some(FailureKind::LockAcquisition));
}

#[test]
fn storage_failures_have_their_messages() {
    assert_eq!(
        not_found().message(),
        "Failed to read config file: No such file or directory (os error 2)"
    );
    assert_eq!(malformed().message(), "Failed to parse config file: missing field `id`");
    assert_eq!(
        unwritable().message(),
        "Failed to write config file: Permission denied (os error 13)"
    );
    assert_eq!(ConfigError::Io(String::new()).message(), "Failed to write config file: ");
    let copy = malformed().clone();
    assert_eq!(copy, malformed());
    assert_ne!(copy, ConfigError::Parse(String::from("another cause")));
    assert_eq!(Settings::CONFIG_PATH, "config.toml");
}

#[test]
fn steps_of_a_plain_update_are_one_write() {
    let steps = set_config(Ok(stored(true, None)), &stored(true, Some("hunter2"))).steps();
    assert_eq!(steps.len(), 1);
    match &steps[0] {
        Step::Write(record) => assert_eq!(record.password, Some(hash_secret("hunter2"))),
        Step::Launcher(_) => panic!("the launcher is not to be touched"),
    }
}

#[test]
fn steps_put_the_launcher_before_the_record() {
    let steps = set_config(Ok(stored(true, None)), &stored(false, None)).steps();
    assert_eq!(steps.len(), 2);
    assert!(matches!(&steps[0], Step::Launcher(AutostartAction::Disable)));
    assert!(matches!(&steps[1], Step::Write(record) if !record.autostart));
}

#[test]
fn steps_without_a_file_start_with_the_defaults() {
    let new = stored(false, Some("hunter2"));
    let steps = set_config(Err(not_found()), &new).steps();
    assert_eq!(steps.len(), 3);
    let fresh_id = match &steps[0] {
        Step::Write(fresh) => {
            assert!(fresh.autostart);
            assert_eq!(fresh.id.len(), 36);
            fresh.id.clone()
        }
        Step::Launcher(_) => panic!("the defaults are written first"),
    };
    assert!(matches!(&steps[1], Step::Launcher(AutostartAction::Disable)));
    assert!(matches!(&steps[2], Step::Write(record) if record.id == fresh_id
        && record.remote == new.remote
        && record.password == Some(hash_secret("hunter2"))));
}

#[test]
fn set_config_never_replaces_the_stored_identifier() {
    let held = stored(true, Some("abc"));
    let mut new = stored(false, Some("hunter2"));
    new.id = String::from("99999999-9999-4999-8999-999999999999");
    new.remote = String::from("https://new.example.org");
    let plan = set_config(Ok(held.clone()), &new);
    assert_eq!(plan.record.id, held.id);
    assert_eq!(plan.record.id, "11111111-2222-4333-8444-555555555555");
    assert_eq!(plan.record.remote, "https://new.example.org");
    assert_eq!(plan.record.password, Some(hash_secret("hunter2")));
    assert!(!plan.record.autostart);
}
