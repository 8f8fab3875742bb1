use update_guard::blacklist::UpdateState;
use update_guard::orchestrator::{Effect, Orchestrator, Outcome, Phase, UpdateEvent};

fn s(x: &str) -> String {
    x.to_string()
}

fn msg(x: &str) -> UpdateEvent {
    UpdateEvent::Message(s(x))
}

/// Feeds the outcomes in turn; returns every event and every effect asked for.
fn drive(
    o: &mut Orchestrator,
    bl: &mut UpdateState,
    inputs: Vec<Outcome>,
) -> (Vec<UpdateEvent>, Vec<Effect>) {
    let mut events = Vec::new();
    let mut effects = Vec::new();
    for input in inputs {
        let (mut ev, eff) = o.step(input, bl);
        events.append(&mut ev);
        effects.push(eff);
    }
    (events, effects)
}

#[test]
fn healthy_update_commits() {
    let mut o = Orchestrator::new(s("1.0.0"));
    let mut bl = UpdateState::new();
    let (events, effects) = drive(
        &mut o,
        &mut bl,
        vec![
            Outcome::Started,
            Outcome::Released(s("1.1.0")),
            Outcome::BackupCreated,
            Outcome::Swapped(s("1.1.0")),
            Outcome::Health(true),
            Outcome::BackupDeleted,
        ],
    );
    assert_eq!(
        events,
        vec![
            msg("Querying..."),
            msg("Downloading v1.1.0..."),
            msg("Verifying new binary health..."),
            UpdateEvent::Success(s("1.1.0")),
        ]
    );
    assert_eq!(
        effects,
        vec![
            Effect::QueryRelease,
            Effect::CreateBackup,
            Effect::SwapBinary,
            Effect::CheckHealth,
            Effect::DeleteBackup,
            Effect::Finish,
        ]
    );
    assert!(bl.versions().is_empty());
    assert_eq!(o.phase, Phase::Done);
}

#[test]
fn unhealthy_update_rolls_back_and_blacklists() {
    let mut o = Orchestrator::new(s("1.0.0"));
    let mut bl = UpdateState::new();
    let (events, effects) = drive(
        &mut o,
        &mut bl,
        vec![
            Outcome::Started,
            Outcome::Released(s("1.1.0")),
            Outcome::BackupCreated,
            Outcome::Swapped(s("1.1.0")),
            Outcome::Health(false),
            Outcome::BlacklistSaved,
            Outcome::Restored,
        ],
    );
    assert_eq!(events.last(), Some(&UpdateEvent::Error(s("Version 1.1.0 broken. Rolled back."))));
    assert_eq!(events[3], msg("Health check failed. Rolling back..."));
    assert_eq!(
        effects[4..].to_vec(),
        vec![Effect::SaveBlacklist, Effect::RestoreBackup, Effect::Finish]
    );
    assert_eq!(bl.versions(), vec![s("1.1.0")]);
    assert!(bl.is_bad("1.1.0"));
}

#[test]
fn blacklisted_release_is_skipped() {
    let mut o = Orchestrator::new(s("1.0.0"));
    let mut bl = UpdateState::new();
    bl.mark_bad(s("1.1.0"));
    let (events, effects) = drive(
        &mut o,
        &mut bl,
        vec![Outcome::Started, Outcome::Released(s("1.1.0"))],
    );
    assert_eq!(events, vec![msg("Querying..."), msg("Skipping bad version 1.1.0")]);
    assert_eq!(effects, vec![Effect::QueryRelease, Effect::Finish]);
    assert!(!effects.contains(&Effect::CreateBackup));
}

#[test]
fn prefixed_release_of_blacklisted_version_is_skipped() {
    let mut o = Orchestrator::new(s("1.0.0"));
    let mut bl = UpdateState::from_versions(vec![s("1.1.0")]);
    let (events, _) = drive(&mut o, &mut bl, vec![Outcome::Started, Outcome::Released(s("v1.1.0"))]);
    assert_eq!(events[1], msg("Skipping bad version v1.1.0"));
}

#[test]
fn newer_release_downloads() {
    for (a, b) in [("1.2.0", "1.2.3"), ("0.2.0", "1.2.3"), ("0.2.0", "0.2.3"), ("1.0.0-alpha", "1.0.0")] {
        let mut o = Orchestrator::new(s(a));
        let mut bl = UpdateState::new();
        let (events, effects) = drive(&mut o, &mut bl, vec![Outcome::Started, Outcome::Released(s(b))]);
        assert_eq!(effects[1], Effect::CreateBackup);
        assert_eq!(events[1], msg(&format!("Downloading v{}...", b)));
        assert_eq!(o.phase, Phase::BackingUp);
        assert_eq!(o.candidate, b);
    }
}

#[test]
fn same_or_older_release_is_up_to_date() {
    for b in ["1.0.0", "0.9.9", "1.0.0-rc.1"] {
        let mut o = Orchestrator::new(s("1.0.0"));
        let mut bl = UpdateState::new();
        let (events, effects) = drive(&mut o, &mut bl, vec![Outcome::Started, Outcome::Released(s(b))]);
        assert_eq!(events[1], UpdateEvent::UpToDate);
        assert_eq!(effects[1], Effect::Finish);
    }
}

#[test]
fn unparsable_release_version_is_an_error() {
    let mut o = Orchestrator::new(s("1.0.0"));
    let mut bl = UpdateState::new();
    let (events, effects) = drive(&mut o, &mut bl, vec![Outcome::Started, Outcome::Released(s("latest"))]);
    assert_eq!(events[1], UpdateEvent::Error(s("Cannot compare versions 1.0.0 and latest")));
    assert_eq!(effects[1], Effect::Finish);
}

#[test]
fn decide_release_on_given_comparisons() {
    let mut o = Orchestrator::new(s("1.0.0"));
    assert_eq!(
        o.decide_release(s("2.0.0"), false, Some(true)),
        (vec![msg("Downloading v2.0.0...")], Effect::CreateBackup)
    );
    let mut o = Orchestrator::new(s("1.0.0"));
    assert_eq!(o.decide_release(s("2.0.0"), true, Some(true)), (vec![msg("Skipping bad version 2.0.0")], Effect::Finish));
    let mut o = Orchestrator::new(s("1.0.0"));
    assert_eq!(o.decide_release(s("0.1.0"), false, Some(false)), (vec![UpdateEvent::UpToDate], Effect::Finish));
    let mut o = Orchestrator::new(s("1.0.0"));
    assert_eq!(
        o.decide_release(s("x"), false, None),
        (vec![UpdateEvent::Error(s("Cannot compare versions 1.0.0 and x"))], Effect::Finish)
    );
}

#[test]
fn swap_failure_restores_backup() {
    let mut o = Orchestrator::new(s("1.0.0"));
    let mut bl = UpdateState::new();
    let (events, effects) = drive(
        &mut o,
        &mut bl,
        vec![
            Outcome::Started,
            Outcome::Released(s("1.1.0")),
            Outcome::BackupCreated,
            Outcome::SwapFailed(s("signature mismatch")),
            Outcome::Restored,
        ],
    );
    assert_eq!(effects[3..].to_vec(), vec![Effect::RestoreBackup, Effect::Finish]);
    assert_eq!(events.last(), Some(&UpdateEvent::Error(s("signature mismatch"))));
    assert!(!effects.contains(&Effect::CheckHealth));
    assert!(bl.versions().is_empty());
}

#[test]
fn swap_failure_with_failed_restore_says_so() {
    let mut o = Orchestrator::new(s("1.0.0"));
    let mut bl = UpdateState::new();
    let (events, _) = drive(
        &mut o,
        &mut bl,
        vec![
            Outcome::Started,
            Outcome::Released(s("1.1.0")),
            Outcome::BackupCreated,
            Outcome::SwapFailed(s("network down")),
            Outcome::RestoreFailed(s("permission denied")),
        ],
    );
    assert_eq!(events.last(), Some(&UpdateEvent::Error(s("network down; ROLLBACK FAILED: permission denied"))));
}

#[test]
fn failed_rollback_is_reported_distinctly() {
    let mut o = Orchestrator::new(s("1.0.0"));
    let mut bl = UpdateState::new();
    let (events, _) = drive(
        &mut o,
        &mut bl,
        vec![
            Outcome::Started,
            Outcome::Released(s("1.1.0")),
            Outcome::BackupCreated,
            Outcome::Swapped(s("1.1.0")),
            Outcome::Health(false),
            Outcome::BlacklistSaveFailed(s("disk full")),
            Outcome::RestoreFailed(s("busy")),
        ],
    );
    assert_eq!(events[4], msg("Could not record the broken version: disk full"));
    assert_eq!(
        events.last(),
        Some(&UpdateEvent::Error(s(
            "ROLLBACK FAILED: version 1.1.0 is broken and the backup could not be restored: busy"
        )))
    );
    assert!(bl.is_bad("1.1.0"));
}

#[test]
fn failures_before_swap_end_the_attempt() {
    let mut o = Orchestrator::new(s("1.0.0"));
    let mut bl = UpdateState::new();
    let (events, effects) = drive(&mut o, &mut bl, vec![Outcome::Started, Outcome::QueryFailed(s("offline"))]);
    assert_eq!(events.last(), Some(&UpdateEvent::Error(s("offline"))));
    assert_eq!(effects[1], Effect::Finish);

    let mut o = Orchestrator::new(s("1.0.0"));
    let (events, effects) = drive(
        &mut o,
        &mut bl,
        vec![Outcome::Started, Outcome::Released(s("1.1.0")), Outcome::BackupFailed(s("read-only"))],
    );
    assert_eq!(events.last(), Some(&UpdateEvent::Error(s("read-only"))));
    assert_eq!(effects[2], Effect::Finish);
}

#[test]
fn service_that_applies_nothing_cleans_up() {
    let mut o = Orchestrator::new(s("1.0.0"));
    let mut bl = UpdateState::new();
    let (events, effects) = drive(
        &mut o,
        &mut bl,
        vec![
            Outcome::Started,
            Outcome::Released(s("1.1.0")),
            Outcome::BackupCreated,
            Outcome::NotSwapped,
            Outcome::BackupDeleted,
        ],
    );
    assert_eq!(effects[3..].to_vec(), vec![Effect::DeleteBackup, Effect::Finish]);
    assert_eq!(events.last(), Some(&UpdateEvent::UpToDate));
}

#[test]
fn outcome_out_of_turn_changes_nothing() {
    let mut o = Orchestrator::new(s("1.0.0"));
    let mut bl = UpdateState::new();
    let (events, effects) = drive(&mut o, &mut bl, vec![Outcome::Started, Outcome::Health(false)]);
    assert_eq!(events, vec![msg("Querying...")]);
    assert_eq!(effects, vec![Effect::QueryRelease, Effect::QueryRelease]);
    assert_eq!(o.phase, Phase::Querying);
    assert!(bl.versions().is_empty());
}
