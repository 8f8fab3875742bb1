use vstd::prelude::*;
use vstd::string::*;

use crate::blacklist::{bad_in, UpdateState};
use crate::version::{bump_is_greater, semver_bump_greater};

verus! {

/// A status report sent from the update worker to the foreground.
#[derive(Debug, PartialEq, Eq)]
pub enum UpdateEvent {
    Message(String),
    Success(String),
    UpToDate,
    Error(String),
}

/// The content of an `UpdateEvent`.
pub ghost enum EventView {
    Message(Seq<char>),
    Success(Seq<char>),
    UpToDate,
    Error(Seq<char>),
}

impl View for UpdateEvent {
    type V = EventView;

    open spec fn view(&self) -> EventView {
        match self {
            UpdateEvent::Message(m) => EventView::Message(m@),
            UpdateEvent::Success(v) => EventView::Success(v@),
            UpdateEvent::UpToDate => EventView::UpToDate,
            UpdateEvent::Error(m) => EventView::Error(m@),
        }
    }
}

/// The content of each event of a sequence.
pub open spec fn events_of(v: Seq<UpdateEvent>) -> Seq<EventView> {
    v.map_values(|e: UpdateEvent| e@)
}

/// Where an update attempt stands.
#[derive(Clone, Copy, PartialEq, Eq, Structural, Debug)]
pub enum Phase {
    Idle,
    Querying,
    BackingUp,
    Swapping,
    Checking,
    Committing,
    Declining,
    SavingBlacklist,
    RollingBack,
    Recovering,
    Done,
}

/// The outside work that the orchestrator asks for next.
#[derive(Clone, Copy, PartialEq, Eq, Structural, Debug)]
pub enum Effect {
    /// Ask the release service for the latest release of the target.
    QueryRelease,
    /// Copy the running executable to the backup slot.
    CreateBackup,
    /// Let the release service download, verify and place the new binary.
    SwapBinary,
    /// Run the installed executable in self-test mode.
    CheckHealth,
    /// Remove the backup; a failure to do so is not reported back.
    DeleteBackup,
    /// Write the blacklist to storage.
    SaveBlacklist,
    /// Rename the backup over the executable.
    RestoreBackup,
    /// Nothing more: the attempt is over.
    Finish,
}

/// The result of the outside work, handed back to the orchestrator.
#[derive(Debug, PartialEq, Eq)]
pub enum Outcome {
    Started,
    Released(String),
    QueryFailed(String),
    BackupCreated,
    BackupFailed(String),
    Swapped(String),
    NotSwapped,
    SwapFailed(String),
    Health(bool),
    BackupDeleted,
    BlacklistSaved,
    BlacklistSaveFailed(String),
    Restored,
    RestoreFailed(String),
}

/// The orchestrator as values: phase, running version, the version being
/// installed, and the error held while the backup is restored.
pub ghost struct OrchView {
    pub phase: Phase,
    pub current: Seq<char>,
    pub candidate: Seq<char>,
    pub note: Seq<char>,
}

/// The self-update state machine of one attempt.
pub struct Orchestrator {
    pub phase: Phase,
    pub current: String,
    pub candidate: String,
    pub note: String,
}

impl View for Orchestrator {
    type V = OrchView;

    open spec fn view(&self) -> OrchView {
        OrchView {
            phase: self.phase,
            current: self.current@,
            candidate: self.candidate@,
            note: self.note@,
        }
    }
}

/// What one step yields: the next state, the events to send, the next piece
/// of outside work, and the blacklist afterwards.
pub ghost struct StepView {
    pub next: OrchView,
    pub events: Seq<EventView>,
    pub effect: Effect,
    pub blacklist: Set<Seq<char>>,
}

pub open spec fn moved(
    o: OrchView,
    phase: Phase,
    events: Seq<EventView>,
    effect: Effect,
    bl: Set<Seq<char>>,
) -> StepView {
    StepView { next: OrchView { phase, ..o }, events, effect, blacklist: bl }
}

pub open spec fn finished(o: OrchView, ev: EventView, bl: Set<Seq<char>>) -> StepView {
    moved(o, Phase::Done, seq![ev], Effect::Finish, bl)
}

/// The decision once the latest release `version` is known, given whether it
/// is blacklisted and how it compares with the running version.
pub open spec fn release_step(
    o: OrchView,
    version: Seq<char>,
    bad: bool,
    greater: Option<bool>,
    bl: Set<Seq<char>>,
) -> StepView {
    if bad {
        finished(o, EventView::Message("Skipping bad version "@ + version), bl)
    } else {
        match greater {
            None => finished(
                o,
                EventView::Error("Cannot compare versions "@ + o.current + " and "@ + version),
                bl,
            ),
            Some(false) => finished(o, EventView::UpToDate, bl),
            Some(true) => StepView {
                next: OrchView { phase: Phase::BackingUp, candidate: version, ..o },
                events: seq![EventView::Message("Downloading v"@ + version + "..."@)],
                effect: Effect::CreateBackup,
                blacklist: bl,
            },
        }
    }
}

/// The work the orchestrator waits on in each phase.
pub open spec fn pending(p: Phase) -> Effect {
    match p {
        Phase::Querying => Effect::QueryRelease,
        Phase::BackingUp => Effect::CreateBackup,
        Phase::Swapping => Effect::SwapBinary,
        Phase::Checking => Effect::CheckHealth,
        Phase::Committing => Effect::DeleteBackup,
        Phase::Declining => Effect::DeleteBackup,
        Phase::SavingBlacklist => Effect::SaveBlacklist,
        Phase::RollingBack => Effect::RestoreBackup,
        Phase::Recovering => Effect::RestoreBackup,
        _ => Effect::Finish,
    }
}

/// One transition of the update state machine. An outcome that does not
/// belong to the current phase changes nothing.
pub open spec fn spec_step(o: OrchView, input: Outcome, bl: Set<Seq<char>>) -> StepView {
    match (o.phase, input) {
        (Phase::Idle, Outcome::Started) => moved(
            o,
            Phase::Querying,
            seq![EventView::Message("Querying..."@)],
            Effect::QueryRelease,
            bl,
        ),
        (Phase::Querying, Outcome::QueryFailed(m)) => finished(o, EventView::Error(m@), bl),
        (Phase::Querying, Outcome::Released(v)) => release_step(
            o,
            v@,
            bad_in(bl, v@),
            semver_bump_greater(o.current, v@),
            bl,
        ),
        (Phase::BackingUp, Outcome::BackupFailed(m)) => finished(o, EventView::Error(m@), bl),
        (Phase::BackingUp, Outcome::BackupCreated) => moved(
            o,
            Phase::Swapping,
            seq![],
            Effect::SwapBinary,
            bl,
        ),
        (Phase::Swapping, Outcome::SwapFailed(m)) => StepView {
            next: OrchView { phase: Phase::Recovering, note: m@, ..o },
            events: seq![],
            effect: Effect::RestoreBackup,
            blacklist: bl,
        },
        (Phase::Swapping, Outcome::NotSwapped) => moved(
            o,
            Phase::Declining,
            seq![],
            Effect::DeleteBackup,
            bl,
        ),
        (Phase::Swapping, Outcome::Swapped(v)) => StepView {
            next: OrchView { phase: Phase::Checking, candidate: v@, ..o },
            events: seq![EventView::Message("Verifying new binary health..."@)],
            effect: Effect::CheckHealth,
            blacklist: bl,
        },
        (Phase::Checking, Outcome::Health(true)) => moved(
            o,
            Phase::Committing,
            seq![],
            Effect::DeleteBackup,
            bl,
        ),
        (Phase::Checking, Outcome::Health(false)) => moved(
            o,
            Phase::SavingBlacklist,
            seq![EventView::Message("Health check failed. Rolling back..."@)],
            Effect::SaveBlacklist,
            bl.insert(o.candidate),
        ),
        (Phase::Committing, Outcome::BackupDeleted) => finished(
            o,
            EventView::Success(o.candidate),
            bl,
        ),
        (Phase::Declining, Outcome::BackupDeleted) => finished(o, EventView::UpToDate, bl),
        (Phase::SavingBlacklist, Outcome::BlacklistSaved) => moved(
            o,
            Phase::RollingBack,
            seq![],
            Effect::RestoreBackup,
            bl,
        ),
        (Phase::SavingBlacklist, Outcome::BlacklistSaveFailed(m)) => moved(
            o,
            Phase::RollingBack,
            seq![EventView::Message("Could not record the broken version: "@ + m@)],
            Effect::RestoreBackup,
            bl,
        ),
        (Phase::RollingBack, Outcome::Restored) => finished(
            o,
            EventView::Error("Version "@ + o.candidate + " broken. Rolled back."@),
            bl,
        ),
        (Phase::RollingBack, Outcome::RestoreFailed(m)) => finished(
            o,
            EventView::Error(
                "ROLLBACK FAILED: version "@ + o.candidate
                    + " is broken and the backup could not be restored: "@ + m@,
            ),
            bl,
        ),
        (Phase::Recovering, Outcome::Restored) => finished(o, EventView::Error(o.note), bl),
        (Phase::Recovering, Outcome::RestoreFailed(m)) => finished(
            o,
            EventView::Error(o.note + "; ROLLBACK FAILED: "@ + m@),
            bl,
        ),
        _ => StepView { next: o, events: seq![], effect: pending(o.phase), blacklist: bl },
    }
}

/// A release strictly newer than the running version that is not
/// blacklisted takes the download path: a backup is asked for, and the
/// attempt does not report that it is up to date.
pub proof fn lemma_newer_release_downloads(o: OrchView, v: String, bl: Set<Seq<char>>)
    requires
        o.phase == Phase::Querying,
        semver_bump_greater(o.current, v@) == Some(true),
        !bad_in(bl, v@),
    ensures
        ({
            let s = spec_step(o, Outcome::Released(v), bl);
            &&& s.next.phase == Phase::BackingUp
            &&& s.next.candidate == v@
            &&& s.effect == Effect::CreateBackup
            &&& s.events == seq![EventView::Message("Downloading v"@ + v@ + "..."@)]
            &&& !s.events.contains(EventView::UpToDate)
        }),
{
    let s = spec_step(o, Outcome::Released(v), bl);
    assert(s.events[0] != EventView::UpToDate);
}

/// A candidate that fails its health check is blacklisted before anything
/// else, the backup is then restored whether or not the blacklist could be
/// written, and the attempt ends with an error naming the broken version; if
/// the restore fails, a distinct error says so and the blacklist entry stays.
pub proof fn lemma_unhealthy_rolls_back(o: OrchView, bl: Set<Seq<char>>, saved: Outcome, failure: String)
    requires
        o.phase == Phase::Checking,
        saved is BlacklistSaved || saved is BlacklistSaveFailed,
    ensures
        ({
            let s1 = spec_step(o, Outcome::Health(false), bl);
            let s2 = spec_step(s1.next, saved, s1.blacklist);
            let s3 = spec_step(s2.next, Outcome::Restored, s2.blacklist);
            let s4 = spec_step(s2.next, Outcome::RestoreFailed(failure), s2.blacklist);
            &&& s1.blacklist == bl.insert(o.candidate)
            &&& s1.effect == Effect::SaveBlacklist
            &&& s2.effect == Effect::RestoreBackup
            &&& s2.blacklist == s1.blacklist
            &&& s3.next.phase == Phase::Done
            &&& s3.effect == Effect::Finish
            &&& s3.blacklist.contains(o.candidate)
            &&& s3.events.last() == EventView::Error(
                "Version "@ + o.candidate + " broken. Rolled back."@,
            )
            &&& s4.next.phase == Phase::Done
            &&& s4.blacklist.contains(o.candidate)
            &&& s4.events.last() != s3.events.last()
        }),
{
    let s1 = spec_step(o, Outcome::Health(false), bl);
    let s2 = spec_step(s1.next, saved, s1.blacklist);
    let s3 = spec_step(s2.next, Outcome::Restored, s2.blacklist);
    let s4 = spec_step(s2.next, Outcome::RestoreFailed(failure), s2.blacklist);
    reveal_strlit("Version ");
    reveal_strlit("ROLLBACK FAILED: version ");
    let a = "Version "@ + o.candidate + " broken. Rolled back."@;
    let b = "ROLLBACK FAILED: version "@ + o.candidate
        + " is broken and the backup could not be restored: "@ + failure@;
    assert(a[0] != b[0]);
}

/// When the release service fails to download, verify or place the new
/// binary, the backup is restored without the new binary ever being run, the
/// blacklist is untouched, and the attempt ends with the service's error.
pub proof fn lemma_swap_failure_restores(o: OrchView, bl: Set<Seq<char>>, failure: String)
    requires
        o.phase == Phase::Swapping,
    ensures
        ({
            let s1 = spec_step(o, Outcome::SwapFailed(failure), bl);
            let s2 = spec_step(s1.next, Outcome::Restored, s1.blacklist);
            &&& s1.effect == Effect::RestoreBackup
            &&& s1.events.len() == 0
            &&& s1.blacklist == bl
            &&& s2.next.phase == Phase::Done
            &&& s2.effect == Effect::Finish
            &&& s2.blacklist == bl
            &&& s2.events == seq![EventView::Error(failure@)]
        }),
{
}

/// Whether a step's results are those that `expected` describes.
pub open spec fn step_matches(
    expected: StepView,
    after: OrchView,
    events: Seq<UpdateEvent>,
    effect: Effect,
    bl: Set<Seq<char>>,
) -> bool {
    &&& after == expected.next
    &&& events_of(events) == expected.events
    &&& effect == expected.effect
    &&& bl == expected.blacklist
}

fn no_events() -> (r: Vec<UpdateEvent>)
    ensures
        events_of(r@) == Seq::<EventView>::empty(),
{
    let r: Vec<UpdateEvent> = Vec::new();
    assert(events_of(r@) =~= Seq::<EventView>::empty());
    r
}

fn one_event(e: UpdateEvent) -> (r: Vec<UpdateEvent>)
    ensures
        events_of(r@) == seq![e@],
{
    let mut r: Vec<UpdateEvent> = Vec::new();
    r.push(e);
    assert(events_of(r@) =~= seq![e@]);
    r
}

fn message(text: &str) -> (r: UpdateEvent)
    ensures
        r@ == EventView::Message(text@),
{
    UpdateEvent::Message(String::from_str(text))
}

fn pending_effect(p: Phase) -> (r: Effect)
    ensures
        r == pending(p),
{
    match p {
        Phase::Querying => Effect::QueryRelease,
        Phase::BackingUp => Effect::CreateBackup,
        Phase::Swapping => Effect::SwapBinary,
        Phase::Checking => Effect::CheckHealth,
        Phase::Committing => Effect::DeleteBackup,
        Phase::Declining => Effect::DeleteBackup,
        Phase::SavingBlacklist => Effect::SaveBlacklist,
        Phase::RollingBack => Effect::RestoreBackup,
        Phase::Recovering => Effect::RestoreBackup,
        _ => Effect::Finish,
    }
}

impl Orchestrator {
    /// An orchestrator that has not started, for a program running `current`.
    pub fn new(current: String) -> (r: Self)
        ensures
            r@ == (OrchView {
                phase: Phase::Idle,
                current: current@,
                candidate: Seq::<char>::empty(),
                note: Seq::<char>::empty(),
            }),
    {
        Orchestrator { phase: Phase::Idle, current, candidate: String::new(), note: String::new() }
    }

    fn finish(&mut self, e: UpdateEvent) -> (r: (Vec<UpdateEvent>, Effect))
        ensures
            final(self)@ == (OrchView { phase: Phase::Done, ..old(self)@ }),
            events_of(r.0@) == seq![e@],
            r.1 == Effect::Finish,
    {
        self.phase = Phase::Done;
        (one_event(e), Effect::Finish)
    }

    /// Decides what follows once the latest release `version` is known:
    /// `bad` tells whether it is blacklisted, `greater` how it compares with
    /// the running version (`None` when the two cannot be compared).
    pub fn decide_release(&mut self, version: String, bad: bool, greater: Option<bool>) -> (r: (
        Vec<UpdateEvent>,
        Effect,
    ))
        ensures
            step_matches(
                release_step(old(self)@, version@, bad, greater, Set::<Seq<char>>::empty()),
                final(self)@,
                r.0@,
                r.1,
                Set::<Seq<char>>::empty(),
            ),
    {
        if bad {
            let text = String::from_str("Skipping bad version ").concat(version.as_str());
            self.finish(UpdateEvent::Message(text))
        } else {
            match greater {
                None => {
                    let text = String::from_str("Cannot compare versions ").concat(
                        self.current.as_str(),
                    ).concat(" and ").concat(version.as_str());
                    self.finish(UpdateEvent::Error(text))
                },
                Some(false) => self.finish(UpdateEvent::UpToDate),
                Some(true) => {
                    let text = String::from_str("Downloading v").concat(version.as_str()).concat(
                        "...",
                    );
                    self.phase = Phase::BackingUp;
                    self.candidate = version;
                    (one_event(UpdateEvent::Message(text)), Effect::CreateBackup)
                },
            }
        }
    }

    /// Advances the attempt by one outcome of outside work: returns the events
    /// to report, in order, and the work to perform next. On a failed health
    /// check the candidate version is added to `blacklist`.
    pub fn step(&mut self, input: Outcome, blacklist: &mut UpdateState) -> (r: (
        Vec<UpdateEvent>,
        Effect,
    ))
        requires
            old(blacklist).wf(),
        ensures
            final(blacklist).wf(),
            step_matches(
                spec_step(old(self)@, input, old(blacklist)@),
                final(self)@,
                r.0@,
                r.1,
                final(blacklist)@,
            ),
    {
        match (self.phase, input) {
            (Phase::Idle, Outcome::Started) => {
                self.phase = Phase::Querying;
                (one_event(message("Querying...")), Effect::QueryRelease)
            },
            (Phase::Querying, Outcome::QueryFailed(m)) => self.finish(UpdateEvent::Error(m)),
            (Phase::Querying, Outcome::Released(v)) => {
                let bad = blacklist.is_bad(v.as_str());
                let greater = bump_is_greater(self.current.as_str(), v.as_str());
                self.decide_release(v, bad, greater)
            },
            (Phase::BackingUp, Outcome::BackupFailed(m)) => self.finish(UpdateEvent::Error(m)),
            (Phase::BackingUp, Outcome::BackupCreated) => {
                self.phase = Phase::Swapping;
                (no_events(), Effect::SwapBinary)
            },
            (Phase::Swapping, Outcome::SwapFailed(m)) => {
                self.phase = Phase::Recovering;
                self.note = m;
                (no_events(), Effect::RestoreBackup)
            },
            (Phase::Swapping, Outcome::NotSwapped) => {
                self.phase = Phase::Declining;
                (no_events(), Effect::DeleteBackup)
            },
            (Phase::Swapping, Outcome::Swapped(v)) => {
                self.phase = Phase::Checking;
                self.candidate = v;
                (one_event(message("Verifying new binary health...")), Effect::CheckHealth)
            },
            (Phase::Checking, Outcome::Health(healthy)) => {
                if healthy {
                    self.phase = Phase::Committing;
                    (no_events(), Effect::DeleteBackup)
                } else {
                    blacklist.mark_bad(self.candidate.clone());
                    self.phase = Phase::SavingBlacklist;
                    (one_event(message("Health check failed. Rolling back...")), Effect::SaveBlacklist)
                }
            },
            (Phase::Committing, Outcome::BackupDeleted) => {
                let v = self.candidate.clone();
                self.finish(UpdateEvent::Success(v))
            },
            (Phase::Declining, Outcome::BackupDeleted) => self.finish(UpdateEvent::UpToDate),
            (Phase::SavingBlacklist, Outcome::BlacklistSaved) => {
                self.phase = Phase::RollingBack;
                (no_events(), Effect::RestoreBackup)
            },
            (Phase::SavingBlacklist, Outcome::BlacklistSaveFailed(m)) => {
                self.phase = Phase::RollingBack;
                let text = String::from_str("Could not record the broken version: ").concat(
                    m.as_str(),
                );
                (one_event(UpdateEvent::Message(text)), Effect::RestoreBackup)
            },
            (Phase::RollingBack, Outcome::Restored) => {
                let text = String::from_str("Version ").concat(self.candidate.as_str()).concat(
                    " broken. Rolled back.",
                );
                self.finish(UpdateEvent::Error(text))
            },
            (Phase::RollingBack, Outcome::RestoreFailed(m)) => {
                let text = String::from_str("ROLLBACK FAILED: version ").concat(
                    self.candidate.as_str(),
                ).concat(" is broken and the backup could not be restored: ").concat(m.as_str());
                self.finish(UpdateEvent::Error(text))
            },
            (Phase::Recovering, Outcome::Restored) => {
                let text = self.note.clone();
                self.finish(UpdateEvent::Error(text))
            },
            (Phase::Recovering, Outcome::RestoreFailed(m)) => {
                let text = self.note.clone().concat("; ROLLBACK FAILED: ").concat(m.as_str());
                self.finish(UpdateEvent::Error(text))
            },
            _ => (no_events(), pending_effect(self.phase)),
        }
    }
}

} // verus!
