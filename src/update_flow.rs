use vstd::prelude::*;
use crate::dialog::{DialogKind, Notice, ends_with, notice_kind, notice_message, lemma_failure_message_names_reason};

verus! {

/// Where one run of the update check stands.
#[derive(PartialEq, Eq, Structural, Clone, Copy, Debug)]
pub enum FlowState {
    /// Where every check starts: waiting to learn whether an updater client
    /// could be had.
    AcquiringUpdater,
    /// Waiting for the client's answer to the check.
    Checking,
    /// Waiting for the user's answer to the offer of an update.
    AwaitingConfirmation,
    /// Waiting for the download and install to end.
    Installing,
    /// Nothing more will happen.
    Finished,
}

/// What the driver of the flow reports back.
#[derive(Clone, Debug, PartialEq, Eq)]
pub enum FlowEvent {
    UpdaterReady,
    UpdaterUnavailable(String),
    /// The check found a newer version; holds it.
    UpdateFound(String),
    NoUpdate,
    CheckFailed(String),
    /// The user's answer to the offer: `true` to install.
    Answered(bool),
    Installed,
    InstallFailed(String),
}

/// What the driver of the flow is asked to do next.
#[derive(Clone, Debug, PartialEq, Eq)]
pub enum FlowAction {
    /// Ask the updater client whether an update exists.
    CheckForUpdate,
    /// Show the notice in a dialog; for an offer, report the answer.
    Show(Notice),
    /// Download and install the update that was found.
    Install,
    /// Nothing to do.
    Idle,
}

/// The transition function of the update check. An event that does not fit
/// the state is ignored.
pub open spec fn step_spec(s: FlowState, e: FlowEvent) -> (FlowState, FlowAction) {
    match (s, e) {
        (FlowState::AcquiringUpdater, FlowEvent::UpdaterReady) => (FlowState::Checking, FlowAction::CheckForUpdate),
        (FlowState::AcquiringUpdater, FlowEvent::UpdaterUnavailable(r)) =>
            (FlowState::Finished, FlowAction::Show(Notice::UpdaterUnavailable(r))),
        (FlowState::Checking, FlowEvent::UpdateFound(v)) =>
            (FlowState::AwaitingConfirmation, FlowAction::Show(Notice::UpdateAvailable(v))),
        (FlowState::Checking, FlowEvent::NoUpdate) => (FlowState::Finished, FlowAction::Show(Notice::UpToDate)),
        (FlowState::Checking, FlowEvent::CheckFailed(r)) =>
            (FlowState::Finished, FlowAction::Show(Notice::CheckFailed(r))),
        (FlowState::AwaitingConfirmation, FlowEvent::Answered(yes)) =>
            if yes {
                (FlowState::Installing, FlowAction::Install)
            } else {
                (FlowState::Finished, FlowAction::Idle)
            },
        (FlowState::Installing, FlowEvent::Installed) => (FlowState::Finished, FlowAction::Show(Notice::Installed)),
        (FlowState::Installing, FlowEvent::InstallFailed(r)) =>
            (FlowState::Finished, FlowAction::Show(Notice::InstallFailed(r))),
        _ => (s, FlowAction::Idle),
    }
}

/// Advances the update check by one event and says what to do next.
pub fn step(s: FlowState, e: FlowEvent) -> (r: (FlowState, FlowAction))
    ensures
        r == step_spec(s, e),
{
    match (s, e) {
        (FlowState::AcquiringUpdater, FlowEvent::UpdaterReady) => (FlowState::Checking, FlowAction::CheckForUpdate),
        (FlowState::AcquiringUpdater, FlowEvent::UpdaterUnavailable(r)) =>
            (FlowState::Finished, FlowAction::Show(Notice::UpdaterUnavailable(r))),
        (FlowState::Checking, FlowEvent::UpdateFound(v)) =>
            (FlowState::AwaitingConfirmation, FlowAction::Show(Notice::UpdateAvailable(v))),
        (FlowState::Checking, FlowEvent::NoUpdate) => (FlowState::Finished, FlowAction::Show(Notice::UpToDate)),
        (FlowState::Checking, FlowEvent::CheckFailed(r)) =>
            (FlowState::Finished, FlowAction::Show(Notice::CheckFailed(r))),
        (FlowState::AwaitingConfirmation, FlowEvent::Answered(yes)) =>
            if yes {
                (FlowState::Installing, FlowAction::Install)
            } else {
                (FlowState::Finished, FlowAction::Idle)
            },
        (FlowState::Installing, FlowEvent::Installed) => (FlowState::Finished, FlowAction::Show(Notice::Installed)),
        (FlowState::Installing, FlowEvent::InstallFailed(r)) =>
            (FlowState::Finished, FlowAction::Show(Notice::InstallFailed(r))),
        (s, _) => (s, FlowAction::Idle),
    }
}

/// The actions asked for, one per event, when the flow runs from `s` through `evs`.
pub open spec fn run_flow(s: FlowState, evs: Seq<FlowEvent>) -> Seq<FlowAction>
    decreases evs.len(),
{
    if evs.len() == 0 {
        Seq::empty()
    } else {
        let (next, a) = step_spec(s, evs[0]);
        seq![a] + run_flow(next, evs.drop_first())
    }
}

/// How many installs `acts` asks for.
pub open spec fn install_count(acts: Seq<FlowAction>) -> nat
    decreases acts.len(),
{
    if acts.len() == 0 {
        0
    } else {
        (if acts[0] is Install { 1nat } else { 0nat }) + install_count(acts.drop_first())
    }
}

/// How many dialogs `acts` shows.
pub open spec fn dialog_count(acts: Seq<FlowAction>) -> nat
    decreases acts.len(),
{
    if acts.len() == 0 {
        0
    } else {
        (if acts[0] is Show { 1nat } else { 0nat }) + dialog_count(acts.drop_first())
    }
}

/// A dialog that reports how an install ended.
pub open spec fn is_install_outcome(a: FlowAction) -> bool {
    a matches FlowAction::Show(n) && (n is Installed || n is InstallFailed)
}

/// How many dialogs in `acts` report how an install ended.
pub open spec fn outcome_count(acts: Seq<FlowAction>) -> nat
    decreases acts.len(),
{
    if acts.len() == 0 {
        0
    } else {
        (if is_install_outcome(acts[0]) { 1nat } else { 0nat }) + outcome_count(acts.drop_first())
    }
}

proof fn lemma_run_cons(s: FlowState, e: FlowEvent, evs: Seq<FlowEvent>)
    ensures
        run_flow(s, seq![e] + evs) == seq![step_spec(s, e).1] + run_flow(step_spec(s, e).0, evs),
{
    let all = seq![e] + evs;
    assert(all[0] == e);
    assert(all.drop_first() =~= evs);
}

proof fn lemma_counts_cons(a: FlowAction, acts: Seq<FlowAction>)
    ensures
        install_count(seq![a] + acts) == (if a is Install { 1nat } else { 0nat }) + install_count(acts),
        dialog_count(seq![a] + acts) == (if a is Show { 1nat } else { 0nat }) + dialog_count(acts),
        outcome_count(seq![a] + acts) == (if is_install_outcome(a) { 1nat } else { 0nat }) + outcome_count(acts),
{
    let all = seq![a] + acts;
    assert(all[0] == a);
    assert(all.drop_first() =~= acts);
}

/// Once finished, the flow asks for nothing more, whatever is reported.
pub proof fn lemma_finished_is_quiet(evs: Seq<FlowEvent>)
    ensures
        install_count(run_flow(FlowState::Finished, evs)) == 0,
        dialog_count(run_flow(FlowState::Finished, evs)) == 0,
        outcome_count(run_flow(FlowState::Finished, evs)) == 0,
    decreases evs.len(),
{
    if evs.len() > 0 {
        lemma_finished_is_quiet(evs.drop_first());
        lemma_counts_cons(FlowAction::Idle, run_flow(FlowState::Finished, evs.drop_first()));
    }
}

/// An offered update that the user accepts is installed exactly once, and
/// exactly one dialog then reports how the install ended: success or failure,
/// never both. Whatever is reported after that changes nothing.
pub proof fn lemma_accepted_update_installs_once(version: String, outcome: FlowEvent, later: Seq<FlowEvent>)
    requires
        outcome is Installed || outcome is InstallFailed,
    ensures
        ({
            let acts = run_flow(
                FlowState::AcquiringUpdater,
                seq![FlowEvent::UpdaterReady, FlowEvent::UpdateFound(version), FlowEvent::Answered(true), outcome] + later,
            );
            &&& install_count(acts) == 1
            &&& outcome_count(acts) == 1
            &&& acts[1] == FlowAction::Show(Notice::UpdateAvailable(version))
            &&& acts[2] == FlowAction::Install
            &&& is_install_outcome(acts[3])
            &&& dialog_count(acts) == 2
        }),
{
    let e1 = FlowEvent::UpdaterReady;
    let e2 = FlowEvent::UpdateFound(version);
    let e3 = FlowEvent::Answered(true);
    assert(seq![e1, e2, e3, outcome] + later =~= seq![e1] + (seq![e2] + (seq![e3] + (seq![outcome] + later))));
    lemma_run_cons(FlowState::Installing, outcome, later);
    lemma_run_cons(FlowState::AwaitingConfirmation, e3, seq![outcome] + later);
    lemma_run_cons(FlowState::Checking, e2, seq![e3] + (seq![outcome] + later));
    lemma_run_cons(FlowState::AcquiringUpdater, e1, seq![e2] + (seq![e3] + (seq![outcome] + later)));
    let a4 = step_spec(FlowState::Installing, outcome).1;
    let r4 = run_flow(FlowState::Finished, later);
    let r3 = seq![a4] + r4;
    let r2 = seq![FlowAction::Install] + r3;
    let r1 = seq![FlowAction::Show(Notice::UpdateAvailable(version))] + r2;
    lemma_finished_is_quiet(later);
    lemma_counts_cons(a4, r4);
    lemma_counts_cons(FlowAction::Install, r3);
    lemma_counts_cons(FlowAction::Show(Notice::UpdateAvailable(version)), r2);
    lemma_counts_cons(FlowAction::CheckForUpdate, r1);
}

/// When no update exists, exactly one dialog is shown, an informational one
/// saying so, and nothing is installed.
pub proof fn lemma_no_update_informs_once(later: Seq<FlowEvent>)
    ensures
        ({
            let acts = run_flow(FlowState::AcquiringUpdater, seq![FlowEvent::UpdaterReady, FlowEvent::NoUpdate] + later);
            &&& install_count(acts) == 0
            &&& dialog_count(acts) == 1
            &&& acts[1] == FlowAction::Show(Notice::UpToDate)
            &&& notice_kind(Notice::UpToDate) == DialogKind::Info
        }),
{
    let e1 = FlowEvent::UpdaterReady;
    let e2 = FlowEvent::NoUpdate;
    assert(seq![e1, e2] + later =~= seq![e1] + (seq![e2] + later));
    lemma_run_cons(FlowState::Checking, e2, later);
    lemma_run_cons(FlowState::AcquiringUpdater, e1, seq![e2] + later);
    let r2 = run_flow(FlowState::Finished, later);
    let r1 = seq![FlowAction::Show(Notice::UpToDate)] + r2;
    lemma_finished_is_quiet(later);
    lemma_counts_cons(FlowAction::Show(Notice::UpToDate), r2);
    lemma_counts_cons(FlowAction::CheckForUpdate, r1);
}

/// When the check fails, exactly one dialog is shown, an error that ends with
/// the reason of the failure, and nothing is installed.
pub proof fn lemma_failed_check_reports_once(reason: String, later: Seq<FlowEvent>)
    ensures
        ({
            let acts = run_flow(
                FlowState::AcquiringUpdater,
                seq![FlowEvent::UpdaterReady, FlowEvent::CheckFailed(reason)] + later,
            );
            &&& install_count(acts) == 0
            &&& dialog_count(acts) == 1
            &&& acts[1] == FlowAction::Show(Notice::CheckFailed(reason))
            &&& notice_kind(Notice::CheckFailed(reason)) == DialogKind::Error
            &&& ends_with(notice_message(Notice::CheckFailed(reason)), reason@)
        }),
{
    let e1 = FlowEvent::UpdaterReady;
    let e2 = FlowEvent::CheckFailed(reason);
    assert(seq![e1, e2] + later =~= seq![e1] + (seq![e2] + later));
    lemma_run_cons(FlowState::Checking, e2, later);
    lemma_run_cons(FlowState::AcquiringUpdater, e1, seq![e2] + later);
    let r2 = run_flow(FlowState::Finished, later);
    let r1 = seq![FlowAction::Show(Notice::CheckFailed(reason))] + r2;
    lemma_finished_is_quiet(later);
    lemma_counts_cons(FlowAction::Show(Notice::CheckFailed(reason)), r2);
    lemma_counts_cons(FlowAction::CheckForUpdate, r1);
    lemma_failure_message_names_reason(reason);
}

/// An offered update that the user declines is not installed, and no dialog
/// follows the offer.
pub proof fn lemma_declined_update_is_left(version: String, later: Seq<FlowEvent>)
    ensures
        ({
            let acts = run_flow(
                FlowState::AcquiringUpdater,
                seq![FlowEvent::UpdaterReady, FlowEvent::UpdateFound(version), FlowEvent::Answered(false)] + later,
            );
            &&& install_count(acts) == 0
            &&& dialog_count(acts) == 1
            &&& acts[1] == FlowAction::Show(Notice::UpdateAvailable(version))
            &&& dialog_count(acts.subrange(2, acts.len() as int)) == 0
        }),
{
    let e1 = FlowEvent::UpdaterReady;
    let e2 = FlowEvent::UpdateFound(version);
    let e3 = FlowEvent::Answered(false);
    assert(seq![e1, e2, e3] + later =~= seq![e1] + (seq![e2] + (seq![e3] + later)));
    lemma_run_cons(FlowState::AwaitingConfirmation, e3, later);
    lemma_run_cons(FlowState::Checking, e2, seq![e3] + later);
    lemma_run_cons(FlowState::AcquiringUpdater, e1, seq![e2] + (seq![e3] + later));
    let r3 = run_flow(FlowState::Finished, later);
    let r2 = seq![FlowAction::Idle] + r3;
    let r1 = seq![FlowAction::Show(Notice::UpdateAvailable(version))] + r2;
    let acts = seq![FlowAction::CheckForUpdate] + r1;
    lemma_finished_is_quiet(later);
    lemma_counts_cons(FlowAction::Idle, r3);
    lemma_counts_cons(FlowAction::Show(Notice::UpdateAvailable(version)), r2);
    lemma_counts_cons(FlowAction::CheckForUpdate, r1);
    assert(acts.subrange(2, acts.len() as int) =~= r2);
}

} // verus!
