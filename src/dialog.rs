use vstd::prelude::*;
use vstd::string::StringExecFns;

verus! {

/// Icon class of a message dialog.
#[derive(PartialEq, Eq, Structural, Clone, Copy, Debug)]
pub enum DialogKind {
    Info,
    Error,
}

/// Button set of a message dialog.
#[derive(PartialEq, Eq, Structural, Clone, Copy, Debug)]
pub enum DialogButtons {
    /// A single button that acknowledges the message.
    Acknowledge,
    /// A confirm and a cancel button; the answer is reported back.
    OkCancel,
}

/// A message dialog, ready to be shown.
#[derive(Clone, Debug, PartialEq, Eq)]
pub struct Dialog {
    pub title: String,
    pub message: String,
    pub kind: DialogKind,
    pub buttons: DialogButtons,
}

/// Each message that the update check can put before the user.
#[derive(Clone, Debug, PartialEq, Eq)]
pub enum Notice {
    /// No updater client could be had; holds the reason.
    UpdaterUnavailable(String),
    /// A newer version exists; holds its version and asks whether to install it.
    UpdateAvailable(String),
    /// The check itself failed; holds the reason.
    CheckFailed(String),
    /// The running version is the latest.
    UpToDate,
    /// Downloading or installing failed; holds the reason.
    InstallFailed(String),
    /// The update was installed.
    Installed,
}

/// The title of the dialog that shows `n`.
pub open spec fn notice_title(n: Notice) -> Seq<char> {
    match n {
        Notice::UpdateAvailable(_) => "Update Available"@,
        Notice::UpToDate => "No Updates"@,
        Notice::Installed => "Update Complete"@,
        _ => "Update Error"@,
    }
}

/// The text of the dialog that shows `n`; a failure names its reason.
pub open spec fn notice_message(n: Notice) -> Seq<char> {
    match n {
        Notice::UpdaterUnavailable(e) => "Updater not available: "@ + e@,
        Notice::UpdateAvailable(v) => "Version "@ + v@ + " is available. Would you like to install it now?"@,
        Notice::CheckFailed(e) => "Failed to check for updates: "@ + e@,
        Notice::UpToDate => "You're running the latest version."@,
        Notice::InstallFailed(e) => "Failed to install update: "@ + e@,
        Notice::Installed => "Update installed. Please restart the application."@,
    }
}

/// Failures are shown as errors, everything else as information.
pub open spec fn notice_kind(n: Notice) -> DialogKind {
    match n {
        Notice::UpdaterUnavailable(_) | Notice::CheckFailed(_) | Notice::InstallFailed(_) => DialogKind::Error,
        _ => DialogKind::Info,
    }
}

/// Only the offer of an update asks for an answer.
pub open spec fn notice_buttons(n: Notice) -> DialogButtons {
    if n is UpdateAvailable {
        DialogButtons::OkCancel
    } else {
        DialogButtons::Acknowledge
    }
}

/// `e` stands at the end of `m`.
pub open spec fn ends_with(m: Seq<char>, e: Seq<char>) -> bool {
    e.len() <= m.len() && m.subrange(m.len() - e.len(), m.len() as int) == e
}

fn text_with(prefix: &str, detail: &String) -> (r: String)
    ensures
        r@ == prefix@ + detail@,
{
    let mut r = String::from_str(prefix);
    r.append(detail.as_str());
    r
}

impl Notice {
    /// The dialog that shows this notice.
    pub fn render(&self) -> (d: Dialog)
        ensures
            d.title@ == notice_title(*self),
            d.message@ == notice_message(*self),
            d.kind == notice_kind(*self),
            d.buttons == notice_buttons(*self),
    {
        match self {
            Notice::UpdaterUnavailable(e) => Dialog {
                title: String::from_str("Update Error"),
                message: text_with("Updater not available: ", e),
                kind: DialogKind::Error,
                buttons: DialogButtons::Acknowledge,
            },
            Notice::UpdateAvailable(v) => {
                let mut message = text_with("Version ", v);
                message.append(" is available. Would you like to install it now?");
                Dialog {
                    title: String::from_str("Update Available"),
                    message,
                    kind: DialogKind::Info,
                    buttons: DialogButtons::OkCancel,
                }
            },
            Notice::CheckFailed(e) => Dialog {
                title: String::from_str("Update Error"),
                message: text_with("Failed to check for updates: ", e),
                kind: DialogKind::Error,
                buttons: DialogButtons::Acknowledge,
            },
            Notice::UpToDate => Dialog {
                title: String::from_str("No Updates"),
                message: String::from_str("You're running the latest version."),
                kind: DialogKind::Info,
                buttons: DialogButtons::Acknowledge,
            },
            Notice::InstallFailed(e) => Dialog {
                title: String::from_str("Update Error"),
                message: text_with("Failed to install update: ", e),
                kind: DialogKind::Error,
                buttons: DialogButtons::Acknowledge,
            },
            Notice::Installed => Dialog {
                title: String::from_str("Update Complete"),
                message: String::from_str("Update installed. Please restart the application."),
                kind: DialogKind::Info,
                buttons: DialogButtons::Acknowledge,
            },
        }
    }
}

/// A failure notice ends with the reason it was given.
pub proof fn lemma_failure_message_names_reason(e: String)
    ensures
        ends_with(notice_message(Notice::UpdaterUnavailable(e)), e@),
        ends_with(notice_message(Notice::CheckFailed(e)), e@),
        ends_with(notice_message(Notice::InstallFailed(e)), e@),
{
    let a = notice_message(Notice::UpdaterUnavailable(e));
    let b = notice_message(Notice::CheckFailed(e));
    let c = notice_message(Notice::InstallFailed(e));
    assert(a.subrange(a.len() - e@.len(), a.len() as int) =~= e@);
    assert(b.subrange(b.len() - e@.len(), b.len() as int) =~= e@);
    assert(c.subrange(c.len() - e@.len(), c.len() as int) =~= e@);
}

} // verus!
