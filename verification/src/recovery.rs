//! The choice that is offered when the sidecar does not come up in time.
use vstd::prelude::*;

use crate::supervisor::RecoveryChoice;
use crate::text::{str_equal, str_of};

verus! {

/// The texts of the recovery dialog.
#[derive(Clone, Copy, Debug)]
pub struct RecoveryPrompt {
    pub title: &'static str,
    pub message: &'static str,
    pub copy_label: &'static str,
    pub exit_label: &'static str,
}

/// What an answer to the dialog means: the logs are copied where the
/// answer is the label of that button, and in every other case the
/// application just exits.
pub open spec fn recovery_choice_spec(answer: Option<Seq<char>>) -> RecoveryChoice {
    if answer == Some("Copy Logs And Exit"@) {
        RecoveryChoice::CopyLogsAndExit
    } else {
        RecoveryChoice::Exit
    }
}

/// The dialog that is shown after a failed launch.
pub fn recovery_prompt() -> (r: RecoveryPrompt)
    ensures
        r.title@ == "Startup Failed"@,
        r.message@
            == "Failed to spawn OpenCode Server. Copy logs using the button below and send them to the team for assistance."@,
        r.copy_label@ == "Copy Logs And Exit"@,
        r.exit_label@ == "Exit"@,
{
    RecoveryPrompt {
        title: "Startup Failed",
        message: "Failed to spawn OpenCode Server. Copy logs using the button below and send them to the team for assistance.",
        copy_label: "Copy Logs And Exit",
        exit_label: "Exit",
    }
}

/// What the user chose. `answer` is the label of the custom button that
/// was pressed, if one was.
pub fn recovery_choice(answer: Option<&str>) -> (r: RecoveryChoice)
    ensures
        r == recovery_choice_spec(str_of(answer)),
{
    match answer {
        Some(label) => if str_equal(label, "Copy Logs And Exit") {
            RecoveryChoice::CopyLogsAndExit
        } else {
            RecoveryChoice::Exit
        },
        None => RecoveryChoice::Exit,
    }
}

} // verus!
