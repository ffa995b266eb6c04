//! The update check's dialogs: for each thing the check runs into, what the
//! user is shown (or not, for a passive check) and what happens next. Asking
//! the update service, downloading and relaunching belong to the application.
use vstd::prelude::*;
use crate::text::{owned, push_str};

verus! {

/// Title of the informational dialogs about updating.
pub const UPDATES_TITLE: &'static str = "Updates";

/// Title of the dialog after a check that found nothing newer.
pub const UP_TO_DATE_TITLE: &'static str = "Up to Date";

/// Title of every update error dialog.
pub const UPDATE_FAILED_TITLE: &'static str = "Update Check Failed";

/// Title of the install prompt.
pub const UPDATE_AVAILABLE_TITLE: &'static str = "Update Available";

/// The install prompt's accepting button.
pub const INSTALL_BUTTON: &'static str = "Install and Relaunch";

/// The install prompt's declining button.
pub const LATER_BUTTON: &'static str = "Later";

/// Told on a portable Windows build, which never updates itself.
pub const PORTABLE_MESSAGE: &'static str =
    "This is the portable build, which updates manually:\ndownload the new portable zip from the GitHub Releases page.";

/// Told on a Linux install that is not an AppImage.
pub const NOT_APPIMAGE_MESSAGE: &'static str =
    "Auto-update is available for the AppImage build.\n\nFor .deb installs, download the new package from the GitHub Releases page.";

/// Told when the update service could not be reached.
pub const UNREACHABLE_MESSAGE: &'static str =
    "Couldn't reach the update service.\n\nCheck your internet connection, or download the latest version from the GitHub Releases page.\n\n(Details are in the log file.)";

/// What an update check ran into.
#[derive(Clone, Debug)]
pub enum UpdateEvent {
    /// A portable Windows build: self-update is disabled.
    PortableBuild,
    /// A Linux install that is not an AppImage: self-update is unavailable.
    NotAppImage,
    /// The updater could not be set up; `error` is its error text.
    UpdaterUnavailable { error: String },
    /// A newer version exists.
    Available { current: String, next: String },
    /// The running version is the latest.
    UpToDate { current: String },
    /// The update service could not be asked.
    CheckFailed,
    /// The accepted update was downloaded and installed.
    Installed,
    /// The accepted update could not be installed; `error` is its error text.
    InstallFailed { error: String },
}

/// What the application does about an update event.
#[derive(Clone, Debug)]
pub enum UpdateAction {
    /// Nothing is shown.
    Nothing,
    /// An informational dialog.
    Inform { title: String, message: String },
    /// An error dialog titled `UPDATE_FAILED_TITLE`.
    Fail { message: String },
    /// The install prompt, titled `UPDATE_AVAILABLE_TITLE`, with the install
    /// and later buttons; accepting downloads and installs the update.
    AskInstall { message: String },
    /// Restart into the installed version.
    Relaunch,
}

/// An update action, viewed.
pub enum UpdateActionView {
    Nothing,
    Inform(Seq<char>, Seq<char>),
    Fail(Seq<char>),
    AskInstall(Seq<char>),
    Relaunch,
}

/// The view of an update action.
pub open spec fn action_view(a: UpdateAction) -> UpdateActionView {
    match a {
        UpdateAction::Nothing => UpdateActionView::Nothing,
        UpdateAction::Inform { title, message } => UpdateActionView::Inform(title@, message@),
        UpdateAction::Fail { message } => UpdateActionView::Fail(message@),
        UpdateAction::AskInstall { message } => UpdateActionView::AskInstall(message@),
        UpdateAction::Relaunch => UpdateActionView::Relaunch,
    }
}

/// A dialog shown only when the user asked for the check.
pub open spec fn when_asked(interactive: bool, a: UpdateActionView) -> UpdateActionView {
    if interactive {
        a
    } else {
        UpdateActionView::Nothing
    }
}

/// The action for `event`. A passive check (`interactive` false) stays
/// silent unless there is an update to offer or an accepted install failed.
pub open spec fn spec_update_action(event: UpdateEvent, interactive: bool) -> UpdateActionView {
    match event {
        UpdateEvent::PortableBuild => when_asked(
            interactive,
            UpdateActionView::Inform(UPDATES_TITLE@, PORTABLE_MESSAGE@),
        ),
        UpdateEvent::NotAppImage => when_asked(
            interactive,
            UpdateActionView::Inform(UPDATES_TITLE@, NOT_APPIMAGE_MESSAGE@),
        ),
        UpdateEvent::UpdaterUnavailable { error } => when_asked(
            interactive,
            UpdateActionView::Fail("The updater isn't available: "@ + error@),
        ),
        UpdateEvent::Available { current, next } => UpdateActionView::AskInstall(
            "Hermes WebUI Desktop "@ + next@ + " is available (you have "@ + current@
                + ").\n\nDownload and install it now?"@,
        ),
        UpdateEvent::UpToDate { current } => when_asked(
            interactive,
            UpdateActionView::Inform(UP_TO_DATE_TITLE@, "You're on the latest version (v"@ + current@ + ")."@),
        ),
        UpdateEvent::CheckFailed => when_asked(interactive, UpdateActionView::Fail(UNREACHABLE_MESSAGE@)),
        UpdateEvent::Installed => UpdateActionView::Relaunch,
        UpdateEvent::InstallFailed { error } => UpdateActionView::Fail(
            "The update couldn't be installed: "@ + error@,
        ),
    }
}

/// Decide what the update check does about `event`.
pub fn update_action(event: &UpdateEvent, interactive: bool) -> (a: UpdateAction)
    ensures
        action_view(a) == spec_update_action(*event, interactive),
{
    match event {
        UpdateEvent::PortableBuild => {
            if interactive {
                UpdateAction::Inform { title: owned(UPDATES_TITLE), message: owned(PORTABLE_MESSAGE) }
            } else {
                UpdateAction::Nothing
            }
        },
        UpdateEvent::NotAppImage => {
            if interactive {
                UpdateAction::Inform { title: owned(UPDATES_TITLE), message: owned(NOT_APPIMAGE_MESSAGE) }
            } else {
                UpdateAction::Nothing
            }
        },
        UpdateEvent::UpdaterUnavailable { error } => {
            if interactive {
                let mut m = owned("The updater isn't available: ");
                push_str(&mut m, error.as_str());
                UpdateAction::Fail { message: m }
            } else {
                UpdateAction::Nothing
            }
        },
        UpdateEvent::Available { current, next } => {
            let mut m = owned("Hermes WebUI Desktop ");
            push_str(&mut m, next.as_str());
            push_str(&mut m, " is available (you have ");
            push_str(&mut m, current.as_str());
            push_str(&mut m, ").\n\nDownload and install it now?");
            UpdateAction::AskInstall { message: m }
        },
        UpdateEvent::UpToDate { current } => {
            if interactive {
                let mut m = owned("You're on the latest version (v");
                push_str(&mut m, current.as_str());
                push_str(&mut m, ").");
                UpdateAction::Inform { title: owned(UP_TO_DATE_TITLE), message: m }
            } else {
                UpdateAction::Nothing
            }
        },
        UpdateEvent::CheckFailed => {
            if interactive {
                UpdateAction::Fail { message: owned(UNREACHABLE_MESSAGE) }
            } else {
                UpdateAction::Nothing
            }
        },
        UpdateEvent::Installed => UpdateAction::Relaunch,
        UpdateEvent::InstallFailed { error } => {
            let mut m = owned("The update couldn't be installed: ");
            push_str(&mut m, error.as_str());
            UpdateAction::Fail { message: m }
        },
    }
}

/// A passive check never shows anything but an offered update or a failed
/// install, and every check that finds an update offers it.
pub proof fn law_passive_check_is_quiet(event: UpdateEvent)
    ensures
        !(event is Available || event is Installed || event is InstallFailed)
            ==> spec_update_action(event, false) is Nothing,
        event is Available ==> spec_update_action(event, false) is AskInstall
            && spec_update_action(event, true) is AskInstall,
{
}

} // verus!
