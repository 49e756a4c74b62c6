//! Tri-state user preferences and the close-to-tray window state machine.

use vstd::prelude::*;

verus! {

/// The three independent preferences. `None` means "not decided yet"; it is a
/// state of its own, not a stand-in for `false`.
#[derive(Clone, Copy, Debug, PartialEq, Eq, Structural)]
pub struct AppSettings {
    pub close_to_tray: Option<bool>,
    pub auto_start: Option<bool>,
    pub auto_hide_to_tray: Option<bool>,
}

/// What a request to close the main window leads to.
#[derive(Clone, Copy, Debug, PartialEq, Eq, Structural)]
pub enum CloseAction {
    /// No preference yet: keep the window open and ask the user.
    AskUser,
    /// Hide the window and keep the process running.
    HideToTray,
    /// Let the window close and the process end.
    CloseNormally,
}

/// The close action that a close-to-tray preference calls for.
pub open spec fn close_action_of(pref: Option<bool>) -> CloseAction {
    match pref {
        None => CloseAction::AskUser,
        Some(true) => CloseAction::HideToTray,
        Some(false) => CloseAction::CloseNormally,
    }
}

/// Keeps `new` where it holds a value, `old` otherwise.
pub open spec fn overlay(old: Option<bool>, new: Option<bool>) -> Option<bool> {
    match new {
        Some(v) => Some(v),
        None => old,
    }
}

impl AppSettings {
    /// Settings with no preference decided.
    pub fn unset() -> (r: AppSettings)
        ensures
            r.close_to_tray is None,
            r.auto_start is None,
            r.auto_hide_to_tray is None,
    {
        AppSettings { close_to_tray: None, auto_start: None, auto_hide_to_tray: None }
    }

    /// The close-to-tray preference set to `v`, the others kept.
    pub fn with_close_to_tray(self, v: bool) -> (r: AppSettings)
        ensures
            r == (AppSettings { close_to_tray: Some(v), ..self }),
    {
        AppSettings { close_to_tray: Some(v), ..self }
    }

    /// The auto-start preference set to `v`, the others kept.
    pub fn with_auto_start(self, v: bool) -> (r: AppSettings)
        ensures
            r == (AppSettings { auto_start: Some(v), ..self }),
    {
        AppSettings { auto_start: Some(v), ..self }
    }

    /// The auto-hide-on-launch preference set to `v`, the others kept.
    pub fn with_auto_hide(self, v: bool) -> (r: AppSettings)
        ensures
            r == (AppSettings { auto_hide_to_tray: Some(v), ..self }),
    {
        AppSettings { auto_hide_to_tray: Some(v), ..self }
    }

    /// Each preference given a value replaces the stored one; a `None`
    /// argument leaves its preference as it was.
    pub fn merged(
        self,
        close_to_tray: Option<bool>,
        auto_start: Option<bool>,
        auto_hide_to_tray: Option<bool>,
    ) -> (r: AppSettings)
        ensures
            r.close_to_tray == overlay(self.close_to_tray, close_to_tray),
            r.auto_start == overlay(self.auto_start, auto_start),
            r.auto_hide_to_tray == overlay(self.auto_hide_to_tray, auto_hide_to_tray),
    {
        let mut r = self;
        if let Some(v) = close_to_tray {
            r.close_to_tray = Some(v);
        }
        if let Some(v) = auto_hide_to_tray {
            r.auto_hide_to_tray = Some(v);
        }
        if let Some(v) = auto_start {
            r.auto_start = Some(v);
        }
        r
    }

    /// What a request to close the main window leads to.
    pub fn close_action(&self) -> (r: CloseAction)
        ensures
            r == close_action_of(self.close_to_tray),
    {
        match self.close_to_tray {
            None => CloseAction::AskUser,
            Some(true) => CloseAction::HideToTray,
            Some(false) => CloseAction::CloseNormally,
        }
    }

    /// Whether the main window starts hidden: only when the preference is set
    /// and true.
    pub fn hide_on_launch(&self) -> (r: bool)
        ensures
            r == (self.auto_hide_to_tray == Some(true)),
    {
        match self.auto_hide_to_tray {
            Some(v) => v,
            None => false,
        }
    }
}

/// The settings in effect given what could be read from storage: a missing,
/// unreadable or undecodable file counts as no preference at all.
pub fn load_app_settings(stored: Option<AppSettings>) -> (r: AppSettings)
    ensures
        r == (match stored {
            Some(s) => s,
            None => AppSettings { close_to_tray: None, auto_start: None, auto_hide_to_tray: None },
        }),
{
    match stored {
        Some(s) => s,
        None => AppSettings::unset(),
    }
}

/// What the user or the system does to the main window and the tray icon.
#[derive(Clone, Copy, Debug, PartialEq, Eq, Structural)]
pub enum ShellEvent {
    /// The window's close button was pressed.
    CloseRequested,
    /// The tray icon was clicked, or "open" was picked from its menu.
    TrayActivated,
    /// "close" was picked from the tray menu.
    QuitRequested,
    /// The user answered the close-preference prompt.
    PreferenceAnswered(bool),
}

/// What the host must do in answer to a [`ShellEvent`].
#[derive(Clone, Copy, Debug, PartialEq, Eq, Structural)]
pub enum ShellAction {
    /// Keep the window open and show the close-preference prompt.
    PromptUser,
    /// Hide the window; the process keeps running.
    HideWindow,
    /// Show and focus the window.
    ShowWindow,
    /// Let the process end.
    Terminate,
    /// Persist the settings now held by the shell.
    SaveSettings,
    /// Nothing to do.
    Ignore,
}

/// The window and process state that preferences govern.
#[derive(Clone, Copy, Debug, PartialEq, Eq, Structural)]
pub struct Shell {
    pub settings: AppSettings,
    pub window_visible: bool,
    pub running: bool,
}

/// The shell after `e`, and the action that takes it there.
pub open spec fn shell_step(s: Shell, e: ShellEvent) -> (Shell, ShellAction) {
    if !s.running {
        (s, ShellAction::Ignore)
    } else {
        match e {
            ShellEvent::CloseRequested => match close_action_of(s.settings.close_to_tray) {
                CloseAction::AskUser => (s, ShellAction::PromptUser),
                CloseAction::HideToTray => (Shell { window_visible: false, ..s }, ShellAction::HideWindow),
                CloseAction::CloseNormally => (Shell { running: false, ..s }, ShellAction::Terminate),
            },
            ShellEvent::TrayActivated => (Shell { window_visible: true, ..s }, ShellAction::ShowWindow),
            ShellEvent::QuitRequested => (Shell { running: false, ..s }, ShellAction::Terminate),
            ShellEvent::PreferenceAnswered(v) => (
                Shell { settings: AppSettings { close_to_tray: Some(v), ..s.settings }, ..s },
                ShellAction::SaveSettings,
            ),
        }
    }
}

impl Shell {
    /// The shell at process start: the window starts hidden only when the
    /// auto-hide preference is set and true.
    pub fn launch(settings: AppSettings) -> (r: Shell)
        ensures
            r.settings == settings,
            r.running,
            r.window_visible == (settings.auto_hide_to_tray != Some(true)),
    {
        let hide = settings.hide_on_launch();
        Shell { settings, window_visible: !hide, running: true }
    }

    /// Applies one event and says what the host must do for it. Once the
    /// process is terminating, events are ignored.
    pub fn handle(&mut self, e: ShellEvent) -> (r: ShellAction)
        ensures
            (*final(self), r) == shell_step(*old(self), e),
    {
        if !self.running {
            return ShellAction::Ignore;
        }
        match e {
            ShellEvent::CloseRequested => match self.settings.close_action() {
                CloseAction::AskUser => ShellAction::PromptUser,
                CloseAction::HideToTray => {
                    self.window_visible = false;
                    ShellAction::HideWindow
                },
                CloseAction::CloseNormally => {
                    self.running = false;
                    ShellAction::Terminate
                },
            },
            ShellEvent::TrayActivated => {
                self.window_visible = true;
                ShellAction::ShowWindow
            },
            ShellEvent::QuitRequested => {
                self.running = false;
                ShellAction::Terminate
            },
            ShellEvent::PreferenceAnswered(v) => {
                self.settings = self.settings.with_close_to_tray(v);
                ShellAction::SaveSettings
            },
        }
    }
}

/// Once the user has answered the prompt, a later close request does not ask
/// again: it hides the window or ends the process, as the answer said.
pub proof fn lemma_answer_skips_prompt(s: Shell, v: bool)
    requires
        s.running,
    ensures
        ({
            let after = shell_step(s, ShellEvent::PreferenceAnswered(v)).0;
            let act = shell_step(after, ShellEvent::CloseRequested).1;
            act == (if v { ShellAction::HideWindow } else { ShellAction::Terminate })
        }),
{
}

/// With close-to-tray on, closing hides the window and keeps the process
/// running, and activating the tray icon shows the window again.
pub proof fn lemma_tray_round_trip(s: Shell)
    requires
        s.running,
        s.settings.close_to_tray == Some(true),
    ensures
        ({
            let (hidden, a1) = shell_step(s, ShellEvent::CloseRequested);
            let (shown, a2) = shell_step(hidden, ShellEvent::TrayActivated);
            &&& a1 == ShellAction::HideWindow
            &&& hidden.running && !hidden.window_visible
            &&& a2 == ShellAction::ShowWindow
            &&& shown.running && shown.window_visible
        }),
{
}

} // verus!
