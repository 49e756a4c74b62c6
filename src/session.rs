//! Stored session material, its one-way migration, and the guard's model of
//! the live session.

use vstd::prelude::*;

verus! {

/// Token-based session material: enough to resume without a password.
#[derive(Clone, Debug, PartialEq, Eq)]
pub struct SecureSession {
    pub username: String,
    pub country: String,
    /// The cloud-issued token material, kept as text.
    pub token: String,
}

/// Password-based session material of the older on-disk format.
#[derive(Clone, Debug, PartialEq, Eq)]
pub struct LegacyCredentials {
    pub username: String,
    pub country: String,
    pub password: String,
}

/// Who is signed in, and to which region.
#[derive(Clone, Debug, PartialEq, Eq)]
pub struct SavedCredentials {
    pub username: String,
    pub country: String,
}

/// What the session file holds, in whichever of its two formats.
#[derive(Clone, Debug, PartialEq, Eq)]
pub enum StoredSession {
    Secure(SecureSession),
    Legacy(LegacyCredentials),
}

/// How far the live session is trusted.
#[derive(Clone, Copy, Debug, PartialEq, Eq, Structural)]
pub enum SessionPhase {
    Unauthenticated,
    /// Imported from storage, not yet confirmed by the cloud.
    Restored,
    /// Confirmed live by a login or a successful probe.
    Verified,
    /// The probe failed: the stored session is dead.
    Invalid,
}

/// What must happen to the session file.
#[derive(Clone, Debug, PartialEq, Eq)]
pub enum FileAction {
    Keep,
    Remove,
    /// Replace its contents with this secure session.
    Write(SecureSession),
}

/// The result of an automatic login attempt, and what it asks of storage.
#[derive(Clone, Debug, PartialEq, Eq)]
pub struct AutoLoginOutcome {
    pub logged_in: bool,
    pub file: FileAction,
}

/// The stored session that the two decode attempts give: the secure format is
/// tried first, the legacy one only where that failed.
pub open spec fn stored_choice(
    secure: Option<SecureSession>,
    legacy: Option<LegacyCredentials>,
) -> Option<StoredSession> {
    match secure {
        Some(s) => Some(StoredSession::Secure(s)),
        None => match legacy {
            Some(l) => Some(StoredSession::Legacy(l)),
            None => None,
        },
    }
}

/// The stored session that the two decode attempts give: the secure format is
/// tried first, the legacy one only where that failed. A file that neither
/// could decode counts as no session.
pub fn select_stored(secure: Option<SecureSession>, legacy: Option<LegacyCredentials>) -> (r:
    Option<StoredSession>)
    ensures
        r == stored_choice(secure, legacy),
{
    match secure {
        Some(s) => Some(StoredSession::Secure(s)),
        None => match legacy {
            Some(l) => Some(StoredSession::Legacy(l)),
            None => None,
        },
    }
}

pub open spec fn stored_username(s: StoredSession) -> String {
    match s {
        StoredSession::Secure(x) => x.username,
        StoredSession::Legacy(x) => x.username,
    }
}

pub open spec fn stored_country(s: StoredSession) -> String {
    match s {
        StoredSession::Secure(x) => x.country,
        StoredSession::Legacy(x) => x.country,
    }
}

/// The secure form of a legacy session once the cloud has issued `token`.
pub open spec fn secured(l: LegacyCredentials, token: String) -> SecureSession {
    SecureSession { username: l.username, country: l.country, token }
}

/// What an automatic login from `stored` comes to. `probe` is the outcome of
/// the live check, `None` where the client judged the session unusable and no
/// check was made; `token` is what the client exports after the check.
pub open spec fn auto_login_outcome(
    stored: StoredSession,
    probe: Option<bool>,
    token: Option<String>,
) -> AutoLoginOutcome {
    match probe {
        None => AutoLoginOutcome { logged_in: false, file: FileAction::Keep },
        Some(false) => AutoLoginOutcome { logged_in: false, file: FileAction::Remove },
        Some(true) => AutoLoginOutcome {
            logged_in: true,
            file: match (stored, token) {
                (StoredSession::Legacy(l), Some(t)) => FileAction::Write(secured(l, t)),
                _ => FileAction::Keep,
            },
        },
    }
}

/// The phase that the outcome of the live check leads a restored session to.
pub open spec fn probed_phase(probe: Option<bool>) -> SessionPhase {
    match probe {
        None => SessionPhase::Unauthenticated,
        Some(false) => SessionPhase::Invalid,
        Some(true) => SessionPhase::Verified,
    }
}

fn copy_text(s: &String) -> (r: String)
    ensures
        r == *s,
{
    s.clone()
}

/// The file action for an automatic login, as [`auto_login_outcome`] states it.
fn auto_login_file(stored: &StoredSession, probe: Option<bool>, token: Option<String>) -> (r:
    AutoLoginOutcome)
    ensures
        r == auto_login_outcome(*stored, probe, token),
{
    match probe {
        None => AutoLoginOutcome { logged_in: false, file: FileAction::Keep },
        Some(false) => AutoLoginOutcome { logged_in: false, file: FileAction::Remove },
        Some(true) => {
            let file = match (stored, token) {
                (StoredSession::Legacy(l), Some(t)) => FileAction::Write(
                    SecureSession {
                        username: copy_text(&l.username),
                        country: copy_text(&l.country),
                        token: t,
                    },
                ),
                _ => FileAction::Keep,
            };
            AutoLoginOutcome { logged_in: true, file }
        },
    }
}

/// The guard's model of the live session.
pub struct SessionView {
    pub phase: SessionPhase,
    pub username: Option<Seq<char>>,
    pub country: Seq<char>,
}

/// The session after `stored` is imported into it.
pub open spec fn imported(g: SessionView, stored: StoredSession) -> SessionView {
    SessionView {
        phase: SessionPhase::Restored,
        username: Some(stored_username(stored)@),
        country: stored_country(stored)@,
    }
}

/// The session after the live check of a restored session.
pub open spec fn probed(g: SessionView, probe: Option<bool>) -> SessionView {
    match probe {
        None => SessionView { phase: SessionPhase::Unauthenticated, username: None, ..g },
        _ => SessionView { phase: probed_phase(probe), ..g },
    }
}

/// A session that may be used: restored from storage or confirmed live.
pub open spec fn usable(g: SessionView) -> bool {
    g.phase == SessionPhase::Restored || g.phase == SessionPhase::Verified
}

/// The state of the live session: its phase, the signed-in user and the
/// region that cloud calls go to. Exactly the unauthenticated session has no
/// user.
pub struct SessionGuard {
    phase: SessionPhase,
    username: Option<String>,
    country: String,
}

impl View for SessionGuard {
    type V = SessionView;

    closed spec fn view(&self) -> SessionView {
        SessionView {
            phase: self.phase,
            username: match self.username {
                Some(u) => Some(u@),
                None => None,
            },
            country: self.country@,
        }
    }
}

impl SessionGuard {
    pub open spec fn wf(&self) -> bool {
        (self@.phase == SessionPhase::Unauthenticated) == (self@.username is None)
    }

    /// A session with nobody signed in, in the default region "cn".
    pub fn new() -> (r: SessionGuard)
        ensures
            r.wf(),
            r@.phase == SessionPhase::Unauthenticated,
            r@.country == "cn"@,
    {
        SessionGuard { phase: SessionPhase::Unauthenticated, username: None, country: "cn".to_string() }
    }

    pub fn phase(&self) -> (r: SessionPhase)
        ensures
            r == self@.phase,
    {
        self.phase
    }

    pub fn country(&self) -> (r: &String)
        ensures
            r@ == self@.country,
    {
        &self.country
    }

    /// Whether the session may be used for cloud calls.
    pub fn is_logged_in(&self) -> (r: bool)
        ensures
            r == usable(self@),
    {
        match self.phase {
            SessionPhase::Restored | SessionPhase::Verified => true,
            _ => false,
        }
    }

    /// The signed-in user and region, while the session may be used.
    pub fn current_user(&self) -> (r: Option<SavedCredentials>)
        requires
            self.wf(),
        ensures
            match r {
                Some(c) => usable(self@) && self@.username == Some(c.username@) && c.country@
                    == self@.country,
                None => !usable(self@),
            },
    {
        if !self.is_logged_in() {
            return None;
        }
        match &self.username {
            Some(u) => Some(SavedCredentials { username: u.clone(), country: self.country.clone() }),
            None => None,
        }
    }

    /// Moves the session to region `country`. Returns whether there is a
    /// session whose stored form must be written again.
    pub fn set_country(&mut self, country: String) -> (resave: bool)
        requires
            old(self).wf(),
        ensures
            final(self).wf(),
            final(self)@ == (SessionView { country: country@, ..old(self)@ }),
            resave == usable(old(self)@),
    {
        self.country = country;
        self.is_logged_in()
    }

    /// Records the outcome of a login as `username`, to the region `country`
    /// where one is given. A refused login leaves nobody signed in, and its
    /// message is handed back. On success, returns whether the secure form of
    /// the session is to be stored.
    pub fn login(
        &mut self,
        username: String,
        country: Option<String>,
        outcome: Result<(), String>,
        persist: bool,
    ) -> (r: Result<bool, String>)
        requires
            old(self).wf(),
        ensures
            final(self).wf(),
            final(self)@.country == (match country {
                Some(c) => c@,
                None => old(self)@.country,
            }),
            match outcome {
                Ok(()) => r == Ok::<bool, String>(persist) && final(self)@.phase
                    == SessionPhase::Verified && final(self)@.username == Some(username@),
                Err(e) => r == Err::<bool, String>(e) && final(self)@.phase
                    == SessionPhase::Unauthenticated,
            },
    {
        if let Some(c) = country {
            self.country = c;
        }
        match outcome {
            Ok(()) => {
                self.phase = SessionPhase::Verified;
                self.username = Some(username);
                Ok(persist)
            },
            Err(e) => {
                self.phase = SessionPhase::Unauthenticated;
                self.username = None;
                Err(e)
            },
        }
    }

    /// Takes up a session read from storage; it is not yet confirmed.
    pub fn import(&mut self, stored: &StoredSession)
        ensures
            final(self).wf(),
            final(self)@ == imported(old(self)@, *stored),
    {
        let (u, c) = match stored {
            StoredSession::Secure(s) => (s.username.clone(), s.country.clone()),
            StoredSession::Legacy(l) => (l.username.clone(), l.country.clone()),
        };
        self.phase = SessionPhase::Restored;
        self.username = Some(u);
        self.country = c;
    }

    /// Ends the session: nobody signed in, default region.
    pub fn logout(&mut self)
        ensures
            final(self).wf(),
            final(self)@.phase == SessionPhase::Unauthenticated,
            final(self)@.country == "cn"@,
    {
        *self = SessionGuard::new();
    }

    /// First step of an automatic login: takes up the stored session, if any.
    /// Returns whether the live check is to follow.
    pub fn begin_auto_login(&mut self, stored: &Option<StoredSession>) -> (check: bool)
        requires
            old(self).wf(),
        ensures
            final(self).wf(),
            check == stored is Some,
            match stored {
                Some(s) => final(self)@ == imported(old(self)@, *s),
                None => final(self)@ == old(self)@,
            },
    {
        match stored {
            Some(s) => {
                self.import(s);
                true
            },
            None => false,
        }
    }

    /// Last step of an automatic login from `stored`, once the live check has
    /// given `probe` (`None`: the client judged the session unusable and made
    /// no check) and the client has exported `token`. A dead session is to be
    /// removed from storage; a live legacy session is to be stored again in
    /// the secure format.
    pub fn finish_auto_login(
        &mut self,
        stored: &StoredSession,
        probe: Option<bool>,
        token: Option<String>,
    ) -> (r: AutoLoginOutcome)
        requires
            old(self).wf(),
            old(self)@.phase == SessionPhase::Restored,
        ensures
            final(self).wf(),
            final(self)@ == probed(old(self)@, probe),
            r == auto_login_outcome(*stored, probe, token),
    {
        match probe {
            None => {
                self.phase = SessionPhase::Unauthenticated;
                self.username = None;
            },
            Some(true) => {
                self.phase = SessionPhase::Verified;
            },
            Some(false) => {
                self.phase = SessionPhase::Invalid;
            },
        }
        auto_login_file(stored, probe, token)
    }
}

/// A secure session file, once loaded and imported, is confirmed by a
/// successful live check: the session is verified, no password is involved,
/// and the file stays as it is.
pub proof fn lemma_secure_session_restores(
    g: SessionView,
    s: SecureSession,
    legacy: Option<LegacyCredentials>,
    token: Option<String>,
)
    ensures
        stored_choice(Some(s), legacy) == Some(StoredSession::Secure(s)),
        imported(g, StoredSession::Secure(s)).phase == SessionPhase::Restored,
        probed(imported(g, StoredSession::Secure(s)), Some(true)).phase == SessionPhase::Verified,
        auto_login_outcome(StoredSession::Secure(s), Some(true), token) == (AutoLoginOutcome {
            logged_in: true,
            file: FileAction::Keep,
        }),
{
}

/// A legacy session that passes the live check is stored again in the secure
/// format; an automatic login from that secure file leaves it unchanged, so
/// migrating twice gives the same file as migrating once.
pub proof fn lemma_migration_one_way(
    l: LegacyCredentials,
    token: String,
    later_token: Option<String>,
    later_legacy: Option<LegacyCredentials>,
)
    ensures
        auto_login_outcome(StoredSession::Legacy(l), Some(true), Some(token)) == (AutoLoginOutcome {
            logged_in: true,
            file: FileAction::Write(secured(l, token)),
        }),
        stored_choice(Some(secured(l, token)), later_legacy) == Some(
            StoredSession::Secure(secured(l, token)),
        ),
        auto_login_outcome(
            StoredSession::Secure(secured(l, token)),
            Some(true),
            later_token,
        ).file == FileAction::Keep,
{
}

} // verus!
