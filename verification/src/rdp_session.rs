//! The headless display session manager. Where the machine has no display, the
//! bridge gives itself one: it opens a remote session to the machine it runs
//! on, and the session's virtual display is what gets captured.
//!
//! The manager decides; it runs no command itself. Whoever drives it asks for
//! the next action, carries it out, and reports how it went. Starting a
//! session is a run of such actions: list the remote sessions, log off those
//! that would be in the way, store the credentials, write the session
//! settings, launch the client, and let it settle. Every step but the launch
//! is best effort. Stopping is the run backwards: kill the client, delete the
//! stored credentials, log off.

use crate::text::{
    contains_text, fields_of, lines_of, parse_u32, spec_parse_u32, text_contains, text_lines,
    whitespace_fields,
};
use vstd::prelude::*;
use vstd::string::*;

verus! {

/// How long the client is given to come up, and then its display, in seconds
/// each.
pub const SETTLE_SECONDS: u64 = 3;

/// The command that lists the sessions on this machine.
pub const SESSION_LIST_COMMAND: &'static str = "qwinsta";

/// The command that logs off the session whose number is its argument.
pub const LOGOFF_COMMAND: &'static str = "logoff";

/// The command that stores and deletes credentials.
pub const CREDENTIAL_COMMAND: &'static str = "cmdkey";

/// The argument that names the loopback target when credentials are stored.
pub const CREDENTIAL_TARGET: &'static str = "/generic:TERMSRV/127.0.0.1";

/// The argument that deletes the stored credentials.
pub const CREDENTIAL_DELETE: &'static str = "/delete:127.0.0.1";

/// The command interpreter through which the bridge logs off its own session.
pub const SHELL_COMMAND: &'static str = "cmd";

/// The argument that makes [`SHELL_COMMAND`] run what follows and end.
pub const SHELL_RUN_ARGUMENT: &'static str = "/c";

/// The remote-session client, which takes the settings file as its argument.
pub const CLIENT_COMMAND: &'static str = "mstsc";

/// The name of the settings file in the directory for temporary files.
pub const SETTINGS_FILE_NAME: &'static str = "sdfdesk_rdp.rdp";

/// The session settings up to the user name: a full-screen session of 1920 by
/// 1080 at 32 bits to the loopback address, with the clipboard redirected,
/// printers, serial ports and smart cards not, and reconnection on.
pub const SESSION_SETTINGS: &'static str = "screen mode id:i:2\n\
use multimon:i:0\n\
desktopwidth:i:1920\n\
desktopheight:i:1080\n\
session bpp:i:32\n\
winposstr:s:0,1,0,0,1920,1080\n\
compression:i:1\n\
keyboardhook:i:2\n\
audiocapturemode:i:0\n\
videoplaybackmode:i:1\n\
connection type:i:7\n\
networkautodetect:i:1\n\
bandwidthautodetect:i:1\n\
displayconnectionbar:i:1\n\
enableworkspacereconnect:i:0\n\
disable wallpaper:i:0\n\
allow font smoothing:i:1\n\
allow desktop composition:i:1\n\
disable full window drag:i:0\n\
disable menu anims:i:0\n\
disable themes:i:0\n\
disable cursor setting:i:0\n\
bitmapcachepersistenable:i:1\n\
full address:s:127.0.0.1\n\
audiomode:i:0\n\
redirectprinters:i:0\n\
redirectcomports:i:0\n\
redirectsmartcards:i:0\n\
redirectclipboard:i:1\n\
redirectposdevices:i:0\n\
autoreconnection enabled:i:1\n\
authentication level:i:2\n\
prompt for credentials:i:0\n\
negotiate security layer:i:1\n\
remoteapplicationmode:i:0\n\
alternate shell:s:\n\
shell working directory:s:\n\
gatewayhostname:s:\n\
gatewayusagemethod:i:4\n\
gatewaycredentialssource:i:4\n\
gatewayprofileusagemethod:i:0\n\
promptcredentialonce:i:0\n\
gatewaybrokeringtype:i:0\n\
use redirection server name:i:0\n\
rdgiskdcproxy:i:0\n\
kdcproxyname:s:\n\
username:s:";

/// The account under which the auxiliary session logs on.
#[derive(Debug, PartialEq, Eq)]
pub struct RdpCredentials {
    pub username: String,
    pub password: String,
}

/// What [`RdpCredentials`] hold, as mathematical values.
pub struct CredentialsView {
    pub username: Seq<char>,
    pub password: Seq<char>,
}

impl View for RdpCredentials {
    type V = CredentialsView;

    open spec fn view(&self) -> CredentialsView {
        CredentialsView { username: self.username@, password: self.password@ }
    }
}

impl Clone for RdpCredentials {
    fn clone(&self) -> (copy: Self)
        ensures
            copy@ == self@,
    {
        RdpCredentials { username: self.username.clone(), password: self.password.clone() }
    }
}

/// What a poll of the client process found.
#[derive(Debug, Clone, Copy, PartialEq, Eq)]
pub enum ProcessPoll {
    /// The process has ended.
    Exited,
    /// The process is alive.
    Running,
    /// The poll itself failed, or there is no process to poll.
    Failed,
}

/// Where one auxiliary session stands, from the first step of its start to
/// the last of its stop.
#[derive(Debug, Clone, Copy, PartialEq, Eq)]
pub enum Stage {
    ListingSessions,
    LoggingOff,
    StoringCredential,
    WritingSettings,
    Launching,
    SettlingClient,
    SettlingDisplay,
    /// The client is up and its display has had its time.
    Running,
    Killing,
    DeletingCredential,
    LoggingOffSelf,
    /// The session is torn down.
    Stopped,
    /// The client could not be launched.
    Failed,
}

/// What the driver is to do next for a session.
#[derive(Debug, Clone, Copy, PartialEq, Eq)]
pub enum SessionAction {
    /// Run [`SESSION_LIST_COMMAND`] and report what it printed.
    ListSessions,
    /// Run [`LOGOFF_COMMAND`] for session `session_id`.
    LogOff { session_id: u32 },
    /// Run [`CREDENTIAL_COMMAND`] with the session's credential arguments.
    StoreCredential,
    /// Write the session's settings to [`SETTINGS_FILE_NAME`].
    WriteSettings,
    /// Launch [`CLIENT_COMMAND`] on the settings file, without waiting for it.
    LaunchClient,
    /// Wait for `seconds` seconds.
    Settle { seconds: u64 },
    /// Kill the client process.
    KillClient,
    /// Run [`CREDENTIAL_COMMAND`] with [`CREDENTIAL_DELETE`].
    DeleteCredential,
    /// Log off the session that the bridge runs in: run [`SHELL_COMMAND`]
    /// with [`SHELL_RUN_ARGUMENT`] and [`LOGOFF_COMMAND`].
    LogOffSelf,
    /// Nothing is to be done.
    Idle,
}

/// How an action went.
#[derive(Debug, Clone, Copy, PartialEq, Eq)]
pub enum StepReport<'a> {
    Succeeded,
    Failed,
    /// The session list command ran, and printed `text`.
    Listing { text: &'a str },
}

/// What a [`StepReport`] holds, as mathematical values.
pub enum ReportView {
    Succeeded,
    Failed,
    Listing { text: Seq<char> },
}

impl<'a> View for StepReport<'a> {
    type V = ReportView;

    open spec fn view(&self) -> ReportView {
        match *self {
            StepReport::Succeeded => ReportView::Succeeded,
            StepReport::Failed => ReportView::Failed,
            StepReport::Listing { text } => ReportView::Listing { text: text@ },
        }
    }
}

/// Why a session could not be started.
#[derive(Debug, Clone, Copy, PartialEq, Eq)]
pub enum SessionError {
    /// The client process could not be launched.
    LaunchFailed,
}

/// What a call to start a session came to.
#[derive(Debug, Clone, Copy, PartialEq, Eq)]
pub enum StartOutcome {
    /// Headless mode is not enabled: nothing is needed.
    NotNeeded,
    /// A display is present: no session is started.
    NotStarted,
    /// A session is up already: no second one is started.
    AlreadyActive,
    /// A session is being started or stopped: wait for that to end.
    Busy,
    /// A session was begun: drive it by its actions.
    Started,
}

/// The states of the manager.
#[derive(Debug, Clone, Copy, PartialEq, Eq)]
pub enum ManagerPhase {
    /// No credentials are set: headless mode is off.
    Disabled,
    /// Credentials are set and no session exists.
    Standby,
    Starting,
    Active,
    Stopping,
}

/// One auxiliary session as mathematical values.
pub struct SessionView {
    pub credentials: CredentialsView,
    pub stage: Stage,
    /// The sessions that are still to be logged off.
    pub pending: Seq<u32>,
}

/// The manager as mathematical values.
pub struct ManagerView {
    pub credentials: Option<CredentialsView>,
    pub session: Option<SessionView>,
}

/// Whether a display is there: where the displays could be listed, whether
/// there is any; where they could not, whether a primary display was found.
pub open spec fn spec_display_connected(enumerated: Option<usize>, primary_found: bool) -> bool {
    match enumerated {
        Some(count) => count > 0,
        None => primary_found,
    }
}

/// Tells from what the display queries found whether a display is connected.
/// `enumerated` is the number of displays where they could be listed, and
/// `primary_found` says whether the query for the primary display succeeded.
/// A listing that fails does not count as "no display" while the primary
/// display answers.
pub fn has_display_connected(enumerated: Option<usize>, primary_found: bool) -> (present: bool)
    ensures
        present == spec_display_connected(enumerated, primary_found),
        enumerated is None && primary_found ==> present,
{
    match enumerated {
        Some(count) => count > 0,
        None => primary_found,
    }
}

/// The session that one line of the session list asks to log off: the line's
/// third field is its number, which is not zero, and the line speaks of a
/// remote or a disconnected session.
pub open spec fn line_session(line: Seq<char>) -> Option<u32> {
    let fields = whitespace_fields(line);
    if fields.len() >= 3 {
        match spec_parse_u32(fields[2]) {
            Some(id) => if id != 0 && (contains_text(line, "rdp-tcp"@) || contains_text(
                line,
                "Disc"@,
            )) {
                Some(id)
            } else {
                None
            },
            None => None,
        }
    } else {
        None
    }
}

/// The sessions that `lines` ask to log off, in the order of the lines.
pub open spec fn sessions_of_lines(lines: Seq<Seq<char>>) -> Seq<u32>
    decreases lines.len(),
{
    if lines.len() == 0 {
        Seq::<u32>::empty()
    } else {
        let before = sessions_of_lines(lines.drop_last());
        match line_session(lines.last()) {
            Some(id) => before.push(id),
            None => before,
        }
    }
}

/// The sessions that a session list asks to log off. The first line is the
/// list's heading and is passed over.
pub open spec fn spec_sessions(listing: Seq<char>) -> Seq<u32> {
    let lines = text_lines(listing);
    if lines.len() <= 1 {
        Seq::<u32>::empty()
    } else {
        sessions_of_lines(lines.subrange(1, lines.len() as int))
    }
}

/// Reads one line of the session list.
pub fn session_of_line(line: &str) -> (session: Option<u32>)
    ensures
        session == line_session(line@),
{
    let fields = fields_of(line);
    if fields.len() < 3 {
        return None;
    }
    match parse_u32(fields[2].as_str()) {
        Some(id) => {
            if id != 0 && (text_contains(line, "rdp-tcp") || text_contains(line, "Disc")) {
                Some(id)
            } else {
                None
            }
        },
        None => None,
    }
}

/// Reads the session list and gives the sessions to log off before a new
/// session is started: the remote and the disconnected ones.
pub fn sessions_to_log_off(listing: &str) -> (sessions: Vec<u32>)
    ensures
        sessions@ == spec_sessions(listing@),
{
    let lines = lines_of(listing);
    let mut sessions: Vec<u32> = Vec::new();
    if lines.len() <= 1 {
        return sessions;
    }
    let ghost all = text_lines(listing@);
    let mut i: usize = 1;
    assert(all.subrange(1, 1) =~= Seq::<Seq<char>>::empty());
    while i < lines.len()
        invariant
            1 <= i <= lines.len(),
            lines.deep_view() == all,
            sessions@ == sessions_of_lines(all.subrange(1, i as int)),
        decreases lines.len() - i,
    {
        let ghost longer = all.subrange(1, i + 1);
        assert(longer.drop_last() =~= all.subrange(1, i as int));
        assert(longer.last() == lines[i as int]@);
        match session_of_line(lines[i].as_str()) {
            Some(id) => {
                sessions.push(id);
            },
            None => {},
        }
        i = i + 1;
    }
    assert(all.subrange(1, lines.len() as int) == all.subrange(1, all.len() as int));
    sessions
}

/// The arguments with which the credentials are stored.
pub open spec fn spec_credential_arguments(credentials: CredentialsView) -> Seq<Seq<char>> {
    seq![
        CREDENTIAL_TARGET@,
        "/user:"@ + credentials.username,
        "/pass:"@ + credentials.password,
    ]
}

/// The text of the settings file for the user `username`.
pub open spec fn spec_settings(username: Seq<char>) -> Seq<char> {
    SESSION_SETTINGS@ + username + "\n"@
}

/// The arguments with which [`CREDENTIAL_COMMAND`] stores `credentials` for
/// the loopback target.
pub fn credential_arguments(credentials: &RdpCredentials) -> (arguments: Vec<String>)
    ensures
        arguments.deep_view() == spec_credential_arguments(credentials@),
{
    let mut arguments: Vec<String> = Vec::new();
    arguments.push(CREDENTIAL_TARGET.to_owned());
    arguments.push(String::from_str("/user:").concat(credentials.username.as_str()));
    arguments.push(String::from_str("/pass:").concat(credentials.password.as_str()));
    assert(arguments.deep_view() =~= spec_credential_arguments(credentials@));
    arguments
}

/// The text of the settings file with which the client opens the session for
/// `username`.
pub fn session_settings(username: &str) -> (settings: String)
    ensures
        settings@ == spec_settings(username@),
{
    String::from_str(SESSION_SETTINGS).concat(username).concat("\n")
}

/// Whether `stage` is one of the steps of a start.
pub open spec fn is_starting(stage: Stage) -> bool {
    stage is ListingSessions || stage is LoggingOff || stage is StoringCredential
        || stage is WritingSettings || stage is Launching || stage is SettlingClient
        || stage is SettlingDisplay
}

/// Whether `stage` is one of the steps of a stop.
pub open spec fn is_stopping(stage: Stage) -> bool {
    stage is Killing || stage is DeletingCredential || stage is LoggingOffSelf
}

/// Whether a client process was launched by the time of `stage`.
pub open spec fn has_client(stage: Stage) -> bool {
    stage is SettlingClient || stage is SettlingDisplay || stage is Running
}

/// A session is well formed when it has a session to log off whenever it is
/// about to log one off.
pub open spec fn session_well_formed(session: SessionView) -> bool {
    session.stage is LoggingOff ==> session.pending.len() > 0
}

/// A session at the first step of its start.
pub open spec fn spec_started(credentials: CredentialsView) -> SessionView {
    SessionView { credentials, stage: Stage::ListingSessions, pending: Seq::<u32>::empty() }
}

/// The action that a session asks for.
pub open spec fn spec_next_action(session: SessionView) -> SessionAction {
    match session.stage {
        Stage::ListingSessions => SessionAction::ListSessions,
        Stage::LoggingOff => SessionAction::LogOff { session_id: session.pending[0] },
        Stage::StoringCredential => SessionAction::StoreCredential,
        Stage::WritingSettings => SessionAction::WriteSettings,
        Stage::Launching => SessionAction::LaunchClient,
        Stage::SettlingClient => SessionAction::Settle { seconds: SETTLE_SECONDS },
        Stage::SettlingDisplay => SessionAction::Settle { seconds: SETTLE_SECONDS },
        Stage::Running => SessionAction::Idle,
        Stage::Killing => SessionAction::KillClient,
        Stage::DeletingCredential => SessionAction::DeleteCredential,
        Stage::LoggingOffSelf => SessionAction::LogOffSelf,
        Stage::Stopped => SessionAction::Idle,
        Stage::Failed => SessionAction::Idle,
    }
}

/// The stage that follows the logging off.
pub open spec fn stage_for(pending: Seq<u32>) -> Stage {
    if pending.len() > 0 {
        Stage::LoggingOff
    } else {
        Stage::StoringCredential
    }
}

/// The session after the action it asked for was carried out and went as
/// `report` says. A step that fails is passed over, but for the launch of the
/// client: without the client there is no session.
pub open spec fn spec_advance(session: SessionView, report: ReportView) -> SessionView {
    let to = |stage: Stage|
        SessionView { credentials: session.credentials, stage, pending: session.pending };
    let with = |pending: Seq<u32>|
        SessionView { credentials: session.credentials, stage: stage_for(pending), pending };
    match session.stage {
        Stage::ListingSessions => match report {
            ReportView::Listing { text } => with(spec_sessions(text)),
            _ => with(Seq::<u32>::empty()),
        },
        Stage::LoggingOff => with(session.pending.drop_first()),
        Stage::StoringCredential => to(Stage::WritingSettings),
        Stage::WritingSettings => to(Stage::Launching),
        Stage::Launching => if report is Failed {
            to(Stage::Failed)
        } else {
            to(Stage::SettlingClient)
        },
        Stage::SettlingClient => to(Stage::SettlingDisplay),
        Stage::SettlingDisplay => to(Stage::Running),
        Stage::Running => session,
        Stage::Killing => to(Stage::DeletingCredential),
        Stage::DeletingCredential => to(Stage::LoggingOffSelf),
        Stage::LoggingOffSelf => to(Stage::Stopped),
        Stage::Stopped => session,
        Stage::Failed => session,
    }
}

/// The session after it was told to stop: it kills its client if it has one,
/// and goes on to delete the credentials if it has none yet; a session that
/// is stopping goes on with it, and one that has ended stays ended.
pub open spec fn spec_stop(session: SessionView) -> SessionView {
    let to = |stage: Stage|
        SessionView { credentials: session.credentials, stage, pending: Seq::<u32>::empty() };
    if has_client(session.stage) {
        to(Stage::Killing)
    } else if is_starting(session.stage) {
        to(Stage::DeletingCredential)
    } else {
        session
    }
}

/// Whether the session's client is alive, given what a poll of it found.
pub open spec fn spec_is_running(session: SessionView, poll: ProcessPoll) -> bool {
    has_client(session.stage) && poll is Running
}

/// One auxiliary session: its credentials and how far it has come.
pub struct RdpSession {
    credentials: RdpCredentials,
    stage: Stage,
    pending: Vec<u32>,
}

impl View for RdpSession {
    type V = SessionView;

    closed spec fn view(&self) -> SessionView {
        SessionView { credentials: self.credentials@, stage: self.stage, pending: self.pending@ }
    }
}

/// Whether `stage` is a step at which a client process exists.
fn stage_has_client(stage: Stage) -> (yes: bool)
    ensures
        yes == has_client(stage),
{
    match stage {
        Stage::SettlingClient => true,
        Stage::SettlingDisplay => true,
        Stage::Running => true,
        _ => false,
    }
}

/// Whether `stage` is a step of a start.
fn stage_is_starting(stage: Stage) -> (yes: bool)
    ensures
        yes == is_starting(stage),
{
    match stage {
        Stage::ListingSessions => true,
        Stage::LoggingOff => true,
        Stage::StoringCredential => true,
        Stage::WritingSettings => true,
        Stage::Launching => true,
        Stage::SettlingClient => true,
        Stage::SettlingDisplay => true,
        _ => false,
    }
}

/// Whether `stage` is a step of a stop.
fn stage_is_stopping(stage: Stage) -> (yes: bool)
    ensures
        yes == is_stopping(stage),
{
    match stage {
        Stage::Killing => true,
        Stage::DeletingCredential => true,
        Stage::LoggingOffSelf => true,
        _ => false,
    }
}

impl RdpSession {
    #[verifier::type_invariant]
    spec fn valid(&self) -> bool {
        self.stage is LoggingOff ==> self.pending@.len() > 0
    }

    /// Begins a session for `credentials`. Nothing has happened yet: the
    /// session asks for its first action.
    pub fn start(credentials: &RdpCredentials) -> (session: RdpSession)
        ensures
            session@ == spec_started(credentials@),
    {
        RdpSession {
            credentials: credentials.clone(),
            stage: Stage::ListingSessions,
            pending: Vec::new(),
        }
    }

    /// How far the session has come.
    pub fn stage(&self) -> (stage: Stage)
        ensures
            stage == self@.stage,
            session_well_formed(self@),
    {
        proof {
            use_type_invariant(self);
        }
        self.stage
    }

    /// The action that the session asks for.
    pub fn next_action(&self) -> (action: SessionAction)
        ensures
            action == spec_next_action(self@),
    {
        proof {
            use_type_invariant(self);
        }
        match self.stage {
            Stage::ListingSessions => SessionAction::ListSessions,
            Stage::LoggingOff => SessionAction::LogOff { session_id: self.pending[0] },
            Stage::StoringCredential => SessionAction::StoreCredential,
            Stage::WritingSettings => SessionAction::WriteSettings,
            Stage::Launching => SessionAction::LaunchClient,
            Stage::SettlingClient => SessionAction::Settle { seconds: SETTLE_SECONDS },
            Stage::SettlingDisplay => SessionAction::Settle { seconds: SETTLE_SECONDS },
            Stage::Running => SessionAction::Idle,
            Stage::Killing => SessionAction::KillClient,
            Stage::DeletingCredential => SessionAction::DeleteCredential,
            Stage::LoggingOffSelf => SessionAction::LogOffSelf,
            Stage::Stopped => SessionAction::Idle,
            Stage::Failed => SessionAction::Idle,
        }
    }

    /// Takes the report on the action that the session asked for, and moves
    /// on to the next step.
    pub fn advance(&mut self, report: StepReport<'_>)
        ensures
            final(self)@ == spec_advance(old(self)@, report@),
            session_well_formed(final(self)@),
    {
        proof {
            use_type_invariant(&*self);
        }
        let stage: Stage = self.stage;
        match stage {
            Stage::ListingSessions => {
                let found: Vec<u32> = match report {
                    StepReport::Listing { text } => sessions_to_log_off(text),
                    _ => Vec::new(),
                };
                let next: Stage = if found.len() > 0 {
                    Stage::LoggingOff
                } else {
                    Stage::StoringCredential
                };
                self.pending = found;
                self.stage = next;
            },
            Stage::LoggingOff => {
                let ghost before = self.pending@;
                let mut pending: Vec<u32> = Vec::new();
                self.stage = Stage::StoringCredential;
                core::mem::swap(&mut self.pending, &mut pending);
                let _ = pending.remove(0);
                assert(pending@ =~= before.drop_first());
                let next: Stage = if pending.len() > 0 {
                    Stage::LoggingOff
                } else {
                    Stage::StoringCredential
                };
                self.pending = pending;
                self.stage = next;
            },
            Stage::StoringCredential => {
                self.stage = Stage::WritingSettings;
            },
            Stage::WritingSettings => {
                self.stage = Stage::Launching;
            },
            Stage::Launching => {
                match report {
                    StepReport::Failed => {
                        self.stage = Stage::Failed;
                    },
                    _ => {
                        self.stage = Stage::SettlingClient;
                    },
                }
            },
            Stage::SettlingClient => {
                self.stage = Stage::SettlingDisplay;
            },
            Stage::SettlingDisplay => {
                self.stage = Stage::Running;
            },
            Stage::Running => {},
            Stage::Killing => {
                self.stage = Stage::DeletingCredential;
            },
            Stage::DeletingCredential => {
                self.stage = Stage::LoggingOffSelf;
            },
            Stage::LoggingOffSelf => {
                self.stage = Stage::Stopped;
            },
            Stage::Stopped => {},
            Stage::Failed => {},
        }
    }

    /// Tells the session to stop. What is to be done for that comes out as
    /// the session's next actions; none of them can keep the session from
    /// ending.
    pub fn stop(&mut self)
        ensures
            final(self)@ == spec_stop(old(self)@),
            session_well_formed(final(self)@),
    {
        let stage: Stage = self.stage;
        if stage_has_client(stage) {
            self.stage = Stage::Killing;
            self.pending = Vec::new();
        } else if stage_is_starting(stage) {
            self.stage = Stage::DeletingCredential;
            self.pending = Vec::new();
        }
    }

    /// Whether the session's client is alive, given what a poll of its
    /// process found. The session is not changed by the question.
    pub fn is_running(&self, poll: ProcessPoll) -> (alive: bool)
        ensures
            alive == spec_is_running(self@, poll),
    {
        match poll {
            ProcessPoll::Running => stage_has_client(self.stage),
            _ => false,
        }
    }

    /// The arguments with which the session's credentials are stored.
    pub fn credential_arguments(&self) -> (arguments: Vec<String>)
        ensures
            arguments.deep_view() == spec_credential_arguments(self@.credentials),
    {
        credential_arguments(&self.credentials)
    }

    /// The text of the session's settings file.
    pub fn settings(&self) -> (settings: String)
        ensures
            settings@ == spec_settings(self@.credentials.username),
    {
        session_settings(self.credentials.username.as_str())
    }
}

/// The state of the manager.
pub open spec fn spec_phase(manager: ManagerView) -> ManagerPhase {
    match manager.session {
        Some(session) => if is_starting(session.stage) {
            ManagerPhase::Starting
        } else if is_stopping(session.stage) {
            ManagerPhase::Stopping
        } else if session.stage is Running {
            ManagerPhase::Active
        } else {
            ManagerPhase::Standby
        },
        None => if manager.credentials is Some {
            ManagerPhase::Standby
        } else {
            ManagerPhase::Disabled
        },
    }
}

/// The manager after a call to start a session, and what the call came to.
/// `display_present` says whether a display was detected, and `poll` what a
/// poll of the client process found.
pub open spec fn spec_start(manager: ManagerView, display_present: bool, poll: ProcessPoll) -> (
    ManagerView,
    StartOutcome,
) {
    match manager.credentials {
        None => (manager, StartOutcome::NotNeeded),
        Some(credentials) => {
            let busy = manager.session matches Some(session) && (is_stopping(session.stage) || (
            is_starting(session.stage) && !has_client(session.stage)));
            let alive = manager.session matches Some(session) && spec_is_running(session, poll);
            if alive && manager.session->0.stage is Running {
                (manager, StartOutcome::AlreadyActive)
            } else if alive || busy {
                (manager, StartOutcome::Busy)
            } else if display_present {
                (
                    ManagerView { credentials: manager.credentials, session: None },
                    StartOutcome::NotStarted,
                )
            } else {
                (
                    ManagerView {
                        credentials: manager.credentials,
                        session: Some(spec_started(credentials)),
                    },
                    StartOutcome::Started,
                )
            }
        },
    }
}

/// The manager after a call to stop the session.
pub open spec fn spec_stop_manager(manager: ManagerView) -> ManagerView {
    match manager.session {
        Some(session) => {
            let stopped = spec_stop(session);
            if stopped.stage is Stopped || stopped.stage is Failed {
                ManagerView { credentials: manager.credentials, session: None }
            } else {
                ManagerView { credentials: manager.credentials, session: Some(stopped) }
            }
        },
        None => manager,
    }
}

/// The action that the manager asks for.
pub open spec fn spec_manager_action(manager: ManagerView) -> SessionAction {
    match manager.session {
        Some(session) => spec_next_action(session),
        None => SessionAction::Idle,
    }
}

/// The manager after the action it asked for was carried out and went as
/// `report` says, and what that means for the caller: an error where the
/// client could not be launched, and nothing else.
pub open spec fn spec_advance_manager(manager: ManagerView, report: ReportView) -> (
    ManagerView,
    Result<(), SessionError>,
) {
    match manager.session {
        Some(session) => {
            let next = spec_advance(session, report);
            if next.stage is Failed {
                (
                    ManagerView { credentials: manager.credentials, session: None },
                    Err(SessionError::LaunchFailed),
                )
            } else if next.stage is Stopped {
                (ManagerView { credentials: manager.credentials, session: None }, Ok(()))
            } else {
                (ManagerView { credentials: manager.credentials, session: Some(next) }, Ok(()))
            }
        },
        None => (manager, Ok(())),
    }
}

/// A manager is well formed when it has credentials whenever it has a
/// session, and the session is well formed.
pub open spec fn manager_well_formed(manager: ManagerView) -> bool {
    manager.session matches Some(session) ==> manager.credentials is Some && session_well_formed(
        session,
    )
}

/// Starting is idempotent while a session is active: with no display and the
/// client alive, a call to start says "already active", changes nothing and
/// asks for no action, and so does the call after it. No second client is
/// launched.
pub proof fn lemma_start_twice_when_active(manager: ManagerView)
    requires
        manager_well_formed(manager),
        spec_phase(manager) is Active,
    ensures
        ({
            let (first, first_outcome) = spec_start(manager, false, ProcessPoll::Running);
            let (second, second_outcome) = spec_start(first, false, ProcessPoll::Running);
            &&& first_outcome is AlreadyActive
            &&& second_outcome is AlreadyActive
            &&& first == manager
            &&& second == manager
            &&& spec_manager_action(second) is Idle
        }),
{
}

/// Stopping always ends: whatever the reports say, a session that was told to
/// stop is gone after at most three further actions, and the manager is back
/// in standby.
pub proof fn lemma_stop_reaches_standby(
    manager: ManagerView,
    first: ReportView,
    second: ReportView,
    third: ReportView,
)
    requires
        manager_well_formed(manager),
        manager.session is Some,
    ensures
        ({
            let stopping = spec_stop_manager(manager);
            let after = spec_advance_manager(
                spec_advance_manager(spec_advance_manager(stopping, first).0, second).0,
                third,
            ).0;
            after.session is None && spec_phase(after) is Standby
        }),
{
}

/// The headless display session manager: the credentials of headless mode,
/// once they are set, and the auxiliary session, while there is one.
pub struct HeadlessManager {
    credentials: Option<RdpCredentials>,
    session: Option<RdpSession>,
}

impl View for HeadlessManager {
    type V = ManagerView;

    closed spec fn view(&self) -> ManagerView {
        ManagerView {
            credentials: match self.credentials {
                Some(credentials) => Some(credentials@),
                None => None,
            },
            session: match self.session {
                Some(session) => Some(session@),
                None => None,
            },
        }
    }
}

impl HeadlessManager {
    #[verifier::type_invariant]
    spec fn valid(&self) -> bool {
        self.session is Some ==> self.credentials is Some
    }

    /// A manager with headless mode off.
    pub fn new() -> (manager: Self)
        ensures
            manager@ == (ManagerView { credentials: None, session: None }),
    {
        HeadlessManager { credentials: None, session: None }
    }
}

/// Enables headless mode with the account that the auxiliary session is to
/// log on with. A session that exists goes on with the credentials it was
/// started with.
pub fn set_rdp_credentials(manager: &mut HeadlessManager, username: String, password: String)
    ensures
        final(manager)@ == (ManagerView {
            credentials: Some(CredentialsView { username: username@, password: password@ }),
            session: old(manager)@.session,
        }),
{
    manager.credentials = Some(RdpCredentials { username, password });
}

/// Whether headless mode is enabled.
pub fn is_rdp_mode_enabled(manager: &HeadlessManager) -> (enabled: bool)
    ensures
        enabled == manager@.credentials is Some,
{
    manager.credentials.is_some()
}

/// The credentials of headless mode, if it is enabled.
pub fn get_rdp_credentials(manager: &HeadlessManager) -> (credentials: Option<RdpCredentials>)
    ensures
        match credentials {
            Some(found) => manager@.credentials == Some(found@),
            None => manager@.credentials is None,
        },
{
    match &manager.credentials {
        Some(credentials) => Some(credentials.clone()),
        None => None,
    }
}

/// The state of the manager.
pub fn manager_phase(manager: &HeadlessManager) -> (phase: ManagerPhase)
    ensures
        phase == spec_phase(manager@),
        manager_well_formed(manager@),
{
    proof {
        use_type_invariant(manager);
    }
    match &manager.session {
        Some(session) => {
            let stage = session.stage();
            if stage_is_starting(stage) {
                ManagerPhase::Starting
            } else if stage_is_stopping(stage) {
                ManagerPhase::Stopping
            } else {
                match stage {
                    Stage::Running => ManagerPhase::Active,
                    _ => ManagerPhase::Standby,
                }
            }
        },
        None => {
            if manager.credentials.is_some() {
                ManagerPhase::Standby
            } else {
                ManagerPhase::Disabled
            }
        },
    }
}

/// Starts an auxiliary session if one is needed: headless mode is enabled, no
/// display is present and no session is up. `display_present` is what display
/// detection found, and `poll` what a poll of the client process found. A
/// session whose client has ended is forgotten here, not earlier. After
/// `Started` the session's steps are to be driven by
/// [`next_session_action`] and [`advance_session`].
pub fn start_rdp_session_if_needed(
    manager: &mut HeadlessManager,
    display_present: bool,
    poll: ProcessPoll,
) -> (outcome: StartOutcome)
    ensures
        (final(manager)@, outcome) == spec_start(old(manager)@, display_present, poll),
        manager_well_formed(final(manager)@),
{
    proof {
        use_type_invariant(&*manager);
    }
    let credentials: RdpCredentials = match &manager.credentials {
        Some(credentials) => credentials.clone(),
        None => {
            return StartOutcome::NotNeeded;
        },
    };
    let held: Option<Stage> = match &manager.session {
        Some(session) => Some(session.stage()),
        None => None,
    };
    match held {
        Some(stage) => {
            let alive: bool = match poll {
                ProcessPoll::Running => stage_has_client(stage),
                _ => false,
            };
            if alive {
                match stage {
                    Stage::Running => {
                        return StartOutcome::AlreadyActive;
                    },
                    _ => {
                        return StartOutcome::Busy;
                    },
                }
            }
            if stage_is_stopping(stage) || (stage_is_starting(stage) && !stage_has_client(stage)) {
                return StartOutcome::Busy;
            }
        },
        None => {},
    }
    if display_present {
        manager.session = None;
        StartOutcome::NotStarted
    } else {
        manager.session = Some(RdpSession::start(&credentials));
        StartOutcome::Started
    }
}

/// Stops the auxiliary session, if there is one. The teardown comes out as
/// the manager's next actions; when the last is reported the session is gone
/// and the manager is in standby, however the steps went.
pub fn stop_rdp_session(manager: &mut HeadlessManager)
    ensures
        final(manager)@ == spec_stop_manager(old(manager)@),
        manager_well_formed(final(manager)@),
{
    proof {
        use_type_invariant(&*manager);
    }
    let mut held: Option<RdpSession> = None;
    core::mem::swap(&mut manager.session, &mut held);
    match held {
        Some(session) => {
            let mut session = session;
            session.stop();
            match session.stage() {
                Stage::Stopped => {},
                Stage::Failed => {},
                _ => {
                    manager.session = Some(session);
                },
            }
        },
        None => {},
    }
}

/// The session that the manager holds, if any.
pub fn current_session(manager: &HeadlessManager) -> (session: Option<&RdpSession>)
    ensures
        match session {
            Some(held) => manager@.session == Some(held@),
            None => manager@.session is None,
        },
{
    manager.session.as_ref()
}

/// The action that the manager asks for: the next step of the session that is
/// being started or stopped, or `Idle`.
pub fn next_session_action(manager: &HeadlessManager) -> (action: SessionAction)
    ensures
        action == spec_manager_action(manager@),
{
    match &manager.session {
        Some(session) => session.next_action(),
        None => SessionAction::Idle,
    }
}

/// Takes the report on the action that the manager asked for. The only
/// failure that reaches the caller is that of launching the client; the
/// session is then given up. A session whose teardown is complete is
/// forgotten.
pub fn advance_session(
    manager: &mut HeadlessManager,
    report: StepReport<'_>,
) -> (result: Result<(), SessionError>)
    ensures
        (final(manager)@, result) == spec_advance_manager(old(manager)@, report@),
        manager_well_formed(final(manager)@),
{
    proof {
        use_type_invariant(&*manager);
    }
    let mut held: Option<RdpSession> = None;
    core::mem::swap(&mut manager.session, &mut held);
    match held {
        Some(session) => {
            let mut session = session;
            session.advance(report);
            match session.stage() {
                Stage::Failed => Err(SessionError::LaunchFailed),
                Stage::Stopped => Ok(()),
                _ => {
                    manager.session = Some(session);
                    Ok(())
                },
            }
        },
        None => Ok(()),
    }
}

} // verus!
