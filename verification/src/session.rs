//! The session gate of the shim: what initializing and finalizing the module
//! do to the client's agent socket and to standard error, and how session
//! handles are handed out.

use crate::descriptors::stderr_fileno;
use crate::fdswap::{FdSwapState, FdSwapView, Redirect};
use crate::paths::{is_same, join, joined_path, same_path, AGENT_SOCKET, BACKUP_SOCKET};
use crate::pkcs11::{
    CKF_SERIAL_SESSION, CKR_OK, CKR_SESSION_PARALLEL_NOT_SUPPORTED, CK_FLAGS, CK_RV,
    CK_SESSION_HANDLE, CK_SLOT_ID,
};
use vstd::prelude::*;

verus! {

/// The variable that names the user on whose behalf an escalated process runs.
pub const ESCALATION_VARIABLE: &'static str = "SUDO_USER";

/// The variable that holds the path of the client's agent socket.
pub const SOCKET_VARIABLE: &'static str = "SSH_AUTH_SOCK";

/// Where standard error goes while it is muted.
pub const DISCARD_DESTINATION: &'static str = "/dev/null";

/// Whether the process runs on behalf of another user.
#[derive(Clone, PartialEq, Eq, Debug)]
pub enum Escalation {
    /// The escalation variable is not set.
    Absent,
    /// The escalation variable names a user; `home` is that user's home
    /// directory, `None` where the user is unknown.
    Named { home: Option<String> },
}

/// What initializing reads from the process's surroundings.
#[derive(Clone, PartialEq, Eq, Debug)]
pub struct SessionEnvironment {
    /// The escalation variable and the home directory behind it.
    pub escalation: Escalation,
    /// The invoking user's home directory, `None` where it cannot be told.
    pub home: Option<String>,
    /// The value of the socket-path variable, `None` where it is not set.
    pub socket_path: Option<String>,
}

/// The descriptors that muting standard error starts from.
#[derive(Clone, Copy, PartialEq, Eq, Structural, Debug)]
pub struct Muting {
    /// The discard destination, open for reading and writing.
    pub discard: i32,
    /// What duplicating standard error returned: a descriptor, or a negative
    /// number where the duplication failed.
    pub duplicate: i32,
}

/// A link to make: remove what is at `link`, then make `link` a symbolic link
/// to `original`.
#[derive(Clone, PartialEq, Eq, Debug)]
pub struct BackupLink {
    pub original: String,
    pub link: String,
}

/// A [`BackupLink`] as a mathematical value.
pub struct BackupLinkView {
    pub original: Seq<char>,
    pub link: Seq<char>,
}

impl View for BackupLink {
    type V = BackupLinkView;

    open spec fn view(&self) -> BackupLinkView {
        BackupLinkView { original: self.original@, link: self.link@ }
    }
}

/// What the caller of [`CK_C_Initialize`] is to do, in this order: make the
/// backup link, where there is one, and go on if that fails; set the
/// socket-path variable to `socket_path`, where there is one; perform
/// `redirect`, where there is one; return `status`.
#[derive(Clone, PartialEq, Eq, Debug)]
pub struct InitializePlan {
    pub status: CK_RV,
    pub backup: Option<BackupLink>,
    pub socket_path: Option<String>,
    pub redirect: Option<Redirect>,
}

/// What the caller of [`CK_C_Finalize`] is to do: perform `redirect`, where
/// there is one, and return `status`.
#[derive(Clone, Copy, PartialEq, Eq, Structural, Debug)]
pub struct FinalizePlan {
    pub status: CK_RV,
    pub redirect: Option<Redirect>,
}

/// The text in an optional string.
pub open spec fn text(value: Option<String>) -> Option<Seq<char>> {
    match value {
        Some(s) => Some(s@),
        None => None,
    }
}

impl SessionEnvironment {
    /// The home directory below which the agent's socket lies: that of the
    /// user whom the escalation variable names, where it is set; the invoking
    /// user's otherwise.
    pub open spec fn agent_home(self) -> Option<Seq<char>> {
        match self.escalation {
            Escalation::Named { home } => text(home),
            Escalation::Absent => text(self.home),
        }
    }

    /// The agent's socket, where its home directory can be told.
    pub open spec fn agent_socket(self) -> Option<Seq<char>> {
        match self.agent_home() {
            Some(home) => Some(joined_path(home, AGENT_SOCKET@)),
            None => None,
        }
    }

    /// The backup link to make: one from the backup path below the invoking
    /// user's home directory to the socket that the variable named, where the
    /// agent's socket can be told, the variable is set, and its value is not
    /// the agent's socket already.
    pub open spec fn backup(self) -> Option<BackupLinkView> {
        match (self.agent_socket(), text(self.socket_path), text(self.home)) {
            (Some(agent), Some(original), Some(home)) => if same_path(original, agent) {
                None
            } else {
                Some(BackupLinkView { original, link: joined_path(home, BACKUP_SOCKET@) })
            },
            _ => None,
        }
    }
}

/// The state of a gate as a mathematical value.
pub struct SessionGateView {
    /// The swap of standard error.
    pub stderr: FdSwapView,
    /// The handle that the next session gets.
    pub next_handle: CK_SESSION_HANDLE,
}

impl SessionGateView {
    /// The session gate of a module that has just been loaded.
    pub open spec fn initial() -> SessionGateView {
        SessionGateView { stderr: FdSwapView::idle(2), next_handle: 1 }
    }

    /// The session gate after initializing.
    pub open spec fn initialized(self, muting: Option<Muting>) -> SessionGateView {
        match muting {
            Some(m) => SessionGateView { stderr: self.stderr.swapped(m.duplicate), ..self },
            None => self,
        }
    }

    /// The redirection that initializing asks for.
    pub open spec fn mute_request(self, muting: Option<Muting>) -> Option<Redirect> {
        match muting {
            Some(m) => self.stderr.swap_request(m.duplicate, m.discard),
            None => None,
        }
    }

    /// The session gate after finalizing.
    pub open spec fn finalized(self) -> SessionGateView {
        SessionGateView { stderr: self.stderr.restored(), ..self }
    }

    /// Whether a request with these flags asks for a serial session.
    pub open spec fn is_serial(flags: CK_FLAGS) -> bool {
        flags & CKF_SERIAL_SESSION != 0
    }

    /// The handle after `handle`.
    pub open spec fn following(handle: CK_SESSION_HANDLE) -> CK_SESSION_HANDLE {
        if handle == u64::MAX {
            0
        } else {
            (handle + 1) as u64
        }
    }

    /// The session gate after a request for a session.
    pub open spec fn opened(self, flags: CK_FLAGS) -> SessionGateView {
        if Self::is_serial(flags) {
            SessionGateView { next_handle: Self::following(self.next_handle), ..self }
        } else {
            self
        }
    }

    /// The answer to a request for a session.
    pub open spec fn open_reply(self, flags: CK_FLAGS) -> Result<CK_SESSION_HANDLE, CK_RV> {
        if Self::is_serial(flags) {
            Ok(self.next_handle)
        } else {
            Err(CKR_SESSION_PARALLEL_NOT_SUPPORTED)
        }
    }
}

/// The session gate: the swap state of standard error and the counter of
/// session handles, owned by whoever loaded the module.
#[derive(Debug)]
pub struct SessionGate {
    stderr: FdSwapState,
    next_handle: CK_SESSION_HANDLE,
}

impl View for SessionGate {
    type V = SessionGateView;

    closed spec fn view(&self) -> SessionGateView {
        SessionGateView { stderr: self.stderr@, next_handle: self.next_handle }
    }
}

impl SessionGate {
    /// The session gate of a module that has just been loaded: standard error
    /// is not swapped, and the first session will get the handle 1.
    pub fn new() -> (gate: Self)
        ensures
            gate@ == SessionGateView::initial(),
    {
        SessionGate { stderr: FdSwapState::new(stderr_fileno()), next_handle: 1 }
    }

    /// The descriptor that initializing mutes.
    pub fn muted_descriptor(&self) -> (fd: i32)
        ensures
            fd == self@.stderr.target,
    {
        self.stderr.target()
    }

    /// The saved duplicate of standard error, while it is muted.
    pub fn saved_descriptor(&self) -> (saved: Option<i32>)
        ensures
            saved == self@.stderr.saved,
    {
        self.stderr.saved()
    }
}

/// The agent's socket for these surroundings.
fn agent_socket_of(environment: &SessionEnvironment) -> (socket: Option<String>)
    ensures
        text(socket) == environment.agent_socket(),
{
    match &environment.escalation {
        Escalation::Named { home } => match home {
            Some(home) => Some(join(home.as_str(), AGENT_SOCKET)),
            None => None,
        },
        Escalation::Absent => match &environment.home {
            Some(home) => Some(join(home.as_str(), AGENT_SOCKET)),
            None => None,
        },
    }
}

/// The backup link for these surroundings, where `agent` is the agent's
/// socket for them.
fn backup_of(environment: &SessionEnvironment, agent: &Option<String>) -> (backup: Option<
    BackupLink,
>)
    requires
        text(*agent) == environment.agent_socket(),
    ensures
        backup.is_some() == environment.backup().is_some(),
        backup matches Some(link) ==> link@ == environment.backup().unwrap(),
        text(environment.socket_path) == environment.agent_socket() ==> backup is None,
{
    match (agent, &environment.socket_path, &environment.home) {
        (Some(agent), Some(original), Some(home)) => {
            if is_same(original.as_str(), agent.as_str()) {
                None
            } else {
                Some(
                    BackupLink {
                        original: original.clone(),
                        link: join(home.as_str(), BACKUP_SOCKET),
                    },
                )
            }
        },
        _ => None,
    }
}

/// Initializes the module.
///
/// `environment` is what the process's surroundings say; `muting` holds the
/// descriptors for muting standard error, `None` where the discard destination
/// could not be opened.
///
/// The plan reroutes the client to the agent: where the agent's home directory
/// can be told, the socket-path variable is set to the agent's socket below it,
/// whatever it held; and where it held another path, that path is kept as a
/// link at the backup path. No link is made where the variable held the agent's
/// socket already, letter for letter or as another spelling of the same path.
/// The plan then mutes standard error: the duplicate is saved in the session
/// gate and the discard destination is duplicated onto standard error, unless
/// there is nothing to mute with. The status is always that of success.
pub fn CK_C_Initialize(
    gate: &mut SessionGate,
    environment: &SessionEnvironment,
    muting: Option<Muting>,
) -> (plan: InitializePlan)
    ensures
        plan.status == CKR_OK,
        plan.backup.is_some() == environment.backup().is_some(),
        plan.backup matches Some(link) ==> link@ == environment.backup().unwrap(),
        text(environment.socket_path) == environment.agent_socket() ==> plan.backup is None,
        text(plan.socket_path) == environment.agent_socket(),
        plan.redirect == old(gate)@.mute_request(muting),
        final(gate)@ == old(gate)@.initialized(muting),
{
    let socket_path = agent_socket_of(environment);
    let backup = backup_of(environment, &socket_path);
    let redirect = match muting {
        Some(m) => gate.stderr.swap(m.duplicate, m.discard),
        None => None,
    };
    InitializePlan { status: CKR_OK, backup, socket_path, redirect }
}

/// Finalizes the module: where standard error is muted, the plan duplicates the
/// saved descriptor back onto it and the session gate forgets the descriptor;
/// otherwise nothing is done. The status is always that of success.
pub fn CK_C_Finalize(gate: &mut SessionGate) -> (plan: FinalizePlan)
    ensures
        plan.status == CKR_OK,
        plan.redirect == old(gate)@.stderr.restore_request(),
        final(gate)@ == old(gate)@.finalized(),
{
    let redirect = gate.stderr.restore();
    FinalizePlan { status: CKR_OK, redirect }
}

/// Opens a session on `slot_id`. A request without the serial flag is refused
/// and uses up no handle. Any other gets the session gate's next handle, and
/// the session gate moves on to the handle after it.
pub fn CK_C_OpenSession(gate: &mut SessionGate, slot_id: CK_SLOT_ID, flags: CK_FLAGS) -> (reply:
    Result<CK_SESSION_HANDLE, CK_RV>)
    ensures
        reply == old(gate)@.open_reply(flags),
        final(gate)@ == old(gate)@.opened(flags),
{
    if flags & CKF_SERIAL_SESSION == 0 {
        Err(CKR_SESSION_PARALLEL_NOT_SUPPORTED)
    } else {
        let handle = gate.next_handle;
        gate.next_handle = if handle == u64::MAX {
            0
        } else {
            handle + 1
        };
        Ok(handle)
    }
}

} // verus!
