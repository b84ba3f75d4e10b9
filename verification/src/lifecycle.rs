//! The session lifecycle: one state machine per login attempt, sequencing
//! credential validation, terminal-ownership transfer, the session spawn,
//! login accounting, and the teardown that must run on every exit path.
//!
//! The machine owns every decision; whoever runs it (the real system glue,
//! or the simulated system in this module) performs one emitted action at a
//! time and feeds the outcome back as an event.

use vstd::prelude::*;

use crate::accounting::{Ledger, RecordView, recorded, retired};
use crate::auth::{
    AuthError, Credential, PromptStyle, auth_error_message, auth_reason, prompts_acceptable,
    respond_to_prompts,
};
use crate::session::Session;
use crate::user::User;

verus! {

/// What one login attempt came to.
#[derive(Debug, Clone, PartialEq, Eq)]
pub enum AttemptResult {
    /// Authentication was refused; the reason is reported generically.
    Denied(String),
    /// A stage after authentication failed; nothing was executed, or the
    /// execution never started.
    Failed { stage: String, detail: String },
    /// The session ran; the child exited with this status.
    Completed(i32),
}

/// The mathematical value of an `AttemptResult`.
pub ghost enum AttemptResultView {
    Denied(Seq<char>),
    Failed { stage: Seq<char>, detail: Seq<char> },
    Completed(int),
}

impl View for AttemptResult {
    type V = AttemptResultView;

    open spec fn view(&self) -> AttemptResultView {
        match self {
            AttemptResult::Denied(reason) => AttemptResultView::Denied(reason@),
            AttemptResult::Failed { stage, detail } => AttemptResultView::Failed {
                stage: stage@,
                detail: detail@,
            },
            AttemptResult::Completed(code) => AttemptResultView::Completed(*code as int),
        }
    }
}

/// The denial result for an authentication error.
pub open spec fn denied_result(e: AuthError) -> AttemptResultView {
    AttemptResultView::Denied(auth_reason(e))
}

/// The failure result of an attempt whose pre-execution ownership transfer
/// failed.
pub open spec fn ownership_failed_result() -> AttemptResultView {
    AttemptResultView::Failed {
        stage: "ownership"@,
        detail: "could not transfer terminal ownership"@,
    }
}

/// The failure result of an attempt whose session spawn failed.
pub open spec fn launch_failed_result(detail: Seq<char>) -> AttemptResultView {
    AttemptResultView::Failed { stage: "launch"@, detail: detail }
}

/// Builds the denial result for `e`.
fn denied(e: AuthError) -> (r: AttemptResult)
    ensures
        r@ == denied_result(e),
{
    AttemptResult::Denied(auth_error_message(e))
}

/// How the credential check came out.
#[derive(Clone, Copy, PartialEq, Eq, Structural, Debug)]
pub enum CredentialCheck {
    /// The stack accepted the credential.
    Accepted,
    /// The stack rejected the credential.
    Rejected,
    /// The conversation broke the single-masked-prompt protocol.
    ProtocolViolation,
}

/// How the session spawn came out.
pub enum SpawnOutcome {
    /// The child is running under this pid.
    Spawned(i32),
    /// The command could not be started.
    SpawnFailed(String),
}

/// What the attempt will report once teardown finishes.
pub enum Conclusion {
    /// The child exited with this status.
    Completed(i32),
    /// The spawn failed with this detail.
    LaunchFailed(String),
}

/// The result a conclusion turns into.
pub open spec fn conclusion_result(c: Conclusion) -> AttemptResultView {
    match c {
        Conclusion::Completed(code) => AttemptResultView::Completed(code as int),
        Conclusion::LaunchFailed(detail) => launch_failed_result(detail@),
    }
}

/// The verdict carried while the authentication context is being released.
#[derive(Clone, Copy, PartialEq, Eq, Structural, Debug)]
pub enum AuthVerdict {
    /// Authentication succeeded; the attempt proceeds.
    Grant,
    /// Authentication failed for this reason; the attempt ends denied.
    Deny(AuthError),
}

/// Where the attempt stands. Each phase waits for the outcome of exactly
/// one emitted action.
pub enum Phase {
    /// Waiting for the authentication context to be created.
    ContextStarting,
    /// Waiting for the credential check (the conversation runs inside it).
    CredentialChecking,
    /// Waiting for the terminal to be associated with the context.
    TerminalBinding,
    /// Waiting for the administrative login session to open.
    AdminSessionOpening,
    /// Waiting for the context to be released; the verdict is settled.
    ContextEnding { verdict: AuthVerdict },
    /// Waiting for terminal ownership to transfer to the user.
    TransferringOwnership,
    /// Waiting for the session command to spawn.
    Spawning,
    /// Waiting out the pause that keeps the spawn-failure message legible.
    PausingAfterSpawnFailure { detail: String },
    /// Waiting for the accounting record of the spawned child to be written.
    RecordingLogin { pid: i32 },
    /// Waiting for the child to exit.
    AwaitingExit,
    /// Waiting for terminal ownership to return to the system principal.
    ReclaimingOwnership { conclusion: Conclusion },
    /// Waiting for the accounting record to be retired.
    RetiringLogin { conclusion: Conclusion },
    /// The attempt is over.
    Done,
}

/// The outcome of one performed action, fed back into the machine.
pub enum Event {
    ContextStarted(bool),
    CredentialChecked(CredentialCheck),
    TerminalBound(bool),
    AdminSessionOpened(bool),
    ContextEnded(bool),
    OwnershipTransferred(bool),
    SessionSpawned(SpawnOutcome),
    Paused,
    LoginRecorded(bool),
    ChildExited(i32),
    OwnershipReclaimed(bool),
    LoginRetired(bool),
}

/// What the machine asks its runner to do next.
pub enum Action {
    /// Create the authentication context for the credential's user.
    BeginAuthContext,
    /// Validate the credential; the runner answers prompts through the
    /// conversation responder.
    VerifyCredential,
    /// Associate the terminal with the authentication context.
    BindTerminal,
    /// Open the administrative login session.
    OpenAdminSession,
    /// Release the authentication context.
    EndAuthContext,
    /// Make this uid the terminal device's owner.
    TransferOwnership(u32),
    /// Spawn the session command under the user's identity.
    SpawnSession,
    /// Pause briefly so the spawn-failure message stays legible.
    PauseBeforeTeardown,
    /// Write the accounting record for this child pid.
    RecordLogin(i32),
    /// Block until the child exits.
    AwaitChild,
    /// Return terminal ownership to the system principal.
    ReclaimOwnership,
    /// Retire the terminal's accounting record.
    RetireLogin,
    /// The attempt is over with this result.
    Finish(AttemptResult),
}

/// Whether `event` is the outcome the phase is waiting for.
pub open spec fn event_fits(phase: Phase, event: Event) -> bool {
    match (phase, event) {
        (Phase::ContextStarting, Event::ContextStarted(_)) => true,
        (Phase::CredentialChecking, Event::CredentialChecked(_)) => true,
        (Phase::TerminalBinding, Event::TerminalBound(_)) => true,
        (Phase::AdminSessionOpening, Event::AdminSessionOpened(_)) => true,
        (Phase::ContextEnding { .. }, Event::ContextEnded(_)) => true,
        (Phase::TransferringOwnership, Event::OwnershipTransferred(_)) => true,
        (Phase::Spawning, Event::SessionSpawned(_)) => true,
        (Phase::PausingAfterSpawnFailure { .. }, Event::Paused) => true,
        (Phase::RecordingLogin { .. }, Event::LoginRecorded(_)) => true,
        (Phase::AwaitingExit, Event::ChildExited(_)) => true,
        (Phase::ReclaimingOwnership { .. }, Event::OwnershipReclaimed(_)) => true,
        (Phase::RetiringLogin { .. }, Event::LoginRetired(_)) => true,
        _ => false,
    }
}

/// One login attempt in progress, on behalf of the principal with this uid.
pub struct Attempt {
    pub phase: Phase,
    pub uid: u32,
}

impl Attempt {
    /// Starts an attempt for the principal with this uid. The first action
    /// creates the authentication context.
    pub fn begin(uid: u32) -> (r: (Attempt, Action))
        ensures
            r.0.phase is ContextStarting,
            r.0.uid == uid,
            r.1 is BeginAuthContext,
    {
        (Attempt { phase: Phase::ContextStarting, uid }, Action::BeginAuthContext)
    }

    /// Feeds one outcome in and moves the attempt forward, returning the
    /// machine and the next action. The transition table, exhaustively:
    ///
    /// - a failed context creation denies at once, with nothing to release;
    /// - a checked credential proceeds to terminal binding when accepted and
    ///   otherwise to the context release, carrying the denial;
    /// - terminal binding proceeds to the session open whatever its outcome
    ///   (a failed binding is not fatal);
    /// - a failed session open carries a denial into the context release;
    /// - the context release runs exactly once on every path that created a
    ///   context, and its own failure is not fatal;
    /// - a granted verdict proceeds to the ownership transfer; a failed
    ///   transfer aborts with nothing to tear down;
    /// - a failed spawn pauses, then reclaims ownership and retires the
    ///   record with no record having been written;
    /// - a successful spawn writes the accounting record, waits for the
    ///   child, then reclaims ownership and retires the record, whatever
    ///   the exit status and whatever the record write came to.
    pub fn step(self, event: Event) -> (r: (Attempt, Action))
        requires
            event_fits(self.phase, event),
        ensures
            r.0.uid == self.uid,
            self.phase is ContextStarting ==> (event matches Event::ContextStarted(ok) ==> (if ok {
                r.0.phase is CredentialChecking && r.1 is VerifyCredential
            } else {
                r.0.phase is Done && (r.1 matches Action::Finish(res) && res@ == denied_result(
                    AuthError::ContextInitFailed,
                ))
            })),
            self.phase is CredentialChecking ==> (event matches Event::CredentialChecked(c)
                ==> match c {
                CredentialCheck::Accepted => r.0.phase is TerminalBinding && r.1 is BindTerminal,
                CredentialCheck::Rejected => (r.0.phase matches Phase::ContextEnding { verdict }
                    && verdict == AuthVerdict::Deny(AuthError::Rejected)) && r.1 is EndAuthContext,
                CredentialCheck::ProtocolViolation => (r.0.phase matches Phase::ContextEnding {
                    verdict,
                } && verdict == AuthVerdict::Deny(AuthError::ProtocolError))
                    && r.1 is EndAuthContext,
            }),
            self.phase is TerminalBinding ==> r.0.phase is AdminSessionOpening && r.1
                is OpenAdminSession,
            self.phase is AdminSessionOpening ==> (event matches Event::AdminSessionOpened(ok)
                ==> (r.0.phase matches Phase::ContextEnding { verdict } && verdict == (if ok {
                AuthVerdict::Grant
            } else {
                AuthVerdict::Deny(AuthError::SessionOpenFailed)
            })) && r.1 is EndAuthContext),
            self.phase matches Phase::ContextEnding { verdict } ==> match verdict {
                AuthVerdict::Grant => (r.0.phase is TransferringOwnership && (
                r.1 matches Action::TransferOwnership(uid) && uid == self.uid)),
                AuthVerdict::Deny(e) => r.0.phase is Done && (r.1 matches Action::Finish(res)
                    && res@ == denied_result(e)),
            },
            self.phase is TransferringOwnership ==> (event matches Event::OwnershipTransferred(ok)
                ==> (if ok {
                r.0.phase is Spawning && r.1 is SpawnSession
            } else {
                r.0.phase is Done && (r.1 matches Action::Finish(res) && res@
                    == ownership_failed_result())
            })),
            self.phase is Spawning ==> (event matches Event::SessionSpawned(outcome)
                ==> match outcome {
                SpawnOutcome::Spawned(pid) => (r.0.phase matches Phase::RecordingLogin {
                    pid: p,
                } && p == pid) && (r.1 matches Action::RecordLogin(q) && q == pid),
                SpawnOutcome::SpawnFailed(detail) => (
                r.0.phase matches Phase::PausingAfterSpawnFailure { detail: d } && d@ == detail@)
                    && r.1 is PauseBeforeTeardown,
            }),
            self.phase matches Phase::PausingAfterSpawnFailure { detail } ==> (
            r.0.phase matches Phase::ReclaimingOwnership { conclusion } && conclusion_result(
                conclusion,
            ) == launch_failed_result(detail@)) && r.1 is ReclaimOwnership,
            self.phase is RecordingLogin ==> r.0.phase is AwaitingExit && r.1 is AwaitChild,
            self.phase is AwaitingExit ==> (event matches Event::ChildExited(code) ==> (
            r.0.phase matches Phase::ReclaimingOwnership { conclusion } && conclusion_result(
                conclusion,
            ) == AttemptResultView::Completed(code as int)) && r.1 is ReclaimOwnership),
            self.phase matches Phase::ReclaimingOwnership { conclusion } ==> (
            r.0.phase matches Phase::RetiringLogin { conclusion: c } && conclusion_result(c)
                == conclusion_result(conclusion)) && r.1 is RetireLogin,
            self.phase matches Phase::RetiringLogin { conclusion } ==> r.0.phase is Done && (
            r.1 matches Action::Finish(res) && res@ == conclusion_result(conclusion)),
    {
        let uid = self.uid;
        match (self.phase, event) {
            (Phase::ContextStarting, Event::ContextStarted(ok)) => {
                if ok {
                    (Attempt { phase: Phase::CredentialChecking, uid }, Action::VerifyCredential)
                } else {
                    (
                        Attempt { phase: Phase::Done, uid },
                        Action::Finish(denied(AuthError::ContextInitFailed)),
                    )
                }
            },
            (Phase::CredentialChecking, Event::CredentialChecked(c)) => {
                match c {
                    CredentialCheck::Accepted => (
                        Attempt { phase: Phase::TerminalBinding, uid },
                        Action::BindTerminal,
                    ),
                    CredentialCheck::Rejected => (
                        Attempt {
                            phase: Phase::ContextEnding {
                                verdict: AuthVerdict::Deny(AuthError::Rejected),
                            },
                            uid,
                        },
                        Action::EndAuthContext,
                    ),
                    CredentialCheck::ProtocolViolation => (
                        Attempt {
                            phase: Phase::ContextEnding {
                                verdict: AuthVerdict::Deny(AuthError::ProtocolError),
                            },
                            uid,
                        },
                        Action::EndAuthContext,
                    ),
                }
            },
            (Phase::TerminalBinding, Event::TerminalBound(_)) => {
                // A failed terminal binding is not fatal; the session-open
                // step follows either way.
                (Attempt { phase: Phase::AdminSessionOpening, uid }, Action::OpenAdminSession)
            },
            (Phase::AdminSessionOpening, Event::AdminSessionOpened(ok)) => {
                let verdict = if ok {
                    AuthVerdict::Grant
                } else {
                    AuthVerdict::Deny(AuthError::SessionOpenFailed)
                };
                (Attempt { phase: Phase::ContextEnding { verdict }, uid }, Action::EndAuthContext)
            },
            (Phase::ContextEnding { verdict }, Event::ContextEnded(_)) => {
                // A failed release is logged by the runner and is not fatal.
                match verdict {
                    AuthVerdict::Grant => (
                        Attempt { phase: Phase::TransferringOwnership, uid },
                        Action::TransferOwnership(uid),
                    ),
                    AuthVerdict::Deny(e) => (
                        Attempt { phase: Phase::Done, uid },
                        Action::Finish(denied(e)),
                    ),
                }
            },
            (Phase::TransferringOwnership, Event::OwnershipTransferred(ok)) => {
                if ok {
                    (Attempt { phase: Phase::Spawning, uid }, Action::SpawnSession)
                } else {
                    // Nothing was transferred, so there is nothing to tear
                    // down; the attempt aborts before anything executes.
                    (
                        Attempt { phase: Phase::Done, uid },
                        Action::Finish(
                            AttemptResult::Failed {
                                stage: String::from_str("ownership"),
                                detail: String::from_str("could not transfer terminal ownership"),
                            },
                        ),
                    )
                }
            },
            (Phase::Spawning, Event::SessionSpawned(outcome)) => {
                match outcome {
                    SpawnOutcome::Spawned(pid) => (
                        Attempt { phase: Phase::RecordingLogin { pid }, uid },
                        Action::RecordLogin(pid),
                    ),
                    SpawnOutcome::SpawnFailed(detail) => (
                        Attempt { phase: Phase::PausingAfterSpawnFailure { detail }, uid },
                        Action::PauseBeforeTeardown,
                    ),
                }
            },
            (Phase::PausingAfterSpawnFailure { detail }, Event::Paused) => (
                Attempt {
                    phase: Phase::ReclaimingOwnership {
                        conclusion: Conclusion::LaunchFailed(detail),
                    },
                    uid,
                },
                Action::ReclaimOwnership,
            ),
            (Phase::RecordingLogin { pid: _ }, Event::LoginRecorded(_)) => {
                // A failed accounting write is logged and is not fatal.
                (Attempt { phase: Phase::AwaitingExit, uid }, Action::AwaitChild)
            },
            (Phase::AwaitingExit, Event::ChildExited(code)) => (
                Attempt {
                    phase: Phase::ReclaimingOwnership {
                        conclusion: Conclusion::Completed(code),
                    },
                    uid,
                },
                Action::ReclaimOwnership,
            ),
            (Phase::ReclaimingOwnership { conclusion }, Event::OwnershipReclaimed(_)) => {
                // A failed reclaim is logged; retiring still follows.
                (Attempt { phase: Phase::RetiringLogin { conclusion }, uid }, Action::RetireLogin)
            },
            (Phase::RetiringLogin { conclusion }, Event::LoginRetired(_)) => {
                // A failed retire is logged; the attempt still concludes.
                let result = match conclusion {
                    Conclusion::Completed(code) => AttemptResult::Completed(code),
                    Conclusion::LaunchFailed(detail) => AttemptResult::Failed {
                        stage: String::from_str("launch"),
                        detail,
                    },
                };
                (Attempt { phase: Phase::Done, uid }, Action::Finish(result))
            },
            (phase, _) => {
                // Excluded by the precondition: every phase accepts exactly
                // the outcome of the action it emitted.
                proof {
                    assert(false);
                }
                (Attempt { phase, uid }, Action::BeginAuthContext)
            },
        }
    }
}

/// A stand-in for the platform an attempt runs against: the observable
/// state the attempt may change (terminal owner, accounting store, and the
/// balance of authentication contexts), and a script of outcomes for every
/// outside step. Driving the real machine against this model is what the
/// lifecycle guarantees are proved on; the real runner performs the same
/// actions against the real platform.
pub struct SimulatedSystem {
    /// The uid owning the terminal device.
    pub tty_owner: u32,
    /// The accounting store.
    pub ledger: Ledger,
    /// How many authentication contexts were ever created.
    pub contexts_opened: u32,
    /// How many release calls were ever made.
    pub contexts_closed: u32,
    /// How many accounting writes were ever issued.
    pub records_written: u32,
    /// How many retires were ever issued.
    pub retires_issued: u32,
    /// Whether creating the authentication context succeeds.
    pub context_ok: bool,
    /// The prompt batch the stack sends during the credential check.
    pub prompts: Vec<PromptStyle>,
    /// Whether the stack accepts the credential once the conversation holds.
    pub password_ok: bool,
    /// Whether binding the terminal succeeds.
    pub bind_ok: bool,
    /// Whether opening the administrative session succeeds.
    pub open_session_ok: bool,
    /// Whether releasing the context succeeds.
    pub end_ok: bool,
    /// Whether the ownership transfer to the user succeeds.
    pub transfer_ok: bool,
    /// The spawned child's pid, or `None` when the spawn fails.
    pub spawn_pid: Option<i32>,
    /// The failure detail when the spawn fails.
    pub spawn_error: String,
    /// Whether the accounting store accepts the login record.
    pub record_ok: bool,
    /// The child's exit status.
    pub exit_code: i32,
    /// Whether the ownership reclaim succeeds.
    pub reclaim_ok: bool,
    /// Whether the accounting store accepts the retire.
    pub retire_ok: bool,
    /// The clock at recording time.
    pub now_sec: i64,
    /// The clock's microsecond part at recording time.
    pub now_usec: i64,
}

/// The scripted outcomes of `a` and `b` agree.
pub open spec fn same_script(a: SimulatedSystem, b: SimulatedSystem) -> bool {
    &&& b.context_ok == a.context_ok
    &&& b.prompts@ == a.prompts@
    &&& b.password_ok == a.password_ok
    &&& b.bind_ok == a.bind_ok
    &&& b.open_session_ok == a.open_session_ok
    &&& b.end_ok == a.end_ok
    &&& b.transfer_ok == a.transfer_ok
    &&& b.spawn_pid == a.spawn_pid
    &&& b.spawn_error@ == a.spawn_error@
    &&& b.record_ok == a.record_ok
    &&& b.exit_code == a.exit_code
    &&& b.reclaim_ok == a.reclaim_ok
    &&& b.retire_ok == a.retire_ok
    &&& b.now_sec == a.now_sec
    &&& b.now_usec == a.now_usec
}

/// Whether the conversation the stack will hold follows the protocol.
pub open spec fn conversation_fine(s: SimulatedSystem) -> bool {
    prompts_acceptable(s.prompts@)
}

/// How the credential check comes out against this system.
pub open spec fn credential_check_spec(s: SimulatedSystem) -> CredentialCheck {
    if !conversation_fine(s) {
        CredentialCheck::ProtocolViolation
    } else if s.password_ok {
        CredentialCheck::Accepted
    } else {
        CredentialCheck::Rejected
    }
}

/// Whether this system grants the attempt: the context is created, the
/// conversation holds, the credential is accepted and the administrative
/// session opens.
pub open spec fn auth_granted(s: SimulatedSystem) -> bool {
    s.context_ok && conversation_fine(s) && s.password_ok && s.open_session_ok
}

/// The error an ungranted attempt is denied with, in the order the stages
/// run: context creation, conversation, credential, session open.
pub open spec fn denial_of(s: SimulatedSystem) -> AuthError {
    if !s.context_ok {
        AuthError::ContextInitFailed
    } else if !conversation_fine(s) {
        AuthError::ProtocolError
    } else if !s.password_ok {
        AuthError::Rejected
    } else {
        AuthError::SessionOpenFailed
    }
}

/// The result an attempt against this system comes to.
pub open spec fn attempt_result_spec(s: SimulatedSystem) -> AttemptResultView {
    if !auth_granted(s) {
        denied_result(denial_of(s))
    } else if !s.transfer_ok {
        ownership_failed_result()
    } else {
        match s.spawn_pid {
            None => launch_failed_result(s.spawn_error@),
            Some(_) => AttemptResultView::Completed(s.exit_code as int),
        }
    }
}

/// How many authentication contexts one attempt creates, and equally how
/// many release calls it makes.
pub open spec fn context_delta(s: SimulatedSystem) -> int {
    if s.context_ok {
        1
    } else {
        0
    }
}

/// How many accounting writes one attempt issues.
pub open spec fn record_writes_delta(s: SimulatedSystem) -> int {
    if auth_granted(s) && s.transfer_ok && s.spawn_pid is Some {
        1
    } else {
        0
    }
}

/// How many retires one attempt issues.
pub open spec fn retire_delta(s: SimulatedSystem) -> int {
    if auth_granted(s) && s.transfer_ok {
        1
    } else {
        0
    }
}

/// Who owns the terminal once the attempt is over.
pub open spec fn final_owner_spec(s: SimulatedSystem, uid: int) -> int {
    if !auth_granted(s) || !s.transfer_ok {
        s.tty_owner as int
    } else if s.reclaim_ok {
        0
    } else {
        uid
    }
}

/// What the accounting store holds once the attempt is over.
pub open spec fn final_ledger_spec(
    s: SimulatedSystem,
    username: Seq<char>,
    tty: Seq<char>,
) -> Seq<RecordView> {
    if auth_granted(s) && s.transfer_ok {
        let after_record = match s.spawn_pid {
            Some(pid) => if s.record_ok {
                recorded(s.ledger@, username, tty, pid as int, s.now_sec as int, s.now_usec as int)
            } else {
                s.ledger@
            },
            None => s.ledger@,
        };
        if s.retire_ok {
            retired(after_record, tty)
        } else {
            after_record
        }
    } else {
        s.ledger@
    }
}

impl SimulatedSystem {
    /// Creates the authentication context when the script allows it.
    fn begin_context(&mut self) -> (ok: bool)
        requires
            old(self).contexts_opened < u32::MAX,
        ensures
            ok == old(self).context_ok,
            final(self).contexts_opened == old(self).contexts_opened + context_delta(*old(self)),
            final(self).contexts_closed == old(self).contexts_closed,
            final(self).records_written == old(self).records_written,
            final(self).retires_issued == old(self).retires_issued,
            final(self).tty_owner == old(self).tty_owner,
            final(self).ledger == old(self).ledger,
            same_script(*old(self), *final(self)),
    {
        if self.context_ok {
            self.contexts_opened = self.contexts_opened + 1;
        }
        self.context_ok
    }

    /// Checks the credential: the stack sends its prompt batch to the
    /// conversation responder, and accepts or rejects the secret. The
    /// responses are dropped here; the secret is never retained.
    fn verify_credential(&self, credential: &Credential) -> (c: CredentialCheck)
        ensures
            c == credential_check_spec(*self),
    {
        match respond_to_prompts(&self.prompts, credential.secret.as_str()) {
            Ok(_responses) => {
                if self.password_ok {
                    CredentialCheck::Accepted
                } else {
                    CredentialCheck::Rejected
                }
            },
            Err(_) => CredentialCheck::ProtocolViolation,
        }
    }

    /// Associates the terminal with the context.
    fn bind_terminal(&self) -> (ok: bool)
        ensures
            ok == self.bind_ok,
    {
        self.bind_ok
    }

    /// Opens the administrative login session.
    fn open_admin_session(&self) -> (ok: bool)
        ensures
            ok == self.open_session_ok,
    {
        self.open_session_ok
    }

    /// Releases the authentication context.
    fn end_context(&mut self) -> (ok: bool)
        requires
            old(self).contexts_closed < u32::MAX,
        ensures
            ok == old(self).end_ok,
            final(self).contexts_closed == old(self).contexts_closed + 1,
            final(self).contexts_opened == old(self).contexts_opened,
            final(self).records_written == old(self).records_written,
            final(self).retires_issued == old(self).retires_issued,
            final(self).tty_owner == old(self).tty_owner,
            final(self).ledger == old(self).ledger,
            same_script(*old(self), *final(self)),
    {
        self.contexts_closed = self.contexts_closed + 1;
        self.end_ok
    }

    /// Makes `uid` the terminal's owner, when the script allows it.
    fn transfer_ownership(&mut self, uid: u32) -> (ok: bool)
        ensures
            ok == old(self).transfer_ok,
            old(self).transfer_ok ==> final(self).tty_owner == uid,
            !old(self).transfer_ok ==> final(self).tty_owner == old(self).tty_owner,
            final(self).contexts_opened == old(self).contexts_opened,
            final(self).contexts_closed == old(self).contexts_closed,
            final(self).records_written == old(self).records_written,
            final(self).retires_issued == old(self).retires_issued,
            final(self).ledger == old(self).ledger,
            same_script(*old(self), *final(self)),
    {
        if self.transfer_ok {
            self.tty_owner = uid;
        }
        self.transfer_ok
    }

    /// Spawns the session command.
    fn spawn_session(&self) -> (r: SpawnOutcome)
        ensures
            self.spawn_pid matches Some(pid) ==> (r matches SpawnOutcome::Spawned(p) && p == pid),
            self.spawn_pid is None ==> (r matches SpawnOutcome::SpawnFailed(d) && d@
                == self.spawn_error@),
    {
        match self.spawn_pid {
            Some(pid) => SpawnOutcome::Spawned(pid),
            None => SpawnOutcome::SpawnFailed(self.spawn_error.clone()),
        }
    }

    /// Waits out the pause that keeps a spawn-failure message legible.
    fn pause(&self) {
    }

    /// Issues the accounting write for a confirmed spawn; the store applies
    /// it only when available.
    fn record_login(&mut self, username: &str, tty: &str, pid: i32) -> (ok: bool)
        requires
            old(self).records_written < u32::MAX,
        ensures
            ok == old(self).record_ok,
            final(self).records_written == old(self).records_written + 1,
            old(self).record_ok ==> final(self).ledger@ == recorded(
                old(self).ledger@,
                username@,
                tty@,
                pid as int,
                old(self).now_sec as int,
                old(self).now_usec as int,
            ),
            !old(self).record_ok ==> final(self).ledger == old(self).ledger,
            old(self).ledger.wf() ==> final(self).ledger.wf(),
            final(self).contexts_opened == old(self).contexts_opened,
            final(self).contexts_closed == old(self).contexts_closed,
            final(self).retires_issued == old(self).retires_issued,
            final(self).tty_owner == old(self).tty_owner,
            same_script(*old(self), *final(self)),
    {
        self.records_written = self.records_written + 1;
        if self.record_ok {
            let sec = self.now_sec;
            let usec = self.now_usec;
            self.ledger.record_login(username, tty, pid, sec, usec);
        }
        self.record_ok
    }

    /// Blocks until the child exits.
    fn await_child(&self) -> (code: i32)
        ensures
            code == self.exit_code,
    {
        self.exit_code
    }

    /// Returns the terminal to the system principal, when the script allows
    /// it.
    fn reclaim_ownership(&mut self) -> (ok: bool)
        ensures
            ok == old(self).reclaim_ok,
            old(self).reclaim_ok ==> final(self).tty_owner == 0,
            !old(self).reclaim_ok ==> final(self).tty_owner == old(self).tty_owner,
            final(self).contexts_opened == old(self).contexts_opened,
            final(self).contexts_closed == old(self).contexts_closed,
            final(self).records_written == old(self).records_written,
            final(self).retires_issued == old(self).retires_issued,
            final(self).ledger == old(self).ledger,
            same_script(*old(self), *final(self)),
    {
        if self.reclaim_ok {
            self.tty_owner = 0;
        }
        self.reclaim_ok
    }

    /// Issues the retire of this terminal's record; the store applies it
    /// only when available.
    fn retire_login(&mut self, tty: &str) -> (ok: bool)
        requires
            old(self).retires_issued < u32::MAX,
        ensures
            ok == old(self).retire_ok,
            final(self).retires_issued == old(self).retires_issued + 1,
            old(self).retire_ok ==> final(self).ledger@ == retired(old(self).ledger@, tty@),
            !old(self).retire_ok ==> final(self).ledger == old(self).ledger,
            old(self).ledger.wf() ==> final(self).ledger.wf(),
            final(self).contexts_opened == old(self).contexts_opened,
            final(self).contexts_closed == old(self).contexts_closed,
            final(self).records_written == old(self).records_written,
            final(self).tty_owner == old(self).tty_owner,
            same_script(*old(self), *final(self)),
    {
        self.retires_issued = self.retires_issued + 1;
        if self.retire_ok {
            self.ledger.retire_login(tty);
        }
        self.retire_ok
    }
}

/// Runs one complete attempt against a simulated system, driving the state
/// machine action by action. This is the verified statement of the
/// lifecycle guarantees:
///
/// - the result is exactly what the script dictates;
/// - a denied attempt changes nothing: no accounting write, no retire, the
///   terminal owner untouched;
/// - a granted attempt whose spawn succeeds issues exactly one accounting
///   write, stamped with the child pid, and exactly one retire after the
///   exit, whatever the exit status;
/// - the release of the authentication context runs exactly once per
///   attempt that created one, and never otherwise;
/// - terminal ownership ends where the script's reclaim leaves it: with the
///   system principal on every granted-and-transferred path whose reclaim
///   works, and untouched on every other path.
pub fn run_attempt(
    sys: &mut SimulatedSystem,
    user: &User,
    _session: &Session,
    credential: &Credential,
) -> (r: AttemptResult)
    requires
        old(sys).contexts_opened < u32::MAX,
        old(sys).contexts_closed < u32::MAX,
        old(sys).records_written < u32::MAX,
        old(sys).retires_issued < u32::MAX,
        old(sys).ledger.wf(),
        user.uid <= u32::MAX,
    ensures
        r@ == attempt_result_spec(*old(sys)),
        final(sys).contexts_opened == old(sys).contexts_opened + context_delta(*old(sys)),
        final(sys).contexts_closed == old(sys).contexts_closed + context_delta(*old(sys)),
        final(sys).records_written == old(sys).records_written + record_writes_delta(*old(sys)),
        final(sys).retires_issued == old(sys).retires_issued + retire_delta(*old(sys)),
        final(sys).tty_owner == final_owner_spec(*old(sys), user.uid as int),
        final(sys).ledger@ == final_ledger_spec(*old(sys), user@.name, credential@.tty_path),
        final(sys).ledger.wf(),
        same_script(*old(sys), *final(sys)),
{
    let uid: u32 = user.uid as u32;
    let (m, _begin) = Attempt::begin(uid);
    let started = sys.begin_context();
    let (m, a) = m.step(Event::ContextStarted(started));
    if let Action::Finish(res) = a {
        return res;
    }
    let check = sys.verify_credential(credential);
    let (m, a) = m.step(Event::CredentialChecked(check));
    let (m, _end_action) = match a {
        Action::BindTerminal => {
            let bound = sys.bind_terminal();
            let (m, _open_action) = m.step(Event::TerminalBound(bound));
            let opened = sys.open_admin_session();
            m.step(Event::AdminSessionOpened(opened))
        },
        other => (m, other),
    };
    let ended = sys.end_context();
    let (m, a) = m.step(Event::ContextEnded(ended));
    if let Action::Finish(res) = a {
        return res;
    }
    let transferred = sys.transfer_ownership(uid);
    let (m, a) = m.step(Event::OwnershipTransferred(transferred));
    if let Action::Finish(res) = a {
        return res;
    }
    let outcome = sys.spawn_session();
    let (m, a) = m.step(Event::SessionSpawned(outcome));
    let (m, _reclaim_action) = match a {
        Action::RecordLogin(pid) => {
            let written = sys.record_login(
                user.name.as_str(),
                credential.tty_path.as_str(),
                pid,
            );
            let (m, _await_action) = m.step(Event::LoginRecorded(written));
            let code = sys.await_child();
            m.step(Event::ChildExited(code))
        },
        _ => {
            sys.pause();
            m.step(Event::Paused)
        },
    };
    let reclaimed = sys.reclaim_ownership();
    let (m, _retire_action) = m.step(Event::OwnershipReclaimed(reclaimed));
    let retired_now = sys.retire_login(credential.tty_path.as_str());
    let (_m, a) = m.step(Event::LoginRetired(retired_now));
    if let Action::Finish(res) = a {
        return res;
    }
    // The machine always finishes here; the branch above is taken.
    proof {
        assert(false);
    }
    AttemptResult::Completed(0)
}

/// A rejected credential leaves no trace: the attempt's result is the
/// denial, no accounting write and no retire are issued, the store and the
/// terminal owner are exactly what they were.
pub proof fn lemma_denied_leaves_no_trace(
    s: SimulatedSystem,
    uid: int,
    username: Seq<char>,
    tty: Seq<char>,
)
    requires
        attempt_result_spec(s) is Denied,
    ensures
        record_writes_delta(s) == 0,
        retire_delta(s) == 0,
        final_ledger_spec(s, username, tty) == s.ledger@,
        final_owner_spec(s, uid) == s.tty_owner as int,
{
    assert(!auth_granted(s));
}

/// A granted credential whose spawn succeeds issues exactly one accounting
/// write and exactly one retire, whatever the child's exit status; when the
/// store is available, the record carries the spawned pid and is retired
/// after the exit.
pub proof fn lemma_granted_spawn_records_once(
    s: SimulatedSystem,
    username: Seq<char>,
    tty: Seq<char>,
)
    requires
        auth_granted(s),
        s.transfer_ok,
        s.spawn_pid is Some,
    ensures
        record_writes_delta(s) == 1,
        retire_delta(s) == 1,
        s.record_ok && s.retire_ok ==> final_ledger_spec(s, username, tty) == retired(
            recorded(
                s.ledger@,
                username,
                tty,
                s.spawn_pid->0 as int,
                s.now_sec as int,
                s.now_usec as int,
            ),
            tty,
        ),
{
}

/// Terminal ownership ends where it began whenever the terminal started
/// with the system principal and the reclaim is available — on every path,
/// including a failed spawn. (A failed reclaim, or a terminal that began
/// under another owner on a granted attempt, are the excluded inputs.)
pub proof fn lemma_ownership_restored(s: SimulatedSystem, uid: int)
    requires
        s.tty_owner == 0,
        s.reclaim_ok,
    ensures
        final_owner_spec(s, uid) == s.tty_owner as int,
{
}

/// Every attempt balances its authentication context: one release per
/// created context, and none when creation failed.
pub proof fn lemma_context_release_balanced(s: SimulatedSystem)
    ensures
        s.context_ok ==> context_delta(s) == 1,
        !s.context_ok ==> context_delta(s) == 0,
{
}

} // verus!
