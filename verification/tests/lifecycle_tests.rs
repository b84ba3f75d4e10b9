//! One login attempt from end to end, driven against the simulated system.

use nclogin::accounting::{Ledger, RecordKind};
use nclogin::auth::{Credential, PromptStyle};
use nclogin::lifecycle::{AttemptResult, SimulatedSystem, run_attempt};
use nclogin::session::{Session, SessionType};
use nclogin::user::User;

fn alice() -> User {
    User {
        name: "alice".to_string(),
        uid: 1000,
        gid: 1000,
        gecos: "Alice".to_string(),
        homedir: "/home/alice".to_string(),
        shell: "/bin/bash".to_string(),
    }
}

fn shell_session() -> Session {
    Session {
        name: "shell".to_string(),
        cmd: "/bin/bash".to_string(),
        session_type: SessionType::Shell,
    }
}

fn credential(secret: &str) -> Credential {
    Credential {
        username: "alice".to_string(),
        secret: secret.to_string(),
        tty_path: "/dev/tty2".to_string(),
    }
}

/// A system that grants `correctpass` on tty2 and spawns pid 4242.
fn granting_system() -> SimulatedSystem {
    SimulatedSystem {
        tty_owner: 0,
        ledger: Ledger::new(),
        contexts_opened: 0,
        contexts_closed: 0,
        records_written: 0,
        retires_issued: 0,
        context_ok: true,
        prompts: vec![PromptStyle::EchoOff],
        password_ok: true,
        bind_ok: true,
        open_session_ok: true,
        end_ok: true,
        transfer_ok: true,
        spawn_pid: Some(4242),
        spawn_error: String::new(),
        record_ok: true,
        exit_code: 0,
        reclaim_ok: true,
        retire_ok: true,
        now_sec: 1_700_000_000,
        now_usec: 250,
    }
}

fn fixed(s: &str, width: usize) -> Vec<u8> {
    let mut out = s.as_bytes().to_vec();
    out.truncate(width);
    while out.len() < width {
        out.push(0);
    }
    out
}

#[test]
fn wrong_password_is_denied_and_leaves_no_trace() {
    let mut sys = granting_system();
    sys.password_ok = false;
    let user = alice();
    let session = shell_session();
    let cred = credential("wrongpass");
    let r = run_attempt(&mut sys, &user, &session, &cred);
    assert_eq!(r, AttemptResult::Denied("authentication failed".to_string()));
    assert_eq!(sys.ledger.records.len(), 0);
    assert_eq!(sys.records_written, 0);
    assert_eq!(sys.retires_issued, 0);
    assert_eq!(sys.tty_owner, 0);
}

#[test]
fn denied_reports_generically_not_naming_the_wrong_field() {
    let mut sys = granting_system();
    sys.password_ok = false;
    let r = run_attempt(&mut sys, &alice(), &shell_session(), &credential("wrongpass"));
    match r {
        AttemptResult::Denied(reason) => {
            assert!(!reason.contains("password"));
            assert!(!reason.contains("user"));
        }
        other => panic!("expected a denial, got {:?}", other),
    }
}

#[test]
fn granted_attempt_completes_and_restores_everything() {
    let mut sys = granting_system();
    sys.exit_code = 7;
    let r = run_attempt(&mut sys, &alice(), &shell_session(), &credential("correctpass"));
    assert_eq!(r, AttemptResult::Completed(7));
    assert_eq!(sys.records_written, 1);
    assert_eq!(sys.retires_issued, 1);
    assert_eq!(sys.tty_owner, 0);
    // The record was created for tty2 and then retired in place: it now
    // carries the sentinel LOGIN user and the pending kind, keeping the pid.
    assert_eq!(sys.ledger.records.len(), 1);
    let rec = &sys.ledger.records[0];
    assert_eq!(rec.line, fixed("tty2", 32));
    assert_eq!(rec.user, fixed("LOGIN", 32));
    assert_eq!(rec.kind, RecordKind::LoginPending);
    assert_eq!(rec.pid, 4242);
}

#[test]
fn granted_attempt_record_before_retire_names_the_user() {
    // Leave the retire unavailable so the session record itself is visible.
    let mut sys = granting_system();
    sys.retire_ok = false;
    let r = run_attempt(&mut sys, &alice(), &shell_session(), &credential("correctpass"));
    assert_eq!(r, AttemptResult::Completed(0));
    assert_eq!(sys.ledger.records.len(), 1);
    let rec = &sys.ledger.records[0];
    assert_eq!(rec.line, fixed("tty2", 32));
    assert_eq!(rec.id, fixed("tty2", 4));
    assert_eq!(rec.user, fixed("alice", 32));
    assert_eq!(rec.kind, RecordKind::UserSession);
    assert_eq!(rec.pid, 4242);
    assert_eq!(rec.time_sec, 1_700_000_000);
    assert_eq!(rec.time_usec, 250);
}

#[test]
fn spawn_failure_reports_launch_stage_and_still_reverts_ownership() {
    let mut sys = granting_system();
    sys.spawn_pid = None;
    sys.spawn_error = "command not found".to_string();
    let r = run_attempt(&mut sys, &alice(), &shell_session(), &credential("correctpass"));
    assert_eq!(
        r,
        AttemptResult::Failed {
            stage: "launch".to_string(),
            detail: "command not found".to_string(),
        }
    );
    // No accounting record was created; the retire was still issued and was
    // a no-op on the empty store; ownership reverted to uid 0.
    assert_eq!(sys.records_written, 0);
    assert_eq!(sys.retires_issued, 1);
    assert_eq!(sys.ledger.records.len(), 0);
    assert_eq!(sys.tty_owner, 0);
}

#[test]
fn transfer_failure_aborts_before_execution() {
    let mut sys = granting_system();
    sys.transfer_ok = false;
    let r = run_attempt(&mut sys, &alice(), &shell_session(), &credential("correctpass"));
    match r {
        AttemptResult::Failed { stage, .. } => assert_eq!(stage, "ownership"),
        other => panic!("expected an ownership failure, got {:?}", other),
    }
    assert_eq!(sys.records_written, 0);
    assert_eq!(sys.retires_issued, 0);
    assert_eq!(sys.ledger.records.len(), 0);
    assert_eq!(sys.tty_owner, 0);
}

#[test]
fn context_closed_exactly_once_when_granted() {
    let mut sys = granting_system();
    run_attempt(&mut sys, &alice(), &shell_session(), &credential("correctpass"));
    assert_eq!(sys.contexts_opened, 1);
    assert_eq!(sys.contexts_closed, 1);
}

#[test]
fn context_closed_exactly_once_when_rejected() {
    let mut sys = granting_system();
    sys.password_ok = false;
    run_attempt(&mut sys, &alice(), &shell_session(), &credential("wrongpass"));
    assert_eq!(sys.contexts_opened, 1);
    assert_eq!(sys.contexts_closed, 1);
}

#[test]
fn context_closed_exactly_once_when_session_open_fails() {
    let mut sys = granting_system();
    sys.open_session_ok = false;
    let r = run_attempt(&mut sys, &alice(), &shell_session(), &credential("correctpass"));
    assert_eq!(r, AttemptResult::Denied("session open failed".to_string()));
    assert_eq!(sys.contexts_opened, 1);
    assert_eq!(sys.contexts_closed, 1);
}

#[test]
fn no_close_when_context_creation_fails() {
    let mut sys = granting_system();
    sys.context_ok = false;
    let r = run_attempt(&mut sys, &alice(), &shell_session(), &credential("correctpass"));
    assert_eq!(r, AttemptResult::Denied("authentication unavailable".to_string()));
    assert_eq!(sys.contexts_opened, 0);
    assert_eq!(sys.contexts_closed, 0);
}

#[test]
fn protocol_violation_is_denied_without_guessing() {
    let mut sys = granting_system();
    sys.prompts = vec![PromptStyle::EchoOn];
    let r = run_attempt(&mut sys, &alice(), &shell_session(), &credential("correctpass"));
    assert_eq!(r, AttemptResult::Denied("conversation protocol violation".to_string()));
    assert_eq!(sys.contexts_closed, 1);
    assert_eq!(sys.tty_owner, 0);
}

#[test]
fn two_prompts_at_once_violate_the_protocol() {
    let mut sys = granting_system();
    sys.prompts = vec![PromptStyle::EchoOff, PromptStyle::EchoOff];
    let r = run_attempt(&mut sys, &alice(), &shell_session(), &credential("correctpass"));
    assert_eq!(r, AttemptResult::Denied("conversation protocol violation".to_string()));
}

#[test]
fn failed_reclaim_leaves_owner_with_user_but_attempt_concludes() {
    let mut sys = granting_system();
    sys.reclaim_ok = false;
    let r = run_attempt(&mut sys, &alice(), &shell_session(), &credential("correctpass"));
    assert_eq!(r, AttemptResult::Completed(0));
    assert_eq!(sys.tty_owner, 1000);
    assert_eq!(sys.retires_issued, 1);
}

#[test]
fn exit_code_does_not_change_the_accounting() {
    for code in [0, 1, 137] {
        let mut sys = granting_system();
        sys.exit_code = code;
        let r = run_attempt(&mut sys, &alice(), &shell_session(), &credential("correctpass"));
        assert_eq!(r, AttemptResult::Completed(code));
        assert_eq!(sys.records_written, 1);
        assert_eq!(sys.retires_issued, 1);
    }
}

#[test]
fn record_then_retire_matches_the_session_scenario() {
    // The ledger's own transitions, as one session sees them: the record
    // appears for tty2 under alice, and teardown re-tags it LOGIN/pending.
    let mut ledger = Ledger::new();
    ledger.record_login("alice", "/dev/tty2", 4242, 1_700_000_000, 0);
    assert_eq!(ledger.records.len(), 1);
    assert_eq!(ledger.records[0].line, fixed("tty2", 32));
    assert_eq!(ledger.records[0].user, fixed("alice", 32));
    assert_eq!(ledger.records[0].kind, RecordKind::UserSession);
    ledger.retire_login("/dev/tty2");
    assert_eq!(ledger.records.len(), 1);
    assert_eq!(ledger.records[0].line, fixed("tty2", 32));
    assert_eq!(ledger.records[0].user, fixed("LOGIN", 32));
    assert_eq!(ledger.records[0].kind, RecordKind::LoginPending);
    assert_eq!(ledger.records[0].pid, 4242);
}

#[test]
fn record_login_replaces_the_same_line_and_keeps_others() {
    let mut ledger = Ledger::new();
    ledger.record_login("alice", "tty2", 100, 10, 0);
    ledger.record_login("bob", "tty3", 200, 20, 0);
    ledger.record_login("carol", "tty2", 300, 30, 0);
    assert_eq!(ledger.records.len(), 2);
    assert_eq!(ledger.records[0].user, fixed("carol", 32));
    assert_eq!(ledger.records[0].pid, 300);
    assert_eq!(ledger.records[1].user, fixed("bob", 32));
}

#[test]
fn retire_without_a_matching_record_is_a_no_op() {
    let mut ledger = Ledger::new();
    ledger.record_login("bob", "tty3", 200, 20, 0);
    ledger.retire_login("tty2");
    assert_eq!(ledger.records.len(), 1);
    assert_eq!(ledger.records[0].user, fixed("bob", 32));
    assert_eq!(ledger.records[0].kind, RecordKind::UserSession);
}

#[test]
fn long_names_are_truncated_into_the_fixed_fields() {
    let mut ledger = Ledger::new();
    let long_name = "a-user-name-well-beyond-the-thirty-two-byte-field";
    ledger.record_login(long_name, "tty12345", 1, 0, 0);
    assert_eq!(ledger.records[0].user, fixed(&long_name[..32], 32));
    assert_eq!(ledger.records[0].user.len(), 32);
    assert_eq!(ledger.records[0].id, fixed("tty1", 4));
}
