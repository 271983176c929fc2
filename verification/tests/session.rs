use kr_shim::fdswap::{FdSwapState, Redirect};
use kr_shim::pkcs11::{CKF_SERIAL_SESSION, CKR_OK, CKR_SESSION_PARALLEL_NOT_SUPPORTED};
use kr_shim::session::{
    BackupLink, CK_C_Finalize, CK_C_Initialize, CK_C_OpenSession, Escalation, Muting,
    SessionEnvironment, SessionGate, DISCARD_DESTINATION, ESCALATION_VARIABLE, SOCKET_VARIABLE,
};

fn environment(
    escalation: Escalation,
    home: Option<&str>,
    socket: Option<&str>,
) -> SessionEnvironment {
    SessionEnvironment {
        escalation,
        home: home.map(String::from),
        socket_path: socket.map(String::from),
    }
}

#[test]
fn names_in_the_surroundings() {
    assert_eq!(ESCALATION_VARIABLE, "SUDO_USER");
    assert_eq!(SOCKET_VARIABLE, "SSH_AUTH_SOCK");
    assert_eq!(DISCARD_DESTINATION, "/dev/null");
}

#[test]
fn swap_saves_duplicate_and_redirects() {
    let mut state = FdSwapState::new(2);
    assert_eq!(state.target(), 2);
    assert_eq!(state.saved(), None);
    assert_eq!(state.swap(11, 5), Some(Redirect { source: 5, target: 2 }));
    assert_eq!(state.saved(), Some(11));
    assert_eq!(state.target(), 2);
}

#[test]
fn swap_with_failed_duplication_does_nothing() {
    let mut state = FdSwapState::new(2);
    assert_eq!(state.swap(-1, 5), None);
    assert_eq!(state.saved(), None);
    assert_eq!(state.restore(), None);
}

#[test]
fn swap_accepts_descriptor_zero() {
    let mut state = FdSwapState::new(1);
    assert_eq!(state.swap(0, 4), Some(Redirect { source: 4, target: 1 }));
    assert_eq!(state.saved(), Some(0));
}

#[test]
fn restore_puts_duplicate_back_and_clears_slot() {
    let mut state = FdSwapState::new(2);
    state.swap(11, 5);
    assert_eq!(state.restore(), Some(Redirect { source: 11, target: 2 }));
    assert_eq!(state.saved(), None);
    assert_eq!(state.restore(), None);
}

#[test]
fn restore_without_swap_does_nothing() {
    let mut state = FdSwapState::new(2);
    assert_eq!(state.restore(), None);
    assert_eq!(state.saved(), None);
}

#[test]
fn unpaired_swap_forgets_earlier_duplicate() {
    let mut state = FdSwapState::new(2);
    state.swap(11, 5);
    assert_eq!(state.swap(12, 6), Some(Redirect { source: 6, target: 2 }));
    assert_eq!(state.saved(), Some(12));
    assert_eq!(state.swap(-1, 7), None);
    assert_eq!(state.saved(), Some(12));
}

#[test]
fn new_gate_mutes_standard_error_and_is_not_muted() {
    let gate = SessionGate::new();
    assert_eq!(gate.muted_descriptor(), 2);
    assert_eq!(gate.saved_descriptor(), None);
}

#[test]
fn handles_start_at_one_and_count_up() {
    let mut gate = SessionGate::new();
    assert_eq!(CK_C_OpenSession(&mut gate, 1, CKF_SERIAL_SESSION), Ok(1));
    assert_eq!(CK_C_OpenSession(&mut gate, 1, CKF_SERIAL_SESSION), Ok(2));
    assert_eq!(CK_C_OpenSession(&mut gate, 1, CKF_SERIAL_SESSION | 0x2), Ok(3));
}

#[test]
fn session_without_serial_flag_is_refused_and_takes_no_handle() {
    let mut gate = SessionGate::new();
    assert_eq!(CK_C_OpenSession(&mut gate, 1, 0), Err(CKR_SESSION_PARALLEL_NOT_SUPPORTED));
    assert_eq!(CK_C_OpenSession(&mut gate, 1, 0x2), Err(0xB4));
    assert_eq!(CK_C_OpenSession(&mut gate, 1, !CKF_SERIAL_SESSION), Err(0xB4));
    assert_eq!(CK_C_OpenSession(&mut gate, 1, CKF_SERIAL_SESSION), Ok(1));
    assert_eq!(CK_C_OpenSession(&mut gate, 1, 0), Err(0xB4));
    assert_eq!(CK_C_OpenSession(&mut gate, 1, CKF_SERIAL_SESSION), Ok(2));
}

#[test]
fn handles_do_not_depend_on_the_slot() {
    let mut gate = SessionGate::new();
    assert_eq!(CK_C_OpenSession(&mut gate, 0, 4), Ok(1));
    assert_eq!(CK_C_OpenSession(&mut gate, 99, 4), Ok(2));
}

#[test]
fn handles_count_up_behind_a_lock() {
    let gate = std::sync::Mutex::new(SessionGate::new());
    let mut got: Vec<u64> = Vec::new();
    for _ in 0..4 {
        let mut gate = gate.lock().unwrap();
        got.push(CK_C_OpenSession(&mut gate, 1, CKF_SERIAL_SESSION).unwrap());
    }
    assert_eq!(got, vec![1, 2, 3, 4]);
}

#[test]
fn initialize_reroutes_and_backs_up_other_socket() {
    let mut gate = SessionGate::new();
    let env = environment(Escalation::Absent, Some("/home/u"), Some("/tmp/ssh-abc/agent.1"));
    let plan = CK_C_Initialize(&mut gate, &env, None);
    assert_eq!(plan.status, CKR_OK);
    assert_eq!(plan.socket_path, Some(String::from("/home/u/.kr/krd-agent.sock")));
    assert_eq!(
        plan.backup,
        Some(BackupLink {
            original: String::from("/tmp/ssh-abc/agent.1"),
            link: String::from("/home/u/.kr/original-agent.sock"),
        })
    );
    assert_eq!(plan.redirect, None);
}

#[test]
fn initialize_makes_no_backup_of_agent_socket() {
    let mut gate = SessionGate::new();
    let env = environment(Escalation::Absent, Some("/home/u"), Some("/home/u/.kr/krd-agent.sock"));
    let plan = CK_C_Initialize(&mut gate, &env, None);
    assert_eq!(plan.socket_path, Some(String::from("/home/u/.kr/krd-agent.sock")));
    assert_eq!(plan.backup, None);
}

#[test]
fn initialize_takes_other_spelling_of_agent_socket_for_the_same() {
    let mut gate = SessionGate::new();
    let env = environment(Escalation::Absent, Some("/home/u"), Some("/home/u//.kr/./krd-agent.sock"));
    let plan = CK_C_Initialize(&mut gate, &env, None);
    assert_eq!(plan.backup, None);
    assert_eq!(plan.socket_path, Some(String::from("/home/u/.kr/krd-agent.sock")));
}

#[test]
fn initialize_sets_socket_where_none_was_set() {
    let mut gate = SessionGate::new();
    let env = environment(Escalation::Absent, Some("/home/u"), None);
    let plan = CK_C_Initialize(&mut gate, &env, None);
    assert_eq!(plan.socket_path, Some(String::from("/home/u/.kr/krd-agent.sock")));
    assert_eq!(plan.backup, None);
}

#[test]
fn initialize_prefers_home_of_escalating_user() {
    let mut gate = SessionGate::new();
    let env = environment(
        Escalation::Named { home: Some(String::from("/home/alice")) },
        Some("/root"),
        Some("/tmp/agent.sock"),
    );
    let plan = CK_C_Initialize(&mut gate, &env, None);
    assert_eq!(plan.socket_path, Some(String::from("/home/alice/.kr/krd-agent.sock")));
    assert_eq!(
        plan.backup,
        Some(BackupLink {
            original: String::from("/tmp/agent.sock"),
            link: String::from("/root/.kr/original-agent.sock"),
        })
    );
}

#[test]
fn initialize_skips_rerouting_for_unknown_escalating_user() {
    let mut gate = SessionGate::new();
    let env = environment(Escalation::Named { home: None }, Some("/root"), Some("/tmp/agent.sock"));
    let plan = CK_C_Initialize(&mut gate, &env, Some(Muting { discard: 5, duplicate: 6 }));
    assert_eq!(plan.status, CKR_OK);
    assert_eq!(plan.socket_path, None);
    assert_eq!(plan.backup, None);
    assert_eq!(plan.redirect, Some(Redirect { source: 5, target: 2 }));
}

#[test]
fn initialize_skips_rerouting_without_home() {
    let mut gate = SessionGate::new();
    let env = environment(Escalation::Absent, None, Some("/tmp/agent.sock"));
    let plan = CK_C_Initialize(&mut gate, &env, None);
    assert_eq!(plan.status, CKR_OK);
    assert_eq!(plan.socket_path, None);
    assert_eq!(plan.backup, None);
}

#[test]
fn initialize_makes_no_backup_without_own_home() {
    let mut gate = SessionGate::new();
    let env = environment(
        Escalation::Named { home: Some(String::from("/home/alice")) },
        None,
        Some("/tmp/agent.sock"),
    );
    let plan = CK_C_Initialize(&mut gate, &env, None);
    assert_eq!(plan.socket_path, Some(String::from("/home/alice/.kr/krd-agent.sock")));
    assert_eq!(plan.backup, None);
}

#[test]
fn initialize_mutes_and_finalize_restores() {
    let mut gate = SessionGate::new();
    let env = environment(Escalation::Absent, Some("/home/u"), None);
    let plan = CK_C_Initialize(&mut gate, &env, Some(Muting { discard: 5, duplicate: 6 }));
    assert_eq!(plan.redirect, Some(Redirect { source: 5, target: 2 }));
    assert_eq!(gate.saved_descriptor(), Some(6));
    let plan = CK_C_Finalize(&mut gate);
    assert_eq!(plan.status, CKR_OK);
    assert_eq!(plan.redirect, Some(Redirect { source: 6, target: 2 }));
    assert_eq!(gate.saved_descriptor(), None);
}

#[test]
fn initialize_without_discard_destination_mutes_nothing() {
    let mut gate = SessionGate::new();
    let env = environment(Escalation::Absent, Some("/home/u"), None);
    let plan = CK_C_Initialize(&mut gate, &env, None);
    assert_eq!(plan.status, CKR_OK);
    assert_eq!(plan.redirect, None);
    assert_eq!(gate.saved_descriptor(), None);
    assert_eq!(CK_C_Finalize(&mut gate).redirect, None);
}

#[test]
fn initialize_with_failed_duplication_mutes_nothing() {
    let mut gate = SessionGate::new();
    let env = environment(Escalation::Absent, Some("/home/u"), None);
    let plan = CK_C_Initialize(&mut gate, &env, Some(Muting { discard: 5, duplicate: -1 }));
    assert_eq!(plan.status, CKR_OK);
    assert_eq!(plan.redirect, None);
    assert_eq!(gate.saved_descriptor(), None);
}

#[test]
fn finalize_without_initialize_does_nothing() {
    let mut gate = SessionGate::new();
    let plan = CK_C_Finalize(&mut gate);
    assert_eq!(plan.status, CKR_OK);
    assert_eq!(plan.redirect, None);
}

#[test]
fn three_cycles_behave_alike() {
    let mut gate = SessionGate::new();
    let env = environment(Escalation::Absent, Some("/home/u"), Some("/tmp/agent.sock"));
    for _ in 0..3 {
        assert_eq!(gate.saved_descriptor(), None);
        let plan = CK_C_Initialize(&mut gate, &env, Some(Muting { discard: 5, duplicate: 6 }));
        assert_eq!(plan.redirect, Some(Redirect { source: 5, target: 2 }));
        assert_eq!(gate.saved_descriptor(), Some(6));
        let plan = CK_C_Finalize(&mut gate);
        assert_eq!(plan.redirect, Some(Redirect { source: 6, target: 2 }));
        assert_eq!(gate.saved_descriptor(), None);
    }
}

#[test]
fn cycles_do_not_touch_the_handle_counter() {
    let mut gate = SessionGate::new();
    let env = environment(Escalation::Absent, None, None);
    assert_eq!(CK_C_OpenSession(&mut gate, 1, 4), Ok(1));
    CK_C_Initialize(&mut gate, &env, Some(Muting { discard: 5, duplicate: 6 }));
    assert_eq!(CK_C_OpenSession(&mut gate, 1, 4), Ok(2));
    CK_C_Finalize(&mut gate);
    assert_eq!(CK_C_OpenSession(&mut gate, 1, 4), Ok(3));
    assert_eq!(gate.saved_descriptor(), None);
}
