use libcoap::error::SessionLifetimeError;
use libcoap::session::{
    CoapServerSession, CoapSessionKind, NativeSession, SessionShare, SessionTable,
};

fn native(kind: CoapSessionKind) -> NativeSession {
    NativeSession {
        kind,
        ref_count: 1,
        app_data: None,
        if_index: 2,
        addr_local: 100,
        addr_remote: 200,
    }
}

fn table_with(kind: CoapSessionKind) -> SessionTable {
    SessionTable {
        sessions: vec![native(kind)],
        shares: Vec::new(),
    }
}

#[test]
fn initialize_installs_back_reference_and_counts() {
    let mut t = table_with(CoapSessionKind::Server);
    let h = CoapServerSession::initialize(&mut t, 0).unwrap();
    assert_eq!(t.sessions[0].ref_count, 2);
    assert_eq!(t.sessions[0].app_data, Some(0));
    assert_eq!(t.shares[0].strong, 1);
    assert_eq!(t.shares[0].session, 0);
    drop(h);
}

#[test]
fn handle_lifetime_restores_the_prior_state() {
    let mut t = table_with(CoapSessionKind::Server);
    let before = t.sessions[0].ref_count;
    let h = CoapServerSession::initialize(&mut t, 0).unwrap();
    h.release(&mut t);
    assert_eq!(t.sessions[0].ref_count, before);
    assert_eq!(t.sessions[0].app_data, None);
}

#[test]
fn initialize_rejects_wrong_session_kinds() {
    let mut t = table_with(CoapSessionKind::Client);
    assert_eq!(
        CoapServerSession::initialize(&mut t, 0).unwrap_err(),
        SessionLifetimeError::WrongSessionType
    );
    let mut t = table_with(CoapSessionKind::Unset);
    assert_eq!(
        CoapServerSession::initialize(&mut t, 0).unwrap_err(),
        SessionLifetimeError::WrongSessionType
    );
    // A transitional server session is acceptable.
    let mut t = table_with(CoapSessionKind::Hello);
    assert!(CoapServerSession::initialize(&mut t, 0).is_ok());
}

#[test]
fn double_initialize_is_a_fatal_lifetime_error() {
    let mut t = table_with(CoapSessionKind::Server);
    let _h = CoapServerSession::initialize(&mut t, 0).unwrap();
    assert_eq!(
        CoapServerSession::initialize(&mut t, 0).unwrap_err(),
        SessionLifetimeError::BackReferenceAlreadyInstalled
    );
}

#[test]
fn recover_fails_on_a_null_back_reference() {
    let mut t = table_with(CoapSessionKind::Server);
    assert_eq!(
        CoapServerSession::recover(&mut t, 0).unwrap_err(),
        SessionLifetimeError::MissingBackReference
    );
    // The failed recovery changed neither counting domain.
    assert_eq!(t.sessions[0].ref_count, 1);
    assert!(t.shares.is_empty());
}

#[test]
fn recover_counts_in_both_domains() {
    let mut t = table_with(CoapSessionKind::Server);
    let h1 = CoapServerSession::initialize(&mut t, 0).unwrap();
    let h2 = CoapServerSession::recover(&mut t, 0).unwrap();
    assert_eq!(t.sessions[0].ref_count, 3);
    assert_eq!(t.shares[0].strong, 2);
    // Releasing one handle keeps the back-reference installed.
    h1.release(&mut t);
    assert_eq!(t.sessions[0].ref_count, 2);
    assert_eq!(t.shares[0].strong, 1);
    assert_eq!(t.sessions[0].app_data, Some(0));
    // Releasing the last one tears it down.
    h2.release(&mut t);
    assert_eq!(t.sessions[0].ref_count, 1);
    assert_eq!(t.sessions[0].app_data, None);
}

#[test]
fn handles_on_the_same_session_are_equal() {
    let mut t = SessionTable {
        sessions: vec![
            native(CoapSessionKind::Server),
            NativeSession {
                kind: CoapSessionKind::Server,
                ref_count: 1,
                app_data: None,
                if_index: 2,
                addr_local: 100,
                addr_remote: 201,
            },
        ],
        shares: Vec::new(),
    };
    let a = CoapServerSession::initialize(&mut t, 0).unwrap();
    let b = CoapServerSession::recover(&mut t, 0).unwrap();
    let c = CoapServerSession::initialize(&mut t, 1).unwrap();
    assert!(a.handle_eq(&b, &t));
    assert!(!a.handle_eq(&c, &t));
}
