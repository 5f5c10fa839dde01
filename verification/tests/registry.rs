use multisynq::address::Address;
use multisynq::error::ExchangeError;
use multisynq::registry::{
    create_session, initialize_synchronizer, Record, Registry, SESSION_SPACE, SYNCHRONIZER_SPACE,
};

fn addr(fill: u8) -> Address {
    Address::new([fill; 32])
}

#[test]
fn synchronizer_record_is_active_and_owned_by_requester() {
    let mut reg = Registry::new();
    let sync_addr = addr(1);
    let owner = addr(2);
    let location = [9u8; 32];
    let r = initialize_synchronizer(&mut reg, sync_addr, owner, location, 5000);
    assert_eq!(r, Ok(()));
    assert_eq!(reg.count(), 1);
    match reg.get_record(&sync_addr) {
        Some(Record::Synchronizer(s)) => {
            assert!(s.is_active);
            assert!(s.owner.equals(&owner));
            assert_eq!(s.location, location);
        },
        _ => panic!("expected a synchronizer record"),
    }
}

#[test]
fn synchronizer_allocation_needs_funded_payer() {
    let mut reg = Registry::new();
    let r = initialize_synchronizer(
        &mut reg,
        addr(1),
        addr(2),
        [0u8; 32],
        (SYNCHRONIZER_SPACE - 1) as u64,
    );
    assert_eq!(r, Err(ExchangeError::ResourceExhaustion));
    assert_eq!(reg.count(), 0);
}

#[test]
fn synchronizer_allocation_refuses_occupied_address() {
    let mut reg = Registry::new();
    let sync_addr = addr(1);
    assert_eq!(initialize_synchronizer(&mut reg, sync_addr, addr(2), [0u8; 32], 5000), Ok(()));
    let r = initialize_synchronizer(&mut reg, sync_addr, addr(3), [1u8; 32], 5000);
    assert_eq!(r, Err(ExchangeError::ResourceExhaustion));
    assert_eq!(reg.count(), 1);
}

#[test]
fn session_links_to_existing_synchronizer() {
    let mut reg = Registry::new();
    let sync_addr = addr(1);
    assert_eq!(initialize_synchronizer(&mut reg, sync_addr, addr(2), [0u8; 32], 5000), Ok(()));
    let sess_addr = addr(3);
    let r = create_session(&mut reg, sess_addr, String::from("game-42"), sync_addr, 5000);
    assert_eq!(r, Ok(()));
    assert_eq!(reg.count(), 2);
    match reg.get_record(&sess_addr) {
        Some(Record::Session(s)) => {
            assert!(s.is_active);
            assert_eq!(s.id, "game-42");
            assert!(s.synchronizer.equals(&sync_addr));
        },
        _ => panic!("expected a session record"),
    }
}

#[test]
fn session_with_unresolved_synchronizer_creates_no_record() {
    let mut reg = Registry::new();
    let r = create_session(&mut reg, addr(3), String::from("game-42"), addr(1), 5000);
    assert_eq!(r, Err(ExchangeError::UnresolvedReference));
    assert_eq!(reg.count(), 0);
    assert!(reg.get_record(&addr(3)).is_none());
}

#[test]
fn session_reference_to_another_session_is_unresolved() {
    let mut reg = Registry::new();
    let sync_addr = addr(1);
    assert_eq!(initialize_synchronizer(&mut reg, sync_addr, addr(2), [0u8; 32], 5000), Ok(()));
    let first = addr(3);
    assert_eq!(create_session(&mut reg, first, String::from("a"), sync_addr, 5000), Ok(()));
    // a session record does not resolve as a synchronizer
    let r = create_session(&mut reg, addr(4), String::from("b"), first, 5000);
    assert_eq!(r, Err(ExchangeError::UnresolvedReference));
    assert_eq!(reg.count(), 2);
}

#[test]
fn session_allocation_needs_funded_payer() {
    let mut reg = Registry::new();
    let sync_addr = addr(1);
    assert_eq!(initialize_synchronizer(&mut reg, sync_addr, addr(2), [0u8; 32], 5000), Ok(()));
    let r = create_session(
        &mut reg,
        addr(3),
        String::from("game-42"),
        sync_addr,
        (SESSION_SPACE - 1) as u64,
    );
    assert_eq!(r, Err(ExchangeError::ResourceExhaustion));
    assert_eq!(reg.count(), 1);
}

#[test]
fn duplicate_session_ids_are_permitted_at_distinct_addresses() {
    let mut reg = Registry::new();
    let sync_addr = addr(1);
    assert_eq!(initialize_synchronizer(&mut reg, sync_addr, addr(2), [0u8; 32], 5000), Ok(()));
    assert_eq!(create_session(&mut reg, addr(3), String::from("same"), sync_addr, 5000), Ok(()));
    assert_eq!(create_session(&mut reg, addr(4), String::from("same"), sync_addr, 5000), Ok(()));
    assert_eq!(reg.count(), 3);
}

#[test]
fn session_allocation_refuses_occupied_address() {
    let mut reg = Registry::new();
    let sync_addr = addr(1);
    assert_eq!(initialize_synchronizer(&mut reg, sync_addr, addr(2), [0u8; 32], 5000), Ok(()));
    let r = create_session(&mut reg, sync_addr, String::from("x"), sync_addr, 5000);
    assert_eq!(r, Err(ExchangeError::ResourceExhaustion));
    assert_eq!(reg.count(), 1);
}

#[test]
fn earlier_records_survive_later_creations() {
    let mut reg = Registry::new();
    let sync_addr = addr(1);
    let owner = addr(2);
    let location = [6u8; 32];
    assert_eq!(initialize_synchronizer(&mut reg, sync_addr, owner, location, 5000), Ok(()));
    assert_eq!(create_session(&mut reg, addr(3), String::from("a"), sync_addr, 5000), Ok(()));
    assert_eq!(initialize_synchronizer(&mut reg, addr(4), addr(5), [8u8; 32], 5000), Ok(()));
    match reg.get_record(&sync_addr) {
        Some(Record::Synchronizer(s)) => {
            assert!(s.owner.equals(&owner));
            assert_eq!(s.location, location);
            assert!(s.is_active);
        },
        _ => panic!("expected the first synchronizer record"),
    }
}

#[test]
fn record_sizes_reserve_headroom() {
    // identity + tag + flag plus the deliberate headroom
    assert_eq!(SYNCHRONIZER_SPACE, 8 + 32 + 32 + 1 + 1000);
    assert_eq!(SESSION_SPACE, 8 + 64 + 32 + 1);
}

#[test]
fn resolve_synchronizer_finds_only_synchronizers() {
    let mut reg = Registry::new();
    let sync_addr = addr(1);
    assert_eq!(initialize_synchronizer(&mut reg, sync_addr, addr(2), [0u8; 32], 5000), Ok(()));
    let sess_addr = addr(3);
    assert_eq!(create_session(&mut reg, sess_addr, String::from("s"), sync_addr, 5000), Ok(()));
    assert!(reg.resolve_synchronizer(&sync_addr).is_some());
    assert!(reg.resolve_synchronizer(&sess_addr).is_none());
    assert!(reg.resolve_synchronizer(&addr(5)).is_none());
    assert!(reg.contains(&sess_addr));
    assert!(!reg.contains(&addr(5)));
}
