use credential_contract::{CredentialContract, CredentialError, CredentialStatus};

const ALL_STATUSES: [CredentialStatus; 3] = [
    CredentialStatus::Active,
    CredentialStatus::Revoked,
    CredentialStatus::Suspended,
];

#[test]
fn initialize_then_get_credential_info_round_trips() {
    for status in ALL_STATUSES {
        let mut c = CredentialContract::new();
        c.initialize(String::from("9f86d081884c7d65"), status);
        assert_eq!(
            c.get_credential_info(),
            Ok((String::from("9f86d081884c7d65"), status))
        );
        assert_eq!(c.get_hash(), Ok(String::from("9f86d081884c7d65")));
        assert_eq!(c.get_status(), Ok(status));
    }
}

#[test]
fn update_status_changes_status_and_keeps_hash() {
    for status in ALL_STATUSES {
        let mut c = CredentialContract::new();
        c.initialize(String::from("deadbeef"), CredentialStatus::Suspended);
        c.update_status(status);
        assert_eq!(c.get_status(), Ok(status));
        assert_eq!(c.get_hash(), Ok(String::from("deadbeef")));
    }
}

#[test]
fn reads_before_initialize_fail() {
    let c = CredentialContract::new();
    assert_eq!(c.get_hash(), Err(CredentialError::NotInitialized));
    assert_eq!(c.get_status(), Err(CredentialError::NotInitialized));
    assert_eq!(c.get_credential_info(), Err(CredentialError::NotInitialized));
}

#[test]
fn update_status_before_initialize_sets_status_only() {
    let mut c = CredentialContract::new();
    c.update_status(CredentialStatus::Revoked);
    assert_eq!(c.get_status(), Ok(CredentialStatus::Revoked));
    assert_eq!(c.get_hash(), Err(CredentialError::NotInitialized));
    assert_eq!(c.get_credential_info(), Err(CredentialError::NotInitialized));
}

#[test]
fn get_status_twice_returns_same_value() {
    let mut c = CredentialContract::new();
    c.initialize(String::from("0a0b"), CredentialStatus::Suspended);
    let first = c.get_status();
    let second = c.get_status();
    assert_eq!(first, second);
    assert_eq!(first, Ok(CredentialStatus::Suspended));
}

#[test]
fn reinitialize_overwrites_both_fields() {
    // initialize is not guarded: a second call replaces the record.
    let mut c = CredentialContract::new();
    c.initialize(String::from("first"), CredentialStatus::Active);
    c.update_status(CredentialStatus::Suspended);
    c.initialize(String::from("second"), CredentialStatus::Revoked);
    assert_eq!(c.get_hash(), Ok(String::from("second")));
    assert_eq!(c.get_status(), Ok(CredentialStatus::Revoked));
    assert_eq!(
        c.get_credential_info(),
        Ok((String::from("second"), CredentialStatus::Revoked))
    );
}

#[test]
fn initialize_update_and_read_scenario() {
    let mut c = CredentialContract::new();
    c.initialize(String::from("ab12ef"), CredentialStatus::Active);
    assert_eq!(c.get_hash(), Ok(String::from("ab12ef")));
    assert_eq!(c.get_status(), Ok(CredentialStatus::Active));
    c.update_status(CredentialStatus::Revoked);
    assert_eq!(c.get_status(), Ok(CredentialStatus::Revoked));
    assert_eq!(c.get_hash(), Ok(String::from("ab12ef")));
    assert_eq!(
        c.get_credential_info(),
        Ok((String::from("ab12ef"), CredentialStatus::Revoked))
    );
}

#[test]
fn fresh_get_hash_is_not_initialized() {
    let c = CredentialContract::new();
    assert_eq!(c.get_hash(), Err(CredentialError::NotInitialized));
}

#[test]
fn empty_hash_is_stored_as_given() {
    let mut c = CredentialContract::new();
    c.initialize(String::new(), CredentialStatus::Active);
    assert_eq!(c.get_hash(), Ok(String::new()));
}

#[test]
fn slots_round_trip() {
    let c = CredentialContract::from_slots(Some(String::from("cafe")), Some(CredentialStatus::Revoked));
    assert_eq!(c.get_credential_info(), Ok((String::from("cafe"), CredentialStatus::Revoked)));
    assert_eq!(
        c.into_slots(),
        (Some(String::from("cafe")), Some(CredentialStatus::Revoked))
    );
    let half = CredentialContract::from_slots(None, Some(CredentialStatus::Active));
    assert_eq!(half.get_status(), Ok(CredentialStatus::Active));
    assert_eq!(half.get_credential_info(), Err(CredentialError::NotInitialized));
    assert_eq!(CredentialContract::new().into_slots(), (None, None));
}
