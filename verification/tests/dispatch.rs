use upgradeable_proxy::{classify, AccountId, Classification, Error, Operation};

fn id(byte: u8) -> AccountId {
    AccountId::new([byte; 32])
}

#[test]
fn management_is_served_locally_for_the_admin() {
    let admin = id(1);
    assert_eq!(classify(&admin, &admin, Operation::ReadAdmin), Classification::ServedLocally);
    assert_eq!(
        classify(&admin, &admin, Operation::ReadImplementation),
        Classification::ServedLocally
    );
    assert_eq!(classify(&admin, &admin, Operation::UpgradeTo), Classification::ServedLocally);
}

#[test]
fn management_is_served_locally_for_anyone_else() {
    let admin = id(1);
    let other = id(2);
    assert_eq!(classify(&admin, &other, Operation::ReadAdmin), Classification::ServedLocally);
    assert_eq!(
        classify(&admin, &other, Operation::ReadImplementation),
        Classification::ServedLocally
    );
    assert_eq!(classify(&admin, &other, Operation::UpgradeTo), Classification::ServedLocally);
}

#[test]
fn the_admin_is_refused_what_would_be_forwarded() {
    let admin = id(1);
    assert_eq!(
        classify(&admin, &admin, Operation::Other),
        Classification::Rejected(Error::AdminAttemptedToProxy)
    );
}

#[test]
fn the_admin_reaches_the_value_of_the_proxy() {
    let admin = id(1);
    assert_eq!(classify(&admin, &admin, Operation::ReadValue), Classification::ServedLocally);
    assert_eq!(classify(&admin, &admin, Operation::WriteValue), Classification::ServedLocally);
}

#[test]
fn anyone_else_is_forwarded() {
    let admin = id(1);
    let other = id(2);
    assert_eq!(classify(&admin, &other, Operation::Other), Classification::Forwarded);
    assert_eq!(classify(&admin, &other, Operation::ReadValue), Classification::Forwarded);
    assert_eq!(classify(&admin, &other, Operation::WriteValue), Classification::Forwarded);
}

#[test]
fn identities_that_differ_in_their_last_byte_differ() {
    let mut bytes = [7u8; 32];
    let admin = AccountId::new(bytes);
    bytes[31] = 8;
    let almost = AccountId::new(bytes);
    assert_ne!(admin, almost);
    assert_eq!(classify(&admin, &almost, Operation::Other), Classification::Forwarded);
    assert_eq!(admin, AccountId::new([7u8; 32]));
    assert_eq!(almost.to_bytes()[31], 8);
    assert_eq!(almost.to_bytes()[0], 7);
}

#[test]
fn the_placeholder_identity_is_an_identity_like_any_other() {
    let zero = AccountId::new([0u8; 32]);
    assert_eq!(
        classify(&zero, &zero, Operation::Other),
        Classification::Rejected(Error::AdminAttemptedToProxy)
    );
    assert_eq!(classify(&zero, &id(1), Operation::Other), Classification::Forwarded);
}
