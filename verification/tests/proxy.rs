use upgradeable_proxy::{
    AccountId, Delegation, Error, Proxy, ProxyOrLogic, Storage, PROXY_ROOT_KEY,
};

fn id(byte: u8) -> AccountId {
    AccountId::new([byte; 32])
}

fn root_of(admin: u8, implementation: u8, value: [u8; 4]) -> Vec<u8> {
    let mut bytes = vec![admin; 32];
    bytes.extend_from_slice(&[implementation; 32]);
    bytes.extend_from_slice(&value);
    bytes
}

#[test]
fn a_new_proxy_holds_what_it_was_given() {
    let proxy = Proxy::new(id(1), id(9));
    assert_eq!(proxy.admin(), id(1));
    assert_eq!(proxy.implementation(), id(9));
    assert_eq!(proxy.get(id(1)), ProxyOrLogic::Proxy(0));
}

#[test]
fn a_placeholder_admin_is_accepted_at_construction() {
    let proxy = Proxy::new(id(0), id(9));
    assert_eq!(proxy.admin(), AccountId::new([0u8; 32]));
}

#[test]
fn the_admin_upgrades() {
    let mut proxy = Proxy::new(id(1), id(9));
    assert_eq!(proxy.upgrade_to(id(1), id(10)), Ok(()));
    assert_eq!(proxy.implementation(), id(10));
    assert_eq!(proxy.admin(), id(1));
    assert_eq!(proxy.get(id(1)), ProxyOrLogic::Proxy(0));
}

#[test]
fn nobody_else_upgrades() {
    let mut proxy = Proxy::new(id(1), id(9));
    assert_eq!(proxy.upgrade_to(id(2), id(10)), Err(Error::UnauthorizedCaller));
    assert_eq!(proxy.implementation(), id(9));
    assert_eq!(proxy, Proxy::new(id(1), id(9)));
}

#[test]
fn an_upgrade_to_the_same_code_changes_nothing() {
    let mut proxy = Proxy::new(id(1), id(9));
    assert_eq!(proxy.upgrade_to(id(1), id(9)), Ok(()));
    assert_eq!(proxy, Proxy::new(id(1), id(9)));
}

#[test]
fn the_admin_reads_and_writes_the_value_of_the_proxy() {
    let mut proxy = Proxy::new(id(1), id(9));
    assert_eq!(proxy.set(id(1), 41), ProxyOrLogic::Proxy(()));
    assert_eq!(proxy.get(id(1)), ProxyOrLogic::Proxy(41));
    assert_eq!(proxy.set(id(1), u32::MAX), ProxyOrLogic::Proxy(()));
    assert_eq!(proxy.get(id(1)), ProxyOrLogic::Proxy(u32::MAX));
}

#[test]
fn anyone_else_is_sent_to_the_logic_for_the_value() {
    let mut proxy = Proxy::new(id(1), id(9));
    assert_eq!(proxy.set(id(1), 41), ProxyOrLogic::Proxy(()));
    assert_eq!(proxy.get(id(2)), ProxyOrLogic::Logic);
    assert_eq!(proxy.set(id(2), 7), ProxyOrLogic::Logic);
    assert_eq!(proxy.get(id(1)), ProxyOrLogic::Proxy(41));
}

#[test]
fn the_fallback_refuses_the_admin() {
    let proxy = Proxy::new(id(1), id(9));
    assert_eq!(proxy.fallback(id(1)), Err(Error::AdminAttemptedToProxy));
}

#[test]
fn the_fallback_delegates_for_anyone_else() {
    let proxy = Proxy::new(id(1), id(9));
    assert_eq!(
        proxy.fallback(id(2)),
        Ok(Delegation { implementation: id(9), forward_input: true, tail_return: false })
    );
}

#[test]
fn the_fallback_delegates_to_the_code_of_the_last_upgrade() {
    let mut proxy = Proxy::new(id(1), id(9));
    assert_eq!(proxy.upgrade_to(id(1), id(10)), Ok(()));
    let delegation = proxy.fallback(id(2)).unwrap();
    assert_eq!(delegation.implementation, id(10));
    assert!(delegation.forward_input);
    assert!(!delegation.tail_return);
}

#[test]
fn whoever_is_sent_to_the_logic_passes_the_fallback() {
    let proxy = Proxy::new(id(1), id(9));
    for byte in [0u8, 2, 3, 255] {
        assert_eq!(proxy.get(id(byte)), ProxyOrLogic::Logic);
        assert!(proxy.fallback(id(byte)).is_ok());
    }
}

#[test]
fn the_image_is_admin_then_implementation_then_value() {
    let mut proxy = Proxy::new(id(1), id(9));
    proxy.set(id(1), 0x1234_5678);
    assert_eq!(proxy.image(), root_of(1, 9, [0x78, 0x56, 0x34, 0x12]));
    assert_eq!(proxy.image().len(), 68);
}

#[test]
fn the_image_of_a_small_value_is_not_the_value_itself() {
    let mut proxy = Proxy::new(id(1), id(9));
    proxy.set(id(1), 258);
    assert_eq!(&proxy.image()[64..], &[2, 1, 0, 0]);
}

#[test]
fn commit_writes_the_root_cell_and_no_other() {
    let mut storage = Storage::new();
    storage.set(5, vec![1, 2, 3]);
    let proxy = Proxy::new(id(1), id(9));
    proxy.commit(&mut storage);
    assert_eq!(storage.get(PROXY_ROOT_KEY), Some(&root_of(1, 9, [0, 0, 0, 0])));
    assert_eq!(storage.get(5), Some(&vec![1, 2, 3]));
    assert!(!storage.contains(6));
}

#[test]
fn a_proxy_is_loaded_as_it_was_committed() {
    let mut storage = Storage::new();
    let mut proxy = Proxy::new(id(1), id(9));
    proxy.set(id(1), 77);
    proxy.upgrade_to(id(1), id(10)).unwrap();
    proxy.commit(&mut storage);
    assert_eq!(Proxy::load(&storage), Some(proxy));
}

#[test]
fn nothing_is_loaded_from_storage_without_a_root_cell() {
    let mut storage = Storage::new();
    assert_eq!(Proxy::load(&storage), None);
    storage.set(5, root_of(1, 9, [0, 0, 0, 0]));
    assert_eq!(Proxy::load(&storage), None);
}

#[test]
fn nothing_is_loaded_from_a_root_cell_that_is_too_short() {
    let mut storage = Storage::new();
    let mut bytes = root_of(1, 9, [0, 0, 0, 0]);
    bytes.pop();
    storage.set(PROXY_ROOT_KEY, bytes);
    assert_eq!(Proxy::load(&storage), None);
    storage.set(PROXY_ROOT_KEY, Vec::new());
    assert_eq!(Proxy::load(&storage), None);
}

#[test]
fn what_follows_the_fields_in_the_root_cell_is_not_read() {
    let mut storage = Storage::new();
    let mut bytes = root_of(1, 9, [5, 0, 0, 0]);
    bytes.push(0xff);
    storage.set(PROXY_ROOT_KEY, bytes);
    let proxy = Proxy::load(&storage).unwrap();
    assert_eq!(proxy.admin(), id(1));
    assert_eq!(proxy.implementation(), id(9));
    assert_eq!(proxy.get(id(1)), ProxyOrLogic::Proxy(5));
}

#[test]
fn conclude_commits_where_control_comes_back() {
    let mut storage = Storage::new();
    let proxy = Proxy::new(id(1), id(9));
    let delegation = proxy.fallback(id(2)).unwrap();
    proxy.conclude(&delegation, &mut storage);
    assert_eq!(storage.get(PROXY_ROOT_KEY), Some(&root_of(1, 9, [0, 0, 0, 0])));
}

#[test]
fn conclude_writes_nothing_after_a_tail_return() {
    let mut storage = Storage::new();
    let proxy = Proxy::new(id(1), id(9));
    let delegation = Delegation { implementation: id(9), forward_input: true, tail_return: true };
    proxy.conclude(&delegation, &mut storage);
    assert!(!storage.contains(PROXY_ROOT_KEY));
}
