use locker::address::ADDRESS_LENGTH;
use locker::amount::ATTOS_PER_UNIT;
use locker::asset::{all_distinct, copy_units};
use locker::error::{check_gate, not_yet_unlockable_message};
use locker::receipt::{RECEIPT_DESCRIPTION, RECEIPT_NAME};
use locker::time::is_gate_open;
use locker::{
    AssetContainer, Decimal, EventLock, EventUnlock, IdentifierAllocator, Instant, LockContents,
    LockReceipt, LockerError, ReceiptIssuer, ResourceAddress, VaultRegistry,
};

fn address(tag: u8) -> ResourceAddress {
    let mut node_id = [0u8; 30];
    node_id[0] = 93;
    node_id[29] = tag;
    ResourceAddress::new(node_id)
}

fn receipt_for(resource: ResourceAddress, unlockable_at: Option<Instant>) -> LockReceipt {
    LockReceipt::new(
        "n".to_string(),
        "d".to_string(),
        "u".to_string(),
        resource,
        LockContents::Fungible(Decimal::whole(1)),
        Instant::new(5),
        unlockable_at,
    )
}

#[test]
fn instant_add_seconds_is_checked() {
    assert_eq!(Instant::new(10).add_seconds(5), Some(Instant::new(15)));
    assert_eq!(Instant::new(10).add_seconds(-25), Some(Instant::new(-15)));
    assert_eq!(Instant::new(i64::MAX).add_seconds(1), None);
    assert_eq!(Instant::new(i64::MIN).add_seconds(-1), None);
    assert_eq!(Instant::new(i64::MAX - 1).add_seconds(1), Some(Instant::new(i64::MAX)));
    assert_eq!(Instant::new(7).seconds_since_unix_epoch, 7);
}

#[test]
fn instant_matches_the_ledger_instant() {
    let ours = Instant::new(1_700_000_000).add_seconds(2).unwrap();
    let theirs = scrypto::prelude::Instant::new(1_700_000_000).add_seconds(2).unwrap();
    assert_eq!(ours.seconds_since_unix_epoch, theirs.seconds_since_unix_epoch);
    assert_eq!(
        Instant::new(i64::MAX).add_seconds(1).is_none(),
        scrypto::prelude::Instant::new(i64::MAX).add_seconds(1).is_none()
    );
}

#[test]
fn instant_order() {
    assert!(Instant::new(5).is_at_or_after(Instant::new(5)));
    assert!(Instant::new(6).is_at_or_after(Instant::new(5)));
    assert!(!Instant::new(4).is_at_or_after(Instant::new(5)));
    assert!(Instant::new(-1).is_at_or_after(Instant::new(-2)));
}

#[test]
fn gate_opens_at_the_unlock_time() {
    assert!(!is_gate_open(None, Instant::new(i64::MAX)));
    assert!(!is_gate_open(Some(Instant::new(10)), Instant::new(9)));
    assert!(is_gate_open(Some(Instant::new(10)), Instant::new(10)));
    assert!(is_gate_open(Some(Instant::new(10)), Instant::new(11)));
    assert_eq!(check_gate(Some(Instant::new(10)), Instant::new(10)), None);
    assert_eq!(
        check_gate(Some(Instant::new(10)), Instant::new(9)),
        Some(LockerError::NotYetUnlockable { unlockable_at: Some(Instant::new(10)) })
    );
    assert_eq!(
        check_gate(None, Instant::new(9)),
        Some(LockerError::NotYetUnlockable { unlockable_at: None })
    );
}

#[test]
fn decimal_whole_units() {
    assert_eq!(ATTOS_PER_UNIT, 1_000_000_000_000_000_000);
    let hundred = Decimal::whole(100);
    assert_eq!(hundred.attos_high, 0);
    assert_eq!(hundred.attos_low, 100_000_000_000_000_000_000);
    assert_eq!(Decimal::whole(0), Decimal::zero());
    let most = Decimal::whole(u64::MAX);
    assert_eq!(most.attos_high, 0);
    assert_eq!(most.attos_low, 18_446_744_073_709_551_615_000_000_000_000_000_000);
}

#[test]
fn decimal_zero() {
    assert!(Decimal::zero().is_zero());
    assert!(!Decimal::whole(1).is_zero());
    assert!(!Decimal { attos_high: -1, attos_low: 0 }.is_zero());
    assert!(!Decimal { attos_high: 0, attos_low: 1 }.is_zero());
    assert_eq!(Decimal::zero(), Decimal { attos_high: 0, attos_low: 0 });
}

#[test]
fn decimal_matches_the_ledger_decimal() {
    let ours = Decimal::whole(100);
    let theirs = scrypto::prelude::Decimal::from(100u64).to_vec();
    assert_eq!(theirs.len(), 24);
    assert_eq!(&ours.attos_low.to_le_bytes()[..], &theirs[..16]);
    assert_eq!(&ours.attos_high.to_le_bytes()[..], &theirs[16..]);
    let zero = scrypto::prelude::Decimal::from(0u64).to_vec();
    assert_eq!(&Decimal::zero().attos_low.to_le_bytes()[..], &zero[..16]);
    assert_eq!(&Decimal::zero().attos_high.to_le_bytes()[..], &zero[16..]);
}

#[test]
fn address_equality_is_by_bytes() {
    assert_eq!(ADDRESS_LENGTH, 30);
    assert_eq!(address(1), address(1));
    assert_ne!(address(1), address(2));
    let mut first = [7u8; 30];
    let same = ResourceAddress::new(first);
    first[0] = 8;
    assert_ne!(ResourceAddress::new(first), same);
    assert_eq!(same.node_id, [7u8; 30]);
}

#[test]
fn address_has_the_length_of_a_ledger_address() {
    let bytes = address(9).node_id;
    let theirs = scrypto::prelude::ResourceAddress::new_or_panic(bytes);
    assert_eq!(theirs.as_bytes(), &bytes[..]);
}

#[test]
fn fungible_container() {
    let mut container = AssetContainer::fungible(address(3), Decimal::whole(4));
    assert_eq!(container.resource_address(), address(3));
    assert!(!container.is_empty());
    assert_eq!(container.classify(), LockContents::Fungible(Decimal::whole(4)));

    let taken = container.take_all();

    assert_eq!(taken.resource_address(), address(3));
    assert_eq!(taken.classify(), LockContents::Fungible(Decimal::whole(4)));
    assert!(container.is_empty());
    assert_eq!(container.resource_address(), address(3));
    assert_eq!(container.classify(), LockContents::Fungible(Decimal::zero()));
    // taking again gives an empty container
    let again = container.take_all();
    assert!(again.is_empty());
    assert_eq!(again.classify(), LockContents::Fungible(Decimal::zero()));
}

#[test]
fn non_fungible_container() {
    let units = vec!["#1#".to_string(), "#2#".to_string(), "<a>".to_string()];
    let mut container = AssetContainer::non_fungible(address(4), units.clone()).unwrap();
    assert!(!container.is_empty());
    assert_eq!(container.classify(), LockContents::NonFungible(units.clone()));

    let taken = container.take_all();

    assert_eq!(taken.classify(), LockContents::NonFungible(units));
    assert!(container.is_empty());
    assert_eq!(container.classify(), LockContents::NonFungible(Vec::new()));
}

#[test]
fn non_fungible_container_refuses_a_unit_named_twice() {
    let twice = vec!["#1#".to_string(), "#2#".to_string(), "#1#".to_string()];
    assert!(AssetContainer::non_fungible(address(4), twice).is_none());
    let adjacent = vec!["#2#".to_string(), "#2#".to_string()];
    assert!(AssetContainer::non_fungible(address(4), adjacent).is_none());
    assert!(AssetContainer::non_fungible(address(4), Vec::new()).unwrap().is_empty());
    assert!(AssetContainer::non_fungible(address(4), vec!["#1#".to_string()]).is_some());
}

#[test]
fn lock_contents_emptiness() {
    assert!(LockContents::Fungible(Decimal::zero()).is_empty());
    assert!(!LockContents::Fungible(Decimal::whole(1)).is_empty());
    assert!(LockContents::NonFungible(Vec::new()).is_empty());
    assert!(!LockContents::NonFungible(vec!["#1#".to_string()]).is_empty());
    assert_eq!(
        LockContents::Fungible(Decimal::whole(1)).emptied(),
        LockContents::Fungible(Decimal::zero())
    );
    assert_eq!(
        LockContents::NonFungible(vec!["#1#".to_string()]).emptied(),
        LockContents::NonFungible(Vec::new())
    );
    let contents = LockContents::NonFungible(vec!["#1#".to_string(), "#2#".to_string()]);
    assert_eq!(contents.clone(), contents);
}

#[test]
fn allocator_counts_up() {
    let mut allocator = IdentifierAllocator::new();
    assert_eq!(allocator.peek(), 0);
    assert_eq!(allocator.next(), 0);
    assert_eq!(allocator.next(), 1);
    assert_eq!(allocator.next(), 2);
    assert_eq!(allocator.peek(), 3);
    let mut resumed = IdentifierAllocator::starting_at(41);
    assert_eq!(resumed.next(), 41);
    assert_eq!(resumed.peek(), 42);
}

#[test]
fn vault_registry_keeps_emptied_vaults() {
    let mut registry = VaultRegistry::new();
    assert!(!registry.contains(0));
    assert!(registry.take_all(0).is_none());
    registry.insert(0, AssetContainer::fungible(address(3), Decimal::whole(4)));
    registry.insert(5, AssetContainer::fungible(address(4), Decimal::whole(6)));
    assert!(registry.contains(0));
    assert!(registry.contains(5));
    assert!(!registry.contains(1));
    assert_eq!(registry.contents_of(0), Some(LockContents::Fungible(Decimal::whole(4))));
    assert_eq!(registry.contents_of(1), None);

    let taken = registry.take_all(0).unwrap();

    assert_eq!(taken.resource_address(), address(3));
    assert_eq!(taken.classify(), LockContents::Fungible(Decimal::whole(4)));
    assert!(registry.contains(0));
    assert_eq!(registry.contents_of(0), Some(LockContents::Fungible(Decimal::zero())));
    assert_eq!(registry.contents_of(5), Some(LockContents::Fungible(Decimal::whole(6))));
    let again = registry.take_all(0).unwrap();
    assert!(again.is_empty());
    assert_eq!(again.resource_address(), address(3));
}

#[test]
fn issuer_mints_and_updates() {
    let mut issuer =
        ReceiptIssuer::new(address(2), address(1), "info".to_string(), "icon".to_string());
    assert_eq!(issuer.resource_address(), address(2));
    assert_eq!(issuer.owner_resource(), address(1));
    assert_eq!(issuer.name(), "LockReceipt");
    assert_eq!(issuer.description(), "Don't trust, verify.");
    assert_eq!(RECEIPT_NAME, "LockReceipt");
    assert_eq!(RECEIPT_DESCRIPTION, "Don't trust, verify.");
    assert_eq!(issuer.info_url(), "info");
    assert_eq!(issuer.icon_url(), "icon");
    assert!(!issuer.has_receipt(3));
    assert!(!issuer.update_unlocked_at(3, Instant::new(9)));

    let token = issuer.mint(3, receipt_for(address(4), Some(Instant::new(6))));

    assert_eq!(token.resource_address(), address(2));
    assert_eq!(token.local_id(), 3);
    assert_eq!(ReceiptIssuer::identifier_of(&token), 3);
    assert!(issuer.is_own(&token));
    assert!(issuer.has_receipt(3));
    assert_eq!(issuer.read_data(&token), Some(receipt_for(address(4), Some(Instant::new(6)))));
    assert_eq!(issuer.data_of(4), None);

    assert!(issuer.update_unlocked_at(3, Instant::new(9)));

    let mut expected = receipt_for(address(4), Some(Instant::new(6)));
    expected.unlocked_at = Some(Instant::new(9));
    assert_eq!(issuer.read_data(&token), Some(expected));
}

#[test]
fn issuer_does_not_read_foreign_tokens() {
    let mut issuer =
        ReceiptIssuer::new(address(2), address(1), "info".to_string(), "icon".to_string());
    let mut other =
        ReceiptIssuer::new(address(7), address(1), "info".to_string(), "icon".to_string());
    let _own = issuer.mint(0, receipt_for(address(4), None));
    let foreign = other.mint(0, receipt_for(address(4), None));
    assert!(!issuer.is_own(&foreign));
    assert_eq!(issuer.read_data(&foreign), None);
    assert!(other.read_data(&foreign).is_some());
}

#[test]
fn new_receipt_is_not_redeemed() {
    let receipt = receipt_for(address(4), Some(Instant::new(6)));
    assert_eq!(receipt.name, "n");
    assert_eq!(receipt.description, "d");
    assert_eq!(receipt.key_image_url, "u");
    assert_eq!(receipt.resource, address(4));
    assert_eq!(receipt.locked_contents, LockContents::Fungible(Decimal::whole(1)));
    assert_eq!(receipt.locked_at, Instant::new(5));
    assert_eq!(receipt.unlockable_at, Some(Instant::new(6)));
    assert_eq!(receipt.unlocked_at, None);
    assert_eq!(receipt.clone(), receipt);
}

#[test]
fn events_copy_the_receipt() {
    let receipt = receipt_for(address(4), Some(Instant::new(6)));
    let lock = EventLock::of(8, &receipt);
    assert_eq!(
        lock,
        EventLock {
            lock_id: 8,
            resource: address(4),
            locked_contents: LockContents::Fungible(Decimal::whole(1)),
            locked_at: Instant::new(5),
            unlockable_at: Some(Instant::new(6)),
        }
    );
    let unlock = EventUnlock::of(8, &receipt, Instant::new(7));
    assert_eq!(
        unlock,
        EventUnlock {
            lock_id: 8,
            resource: address(4),
            locked_contents: LockContents::Fungible(Decimal::whole(1)),
            locked_at: Instant::new(5),
            unlockable_at: Some(Instant::new(6)),
            unlocked_at: Instant::new(7),
        }
    );
    assert_eq!(lock.clone(), lock);
    assert_eq!(unlock.clone(), unlock);
}

#[test]
fn error_messages() {
    assert_eq!(LockerError::InvalidLockReceipts.message(), "Invalid lock receipts.");
    assert_eq!(
        LockerError::NotYetUnlockable { unlockable_at: None }.message(),
        "Item can not yet be unlocked, unlockable at: None"
    );
    assert_eq!(
        LockerError::NotYetUnlockable { unlockable_at: Some(Instant::new(1)) }.message(),
        "Item can not yet be unlocked, unlockable at: Some(Instant { seconds_since_unix_epoch: 1 })"
    );
    assert_eq!(
        LockerError::NotYetUnlockable { unlockable_at: Some(Instant::new(-7)) }.message(),
        "Item can not yet be unlocked, unlockable at: Some(Instant { seconds_since_unix_epoch: -7 })"
    );
    assert_eq!(
        LockerError::InternalConsistency { lock_id: 4 }.message(),
        "Lock receipt without a vault."
    );
    assert_eq!(
        not_yet_unlockable_message("soon"),
        "Item can not yet be unlocked, unlockable at: soon"
    );
}

#[test]
fn not_yet_unlockable_message_echoes_the_ledger_form() {
    let at = Instant::new(1_700_000_001);
    let message = LockerError::NotYetUnlockable { unlockable_at: Some(at) }.message();
    let expected = format!(
        "Item can not yet be unlocked, unlockable at: {:?}",
        Some(scrypto::prelude::Instant::new(1_700_000_001))
    );
    assert_eq!(message, expected);
}

#[test]
fn units_are_copied_in_order() {
    let units = vec!["#2#".to_string(), "#1#".to_string(), "<b>".to_string()];
    assert_eq!(copy_units(&units), units);
    assert_eq!(copy_units(&Vec::new()), Vec::<String>::new());
}

#[test]
fn distinct_units_are_told_from_repeated_ones() {
    assert!(all_distinct(&Vec::new()));
    assert!(all_distinct(&vec!["#1#".to_string()]));
    assert!(all_distinct(&vec!["#1#".to_string(), "#2#".to_string(), "#3#".to_string()]));
    assert!(!all_distinct(&vec!["#1#".to_string(), "#2#".to_string(), "#1#".to_string()]));
    assert!(!all_distinct(&vec!["#1#".to_string(), "#2#".to_string(), "#2#".to_string()]));
}
