use mydropbox::ledger::InMemoryLedger;
use mydropbox::ledger::Ledger;
use mydropbox::registry::Pallet;
use mydropbox::types::Config;
use mydropbox::types::Error;
use mydropbox::types::Event;
use mydropbox::types::File;
use mydropbox::types::FileType;
use mydropbox::types::LedgerError;

fn config(max_files_uploaded: u32, cost_per_byte: u64, file_size_limit: u64) -> Config {
    Config {
        max_files_uploaded,
        cost_per_byte,
        file_size_limit,
    }
}

fn uploaded_id(r: Result<Event, Error>) -> u64 {
    match r {
        Ok(Event::Uploaded(_, id)) => id,
        other => panic!("expected an upload event, got {:?}", other),
    }
}

#[test]
fn new_registry_is_empty() {
    let p = Pallet::new(config(4, 2, 250));
    assert_eq!(p.accountant(), None);
    assert_eq!(p.all_files_count(), 0);
    assert_eq!(p.all_downloads_count(), 0);
    assert_eq!(p.get_file_details(7), None);
    assert!(p.get_user_file_details(7).is_empty());
    assert!(p.get_download_details(7).is_empty());
}

#[test]
fn upload_stores_record_and_indexes_owner() {
    let mut p = Pallet::new(config(4, 2, 250));
    let id = uploaded_id(p.upload_file(1, [9u8; 20], true, FileType::Normal, 10, 100));
    assert_eq!(p.all_files_count(), 1);
    assert_eq!(p.get_user_file_details(1), vec![id]);
    let record = p.get_file_details(id).expect("record must be stored");
    assert_eq!(record.owner, 1);
    assert_eq!(record.cost, 10);
    assert_eq!(record.file_size, 100);
    assert_eq!(record.file_link, [9u8; 20]);
    assert!(record.allow_download);
}

#[test]
fn file_id_is_deterministic_for_identical_records() {
    let mut p = Pallet::new(config(4, 2, 250));
    let first = uploaded_id(p.upload_file(1, [3u8; 20], true, FileType::Normal, 10, 100));
    let second = uploaded_id(p.upload_file(1, [3u8; 20], true, FileType::Normal, 10, 100));
    assert_eq!(first, second);
    assert_eq!(p.get_user_file_details(1), vec![first, first]);
    assert_eq!(p.all_files_count(), 2);
}

#[test]
fn file_id_depends_on_content() {
    let mut p = Pallet::new(config(8, 2, 250));
    let a = uploaded_id(p.upload_file(1, [3u8; 20], true, FileType::Normal, 10, 100));
    let b = uploaded_id(p.upload_file(1, [4u8; 20], true, FileType::Normal, 10, 100));
    let c = uploaded_id(p.upload_file(2, [3u8; 20], true, FileType::Normal, 10, 100));
    let d = uploaded_id(p.upload_file(1, [3u8; 20], true, FileType::Privileged, 10, 100));
    assert_ne!(a, b);
    assert_ne!(a, c);
    assert_ne!(a, d);
}

#[test]
fn upload_capacity_boundary() {
    let mut p = Pallet::new(config(2, 2, 250));
    uploaded_id(p.upload_file(1, [1u8; 20], true, FileType::Normal, 10, 100));
    // One below the maximum: accepted, and the list reaches the maximum.
    uploaded_id(p.upload_file(1, [2u8; 20], true, FileType::Normal, 10, 100));
    assert_eq!(p.get_user_file_details(1).len(), 2);
    // Exactly at the maximum: rejected, nothing recorded.
    let r = p.upload_file(1, [3u8; 20], true, FileType::Normal, 10, 100);
    assert_eq!(r, Err(Error::ExceedMaxFileUploaded));
    assert_eq!(p.get_user_file_details(1).len(), 2);
    assert_eq!(p.all_files_count(), 2);
    // Another account is not affected by the first one's full list.
    uploaded_id(p.upload_file(2, [3u8; 20], true, FileType::Normal, 10, 100));
}

#[test]
fn upload_fails_when_file_counter_is_saturated() {
    let mut p = Pallet::new(config(4, 2, 250));
    p.all_files_count = u64::MAX;
    let r = p.upload_file(1, [1u8; 20], true, FileType::Normal, 10, 100);
    assert_eq!(r, Err(Error::FileCountOverflow));
    assert!(p.get_user_file_details(1).is_empty());
}

#[test]
fn set_collection_account_is_idempotent() {
    let mut p = Pallet::new(config(4, 2, 250));
    assert_eq!(p.add_accountant(5), Ok(()));
    assert_eq!(p.accountant(), Some(5));
    assert_eq!(p.add_accountant(5), Ok(()));
    assert_eq!(p.accountant(), Some(5));
    assert_eq!(p.all_files_count(), 0);
    assert_eq!(p.all_downloads_count(), 0);
}

#[test]
fn set_collection_account_rejects_other_caller() {
    let mut p = Pallet::new(config(4, 2, 250));
    assert_eq!(p.add_accountant(5), Ok(()));
    assert_eq!(p.add_accountant(6), Err(Error::InvalidSigner));
    assert_eq!(p.accountant(), Some(5));
}

#[test]
fn download_flat_cost_within_size_limit() {
    // file_type = Normal, file_size = 100, cost = 10, limit = 250:
    // flat cost of 10 is charged.
    let mut p = Pallet::new(config(4, 2, 250));
    let mut l = InMemoryLedger::new();
    p.add_accountant(9).unwrap();
    l.set_balance(2, 100);
    let id = uploaded_id(p.upload_file(1, [1u8; 20], true, FileType::Normal, 10, 100));
    let r = p.download_file(2, id, &mut l);
    assert_eq!(r, Ok(Event::Downloaded(2, id, 10)));
    assert_eq!(l.balance_of(2), 90);
    assert_eq!(l.balance_of(9), 10);
    assert_eq!(p.get_download_details(id), vec![2]);
    assert_eq!(p.all_downloads_count(), 1);
}

#[test]
fn download_size_tiered_cost_above_limit() {
    // file_size = 300, cost = 10, limit = 250, cost_per_byte = 2:
    // 50 extra bytes cost 100, total 110.
    let mut p = Pallet::new(config(4, 2, 250));
    let mut l = InMemoryLedger::new();
    p.add_accountant(9).unwrap();
    l.set_balance(2, 200);
    let id = uploaded_id(p.upload_file(1, [1u8; 20], true, FileType::Normal, 10, 300));
    let r = p.download_file(2, id, &mut l);
    assert_eq!(r, Ok(Event::Downloaded(2, id, 110)));
    assert_eq!(l.balance_of(2), 90);
    assert_eq!(l.balance_of(9), 110);
}

#[test]
fn download_privileged_is_always_flat() {
    let mut p = Pallet::new(config(4, 2, 250));
    let mut l = InMemoryLedger::new();
    p.add_accountant(9).unwrap();
    l.set_balance(2, 100);
    let id = uploaded_id(p.upload_file(1, [1u8; 20], true, FileType::Privileged, 10, 300));
    let r = p.download_file(2, id, &mut l);
    assert_eq!(r, Ok(Event::Downloaded(2, id, 10)));
    assert_eq!(l.balance_of(2), 90);
}

#[test]
fn download_twice_fails_and_charges_once() {
    let mut p = Pallet::new(config(4, 2, 250));
    let mut l = InMemoryLedger::new();
    p.add_accountant(9).unwrap();
    l.set_balance(2, 100);
    let id = uploaded_id(p.upload_file(1, [1u8; 20], true, FileType::Normal, 10, 100));
    assert_eq!(p.download_file(2, id, &mut l), Ok(Event::Downloaded(2, id, 10)));
    let second = p.download_file(2, id, &mut l);
    assert_eq!(second, Err(Error::AlreadyDownloaded));
    assert_eq!(l.balance_of(2), 90);
    assert_eq!(l.balance_of(9), 10);
    assert_eq!(p.get_download_details(id), vec![2]);
    assert_eq!(p.all_downloads_count(), 1);
}

#[test]
fn download_unknown_file_fails() {
    let mut p = Pallet::new(config(4, 2, 250));
    let mut l = InMemoryLedger::new();
    assert_eq!(p.download_file(2, 1234, &mut l), Err(Error::FileNotFound));
}

#[test]
fn download_respects_allow_download_gate() {
    let mut p = Pallet::new(config(4, 2, 250));
    let mut l = InMemoryLedger::new();
    p.add_accountant(9).unwrap();
    l.set_balance(2, 100);
    let id = uploaded_id(p.upload_file(1, [1u8; 20], false, FileType::Normal, 10, 100));
    let r = p.download_file(2, id, &mut l);
    assert_eq!(r, Err(Error::FileNotAllowedToDownload));
    assert_eq!(l.balance_of(2), 100);
    assert!(p.get_download_details(id).is_empty());
}

#[test]
fn download_cost_overflow_is_an_arithmetic_error() {
    let mut p = Pallet::new(config(4, u64::MAX, 250));
    let mut l = InMemoryLedger::new();
    p.add_accountant(9).unwrap();
    l.set_balance(2, 100);
    let id = uploaded_id(p.upload_file(1, [1u8; 20], true, FileType::Normal, 10, u64::MAX));
    let r = p.download_file(2, id, &mut l);
    assert_eq!(r, Err(Error::InvalidOperation));
    assert_eq!(l.balance_of(2), 100);
}

#[test]
fn download_capacity_is_checked_before_payment() {
    let mut p = Pallet::new(config(1, 2, 250));
    let mut l = InMemoryLedger::new();
    p.add_accountant(9).unwrap();
    l.set_balance(2, 100);
    l.set_balance(3, 100);
    let id = uploaded_id(p.upload_file(1, [1u8; 20], true, FileType::Normal, 10, 100));
    assert_eq!(p.download_file(2, id, &mut l), Ok(Event::Downloaded(2, id, 10)));
    // The access list is full: the next caller is refused before any money
    // moves.
    let r = p.download_file(3, id, &mut l);
    assert_eq!(r, Err(Error::ExceedMaxFileDownload));
    assert_eq!(l.balance_of(3), 100);
    assert_eq!(l.balance_of(9), 10);
    assert_eq!(p.get_download_details(id), vec![2]);
}

#[test]
fn download_fails_when_download_counter_is_saturated() {
    let mut p = Pallet::new(config(4, 2, 250));
    let mut l = InMemoryLedger::new();
    l.set_balance(2, 100);
    let id = uploaded_id(p.upload_file(1, [1u8; 20], true, FileType::Normal, 10, 100));
    p.all_downloads_count = u64::MAX;
    let r = p.download_file(2, id, &mut l);
    assert_eq!(r, Err(Error::FileDownloadCountOverflow));
    assert_eq!(l.balance_of(2), 100);
}

#[test]
fn download_requires_a_collection_account() {
    let mut p = Pallet::new(config(4, 2, 250));
    let mut l = InMemoryLedger::new();
    l.set_balance(2, 100);
    let id = uploaded_id(p.upload_file(1, [1u8; 20], true, FileType::Normal, 10, 100));
    let r = p.download_file(2, id, &mut l);
    assert_eq!(r, Err(Error::AccountantNotSet));
    assert_eq!(l.balance_of(2), 100);
    assert!(p.get_download_details(id).is_empty());
}

#[test]
fn download_requires_sufficient_balance() {
    let mut p = Pallet::new(config(4, 2, 250));
    let mut l = InMemoryLedger::new();
    p.add_accountant(9).unwrap();
    l.set_balance(2, 5);
    let id = uploaded_id(p.upload_file(1, [1u8; 20], true, FileType::Normal, 10, 100));
    let r = p.download_file(2, id, &mut l);
    assert_eq!(r, Err(Error::NotEnoughBalance));
    assert_eq!(l.balance_of(2), 5);
    assert!(p.get_download_details(id).is_empty());
}

#[test]
fn download_propagates_a_refused_transfer() {
    let mut p = Pallet::new(config(4, 2, 250));
    let mut l = InMemoryLedger::new();
    p.add_accountant(9).unwrap();
    l.set_balance(2, 100);
    // The collection account cannot take any more: the ledger refuses the
    // transfer and its error is passed through unchanged.
    l.set_balance(9, u64::MAX);
    let id = uploaded_id(p.upload_file(1, [1u8; 20], true, FileType::Normal, 10, 100));
    let r = p.download_file(2, id, &mut l);
    assert_eq!(r, Err(Error::LedgerFailure(LedgerError { code: 2 })));
    assert_eq!(l.balance_of(2), 100);
    assert!(p.get_download_details(id).is_empty());
    assert_eq!(p.all_downloads_count(), 0);
}

#[test]
fn transfer_moves_ownership_atomically() {
    let mut p = Pallet::new(config(4, 2, 250));
    let id = uploaded_id(p.upload_file(1, [1u8; 20], true, FileType::Normal, 10, 100));
    let r = p.transfer_file(1, id, 2);
    assert_eq!(r, Ok(Event::Transfered(1, 2, id)));
    assert!(p.get_user_file_details(1).is_empty());
    assert_eq!(p.get_user_file_details(2), vec![id]);
    assert_eq!(p.get_file_details(id).unwrap().owner, 2);
    // Ownership consistency: every listed identifier's record names the
    // listing account.
    for owned in p.get_user_file_details(2) {
        assert_eq!(p.get_file_details(owned).unwrap().owner, 2);
    }
}

#[test]
fn transfer_by_non_owner_changes_nothing() {
    let mut p = Pallet::new(config(4, 2, 250));
    let id = uploaded_id(p.upload_file(1, [1u8; 20], true, FileType::Normal, 10, 100));
    let r = p.transfer_file(3, id, 2);
    assert_eq!(r, Err(Error::InvalidSigner));
    assert_eq!(p.get_user_file_details(1), vec![id]);
    assert!(p.get_user_file_details(2).is_empty());
    assert_eq!(p.get_file_details(id).unwrap().owner, 1);
}

#[test]
fn transfer_of_unknown_file_fails() {
    let mut p = Pallet::new(config(4, 2, 250));
    assert_eq!(p.transfer_file(1, 77, 2), Err(Error::FileNotFound));
}

#[test]
fn transfer_to_full_recipient_rolls_back() {
    let mut p = Pallet::new(config(1, 2, 250));
    let id = uploaded_id(p.upload_file(1, [1u8; 20], true, FileType::Normal, 10, 100));
    uploaded_id(p.upload_file(2, [2u8; 20], true, FileType::Normal, 10, 100));
    // Account 2 is at capacity: the removal from account 1 must not stick.
    let r = p.transfer_file(1, id, 2);
    assert_eq!(r, Err(Error::ExceedMaxFileUploaded));
    assert_eq!(p.get_user_file_details(1), vec![id]);
    assert_eq!(p.get_file_details(id).unwrap().owner, 1);
}

#[test]
fn transfer_to_self_keeps_the_file() {
    let mut p = Pallet::new(config(1, 2, 250));
    let id = uploaded_id(p.upload_file(1, [1u8; 20], true, FileType::Normal, 10, 100));
    let r = p.transfer_file(1, id, 1);
    assert_eq!(r, Ok(Event::Transfered(1, 1, id)));
    assert_eq!(p.get_user_file_details(1), vec![id]);
    assert_eq!(p.get_file_details(id).unwrap().owner, 1);
}

#[test]
fn transfer_detects_a_missing_ownership_entry() {
    // A record claims account 1 as owner while account 1's list is empty:
    // the internal-consistency fault is reported, nothing changes.
    let mut files = std::collections::HashMap::new();
    files.insert(
        42u64,
        File {
            file_link: [0u8; 20],
            allow_download: true,
            file_type: FileType::Normal,
            cost: 10,
            file_size: 100,
            owner: 1,
        },
    );
    let mut p = Pallet {
        config: config(4, 2, 250),
        accountant: None,
        all_files_count: 1,
        all_downloads_count: 0,
        files,
        files_per_user: std::collections::HashMap::new(),
        file_downloads: std::collections::HashMap::new(),
    };
    assert_eq!(p.transfer_file(1, 42, 2), Err(Error::FileDoesntExist));
    assert_eq!(p.get_file_details(42).unwrap().owner, 1);
}
