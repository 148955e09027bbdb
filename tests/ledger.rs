use pzportal::{
    add_msg, authorize, start_stuff_off, AddMsg, BaseAccount, Identity, ItemStruct, LedgerError,
    Signer, StartStuffOff,
};

fn id(b: u8) -> Identity {
    Identity::new([b; 32])
}

fn signer(b: u8) -> Signer {
    Signer::new(id(b), true)
}

fn initialized(budget: u32) -> BaseAccount {
    let mut ctx = StartStuffOff { base_account: BaseAccount::allocate(budget) };
    assert_eq!(start_stuff_off(&mut ctx), Ok(()));
    ctx.base_account
}

fn append(account: BaseAccount, user: Signer, content: &str) -> (BaseAccount, Result<u64, LedgerError>) {
    let mut ctx = AddMsg { base_account: account, user };
    let r = add_msg(&mut ctx, content.to_string());
    (ctx.base_account, r)
}

fn entries(account: &BaseAccount) -> Vec<(String, [u8; 32])> {
    account
        .msg_list()
        .iter()
        .map(|i: &ItemStruct| (i.msg_content.clone(), i.user_address.bytes))
        .collect()
}

#[test]
fn scenario_budget_9000() {
    let account = initialized(9000);
    assert_eq!(account.total_msgs(), 0);
    assert!(account.msg_list().is_empty());

    let (account, r) = append(account, signer(0xA), "hello");
    assert_eq!(r, Ok(0));
    assert_eq!(account.total_msgs(), 1);
    assert_eq!(entries(&account)[0], ("hello".to_string(), [0xA; 32]));

    let (mut account, r) = append(account, signer(0xB), "world");
    assert_eq!(r, Ok(1));
    assert_eq!(account.total_msgs(), 2);
    assert_eq!(entries(&account)[1], ("world".to_string(), [0xB; 32]));

    let large = "x".repeat(1000);
    let mut appended: u64 = 0;
    loop {
        let before = entries(&account);
        let count = account.total_msgs();
        let (next, r) = append(account, signer(0xC), &large);
        account = next;
        match r {
            Ok(i) => {
                assert_eq!(i, count);
                appended += 1;
            }
            Err(e) => {
                assert_eq!(e, LedgerError::CapacityExceeded);
                assert_eq!(account.total_msgs(), count);
                assert_eq!(entries(&account), before);
                break;
            }
        }
    }
    // 8 header bytes, two entries of 41 bytes, then entries of 1036 bytes.
    assert_eq!(appended, 8);
    assert_eq!(account.total_msgs(), 10);
    assert_eq!(account.used(), 8 + 2 * 41 + 8 * 1036);
    assert_eq!(entries(&account)[0], ("hello".to_string(), [0xA; 32]));
    assert_eq!(entries(&account)[1], ("world".to_string(), [0xB; 32]));
}

#[test]
fn count_and_order_follow_the_calls() {
    let mut account = initialized(9000);
    let calls = [("a", 1u8), ("bb", 2), ("", 3), ("ccc", 1), ("d", 4)];
    for (n, (content, who)) in calls.iter().enumerate() {
        let (next, r) = append(account, signer(*who), content);
        account = next;
        assert_eq!(r, Ok(n as u64));
        assert_eq!(account.total_msgs(), n as u64 + 1);
    }
    let got = entries(&account);
    assert_eq!(got.len(), calls.len());
    for (i, (content, who)) in calls.iter().enumerate() {
        assert_eq!(got[i], (content.to_string(), [*who; 32]));
    }
}

#[test]
fn initialize_twice_fails_and_keeps_entries() {
    let account = initialized(9000);
    let (account, r) = append(account, signer(1), "kept");
    assert_eq!(r, Ok(0));
    let mut ctx = StartStuffOff { base_account: account };
    assert_eq!(start_stuff_off(&mut ctx), Err(LedgerError::AlreadyInitialized));
    assert_eq!(ctx.base_account.total_msgs(), 1);
    assert_eq!(entries(&ctx.base_account), vec![("kept".to_string(), [1; 32])]);
    assert!(ctx.base_account.is_initialized());
}

#[test]
fn initialize_fresh_ledger_twice() {
    let mut ctx = StartStuffOff { base_account: BaseAccount::allocate(64) };
    assert_eq!(start_stuff_off(&mut ctx), Ok(()));
    assert_eq!(ctx.base_account.used(), 8);
    assert_eq!(start_stuff_off(&mut ctx), Err(LedgerError::AlreadyInitialized));
    assert_eq!(ctx.base_account.total_msgs(), 0);
    assert_eq!(ctx.base_account.used(), 8);
}

#[test]
fn initialize_needs_room_for_the_header() {
    let mut ctx = StartStuffOff { base_account: BaseAccount::allocate(7) };
    assert_eq!(start_stuff_off(&mut ctx), Err(LedgerError::CapacityExceeded));
    assert!(!ctx.base_account.is_initialized());
    assert_eq!(ctx.base_account.used(), 0);

    let mut ctx = StartStuffOff { base_account: BaseAccount::allocate(8) };
    assert_eq!(start_stuff_off(&mut ctx), Ok(()));
    assert!(ctx.base_account.is_initialized());
}

#[test]
fn append_before_initialize_fails() {
    let account = BaseAccount::allocate(9000);
    let (account, r) = append(account, signer(1), "early");
    assert_eq!(r, Err(LedgerError::NotInitialized));
    assert_eq!(account.total_msgs(), 0);
    assert!(account.msg_list().is_empty());
    assert!(!account.is_initialized());
    assert_eq!(account.used(), 0);
}

#[test]
fn over_budget_append_leaves_ledger_unchanged() {
    // Header 8 + one entry of 4 + 10 + 32 = 54 bytes.
    let account = initialized(54);
    let (account, r) = append(account, signer(1), "0123456789");
    assert_eq!(r, Ok(0));
    assert_eq!(account.used(), 54);
    let before = account.to_bytes();
    let (account, r) = append(account, signer(2), "");
    assert_eq!(r, Err(LedgerError::CapacityExceeded));
    assert_eq!(account.total_msgs(), 1);
    assert_eq!(account.to_bytes(), before);
}

#[test]
fn entry_that_fills_the_budget_exactly_fits() {
    // Header 8 + 4 + 11 + 32 = 55 bytes.
    let account = initialized(55);
    let (account, r) = append(account, signer(1), "012345678901");
    assert_eq!(r, Err(LedgerError::CapacityExceeded));
    let (account, r) = append(account, signer(1), "01234567890");
    assert_eq!(r, Ok(0));
    let (account, r) = append(account, signer(1), "");
    assert_eq!(r, Err(LedgerError::CapacityExceeded));
    assert_eq!(account.used(), 55);
    assert_eq!(account.budget(), 55);
}

#[test]
fn size_counts_utf8_bytes() {
    // "é" is two bytes and "€" three: 4 + 5 + 32 = 41 bytes.
    let account = initialized(49);
    let (account, r) = append(account, signer(1), "é€");
    assert_eq!(r, Ok(0));
    assert_eq!(account.used(), 49);
}

#[test]
fn author_is_the_signer_of_each_call() {
    let account = initialized(9000);
    let (account, r) = append(account, signer(7), "from seven");
    assert_eq!(r, Ok(0));
    let (account, r) = append(account, signer(9), "from nine");
    assert_eq!(r, Ok(1));
    let got = entries(&account);
    assert_eq!(got[0].1, [7; 32]);
    assert_eq!(got[1].1, [9; 32]);
}

#[test]
fn unsigned_request_is_rejected() {
    let account = initialized(9000);
    let (account, r) = append(account, Signer::new(id(5), false), "forged");
    assert_eq!(r, Err(LedgerError::UnauthorizedCaller));
    assert_eq!(account.total_msgs(), 0);
    assert_eq!(account.used(), 8);
}

#[test]
fn authorize_returns_the_signer_key() {
    assert_eq!(authorize(&signer(3)), Ok(id(3)));
    assert_eq!(authorize(&Signer::new(id(3), false)), Err(LedgerError::UnauthorizedCaller));
}

#[test]
fn stored_layout() {
    let account = initialized(9000);
    let (account, _) = append(account, signer(0xA), "hi");
    let (account, _) = append(account, signer(0xB), "é");
    let mut want: Vec<u8> = vec![2, 0, 0, 0, 0, 0, 0, 0];
    want.extend_from_slice(&[2, 0, 0, 0, b'h', b'i']);
    want.extend_from_slice(&[0xA; 32]);
    want.extend_from_slice(&[2, 0, 0, 0, 0xC3, 0xA9]);
    want.extend_from_slice(&[0xB; 32]);
    let bytes = account.to_bytes();
    assert_eq!(bytes, want);
    assert_eq!(bytes.len(), account.used());
}

#[test]
fn empty_record_layout() {
    let account = initialized(8);
    assert_eq!(account.to_bytes(), vec![0; 8]);
    assert_eq!(account.used(), 8);
}
