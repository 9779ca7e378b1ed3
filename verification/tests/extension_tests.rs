use borsh::BorshSerialize;
use solana_accountgen::extensions::banks_client::{
    BlockhashWait, WaitAction, WaitEvent, BLOCKHASH_RETRY_MILLIS, BLOCKHASH_TIMEOUT_SECS,
};
use solana_accountgen::extensions::program_loader::{
    create_program_account_from_file, default_program_dirs, find_program_file, ProgramFile,
};
use solana_accountgen::extensions::sysvars::create_sysvar_account;
use solana_accountgen::extensions::token::{create_token_account, TokenAccount};
use solana_accountgen::{AccountGenError, Pubkey};

struct BorshTokenAccount {
    mint: [u8; 32],
    owner: [u8; 32],
    amount: u64,
    delegate: Option<[u8; 32]>,
    state: u8,
    is_native: Option<u64>,
    delegated_amount: u64,
    close_authority: Option<[u8; 32]>,
}

impl BorshSerialize for BorshTokenAccount {
    fn serialize<W: borsh::io::Write>(&self, writer: &mut W) -> borsh::io::Result<()> {
        BorshSerialize::serialize(&self.mint, writer)?;
        BorshSerialize::serialize(&self.owner, writer)?;
        BorshSerialize::serialize(&self.amount, writer)?;
        BorshSerialize::serialize(&self.delegate, writer)?;
        BorshSerialize::serialize(&self.state, writer)?;
        BorshSerialize::serialize(&self.is_native, writer)?;
        BorshSerialize::serialize(&self.delegated_amount, writer)?;
        BorshSerialize::serialize(&self.close_authority, writer)
    }
}

fn strings(texts: &[&str]) -> Vec<String> {
    texts.iter().map(|text| text.to_string()).collect()
}

#[test]
fn token_account_is_a_fresh_record_owned_by_the_token_program() {
    let mint = Pubkey::new_from_array([1; 32]);
    let owner = Pubkey::new_from_array([2; 32]);
    let token_program = Pubkey::new_from_array([3; 32]);

    let account = create_token_account(&mint, &owner, 1000, &token_program).unwrap();
    assert_eq!(account.lamports, 1_000_000);
    assert_eq!(account.owner, token_program);
    assert!(!account.executable);
    assert_eq!(account.rent_epoch, 0);
    assert_eq!(account.data.len(), 84);

    let expected = borsh::to_vec(&BorshTokenAccount {
        mint: [1; 32],
        owner: [2; 32],
        amount: 1000,
        delegate: None,
        state: 1,
        is_native: None,
        delegated_amount: 0,
        close_authority: None,
    })
    .unwrap();
    assert_eq!(account.data, expected);
    assert_eq!(account.data[64..72], [0xe8, 0x03, 0, 0, 0, 0, 0, 0]);
}

#[test]
fn token_record_encodes_as_the_compact_binary_format_does() {
    let record = TokenAccount {
        mint: Pubkey::new_from_array([9; 32]),
        owner: Pubkey::new_from_array([8; 32]),
        amount: 0x0102_0304_0506_0708,
        delegate: Some(Pubkey::new_from_array([7; 32])),
        state: 2,
        is_native: Some(u64::MAX),
        delegated_amount: 5,
        close_authority: Some(Pubkey::new_from_array([6; 32])),
    };
    let expected = borsh::to_vec(&BorshTokenAccount {
        mint: [9; 32],
        owner: [8; 32],
        amount: 0x0102_0304_0506_0708,
        delegate: Some([7; 32]),
        state: 2,
        is_native: Some(u64::MAX),
        delegated_amount: 5,
        close_authority: Some([6; 32]),
    })
    .unwrap();
    assert_eq!(record.encode(), expected);
    assert_eq!(expected.len(), 32 + 32 + 8 + 33 + 1 + 9 + 8 + 33);
}

#[test]
fn sysvar_account_is_filled_up_with_zeros() {
    let id = Pubkey::new_from_array([5; 32]);
    let account = create_sysvar_account(&id, 6, &vec![1, 2, 3]);
    assert_eq!(account.lamports, 1);
    assert_eq!(account.owner, id);
    assert_eq!(account.data, vec![1, 2, 3, 0, 0, 0]);
    assert!(!account.executable);
    assert_eq!(account.rent_epoch, 0);

    let exact = create_sysvar_account(&id, 2, &vec![7, 8]);
    assert_eq!(exact.data, vec![7, 8]);

    let empty = create_sysvar_account(&id, 0, &vec![]);
    assert_eq!(empty.data, Vec::<u8>::new());
}

#[test]
fn program_dirs_start_with_the_override_directory() {
    assert_eq!(
        default_program_dirs(None, None, None),
        strings(&["target/deploy", "tests/fixtures"])
    );
    assert_eq!(
        default_program_dirs(Some("bpf".to_string()), Some("sbf".to_string()), None),
        strings(&["bpf", "target/deploy", "tests/fixtures"])
    );
    assert_eq!(
        default_program_dirs(None, Some("sbf".to_string()), Some("cwd".to_string())),
        strings(&["sbf", "target/deploy", "tests/fixtures", "cwd"])
    );
    assert_eq!(
        default_program_dirs(Some("bpf".to_string()), None, Some("cwd".to_string())),
        strings(&["bpf", "target/deploy", "tests/fixtures", "cwd"])
    );
}

#[test]
fn program_file_is_found_in_the_first_directory_that_has_it() {
    let dirs = strings(&["a", "b", "c", "d"]);
    let asked = std::cell::RefCell::new(Vec::new());
    let found = find_program_file("prog.so", &dirs, |dir: &str, name: &str| {
        asked.borrow_mut().push(dir.to_string());
        if dir == "b" || dir == "c" {
            Some(format!("{}/{}", dir, name))
        } else {
            None
        }
    });
    assert_eq!(found, Some("b/prog.so".to_string()));
    assert_eq!(*asked.borrow(), strings(&["a", "b"]));
}

#[test]
fn program_file_that_no_directory_has_is_not_found() {
    let dirs = strings(&["a", "b"]);
    let asked = std::cell::Cell::new(0);
    let found = find_program_file("prog.so", &dirs, |_: &str, _: &str| {
        asked.set(asked.get() + 1);
        None
    });
    assert_eq!(found, None);
    assert_eq!(asked.get(), 2);

    let nowhere = find_program_file("prog.so", &Vec::new(), |_: &str, _: &str| {
        panic!("there is no directory to ask")
    });
    assert_eq!(nowhere, None);
}

#[test]
fn program_account_is_executable_and_rent_exempt() {
    let owner = Pubkey::new_from_array([4; 32]);
    let program = vec![0x7f, 0x45, 0x4c, 0x46, 1, 2, 3];
    let account = create_program_account_from_file(
        "prog.so",
        ProgramFile::Contents(program.clone()),
        &owner,
    )
    .unwrap();
    assert_eq!(account.data, program);
    assert_eq!(account.owner, owner);
    assert!(account.executable);
    assert_eq!(account.rent_epoch, 0);
    assert_eq!(account.lamports, (128 + 7) * 3480 * 2);
    assert_eq!(
        account.lamports,
        solana_rent::Rent::default().minimum_balance(7)
    );
}

#[test]
fn missing_program_file_is_reported_by_name() {
    let owner = Pubkey::new_from_array([4; 32]);
    let missing = create_program_account_from_file("prog.so", ProgramFile::NotFound, &owner);
    assert_eq!(
        missing.err(),
        Some(AccountGenError::ProgramFileNotFound("prog.so".to_string()))
    );
}

#[test]
fn unreadable_program_file_is_an_io_error() {
    let owner = Pubkey::new_from_array([4; 32]);
    let unreadable = create_program_account_from_file(
        "prog.so",
        ProgramFile::Unreadable("permission denied".to_string()),
        &owner,
    );
    assert_eq!(
        unreadable.err(),
        Some(AccountGenError::IoError("permission denied".to_string()))
    );
}

#[test]
fn blockhash_wait_fetches_until_the_timeout() {
    let wait = BlockhashWait::new([1; 32]);
    assert_eq!(BLOCKHASH_TIMEOUT_SECS, 5);
    for secs in 0..5 {
        let (next, action) = wait.step(WaitEvent::Elapsed { secs });
        assert!(matches!(action, WaitAction::Fetch));
        assert_eq!(next.retries, 0);
        assert_eq!(next.previous, [1; 32]);
    }
    for secs in [5, 6, u64::MAX] {
        let (_, action) = wait.step(WaitEvent::Elapsed { secs });
        assert!(matches!(action, WaitAction::GiveUp { retries: 0 }));
    }
}

#[test]
fn blockhash_wait_ends_with_a_new_blockhash() {
    let wait = BlockhashWait::new([1; 32]);
    let mut other = [1; 32];
    other[31] = 2;
    let (next, action) = wait.step(WaitEvent::Fetched { blockhash: other });
    assert!(matches!(action, WaitAction::Return { blockhash } if blockhash == other));
    assert_eq!(next.retries, 0);
}

#[test]
fn blockhash_wait_counts_the_retries() {
    let mut wait = BlockhashWait::new([1; 32]);
    assert_eq!(BLOCKHASH_RETRY_MILLIS, 200);
    for round in 1..=3 {
        let (next, action) = wait.step(WaitEvent::Fetched { blockhash: [1; 32] });
        assert!(matches!(action, WaitAction::Sleep { millis: 200 }));
        assert_eq!(next.retries, round);
        assert_eq!(next.previous, [1; 32]);
        wait = next;
    }
    let (_, action) = wait.step(WaitEvent::Elapsed { secs: 5 });
    assert!(matches!(action, WaitAction::GiveUp { retries: 3 }));
}
