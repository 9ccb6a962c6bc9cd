use tip_jar::codec::decode;
use tip_jar::codec::encode;
use tip_jar::machine::deposit_into_contract;
use tip_jar::machine::dispatch;
use tip_jar::machine::Operation;
use tip_jar::machine::initialize_contract;
use tip_jar::machine::process_instruction;
use tip_jar::machine::send_tip;
use tip_jar::record::Account;
use tip_jar::record::Identity;
use tip_jar::record::TipContract;
use tip_jar::record::TipError;

fn ident(n: u64) -> Identity {
    Identity { w0: n, w1: n.wrapping_mul(7), w2: n.wrapping_mul(13), w3: n.wrapping_mul(31) }
}

fn initialized_record(owner: Identity, deposited_amount: u64) -> TipContract {
    TipContract { is_initialized: true, owner, deposited_amount }
}

#[test]
fn round_trip_initialized_record() {
    let r = initialized_record(ident(42), 123456789);
    assert_eq!(decode(&encode(&r)), Ok(r));
}

#[test]
fn round_trip_uninitialized_record() {
    let r = TipContract { is_initialized: false, owner: ident(9), deposited_amount: 0 };
    assert_eq!(decode(&encode(&r)), Ok(r));
}

#[test]
fn all_zero_buffer_decodes_to_uninitialized_record() {
    let zeros = vec![0u8; 41];
    let r = decode(&zeros).unwrap();
    assert!(!r.is_initialized);
    assert_eq!(r.owner, Identity { w0: 0, w1: 0, w2: 0, w3: 0 });
    assert_eq!(r.deposited_amount, 0);
}

#[test]
fn short_buffer_is_malformed_record() {
    let short = vec![0u8; 40];
    assert_eq!(decode(&short), Err(TipError::MalformedRecord));
    assert_eq!(decode(&[]), Err(TipError::MalformedRecord));
}

#[test]
fn long_buffer_is_malformed_record() {
    let long = vec![0u8; 42];
    assert_eq!(decode(&long), Err(TipError::MalformedRecord));
}

#[test]
fn invalid_flag_byte_is_malformed_record() {
    let mut bytes = vec![0u8; 41];
    bytes[0] = 2;
    assert_eq!(decode(&bytes), Err(TipError::MalformedRecord));
}

#[test]
fn encode_produces_exact_layout() {
    let owner = Identity { w0: 0x0807060504030201, w1: 0, w2: 0, w3: u64::MAX };
    let r = initialized_record(owner, 258);
    let bytes = encode(&r);
    assert_eq!(bytes.len(), 41);
    assert_eq!(bytes[0], 1);
    assert_eq!(&bytes[1..9], &[1, 2, 3, 4, 5, 6, 7, 8]);
    assert_eq!(&bytes[9..25], &[0u8; 16]);
    assert_eq!(&bytes[25..33], &[0xff; 8]);
    assert_eq!(&bytes[33..41], &[2, 1, 0, 0, 0, 0, 0, 0]);
}

#[test]
fn scenario_initialize_sets_owner() {
    let zeros = vec![0u8; 41];
    let owner = ident(1);
    let mut accounts = vec![
        Account { identity: ident(7), balance: 10 },
        Account { identity: owner, balance: 3 },
    ];
    let out = process_instruction(&zeros, &mut accounts, &[]).unwrap();
    let r = decode(&out).unwrap();
    assert!(r.is_initialized);
    assert_eq!(r.owner, owner);
    assert_eq!(r.deposited_amount, 0);
    assert_eq!(accounts[0].balance, 10);
    assert_eq!(accounts[1].balance, 3);
}

#[test]
fn initialize_is_single_shot() {
    // First invocation on zeroed storage initializes.
    let zeros = vec![0u8; 41];
    let owner = ident(1);
    let mut accounts = vec![
        Account { identity: ident(7), balance: 0 },
        Account { identity: owner, balance: 0 },
    ];
    let committed = process_instruction(&zeros, &mut accounts, &[]).unwrap();

    // A second non-owner invocation routes to Deposit, not Initialize: the
    // owner is unchanged and the depositor's balance moves into the jar.
    let mut accounts = vec![
        Account { identity: ident(7), balance: 0 },
        Account { identity: ident(2), balance: 50 },
    ];
    let committed2 = process_instruction(&committed, &mut accounts, &[]).unwrap();
    let r = decode(&committed2).unwrap();
    assert!(r.is_initialized);
    assert_eq!(r.owner, owner);
    assert_eq!(r.deposited_amount, 50);

    // An owner invocation routes to SendTip, not Initialize: with an empty
    // payload it fails exactly as a disbursement does.
    let mut accounts = vec![
        Account { identity: owner, balance: 50 },
        Account { identity: ident(3), balance: 0 },
    ];
    assert_eq!(
        process_instruction(&committed2, &mut accounts, &[]),
        Err(TipError::MalformedInstruction)
    );
}

#[test]
fn scenario_deposit_moves_whole_balance() {
    let owner = ident(1);
    let record_bytes = encode(&initialized_record(owner, 0));
    let mut accounts = vec![
        Account { identity: ident(7), balance: 100 },
        Account { identity: ident(2), balance: 500 },
    ];
    let out = process_instruction(&record_bytes, &mut accounts, &[]).unwrap();
    let r = decode(&out).unwrap();
    assert_eq!(r.deposited_amount, 500);
    assert_eq!(r.owner, owner);
    assert_eq!(accounts[0].balance, 600);
    assert_eq!(accounts[1].balance, 0);
}

#[test]
fn scenario_send_tip_disburses() {
    let owner = ident(1);
    let record_bytes = encode(&initialized_record(owner, 500));
    let mut accounts = vec![
        Account { identity: owner, balance: 500 },
        Account { identity: ident(9), balance: 0 },
    ];
    let payload = 200u64.to_le_bytes();
    let out = process_instruction(&record_bytes, &mut accounts, &payload).unwrap();
    let r = decode(&out).unwrap();
    assert_eq!(accounts[0].balance, 300);
    assert_eq!(accounts[1].balance, 200);
    assert_eq!(r.deposited_amount, 500);
    assert_eq!(r.owner, owner);
}

#[test]
fn scenario_send_tip_insufficient_funds() {
    let owner = ident(1);
    let record_bytes = encode(&initialized_record(owner, 500));
    let mut accounts = vec![
        Account { identity: owner, balance: 300 },
        Account { identity: ident(9), balance: 7 },
    ];
    let payload = 1000u64.to_le_bytes();
    assert_eq!(
        process_instruction(&record_bytes, &mut accounts, &payload),
        Err(TipError::InsufficientFunds)
    );
    assert_eq!(accounts[0].balance, 300);
    assert_eq!(accounts[1].balance, 7);
}

#[test]
fn scenario_deposit_of_zero_fails() {
    let owner = ident(1);
    let record_bytes = encode(&initialized_record(owner, 40));
    let mut accounts = vec![
        Account { identity: ident(7), balance: 100 },
        Account { identity: ident(2), balance: 0 },
    ];
    assert_eq!(
        process_instruction(&record_bytes, &mut accounts, &[]),
        Err(TipError::InsufficientFunds)
    );
    assert_eq!(accounts[0].balance, 100);
    assert_eq!(accounts[1].balance, 0);
}

#[test]
fn missing_account_when_too_few_supplied() {
    let record_bytes = encode(&initialized_record(ident(1), 0));
    let mut accounts = vec![Account { identity: ident(7), balance: 100 }];
    assert_eq!(
        process_instruction(&record_bytes, &mut accounts, &[]),
        Err(TipError::MissingAccount)
    );
    let mut no_accounts: Vec<Account> = vec![];
    assert_eq!(
        process_instruction(&record_bytes, &mut no_accounts, &[]),
        Err(TipError::MissingAccount)
    );
}

#[test]
fn short_payload_is_malformed_instruction() {
    let owner = ident(1);
    let record_bytes = encode(&initialized_record(owner, 0));
    let mut accounts = vec![
        Account { identity: owner, balance: 300 },
        Account { identity: ident(9), balance: 0 },
    ];
    assert_eq!(
        process_instruction(&record_bytes, &mut accounts, &[1, 2, 3, 4, 5, 6, 7]),
        Err(TipError::MalformedInstruction)
    );
    assert_eq!(accounts[0].balance, 300);
    assert_eq!(accounts[1].balance, 0);
}

#[test]
fn deposit_overflow_fails_and_changes_nothing() {
    // Jar balance credit would overflow.
    let mut record = initialized_record(ident(1), 0);
    let mut jar = Account { identity: ident(7), balance: u64::MAX };
    let mut depositor = Account { identity: ident(2), balance: 1 };
    assert_eq!(
        deposit_into_contract(&mut record, &mut jar, &mut depositor),
        Err(TipError::InsufficientFunds)
    );
    assert_eq!(jar.balance, u64::MAX);
    assert_eq!(depositor.balance, 1);
    assert_eq!(record.deposited_amount, 0);

    // Cumulative counter credit would overflow.
    let mut record = initialized_record(ident(1), u64::MAX);
    let mut jar = Account { identity: ident(7), balance: 0 };
    let mut depositor = Account { identity: ident(2), balance: 1 };
    assert_eq!(
        deposit_into_contract(&mut record, &mut jar, &mut depositor),
        Err(TipError::InsufficientFunds)
    );
    assert_eq!(jar.balance, 0);
    assert_eq!(depositor.balance, 1);
    assert_eq!(record.deposited_amount, u64::MAX);
}

#[test]
fn send_tip_overflow_fails_and_changes_nothing() {
    let owner = ident(1);
    let record = initialized_record(owner, 0);
    let mut jar = Account { identity: owner, balance: 10 };
    let mut recipient = Account { identity: ident(9), balance: u64::MAX };
    let payload = 1u64.to_le_bytes();
    assert_eq!(
        send_tip(&record, &payload, &mut jar, &mut recipient),
        Err(TipError::InsufficientFunds)
    );
    assert_eq!(jar.balance, 10);
    assert_eq!(recipient.balance, u64::MAX);
}

#[test]
fn initialize_handler_leaves_counter_and_balances() {
    let mut record = TipContract { is_initialized: false, owner: ident(0), deposited_amount: 0 };
    let owner_account = Account { identity: ident(1), balance: 77 };
    initialize_contract(&mut record, &owner_account);
    assert!(record.is_initialized);
    assert_eq!(record.owner, ident(1));
    assert_eq!(record.deposited_amount, 0);
    assert_eq!(owner_account.balance, 77);
}

#[test]
fn value_is_conserved_across_a_sequence() {
    let owner = ident(1);
    let depositor_a = ident(2);
    let depositor_b = ident(3);
    let recipient = ident(4);
    let jar_identity = ident(7);

    let mut record_bytes = vec![0u8; 41];
    let mut jar_balance: u64 = 5;
    let mut wallets: Vec<(Identity, u64)> =
        vec![(owner, 0), (depositor_a, 400), (depositor_b, 250), (recipient, 10)];
    let total: u64 = jar_balance + wallets.iter().map(|w| w.1).sum::<u64>();

    // Initialize, two deposits, one tip; every step conserves the total.
    let steps: Vec<(usize, Vec<u8>)> = vec![
        (0, vec![]),
        (1, vec![]),
        (2, vec![]),
        (3, 150u64.to_le_bytes().to_vec()),
    ];
    for (wallet, payload) in steps {
        let caller = if payload.is_empty() { jar_identity } else { owner };
        let mut accounts = vec![
            Account { identity: caller, balance: jar_balance },
            Account { identity: wallets[wallet].0, balance: wallets[wallet].1 },
        ];
        record_bytes = process_instruction(&record_bytes, &mut accounts, &payload).unwrap();
        jar_balance = accounts[0].balance;
        wallets[wallet].1 = accounts[1].balance;
        let now: u64 = jar_balance + wallets.iter().map(|w| w.1).sum::<u64>();
        assert_eq!(now, total);
    }

    let record = decode(&record_bytes).unwrap();
    assert_eq!(record.deposited_amount, 650);
    assert_eq!(jar_balance, 505);
    assert_eq!(wallets[3].1, 160);
}

#[test]
fn deposited_amount_is_monotone_and_tips_leave_it() {
    let owner = ident(1);
    let mut record = initialized_record(owner, 100);
    let mut jar = Account { identity: ident(7), balance: 100 };
    let mut depositor = Account { identity: ident(2), balance: 30 };
    deposit_into_contract(&mut record, &mut jar, &mut depositor).unwrap();
    assert!(record.deposited_amount >= 100);
    assert_eq!(record.deposited_amount, 130);

    let before = record;
    let mut jar = Account { identity: owner, balance: 130 };
    let mut recipient = Account { identity: ident(9), balance: 0 };
    send_tip(&record, &25u64.to_le_bytes(), &mut jar, &mut recipient).unwrap();
    assert_eq!(record, before);

    // A failing operation decreases nothing either.
    let mut depositor = Account { identity: ident(2), balance: 0 };
    let mut jar = Account { identity: ident(7), balance: 105 };
    assert!(deposit_into_contract(&mut record, &mut jar, &mut depositor).is_err());
    assert_eq!(record.deposited_amount, 130);
}

#[test]
fn dispatch_follows_state_then_identity() {
    let owner = ident(1);
    let uninit = TipContract { is_initialized: false, owner: ident(0), deposited_amount: 0 };
    assert_eq!(dispatch(&uninit, &owner), Operation::Initialize);
    assert_eq!(dispatch(&uninit, &ident(5)), Operation::Initialize);
    let init = initialized_record(owner, 0);
    assert_eq!(dispatch(&init, &owner), Operation::SendTip);
    assert_eq!(dispatch(&init, &ident(5)), Operation::Deposit);
}

#[test]
fn malformed_record_aborts_invocation() {
    let mut accounts = vec![
        Account { identity: ident(7), balance: 1 },
        Account { identity: ident(2), balance: 2 },
    ];
    assert_eq!(
        process_instruction(&[0u8; 12], &mut accounts, &[]),
        Err(TipError::MalformedRecord)
    );
    assert_eq!(accounts[0].balance, 1);
    assert_eq!(accounts[1].balance, 2);
}
