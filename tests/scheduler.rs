use dmandate::address::find_associated_token_address;
use dmandate::scheduler::{execute_accounts, AccountRef, DEFAULT_TICK_INTERVAL_SECS};
use dmandate::{find_payment_history_address, plan_tick, Address, DuePayment, Mandate, ScannedAccount, TickReport};

fn key(n: u8) -> Address {
    Address::new([n; 32])
}

fn mandate(next_payout: i64, active: bool, payment_count: u32) -> Mandate {
    Mandate {
        payer: key(1),
        payee: key(2),
        amount: 10,
        token: key(3),
        frequency: 60,
        active,
        next_payout,
        bump: 254,
        name: String::from("n"),
        description: String::new(),
        payment_count,
    }
}

fn scan() -> Vec<ScannedAccount> {
    vec![
        ScannedAccount { address: key(10), mandate: Some(mandate(1000, true, 0)) },
        ScannedAccount { address: key(11), mandate: None },
        ScannedAccount { address: key(12), mandate: Some(mandate(1001, true, 4)) },
        ScannedAccount { address: key(13), mandate: Some(mandate(500, false, 2)) },
        ScannedAccount { address: key(14), mandate: Some(mandate(999, true, 7)) },
    ]
}

#[test]
fn tick_plans_exactly_the_due_mandates() {
    let program_id = key(200);
    let accounts = scan();
    let plan = plan_tick(&accounts, 1000, &program_id);
    let first = find_payment_history_address(&key(10), 0, &program_id).map(|f| f.0);
    let last = find_payment_history_address(&key(14), 7, &program_id).map(|f| f.0);
    assert!(first.is_some());
    assert_eq!(
        plan,
        vec![
            DuePayment { index: 0, payment_history_address: first },
            DuePayment { index: 4, payment_history_address: last },
        ]
    );
}

#[test]
fn tick_before_anything_is_due_plans_nothing() {
    let plan = plan_tick(&scan(), 998, &key(200));
    assert!(plan.is_empty());
    let plan = plan_tick(&Vec::new(), 5000, &key(200));
    assert!(plan.is_empty());
}

#[test]
fn tick_report_counts_outcomes_separately() {
    let accounts = scan();
    let plan = plan_tick(&accounts, 2000, &key(200));
    assert_eq!(plan.len(), 3);
    let mut report = TickReport::start(&accounts, &plan);
    assert_eq!(report, TickReport { scanned: 5, undecodable: 1, due: 3, succeeded: 0, failed: 0 });
    assert!(!report.is_complete());
    report.record(true);
    report.record(false);
    assert!(!report.is_complete());
    report.record(true);
    assert_eq!(report, TickReport { scanned: 5, undecodable: 1, due: 3, succeeded: 2, failed: 1 });
    assert!(report.is_complete());
}

#[test]
fn ticks_are_a_minute_apart() {
    assert_eq!(DEFAULT_TICK_INTERVAL_SECS, 60);
}

fn ids() -> dmandate::scheduler::ProgramIds {
    dmandate::scheduler::ProgramIds {
        mandate_program: key(200),
        token_program: key(201),
        associated_token_program: key(202),
        system_program: key(0),
    }
}

#[test]
fn payment_instruction_names_accounts_in_order() {
    let m = mandate(1000, true, 3);
    let refs = execute_accounts(&key(9), &key(10), &m, &ids()).unwrap();
    let receipt = find_payment_history_address(&key(10), 3, &key(200)).unwrap().0;
    let payer_ata = find_associated_token_address(&key(1), &key(3), &key(201), &key(202)).unwrap().0;
    let payee_ata = find_associated_token_address(&key(2), &key(3), &key(201), &key(202)).unwrap().0;
    assert_ne!(payer_ata, payee_ata);
    assert_ne!(payer_ata, key(1));
    let expected = vec![
        AccountRef { address: key(9), writable: true, signer: true },
        AccountRef { address: key(1), writable: true, signer: false },
        AccountRef { address: payer_ata, writable: true, signer: false },
        AccountRef { address: key(2), writable: true, signer: false },
        AccountRef { address: key(10), writable: true, signer: false },
        AccountRef { address: receipt, writable: true, signer: false },
        AccountRef { address: key(3), writable: false, signer: false },
        AccountRef { address: payee_ata, writable: true, signer: false },
        AccountRef { address: key(202), writable: false, signer: false },
        AccountRef { address: key(201), writable: false, signer: false },
        AccountRef { address: key(0), writable: false, signer: false },
    ];
    assert_eq!(refs, expected);
}

#[test]
fn holding_accounts_depend_on_the_mint() {
    let a = find_associated_token_address(&key(1), &key(3), &key(201), &key(202)).unwrap();
    let b = find_associated_token_address(&key(1), &key(4), &key(201), &key(202)).unwrap();
    let again = find_associated_token_address(&key(1), &key(3), &key(201), &key(202)).unwrap();
    assert_eq!(a, again);
    assert_ne!(a.0, b.0);
}

#[test]
fn holding_accounts_match_the_associated_token_program() {
    let wallet = anchor_lang::prelude::Pubkey::new_from_array([1u8; 32]);
    let mint = anchor_lang::prelude::Pubkey::new_from_array([3u8; 32]);
    let token_program = anchor_lang::prelude::Pubkey::new_from_array([201u8; 32]);
    let expected =
        spl_associated_token_account_client::address::get_associated_token_address_with_program_id(
            &wallet,
            &mint,
            &token_program,
        );
    let program = spl_associated_token_account_client::program::id();
    let ours = find_associated_token_address(&key(1), &key(3), &key(201), &Address::new(program.to_bytes())).unwrap();
    assert_eq!(ours.0, Address::new(expected.to_bytes()));
}
