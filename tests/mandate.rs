use dmandate::address::{find_associated_token_address, u32_to_le_bytes};
use dmandate::{
    cancel_mandate, close_payment_history, create_mandate, execute_payment, find_mandate_address,
    find_payment_history_address, find_user_address, get_user_subscriptions, reapprove_mandate,
    register_user, Address, ApprovalPolicy, CancelMandate, ClosePaymentHistory, CreateMandate,
    Error, ExecutePayment, GetUserSubscriptions, Mandate, PaymentHistory, ReapproveMandate,
    RegisterUser, TokenCall, TopupAllowance, User,
};

const DAY: i64 = 86400;
const START: i64 = 1_700_000_000;

fn key(n: u8) -> Address {
    Address::new([n; 32])
}

fn program_id() -> Address {
    key(200)
}

fn payer() -> Address {
    key(1)
}

fn payee() -> Address {
    key(2)
}

fn token() -> Address {
    key(3)
}

fn token_program() -> Address {
    key(201)
}

fn associated_token_program() -> Address {
    key(202)
}

fn holding(wallet: Address) -> Address {
    find_associated_token_address(&wallet, &token(), &token_program(), &associated_token_program())
        .unwrap()
        .0
}

fn payer_ata() -> Address {
    holding(payer())
}

fn payee_ata() -> Address {
    holding(payee())
}

fn user(authority: Address, outgoing: u32, incoming: u32) -> User {
    User {
        authority,
        outgoing_subscriptions_count: outgoing,
        incoming_subscriptions_count: incoming,
        name: String::from("someone"),
        bump: 255,
    }
}

fn mandate_address() -> Address {
    find_mandate_address(&payer(), &payee(), &program_id()).unwrap().0
}

fn creation(payer_counts: (u32, u32), payee_counts: (u32, u32)) -> CreateMandate {
    CreateMandate {
        program_id: program_id(),
        payer: payer(),
        payee: payee(),
        token: token(),
        payer_ata: payer_ata(),
        token_program: token_program(),
        associated_token_program: associated_token_program(),
        mandate_address: mandate_address(),
        mandate: None,
        payer_user: user(payer(), payer_counts.0, payer_counts.1),
        payee_user: user(payee(), payee_counts.0, payee_counts.1),
    }
}

fn created_mandate() -> Mandate {
    let mut ctx = creation((0, 0), (0, 0));
    create_mandate(&mut ctx, 100, DAY, String::from("rent"), String::from("monthly rent"), START).unwrap();
    ctx.mandate.take().unwrap()
}

fn execution(mandate: Mandate) -> ExecutePayment {
    let history = find_payment_history_address(&mandate_address(), mandate.payment_count, &program_id())
        .unwrap()
        .0;
    ExecutePayment {
        program_id: program_id(),
        signer: key(9),
        payer_ata: payer_ata(),
        payee_ata: payee_ata(),
        token: token(),
        decimals: 6,
        token_program: token_program(),
        associated_token_program: associated_token_program(),
        mandate_address: mandate_address(),
        mandate,
        payment_history_address: history,
        payment_history: None,
    }
}

fn cancellation(mandate: Mandate, payer_counts: (u32, u32), payee_counts: (u32, u32)) -> CancelMandate {
    CancelMandate {
        program_id: program_id(),
        payer: payer(),
        token: token(),
        payer_ata: payer_ata(),
        token_program: token_program(),
        associated_token_program: associated_token_program(),
        mandate_address: mandate_address(),
        mandate: Some(mandate),
        payer_user: user(payer(), payer_counts.0, payer_counts.1),
        payee_user: user(payee(), payee_counts.0, payee_counts.1),
    }
}

#[test]
fn derived_addresses_are_deterministic_and_distinct() {
    let a = find_mandate_address(&payer(), &payee(), &program_id()).unwrap();
    let b = find_mandate_address(&payer(), &payee(), &program_id()).unwrap();
    assert_eq!(a, b);
    let reversed = find_mandate_address(&payee(), &payer(), &program_id()).unwrap();
    assert_ne!(a.0, reversed.0);
    let h0 = find_payment_history_address(&a.0, 0, &program_id()).unwrap();
    let h1 = find_payment_history_address(&a.0, 1, &program_id()).unwrap();
    assert_ne!(h0.0, h1.0);
    let u = find_user_address(&payer(), &program_id()).unwrap();
    assert_ne!(u.0, a.0);
    assert_ne!(a.0, payer());
}

#[test]
fn payment_numbers_are_little_endian_seeds() {
    assert_eq!(u32_to_le_bytes(0x0102_0304), vec![4u8, 3, 2, 1]);
    assert_eq!(u32_to_le_bytes(0), vec![0u8, 0, 0, 0]);
    assert_eq!(u32_to_le_bytes(u32::MAX), vec![255u8, 255, 255, 255]);
}

#[test]
fn creation_writes_one_mandate() {
    let mut ctx = creation((2, 5), (1, 0));
    let r = create_mandate(&mut ctx, 100, DAY, String::from("rent"), String::from("monthly rent"), START);
    assert_eq!(
        r,
        Ok(TokenCall::Approve { source: payer_ata(), delegate: mandate_address(), owner: payer(), amount: 300 })
    );
    let m = ctx.mandate.as_ref().unwrap();
    assert_eq!(m.payer, payer());
    assert_eq!(m.payee, payee());
    assert_eq!(m.token, token());
    assert_eq!(m.amount, 100);
    assert_eq!(m.frequency, DAY);
    assert!(m.active);
    assert_eq!(m.next_payout, START + DAY);
    assert_eq!(m.payment_count, 0);
    assert_eq!(m.name, "rent");
    assert_eq!(m.description, "monthly rent");
    let bump = find_mandate_address(&payer(), &payee(), &program_id()).unwrap().1;
    assert_eq!(m.bump, bump);
    assert_eq!(ctx.payer_user.outgoing_subscriptions_count, 3);
    assert_eq!(ctx.payer_user.incoming_subscriptions_count, 5);
    assert_eq!(ctx.payee_user.incoming_subscriptions_count, 1);
    assert_eq!(ctx.payee_user.outgoing_subscriptions_count, 1);

    let again = create_mandate(&mut ctx, 50, DAY, String::from("x"), String::from("y"), START + 5);
    assert_eq!(again, Err(Error::AlreadyInitialized));
    assert_eq!(ctx.mandate.as_ref().unwrap().amount, 100);
    assert_eq!(ctx.payer_user.outgoing_subscriptions_count, 3);
}

#[test]
fn creation_wraps_next_payout() {
    let mut ctx = creation((0, 0), (0, 0));
    create_mandate(&mut ctx, 1, 10, String::new(), String::new(), i64::MAX - 4).unwrap();
    assert_eq!(ctx.mandate.as_ref().unwrap().next_payout, i64::MIN + 5);
}

#[test]
fn creation_with_long_name_is_refused() {
    let mut ctx = creation((0, 0), (0, 0));
    let name = "a".repeat(21);
    let r = create_mandate(&mut ctx, 100, DAY, name, String::from("d"), START);
    assert_eq!(r, Err(Error::NameTooLong));
    assert!(ctx.mandate.is_none());
    assert_eq!(ctx.payer_user.outgoing_subscriptions_count, 0);
    assert_eq!(ctx.payee_user.incoming_subscriptions_count, 0);
}

#[test]
fn creation_accepts_texts_at_their_limits() {
    let mut ctx = creation((0, 0), (0, 0));
    let r = create_mandate(&mut ctx, 100, DAY, "a".repeat(20), "b".repeat(50), START);
    assert!(r.is_ok());
    assert!(ctx.mandate.is_some());
}

#[test]
fn names_are_measured_in_bytes() {
    let mut ctx = creation((0, 0), (0, 0));
    // eleven two-byte characters: 22 bytes
    let r = create_mandate(&mut ctx, 100, DAY, "é".repeat(11), String::new(), START);
    assert_eq!(r, Err(Error::NameTooLong));
}

#[test]
fn creation_with_long_description_is_refused() {
    let mut ctx = creation((0, 0), (0, 0));
    let r = create_mandate(&mut ctx, 100, DAY, String::from("n"), "d".repeat(51), START);
    assert_eq!(r, Err(Error::DescriptionTooLong));
    assert!(ctx.mandate.is_none());
}

#[test]
fn creation_at_a_foreign_address_is_refused() {
    let mut ctx = creation((0, 0), (0, 0));
    ctx.mandate_address = key(77);
    let r = create_mandate(&mut ctx, 100, DAY, String::from("n"), String::from("d"), START);
    assert_eq!(r, Err(Error::InvalidAuthority));
    let mut ctx = creation((0, 0), (0, 0));
    ctx.payee_user.authority = key(78);
    let r = create_mandate(&mut ctx, 100, DAY, String::from("n"), String::from("d"), START);
    assert_eq!(r, Err(Error::InvalidAuthority));
    assert!(ctx.mandate.is_none());
}

#[test]
fn early_payment_is_refused() {
    let mut ctx = execution(created_mandate());
    let r = execute_payment(&mut ctx, START);
    assert_eq!(r, Err(Error::PaymentTooEarly));
    let r = execute_payment(&mut ctx, START + DAY - 1);
    assert_eq!(r, Err(Error::PaymentTooEarly));
    assert_eq!(ctx.mandate.payment_count, 0);
    assert_eq!(ctx.mandate.next_payout, START + DAY);
    assert!(ctx.payment_history.is_none());
}

#[test]
fn due_payment_transfers_and_advances() {
    let mut ctx = execution(created_mandate());
    let history_address = ctx.payment_history_address;
    let r = execute_payment(&mut ctx, START + DAY + 30);
    assert_eq!(
        r,
        Ok(TokenCall::TransferChecked {
            source: payer_ata(),
            mint: token(),
            destination: payee_ata(),
            authority: mandate_address(),
            amount: 100,
            decimals: 6,
        })
    );
    assert_eq!(ctx.mandate.payment_count, 1);
    assert_eq!(ctx.mandate.next_payout, START + 2 * DAY + 30);
    let bump = find_payment_history_address(&mandate_address(), 0, &program_id()).unwrap();
    assert_eq!(bump.0, history_address);
    assert_eq!(
        ctx.payment_history,
        Some(PaymentHistory {
            mandate: mandate_address(),
            amount: 100,
            timestamp: START + DAY + 30,
            payment_number: 0,
            bump: bump.1,
        })
    );
}

#[test]
fn second_concurrent_payment_is_refused() {
    let mut first = execution(created_mandate());
    assert!(execute_payment(&mut first, START + DAY).is_ok());
    let mut second = execution(first.mandate);
    let r = execute_payment(&mut second, START + DAY);
    assert_eq!(r, Err(Error::PaymentTooEarly));
    assert_eq!(second.mandate.payment_count, 1);
    assert!(second.payment_history.is_none());
}

#[test]
fn payment_with_wrong_receipt_address_is_refused() {
    let mut ctx = execution(created_mandate());
    ctx.payment_history_address = key(99);
    assert_eq!(execute_payment(&mut ctx, START + DAY), Err(Error::InvalidPaymentHistory));
    assert_eq!(ctx.mandate.payment_count, 0);
}

#[test]
fn payment_of_a_foreign_token_is_refused() {
    let mut ctx = execution(created_mandate());
    ctx.token = key(98);
    assert_eq!(execute_payment(&mut ctx, START + DAY), Err(Error::InvalidAuthority));
}

#[test]
fn payment_of_inactive_mandate_is_refused() {
    let mut m = created_mandate();
    m.active = false;
    let mut ctx = execution(m);
    assert_eq!(execute_payment(&mut ctx, START + DAY), Err(Error::MandateInactive));
}

#[test]
fn cancel_revokes_and_uncounts() {
    let mut ctx = cancellation(created_mandate(), (3, 1), (0, 2));
    let r = cancel_mandate(&mut ctx);
    assert_eq!(r, Ok(TokenCall::Revoke { source: payer_ata(), owner: payer() }));
    assert!(ctx.mandate.is_none());
    assert_eq!(ctx.payer_user.outgoing_subscriptions_count, 2);
    assert_eq!(ctx.payer_user.incoming_subscriptions_count, 1);
    assert_eq!(ctx.payee_user.incoming_subscriptions_count, 1);
    assert_eq!(ctx.payee_user.outgoing_subscriptions_count, 0);
}

#[test]
fn cancel_keeps_zero_counts_at_zero() {
    let mut ctx = cancellation(created_mandate(), (0, 0), (0, 0));
    assert!(cancel_mandate(&mut ctx).is_ok());
    assert_eq!(ctx.payer_user.outgoing_subscriptions_count, 0);
    assert_eq!(ctx.payee_user.incoming_subscriptions_count, 0);
}

#[test]
fn cancel_by_someone_else_is_refused() {
    let mut ctx = cancellation(created_mandate(), (1, 0), (0, 1));
    ctx.payer = payee();
    assert_eq!(cancel_mandate(&mut ctx), Err(Error::Unauthorized));
    assert!(ctx.mandate.is_some());
    assert_eq!(ctx.payer_user.outgoing_subscriptions_count, 1);
}

#[test]
fn cancel_of_missing_mandate_is_refused() {
    let mut ctx = cancellation(created_mandate(), (1, 0), (0, 1));
    ctx.mandate = None;
    assert_eq!(cancel_mandate(&mut ctx), Err(Error::MandateInactive));
}

#[test]
fn full_lifecycle_restores_counts() {
    let mut create = creation((4, 2), (0, 7));
    create_mandate(&mut create, 100, DAY, String::from("gym"), String::from("membership"), START).unwrap();
    let mut exec = execution(create.mandate.take().unwrap());
    let created_payer = create.payer_user;
    let created_payee = create.payee_user;
    assert_eq!(created_payer.outgoing_subscriptions_count, 5);
    assert_eq!(created_payee.incoming_subscriptions_count, 8);

    assert_eq!(execute_payment(&mut exec, START), Err(Error::PaymentTooEarly));
    let before = exec.mandate.next_payout;
    assert!(execute_payment(&mut exec, START + DAY).is_ok());
    assert_eq!(exec.mandate.payment_count, 1);
    assert_eq!(exec.mandate.next_payout, before + DAY);

    let mut cancel = CancelMandate {
        program_id: program_id(),
        payer: payer(),
        token: token(),
        payer_ata: payer_ata(),
        token_program: token_program(),
        associated_token_program: associated_token_program(),
        mandate_address: mandate_address(),
        mandate: Some(exec.mandate),
        payer_user: created_payer,
        payee_user: created_payee,
    };
    assert!(cancel_mandate(&mut cancel).is_ok());
    assert_eq!(cancel.payer_user.outgoing_subscriptions_count, 4);
    assert_eq!(cancel.payer_user.incoming_subscriptions_count, 2);
    assert_eq!(cancel.payee_user.incoming_subscriptions_count, 7);
    assert_eq!(cancel.payee_user.outgoing_subscriptions_count, 0);
}

fn reapproval(mandate: Mandate) -> ReapproveMandate {
    ReapproveMandate {
        program_id: program_id(),
        payer: payer(),
        token: token(),
        payer_ata: payer_ata(),
        token_program: token_program(),
        associated_token_program: associated_token_program(),
        mandate_address: mandate_address(),
        mandate,
    }
}

#[test]
fn reapproval_follows_its_policy() {
    let ctx = reapproval(created_mandate());
    let chosen = reapprove_mandate(&ctx, 1234, ApprovalPolicy::CallerChosen);
    assert_eq!(
        chosen,
        Ok(TokenCall::Approve { source: payer_ata(), delegate: mandate_address(), owner: payer(), amount: 1234 })
    );
    let fixed = reapprove_mandate(&ctx, 1234, ApprovalPolicy::PeriodicAmount);
    assert_eq!(
        fixed,
        Ok(TokenCall::Approve { source: payer_ata(), delegate: mandate_address(), owner: payer(), amount: 100 })
    );
}

#[test]
fn reapproval_checks_payer_and_token() {
    let mut ctx = reapproval(created_mandate());
    ctx.payer = key(50);
    assert_eq!(reapprove_mandate(&ctx, 1, ApprovalPolicy::CallerChosen), Err(Error::Unauthorized));
    let mut ctx = reapproval(created_mandate());
    ctx.token = key(51);
    assert_eq!(reapprove_mandate(&ctx, 1, ApprovalPolicy::CallerChosen), Err(Error::InvalidAuthority));
}

#[test]
fn topup_resets_to_one_period() {
    let ctx = TopupAllowance {
        program_id: program_id(),
        payer: payer(),
        token: token(),
        payer_ata: payer_ata(),
        token_program: token_program(),
        associated_token_program: associated_token_program(),
        mandate_address: mandate_address(),
        mandate: created_mandate(),
    };
    assert_eq!(
        ctx.topup_allowance(),
        Ok(TokenCall::Approve { source: payer_ata(), delegate: mandate_address(), owner: payer(), amount: 100 })
    );
}

fn receipt_closing(authority: Address) -> ClosePaymentHistory {
    let (history_address, bump) = find_payment_history_address(&mandate_address(), 0, &program_id()).unwrap();
    ClosePaymentHistory {
        program_id: program_id(),
        authority,
        mandate_address: mandate_address(),
        mandate: created_mandate(),
        payment_history_address: history_address,
        payment_history: Some(PaymentHistory {
            mandate: mandate_address(),
            amount: 100,
            timestamp: START + DAY,
            payment_number: 0,
            bump,
        }),
    }
}

#[test]
fn either_party_closes_a_receipt() {
    let mut by_payer = receipt_closing(payer());
    assert_eq!(close_payment_history(&mut by_payer), Ok(()));
    assert!(by_payer.payment_history.is_none());
    let mut by_payee = receipt_closing(payee());
    assert_eq!(close_payment_history(&mut by_payee), Ok(()));
    assert!(by_payee.payment_history.is_none());
}

#[test]
fn a_stranger_cannot_close_a_receipt() {
    let mut ctx = receipt_closing(key(60));
    assert_eq!(close_payment_history(&mut ctx), Err(Error::Unauthorized));
    assert!(ctx.payment_history.is_some());
}

#[test]
fn a_foreign_receipt_is_not_closed() {
    let mut ctx = receipt_closing(payer());
    if let Some(h) = ctx.payment_history.as_mut() {
        h.mandate = key(61);
    }
    assert_eq!(close_payment_history(&mut ctx), Err(Error::InvalidPaymentHistory));
    let mut ctx = receipt_closing(payer());
    ctx.payment_history = None;
    assert_eq!(close_payment_history(&mut ctx), Err(Error::InvalidPaymentHistory));
    let mut ctx = receipt_closing(payer());
    ctx.payment_history_address = key(62);
    assert_eq!(close_payment_history(&mut ctx), Err(Error::InvalidPaymentHistory));
}

fn registration() -> RegisterUser {
    RegisterUser {
        program_id: program_id(),
        authority: payer(),
        user_address: find_user_address(&payer(), &program_id()).unwrap().0,
        user: None,
    }
}

#[test]
fn registration_starts_counts_at_zero() {
    let mut ctx = registration();
    assert_eq!(register_user(&mut ctx, String::from("alice")), Ok(()));
    let u = ctx.user.as_ref().unwrap();
    assert_eq!(u.authority, payer());
    assert_eq!(u.outgoing_subscriptions_count, 0);
    assert_eq!(u.incoming_subscriptions_count, 0);
    assert_eq!(u.name, "alice");
    assert_eq!(u.bump, find_user_address(&payer(), &program_id()).unwrap().1);
    assert_eq!(register_user(&mut ctx, String::from("again")), Err(Error::AlreadyInitialized));
}

#[test]
fn registration_refuses_long_names() {
    let mut ctx = registration();
    assert_eq!(register_user(&mut ctx, "x".repeat(33)), Err(Error::NameTooLong));
    assert!(ctx.user.is_none());
    assert_eq!(register_user(&mut ctx, "x".repeat(32)), Ok(()));
}

#[test]
fn subscription_counts_are_read_by_their_owner() {
    let ctx = GetUserSubscriptions { authority: payer(), user: user(payer(), 3, 4) };
    assert_eq!(get_user_subscriptions(&ctx), Ok((3, 4)));
    let ctx = GetUserSubscriptions { authority: payee(), user: user(payer(), 3, 4) };
    assert_eq!(get_user_subscriptions(&ctx), Err(Error::Unauthorized));
}

#[test]
fn errors_have_messages() {
    assert_eq!(Error::PaymentTooEarly.message(), "Payment cannot be executed before the scheduled time");
    assert_eq!(Error::NameTooLong.message(), "Name too long");
}

#[test]
fn payment_to_a_substituted_holding_account_is_refused() {
    let mut ctx = execution(created_mandate());
    ctx.payee_ata = holding(key(66));
    assert_eq!(execute_payment(&mut ctx, START + DAY), Err(Error::InvalidAuthority));
    assert_eq!(ctx.mandate.payment_count, 0);
    assert!(ctx.payment_history.is_none());
    let mut ctx = execution(created_mandate());
    ctx.payee_ata = ctx.payer_ata;
    assert_eq!(execute_payment(&mut ctx, START + DAY), Err(Error::InvalidAuthority));
    let mut ctx = execution(created_mandate());
    ctx.payer_ata = holding(key(66));
    assert_eq!(execute_payment(&mut ctx, START + DAY), Err(Error::InvalidAuthority));
    assert_eq!(ctx.mandate.next_payout, START + DAY);
}

#[test]
fn cancel_through_another_holding_account_is_refused() {
    let mut ctx = cancellation(created_mandate(), (1, 0), (0, 1));
    ctx.payer_ata = key(67);
    assert_eq!(cancel_mandate(&mut ctx), Err(Error::InvalidAuthority));
    assert!(ctx.mandate.is_some());
    assert_eq!(ctx.payer_user.outgoing_subscriptions_count, 1);
}

#[test]
fn creation_through_another_holding_account_is_refused() {
    let mut ctx = creation((0, 0), (0, 0));
    ctx.payer_ata = payee_ata();
    let r = create_mandate(&mut ctx, 100, DAY, String::from("n"), String::from("d"), START);
    assert_eq!(r, Err(Error::InvalidAuthority));
    assert!(ctx.mandate.is_none());
}

#[test]
fn reapproval_through_another_holding_account_is_refused() {
    let mut ctx = reapproval(created_mandate());
    ctx.payer_ata = key(68);
    assert_eq!(reapprove_mandate(&ctx, 1, ApprovalPolicy::CallerChosen), Err(Error::InvalidAuthority));
}
