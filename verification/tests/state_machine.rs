use nft_lending::agreement::{BorrowerPolicy, LoanAgreement, NftLendingError, OperationError};
use nft_lending::ledger::{transfer, Address, Authority, TokenAccount, TransferError};
use nft_lending::operations::{borrow, close, loan, repay, Borrow, Close, Loan, Repay};

fn addr(n: u64) -> Address {
    Address { w0: n, w1: 0, w2: 0, w3: 0 }
}

fn party(n: u64) -> Authority {
    Authority::Party { identity: addr(n) }
}

fn escrow_authority(agreement_key: Address, authority_bump: u8) -> Authority {
    Authority::EscrowAuthority { agreement_key, authority_bump }
}

fn acct(authority: Authority, amount: u64) -> TokenAccount {
    TokenAccount { authority, amount }
}

const LENDER: u64 = 11;
const BORROWER: u64 = 22;
const KEY: u64 = 77;
const BUMP: u8 = 254;

fn fresh_loan_ctx(lender_balance: u64) -> Loan {
    let key = addr(KEY);
    Loan {
        agreement_key: key,
        loan_agreement: LoanAgreement {
            authority_bump: 0,
            lender: addr(0),
            borrower: BorrowerPolicy::Unrestricted,
            loan_amount: 0,
            collateral_amount: 0,
            default_at: 0,
            borrowed: false,
        },
        loan: acct(escrow_authority(key, BUMP), 0),
        collateral: acct(escrow_authority(key, BUMP), 0),
        lender: addr(LENDER),
        lender_token_account: acct(party(LENDER), lender_balance),
    }
}

/// Creates an agreement with 100 loaned against 40 collateral, due at 5_000.
fn funded_setup() -> Loan {
    let mut ctx = fresh_loan_ctx(1_000);
    let r = loan(
        &mut ctx,
        BUMP,
        100,
        40,
        5_000,
        BorrowerPolicy::RestrictedTo(addr(BORROWER)),
    );
    assert!(r.is_ok());
    ctx
}

fn borrow_ctx_from(funded: &Loan) -> Borrow {
    Borrow {
        agreement_key: funded.agreement_key,
        loan_agreement: funded.loan_agreement,
        loan: funded.loan,
        collateral: funded.collateral,
        borrower: addr(BORROWER),
        borrower_loan_token_account: acct(party(BORROWER), 7),
        borrower_collateral_token_account: acct(party(BORROWER), 500),
    }
}

#[test]
fn loan_succeeds_and_funds_escrow() {
    let mut ctx = fresh_loan_ctx(1_000);
    let r = loan(&mut ctx, BUMP, 100, 40, 5_000, BorrowerPolicy::Unrestricted);
    assert_eq!(r, Ok(()));
    assert_eq!(ctx.loan.amount, 100);
    assert_eq!(ctx.collateral.amount, 0);
    assert_eq!(ctx.lender_token_account.amount, 900);
    assert!(!ctx.loan_agreement.borrowed);
    assert_eq!(ctx.loan_agreement.loan_amount, 100);
    assert_eq!(ctx.loan_agreement.collateral_amount, 40);
    assert_eq!(ctx.loan_agreement.default_at, 5_000);
    assert_eq!(ctx.loan_agreement.authority_bump, BUMP);
    assert_eq!(ctx.loan_agreement.lender, addr(LENDER));
}

#[test]
fn loan_zero_loan_amount_fails_without_effect() {
    let mut ctx = fresh_loan_ctx(1_000);
    let before = ctx;
    let r = loan(&mut ctx, BUMP, 0, 40, 5_000, BorrowerPolicy::Unrestricted);
    assert_eq!(
        r,
        Err(OperationError::Lending(NftLendingError::LoanCannotBeZero))
    );
    assert_eq!(ctx, before);
}

#[test]
fn loan_zero_collateral_amount_fails_without_effect() {
    let mut ctx = fresh_loan_ctx(1_000);
    let before = ctx;
    let r = loan(&mut ctx, BUMP, 100, 0, 5_000, BorrowerPolicy::Unrestricted);
    assert_eq!(
        r,
        Err(OperationError::Lending(NftLendingError::CollateralCannotBeZero))
    );
    assert_eq!(ctx, before);
}

#[test]
fn loan_insufficient_lender_balance_fails_without_effect() {
    let mut ctx = fresh_loan_ctx(1_000);
    let before = ctx;
    let r = loan(&mut ctx, BUMP, 2_000, 40, 5_000, BorrowerPolicy::Unrestricted);
    assert_eq!(
        r,
        Err(OperationError::Transfer(TransferError::InsufficientBalance))
    );
    assert_eq!(ctx, before);
}

#[test]
fn borrow_activates_agreement() {
    let funded = funded_setup();
    let mut ctx = borrow_ctx_from(&funded);
    let r = borrow(&mut ctx, 100, 40);
    assert_eq!(r, Ok(()));
    assert!(ctx.loan_agreement.borrowed);
    assert_eq!(ctx.loan.amount, 0);
    assert_eq!(ctx.collateral.amount, 40);
    assert_eq!(ctx.borrower_loan_token_account.amount, 107);
    assert_eq!(ctx.borrower_collateral_token_account.amount, 460);
}

#[test]
fn borrow_mismatched_expected_loan_amount_fails_without_effect() {
    let funded = funded_setup();
    let mut ctx = borrow_ctx_from(&funded);
    let before = ctx;
    let r = borrow(&mut ctx, 99, 40);
    assert_eq!(
        r,
        Err(OperationError::Lending(NftLendingError::UnexpectedLoanAgreement))
    );
    assert_eq!(ctx, before);
}

#[test]
fn borrow_mismatched_expected_collateral_fails_without_effect() {
    let funded = funded_setup();
    let mut ctx = borrow_ctx_from(&funded);
    let before = ctx;
    let r = borrow(&mut ctx, 100, 41);
    assert_eq!(
        r,
        Err(OperationError::Lending(NftLendingError::UnexpectedLoanAgreement))
    );
    assert_eq!(ctx, before);
}

#[test]
fn borrow_by_wrong_party_fails_even_with_correct_amounts() {
    let funded = funded_setup();
    let mut ctx = borrow_ctx_from(&funded);
    ctx.borrower = addr(33);
    ctx.borrower_loan_token_account = acct(party(33), 7);
    ctx.borrower_collateral_token_account = acct(party(33), 500);
    let before = ctx;
    let r = borrow(&mut ctx, 100, 40);
    assert_eq!(
        r,
        Err(OperationError::Lending(NftLendingError::IncorrectBorrower))
    );
    assert_eq!(ctx, before);
}

#[test]
fn borrow_unrestricted_admits_any_party() {
    let mut created = fresh_loan_ctx(1_000);
    let r = loan(&mut created, BUMP, 100, 40, 5_000, BorrowerPolicy::Unrestricted);
    assert!(r.is_ok());
    let mut ctx = borrow_ctx_from(&created);
    ctx.borrower = addr(33);
    ctx.borrower_loan_token_account = acct(party(33), 0);
    ctx.borrower_collateral_token_account = acct(party(33), 40);
    let r = borrow(&mut ctx, 100, 40);
    assert_eq!(r, Ok(()));
    assert_eq!(ctx.borrower_loan_token_account.amount, 100);
    assert_eq!(ctx.borrower_collateral_token_account.amount, 0);
}

fn active_setup() -> Borrow {
    let funded = funded_setup();
    let mut ctx = borrow_ctx_from(&funded);
    let r = borrow(&mut ctx, 100, 40);
    assert!(r.is_ok());
    ctx
}

fn repay_ctx_from(active: &Borrow) -> Repay {
    Repay {
        agreement_key: active.agreement_key,
        loan_agreement: active.loan_agreement,
        loan: active.loan,
        collateral: active.collateral,
        borrower: active.borrower,
        borrower_loan_token_account: active.borrower_loan_token_account,
        borrower_collateral_token_account: active.borrower_collateral_token_account,
    }
}

#[test]
fn repay_returns_to_funded_and_releases_collateral() {
    let active = active_setup();
    let mut ctx = repay_ctx_from(&active);
    let r = repay(&mut ctx);
    assert_eq!(r, Ok(()));
    assert!(!ctx.loan_agreement.borrowed);
    assert_eq!(ctx.loan.amount, 100);
    assert_eq!(ctx.collateral.amount, 0);
    assert_eq!(ctx.borrower_loan_token_account.amount, 7);
    assert_eq!(ctx.borrower_collateral_token_account.amount, 500);
}

#[test]
fn second_repay_fails_without_intervening_borrow() {
    let active = active_setup();
    let mut ctx = repay_ctx_from(&active);
    assert!(repay(&mut ctx).is_ok());
    let before = ctx;
    let r = repay(&mut ctx);
    assert!(matches!(r, Err(OperationError::Transfer(_))));
    assert_eq!(ctx, before);
}

fn close_ctx_from(agreement_key: Address, agreement: LoanAgreement, loan_escrow: TokenAccount, collateral_escrow: TokenAccount) -> Close {
    Close {
        agreement_key,
        loan_agreement: agreement,
        loan: loan_escrow,
        collateral: collateral_escrow,
        lender: agreement.lender,
        lender_loan_token_account: acct(party(LENDER), 900),
        lender_collateral_token_account: acct(party(LENDER), 3),
    }
}

#[test]
fn close_active_before_deadline_fails_without_effect() {
    let active = active_setup();
    let mut ctx = close_ctx_from(active.agreement_key, active.loan_agreement, active.loan, active.collateral);
    let before = ctx;
    let r = close(&mut ctx, 4_999);
    assert_eq!(
        r,
        Err(OperationError::Lending(NftLendingError::DefaultAtIsNotReached))
    );
    assert_eq!(ctx, before);
}

#[test]
fn close_active_exactly_at_deadline_reclaims_both_escrows() {
    let active = active_setup();
    let mut ctx = close_ctx_from(active.agreement_key, active.loan_agreement, active.loan, active.collateral);
    let r = close(&mut ctx, 5_000);
    assert_eq!(r, Ok(()));
    assert_eq!(ctx.loan.amount, 0);
    assert_eq!(ctx.collateral.amount, 0);
    // an active loan's escrows hold no loan funds and the full collateral
    assert_eq!(ctx.lender_loan_token_account.amount, 900);
    assert_eq!(ctx.lender_collateral_token_account.amount, 43);
}

#[test]
fn close_never_borrowed_succeeds_at_any_time() {
    let funded = funded_setup();
    let mut ctx = close_ctx_from(funded.agreement_key, funded.loan_agreement, funded.loan, funded.collateral);
    // well before the deadline: no deadline check applies when not borrowed
    let r = close(&mut ctx, -10_000);
    assert_eq!(r, Ok(()));
    assert_eq!(ctx.loan.amount, 0);
    assert_eq!(ctx.collateral.amount, 0);
    assert_eq!(ctx.lender_loan_token_account.amount, 1_000);
    assert_eq!(ctx.lender_collateral_token_account.amount, 3);
}

#[test]
fn full_cycle_returns_everything() {
    // Loan
    let mut created = fresh_loan_ctx(1_000);
    let r = loan(&mut created, BUMP, 100, 40, 5_000, BorrowerPolicy::RestrictedTo(addr(BORROWER)));
    assert_eq!(r, Ok(()));

    // Borrow
    let mut active = borrow_ctx_from(&created);
    let r = borrow(&mut active, 100, 40);
    assert_eq!(r, Ok(()));

    // Repay
    let mut repaid = repay_ctx_from(&active);
    let r = repay(&mut repaid);
    assert_eq!(r, Ok(()));
    assert_eq!(repaid.borrower_loan_token_account.amount, 7);
    assert_eq!(repaid.borrower_collateral_token_account.amount, 500);

    // Close, immediately: the loan is no longer outstanding
    let mut closed = Close {
        agreement_key: repaid.agreement_key,
        loan_agreement: repaid.loan_agreement,
        loan: repaid.loan,
        collateral: repaid.collateral,
        lender: addr(LENDER),
        lender_loan_token_account: created.lender_token_account,
        lender_collateral_token_account: acct(party(LENDER), 0),
    };
    let r = close(&mut closed, 0);
    assert_eq!(r, Ok(()));
    assert_eq!(closed.lender_loan_token_account.amount, 1_000);
    assert_eq!(closed.lender_collateral_token_account.amount, 0);
    assert_eq!(closed.loan.amount, 0);
    assert_eq!(closed.collateral.amount, 0);
}

#[test]
fn transfer_moves_exact_amount() {
    let mut from = acct(party(1), 50);
    let mut to = acct(party(2), 5);
    let r = transfer(&mut from, &mut to, &party(1), 20);
    assert_eq!(r, Ok(()));
    assert_eq!(from.amount, 30);
    assert_eq!(to.amount, 25);
}

#[test]
fn transfer_rejects_missing_authorization() {
    let mut from = acct(party(1), 50);
    let mut to = acct(party(2), 5);
    let r = transfer(&mut from, &mut to, &party(2), 20);
    assert_eq!(r, Err(TransferError::MissingAuthorization));
    assert_eq!(from.amount, 50);
    assert_eq!(to.amount, 5);
}

#[test]
fn transfer_rejects_insufficient_balance() {
    let mut from = acct(party(1), 10);
    let mut to = acct(party(2), 5);
    let r = transfer(&mut from, &mut to, &party(1), 20);
    assert_eq!(r, Err(TransferError::InsufficientBalance));
    assert_eq!(from.amount, 10);
}

#[test]
fn transfer_rejects_balance_overflow() {
    let mut from = acct(party(1), 10);
    let mut to = acct(party(2), u64::MAX - 3);
    let r = transfer(&mut from, &mut to, &party(1), 4);
    assert_eq!(r, Err(TransferError::BalanceOverflow));
    assert_eq!(to.amount, u64::MAX - 3);
}

#[test]
fn escrow_release_needs_derivation_proof() {
    // a party's signature does not control an escrow record
    let key = addr(KEY);
    let mut escrow = acct(escrow_authority(key, BUMP), 100);
    let mut thief = acct(party(33), 0);
    let r = transfer(&mut escrow, &mut thief, &party(33), 100);
    assert_eq!(r, Err(TransferError::MissingAuthorization));
    // the wrong disambiguation byte is not the derived authority either
    let r = transfer(&mut escrow, &mut thief, &escrow_authority(key, BUMP - 1), 100);
    assert_eq!(r, Err(TransferError::MissingAuthorization));
    // the derivation proof is
    let r = transfer(&mut escrow, &mut thief, &escrow_authority(key, BUMP), 100);
    assert_eq!(r, Ok(()));
}
