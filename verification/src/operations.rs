use vstd::prelude::*;
use crate::agreement::BorrowerPolicy;
use crate::agreement::LoanAgreement;
use crate::agreement::NftLendingError;
use crate::agreement::OperationError;
use crate::ledger::Address;
use crate::ledger::Authority;
use crate::ledger::TokenAccount;
use crate::ledger::spec_transfer_apply;
use crate::ledger::spec_transfer_err;
use crate::ledger::spec_transfer_ok;
use crate::ledger::transfer;
use crate::ledger::transfer_check;
use crate::validation::validate_borrow_terms;
use crate::validation::validate_borrower;
use crate::validation::validate_close_deadline;
use crate::validation::validate_creation_amounts;

verus! {

/// The custodial authority over the escrow pair of the agreement stored at
/// `agreement_key`, reconstructed from the stored disambiguation byte.
pub open spec fn spec_escrow_authority(agreement_key: Address, authority_bump: u8) -> Authority {
    Authority::EscrowAuthority { agreement_key, authority_bump }
}

/// Accounts of the creation step: a fresh agreement record with its fresh
/// escrow pair, and the funding lender.
#[derive(Clone, Copy, Debug, PartialEq, Eq, Structural)]
pub struct Loan {
    /// address of the fresh agreement record
    pub agreement_key: Address,
    /// the agreement record, filled in by `loan`
    pub loan_agreement: LoanAgreement,
    /// the loan-fund escrow
    pub loan: TokenAccount,
    /// the collateral escrow
    pub collateral: TokenAccount,
    /// the signing lender
    pub lender: Address,
    /// the lender's external loan-asset balance
    pub lender_token_account: TokenAccount,
}

impl Loan {
    /// What the provisioning layer guarantees before `loan` runs: both escrow
    /// records are freshly created empty, under the custodial authority
    /// derived from the agreement's address with the disambiguation byte
    /// `bump`.
    pub open spec fn wf(self, bump: u8) -> bool {
        &&& self.loan.authority == spec_escrow_authority(self.agreement_key, bump)
        &&& self.collateral.authority == spec_escrow_authority(self.agreement_key, bump)
        &&& self.loan.amount == 0
        &&& self.collateral.amount == 0
    }
}

/// The agreement record as `loan` fills it on success.
pub open spec fn spec_created_agreement(
    ctx: Loan,
    bump: u8,
    loan_amount: u64,
    collateral_amount: u64,
    default_at: i64,
    borrower: BorrowerPolicy,
) -> LoanAgreement {
    LoanAgreement {
        authority_bump: bump,
        lender: ctx.lender,
        borrower,
        loan_amount,
        collateral_amount,
        default_at,
        borrowed: false,
    }
}

/// Full functional specification of `loan`: the accounts after the call,
/// paired with its result.
pub open spec fn loan_outcome(
    ctx: Loan,
    bump: u8,
    loan_amount: u64,
    collateral_amount: u64,
    default_at: i64,
    borrower: BorrowerPolicy,
) -> (Loan, Result<(), OperationError>) {
    let lender_authority = Authority::Party { identity: ctx.lender };
    if loan_amount == 0 {
        (ctx, Err(OperationError::Lending(NftLendingError::LoanCannotBeZero)))
    } else if collateral_amount == 0 {
        (ctx, Err(OperationError::Lending(NftLendingError::CollateralCannotBeZero)))
    } else {
        match spec_transfer_err(ctx.lender_token_account, ctx.loan, lender_authority, loan_amount) {
            Some(e) => (ctx, Err(OperationError::Transfer(e))),
            None => {
                let (debited, credited) = spec_transfer_apply(
                    ctx.lender_token_account,
                    ctx.loan,
                    loan_amount,
                );
                (
                    Loan {
                        loan_agreement: spec_created_agreement(
                            ctx,
                            bump,
                            loan_amount,
                            collateral_amount,
                            default_at,
                            borrower,
                        ),
                        loan: credited,
                        lender_token_account: debited,
                        ..ctx
                    },
                    Ok(()),
                )
            },
        }
    }
}

/// Exactly when `loan` succeeds: positive amounts, and the transfer port
/// accepts the lender's funding transfer into the loan escrow.
pub open spec fn loan_ok(ctx: Loan, loan_amount: u64, collateral_amount: u64) -> bool {
    &&& loan_amount > 0
    &&& collateral_amount > 0
    &&& spec_transfer_ok(
        ctx.lender_token_account,
        ctx.loan,
        Authority::Party { identity: ctx.lender },
        loan_amount,
    )
}

/// Creation step. Validates the terms, debits `loan_amount` from the lender's
/// balance into the loan escrow, and fills the agreement record: terms fixed,
/// the disambiguation byte stored, no loan outstanding. On any failure
/// nothing changes.
pub fn loan(
    ctx: &mut Loan,
    bump: u8,
    loan_amount: u64,
    collateral_amount: u64,
    default_at: i64,
    borrower: BorrowerPolicy,
) -> (r: Result<(), OperationError>)
    ensures
        (*final(ctx), r) == loan_outcome(
            *old(ctx),
            bump,
            loan_amount,
            collateral_amount,
            default_at,
            borrower,
        ),
        r is Ok <==> loan_ok(*old(ctx), loan_amount, collateral_amount),
{
    match validate_creation_amounts(loan_amount, collateral_amount) {
        Err(e) => {
            return Err(OperationError::Lending(e));
        },
        Ok(()) => {},
    }
    let lender_authority = Authority::Party { identity: ctx.lender };
    match transfer(&mut ctx.lender_token_account, &mut ctx.loan, &lender_authority, loan_amount) {
        Err(e) => {
            return Err(OperationError::Transfer(e));
        },
        Ok(()) => {},
    }
    ctx.loan_agreement = LoanAgreement {
        authority_bump: bump,
        lender: ctx.lender,
        borrower,
        loan_amount,
        collateral_amount,
        default_at,
        borrowed: false,
    };
    Ok(())
}

/// Accounts of the borrow step: the agreement with its escrow pair, the
/// signing borrower, and the borrower's two external balances.
#[derive(Clone, Copy, Debug, PartialEq, Eq, Structural)]
pub struct Borrow {
    /// address of the agreement record
    pub agreement_key: Address,
    /// the agreement record
    pub loan_agreement: LoanAgreement,
    /// the loan-fund escrow
    pub loan: TokenAccount,
    /// the collateral escrow
    pub collateral: TokenAccount,
    /// the signing borrower
    pub borrower: Address,
    /// the borrower's external loan-asset balance
    pub borrower_loan_token_account: TokenAccount,
    /// the borrower's external collateral-asset balance
    pub borrower_collateral_token_account: TokenAccount,
}

impl Borrow {
    /// What the account constraints guarantee before `borrow` runs: both
    /// escrows are controlled by the authority reconstructed from the
    /// agreement's address and its stored disambiguation byte.
    pub open spec fn wf(self) -> bool {
        &&& self.loan.authority == spec_escrow_authority(
            self.agreement_key,
            self.loan_agreement.authority_bump,
        )
        &&& self.collateral.authority == spec_escrow_authority(
            self.agreement_key,
            self.loan_agreement.authority_bump,
        )
    }
}

/// Full functional specification of `borrow`: the accounts after the call,
/// paired with its result.
pub open spec fn borrow_outcome(ctx: Borrow, expected_amount: u64, collateral_amount: u64) -> (
    Borrow,
    Result<(), OperationError>,
) {
    let borrower_authority = Authority::Party { identity: ctx.borrower };
    let escrow_authority = spec_escrow_authority(
        ctx.agreement_key,
        ctx.loan_agreement.authority_bump,
    );
    if ctx.loan_agreement.collateral_amount != collateral_amount || ctx.loan.amount
        != expected_amount {
        (ctx, Err(OperationError::Lending(NftLendingError::UnexpectedLoanAgreement)))
    } else if !ctx.loan_agreement.borrower.allows(ctx.borrower) {
        (ctx, Err(OperationError::Lending(NftLendingError::IncorrectBorrower)))
    } else {
        match spec_transfer_err(
            ctx.borrower_collateral_token_account,
            ctx.collateral,
            borrower_authority,
            ctx.loan_agreement.collateral_amount,
        ) {
            Some(e) => (ctx, Err(OperationError::Transfer(e))),
            None => match spec_transfer_err(
                ctx.loan,
                ctx.borrower_loan_token_account,
                escrow_authority,
                ctx.loan_agreement.loan_amount,
            ) {
                Some(e) => (ctx, Err(OperationError::Transfer(e))),
                None => {
                    let (collateral_debited, collateral_escrow) = spec_transfer_apply(
                        ctx.borrower_collateral_token_account,
                        ctx.collateral,
                        ctx.loan_agreement.collateral_amount,
                    );
                    let (loan_escrow, loan_credited) = spec_transfer_apply(
                        ctx.loan,
                        ctx.borrower_loan_token_account,
                        ctx.loan_agreement.loan_amount,
                    );
                    (
                        Borrow {
                            loan_agreement: LoanAgreement {
                                borrowed: true,
                                ..ctx.loan_agreement
                            },
                            loan: loan_escrow,
                            collateral: collateral_escrow,
                            borrower_loan_token_account: loan_credited,
                            borrower_collateral_token_account: collateral_debited,
                            ..ctx
                        },
                        Ok(()),
                    )
                },
            },
        }
    }
}

/// Exactly when `borrow` succeeds: the expected terms match, the caller is an
/// allowed borrower, and the transfer port accepts both legs — the collateral
/// lock under the caller's signature and the loan release under the derived
/// escrow authority.
pub open spec fn borrow_ok(ctx: Borrow, expected_amount: u64, collateral_amount: u64) -> bool {
    &&& ctx.loan_agreement.collateral_amount == collateral_amount
    &&& ctx.loan.amount == expected_amount
    &&& ctx.loan_agreement.borrower.allows(ctx.borrower)
    &&& spec_transfer_ok(
        ctx.borrower_collateral_token_account,
        ctx.collateral,
        Authority::Party { identity: ctx.borrower },
        ctx.loan_agreement.collateral_amount,
    )
    &&& spec_transfer_ok(
        ctx.loan,
        ctx.borrower_loan_token_account,
        spec_escrow_authority(ctx.agreement_key, ctx.loan_agreement.authority_bump),
        ctx.loan_agreement.loan_amount,
    )
}

/// Borrow step. Validates that the caller's expected terms match the stored
/// agreement and the current loan-escrow balance, and that the caller is an
/// allowed borrower; then, as one atomic unit, locks the collateral into the
/// collateral escrow under the caller's own signature and releases the loan
/// funds to the caller under the derived escrow authority, and marks the loan
/// outstanding. On any failure nothing changes.
pub fn borrow(ctx: &mut Borrow, expected_amount: u64, collateral_amount: u64) -> (r: Result<
    (),
    OperationError,
>)
    ensures
        (*final(ctx), r) == borrow_outcome(*old(ctx), expected_amount, collateral_amount),
        r is Ok <==> borrow_ok(*old(ctx), expected_amount, collateral_amount),
{
    match validate_borrow_terms(
        &ctx.loan_agreement,
        ctx.loan.amount,
        expected_amount,
        collateral_amount,
    ) {
        Err(e) => {
            return Err(OperationError::Lending(e));
        },
        Ok(()) => {},
    }
    match validate_borrower(&ctx.loan_agreement.borrower, ctx.borrower) {
        Err(e) => {
            return Err(OperationError::Lending(e));
        },
        Ok(()) => {},
    }
    let borrower_authority = Authority::Party { identity: ctx.borrower };
    let escrow_authority = Authority::EscrowAuthority {
        agreement_key: ctx.agreement_key,
        authority_bump: ctx.loan_agreement.authority_bump,
    };
    // Both transfers are checked before either runs, so the operation either
    // commits whole or aborts without effect.
    match transfer_check(
        &ctx.borrower_collateral_token_account,
        &ctx.collateral,
        &borrower_authority,
        ctx.loan_agreement.collateral_amount,
    ) {
        Some(e) => {
            return Err(OperationError::Transfer(e));
        },
        None => {},
    }
    match transfer_check(
        &ctx.loan,
        &ctx.borrower_loan_token_account,
        &escrow_authority,
        ctx.loan_agreement.loan_amount,
    ) {
        Some(e) => {
            return Err(OperationError::Transfer(e));
        },
        None => {},
    }
    let collateral_amount_stored = ctx.loan_agreement.collateral_amount;
    match transfer(
        &mut ctx.borrower_collateral_token_account,
        &mut ctx.collateral,
        &borrower_authority,
        collateral_amount_stored,
    ) {
        Err(_) => unreached(),
        Ok(()) => {},
    }
    let loan_amount_stored = ctx.loan_agreement.loan_amount;
    match transfer(
        &mut ctx.loan,
        &mut ctx.borrower_loan_token_account,
        &escrow_authority,
        loan_amount_stored,
    ) {
        Err(_) => unreached(),
        Ok(()) => {},
    }
    ctx.loan_agreement.borrowed = true;
    Ok(())
}

/// Accounts of the repay step: the agreement with its escrow pair, the
/// signing repayer, and the repayer's two external balances.
#[derive(Clone, Copy, Debug, PartialEq, Eq, Structural)]
pub struct Repay {
    /// address of the agreement record
    pub agreement_key: Address,
    /// the agreement record
    pub loan_agreement: LoanAgreement,
    /// the loan-fund escrow
    pub loan: TokenAccount,
    /// the collateral escrow
    pub collateral: TokenAccount,
    /// the signing repayer
    pub borrower: Address,
    /// the repayer's external loan-asset balance
    pub borrower_loan_token_account: TokenAccount,
    /// the repayer's external collateral-asset balance
    pub borrower_collateral_token_account: TokenAccount,
}

impl Repay {
    /// What the account constraints guarantee before `repay` runs.
    pub open spec fn wf(self) -> bool {
        &&& self.loan.authority == spec_escrow_authority(
            self.agreement_key,
            self.loan_agreement.authority_bump,
        )
        &&& self.collateral.authority == spec_escrow_authority(
            self.agreement_key,
            self.loan_agreement.authority_bump,
        )
    }
}

/// Full functional specification of `repay`: the accounts after the call,
/// paired with its result.
pub open spec fn repay_outcome(ctx: Repay) -> (Repay, Result<(), OperationError>) {
    let borrower_authority = Authority::Party { identity: ctx.borrower };
    let escrow_authority = spec_escrow_authority(
        ctx.agreement_key,
        ctx.loan_agreement.authority_bump,
    );
    match spec_transfer_err(
        ctx.borrower_loan_token_account,
        ctx.loan,
        borrower_authority,
        ctx.loan_agreement.loan_amount,
    ) {
        Some(e) => (ctx, Err(OperationError::Transfer(e))),
        None => match spec_transfer_err(
            ctx.collateral,
            ctx.borrower_collateral_token_account,
            escrow_authority,
            ctx.loan_agreement.collateral_amount,
        ) {
            Some(e) => (ctx, Err(OperationError::Transfer(e))),
            None => {
                let (loan_debited, loan_escrow) = spec_transfer_apply(
                    ctx.borrower_loan_token_account,
                    ctx.loan,
                    ctx.loan_agreement.loan_amount,
                );
                let (collateral_escrow, collateral_credited) = spec_transfer_apply(
                    ctx.collateral,
                    ctx.borrower_collateral_token_account,
                    ctx.loan_agreement.collateral_amount,
                );
                (
                    Repay {
                        loan_agreement: LoanAgreement { borrowed: false, ..ctx.loan_agreement },
                        loan: loan_escrow,
                        collateral: collateral_escrow,
                        borrower_loan_token_account: loan_debited,
                        borrower_collateral_token_account: collateral_credited,
                        ..ctx
                    },
                    Ok(()),
                )
            },
        },
    }
}

/// Exactly when `repay` succeeds: the transfer port accepts both legs — the
/// loan repayment under the caller's signature and the collateral release
/// under the derived escrow authority.
pub open spec fn repay_ok(ctx: Repay) -> bool {
    &&& spec_transfer_ok(
        ctx.borrower_loan_token_account,
        ctx.loan,
        Authority::Party { identity: ctx.borrower },
        ctx.loan_agreement.loan_amount,
    )
    &&& spec_transfer_ok(
        ctx.collateral,
        ctx.borrower_collateral_token_account,
        spec_escrow_authority(ctx.agreement_key, ctx.loan_agreement.authority_bump),
        ctx.loan_agreement.collateral_amount,
    )
}

/// Repay step. No identity check: any holder of a sufficient loan-asset
/// balance may repay. As one atomic unit, the caller returns the loan amount
/// into the loan escrow and the derived escrow authority releases the
/// collateral back to the caller, and the loan stops being outstanding. On
/// any failure nothing changes.
pub fn repay(ctx: &mut Repay) -> (r: Result<(), OperationError>)
    ensures
        (*final(ctx), r) == repay_outcome(*old(ctx)),
        r is Ok <==> repay_ok(*old(ctx)),
{
    let borrower_authority = Authority::Party { identity: ctx.borrower };
    let escrow_authority = Authority::EscrowAuthority {
        agreement_key: ctx.agreement_key,
        authority_bump: ctx.loan_agreement.authority_bump,
    };
    // Both transfers are checked before either runs, so the operation either
    // commits whole or aborts without effect.
    match transfer_check(
        &ctx.borrower_loan_token_account,
        &ctx.loan,
        &borrower_authority,
        ctx.loan_agreement.loan_amount,
    ) {
        Some(e) => {
            return Err(OperationError::Transfer(e));
        },
        None => {},
    }
    match transfer_check(
        &ctx.collateral,
        &ctx.borrower_collateral_token_account,
        &escrow_authority,
        ctx.loan_agreement.collateral_amount,
    ) {
        Some(e) => {
            return Err(OperationError::Transfer(e));
        },
        None => {},
    }
    let loan_amount_stored = ctx.loan_agreement.loan_amount;
    match transfer(
        &mut ctx.borrower_loan_token_account,
        &mut ctx.loan,
        &borrower_authority,
        loan_amount_stored,
    ) {
        Err(_) => unreached(),
        Ok(()) => {},
    }
    let collateral_amount_stored = ctx.loan_agreement.collateral_amount;
    match transfer(
        &mut ctx.collateral,
        &mut ctx.borrower_collateral_token_account,
        &escrow_authority,
        collateral_amount_stored,
    ) {
        Err(_) => unreached(),
        Ok(()) => {},
    }
    ctx.loan_agreement.borrowed = false;
    Ok(())
}

/// Accounts of the close step: the agreement with its escrow pair, the
/// signing lender, and the lender's two external balances.
#[derive(Clone, Copy, Debug, PartialEq, Eq, Structural)]
pub struct Close {
    /// address of the agreement record
    pub agreement_key: Address,
    /// the agreement record
    pub loan_agreement: LoanAgreement,
    /// the loan-fund escrow
    pub loan: TokenAccount,
    /// the collateral escrow
    pub collateral: TokenAccount,
    /// the signing lender
    pub lender: Address,
    /// the lender's external loan-asset balance
    pub lender_loan_token_account: TokenAccount,
    /// the lender's external collateral-asset balance
    pub lender_collateral_token_account: TokenAccount,
}

impl Close {
    /// What the account constraints guarantee before `close` runs: the escrow
    /// custody derivation, and that the signer is the agreement's lender.
    pub open spec fn wf(self) -> bool {
        &&& self.loan.authority == spec_escrow_authority(
            self.agreement_key,
            self.loan_agreement.authority_bump,
        )
        &&& self.collateral.authority == spec_escrow_authority(
            self.agreement_key,
            self.loan_agreement.authority_bump,
        )
        &&& self.lender == self.loan_agreement.lender
    }
}

/// Full functional specification of `close`: the accounts after the call,
/// paired with its result.
pub open spec fn close_outcome(ctx: Close, now: i64) -> (Close, Result<(), OperationError>) {
    let escrow_authority = spec_escrow_authority(
        ctx.agreement_key,
        ctx.loan_agreement.authority_bump,
    );
    if ctx.loan_agreement.borrowed && now < ctx.loan_agreement.default_at {
        (ctx, Err(OperationError::Lending(NftLendingError::DefaultAtIsNotReached)))
    } else {
        match spec_transfer_err(
            ctx.collateral,
            ctx.lender_collateral_token_account,
            escrow_authority,
            ctx.collateral.amount,
        ) {
            Some(e) => (ctx, Err(OperationError::Transfer(e))),
            None => match spec_transfer_err(
                ctx.loan,
                ctx.lender_loan_token_account,
                escrow_authority,
                ctx.loan.amount,
            ) {
                Some(e) => (ctx, Err(OperationError::Transfer(e))),
                None => {
                    let (collateral_escrow, collateral_credited) = spec_transfer_apply(
                        ctx.collateral,
                        ctx.lender_collateral_token_account,
                        ctx.collateral.amount,
                    );
                    let (loan_escrow, loan_credited) = spec_transfer_apply(
                        ctx.loan,
                        ctx.lender_loan_token_account,
                        ctx.loan.amount,
                    );
                    (
                        Close {
                            loan: loan_escrow,
                            collateral: collateral_escrow,
                            lender_loan_token_account: loan_credited,
                            lender_collateral_token_account: collateral_credited,
                            ..ctx
                        },
                        Ok(()),
                    )
                },
            },
        }
    }
}

/// Exactly when `close` succeeds: no outstanding loan before its deadline,
/// and the transfer port accepts the release of both full escrow balances to
/// the lender under the derived escrow authority.
pub open spec fn close_ok(ctx: Close, now: i64) -> bool {
    &&& !(ctx.loan_agreement.borrowed && now < ctx.loan_agreement.default_at)
    &&& spec_transfer_ok(
        ctx.collateral,
        ctx.lender_collateral_token_account,
        spec_escrow_authority(ctx.agreement_key, ctx.loan_agreement.authority_bump),
        ctx.collateral.amount,
    )
    &&& spec_transfer_ok(
        ctx.loan,
        ctx.lender_loan_token_account,
        spec_escrow_authority(ctx.agreement_key, ctx.loan_agreement.authority_bump),
        ctx.loan.amount,
    )
}

/// Close step, callable only by the agreement's lender. An outstanding loan
/// may be closed only at or after its deadline; a never-borrowed agreement
/// closes at any time. As one atomic unit, the derived escrow authority
/// releases the entire current balance of each escrow — not the nominal
/// amounts — to the lender's accounts, leaving both escrows empty so the
/// provisioning layer can destroy them together with the agreement record.
/// On any failure nothing changes.
pub fn close(ctx: &mut Close, now: i64) -> (r: Result<(), OperationError>)
    requires
        old(ctx).lender == old(ctx).loan_agreement.lender,
    ensures
        (*final(ctx), r) == close_outcome(*old(ctx), now),
        r is Ok <==> close_ok(*old(ctx), now),
        r is Ok ==> final(ctx).loan.amount == 0 && final(ctx).collateral.amount == 0,
{
    match validate_close_deadline(&ctx.loan_agreement, now) {
        Err(e) => {
            return Err(OperationError::Lending(e));
        },
        Ok(()) => {},
    }
    let escrow_authority = Authority::EscrowAuthority {
        agreement_key: ctx.agreement_key,
        authority_bump: ctx.loan_agreement.authority_bump,
    };
    // Both transfers are checked before either runs, so the operation either
    // commits whole or aborts without effect.
    let collateral_balance = ctx.collateral.amount;
    let loan_balance = ctx.loan.amount;
    match transfer_check(
        &ctx.collateral,
        &ctx.lender_collateral_token_account,
        &escrow_authority,
        collateral_balance,
    ) {
        Some(e) => {
            return Err(OperationError::Transfer(e));
        },
        None => {},
    }
    match transfer_check(
        &ctx.loan,
        &ctx.lender_loan_token_account,
        &escrow_authority,
        loan_balance,
    ) {
        Some(e) => {
            return Err(OperationError::Transfer(e));
        },
        None => {},
    }
    match transfer(
        &mut ctx.collateral,
        &mut ctx.lender_collateral_token_account,
        &escrow_authority,
        collateral_balance,
    ) {
        Err(_) => unreached(),
        Ok(()) => {},
    }
    match transfer(
        &mut ctx.loan,
        &mut ctx.lender_loan_token_account,
        &escrow_authority,
        loan_balance,
    ) {
        Err(_) => unreached(),
        Ok(()) => {},
    }
    Ok(())
}

} // verus!
