use vstd::prelude::*;
use crate::agreement::BorrowerPolicy;
use crate::agreement::LoanAgreement;
use crate::agreement::NftLendingError;
use crate::agreement::OperationError;
use crate::agreement::spec_active;
use crate::agreement::spec_funded;
use crate::ledger::Authority;
use crate::ledger::TokenAccount;
use crate::operations::Borrow;
use crate::operations::Close;
use crate::operations::Loan;
use crate::operations::Repay;
use crate::operations::borrow_outcome;
use crate::operations::close_outcome;
use crate::operations::loan_outcome;
use crate::operations::repay_outcome;
use crate::operations::spec_escrow_authority;

verus! {

/// For all positive amounts, creation on well-formed fresh accounts with a
/// sufficiently funded lender succeeds and leaves the agreement funded: the
/// loan escrow holds exactly the loan amount, the collateral escrow is empty,
/// and the terms are stored unchanged with no loan outstanding.
pub proof fn lemma_loan_creates_funded(
    ctx: Loan,
    bump: u8,
    loan_amount: u64,
    collateral_amount: u64,
    default_at: i64,
    borrower: BorrowerPolicy,
)
    requires
        ctx.wf(bump),
        loan_amount > 0,
        collateral_amount > 0,
        ctx.lender_token_account.authority == (Authority::Party { identity: ctx.lender }),
        ctx.lender_token_account.amount >= loan_amount,
    ensures
        ({
            let (post, r) = loan_outcome(
                ctx,
                bump,
                loan_amount,
                collateral_amount,
                default_at,
                borrower,
            );
            &&& r is Ok
            &&& spec_funded(post.loan_agreement, post.loan, post.collateral)
            &&& post.loan.amount == loan_amount
            &&& post.collateral.amount == 0
            &&& post.loan_agreement.loan_amount == loan_amount
            &&& post.loan_agreement.collateral_amount == collateral_amount
            &&& post.loan_agreement.default_at == default_at
            &&& post.loan_agreement.borrower == borrower
            &&& post.loan_agreement.lender == ctx.lender
            &&& post.loan_agreement.authority_bump == bump
            &&& post.lender_token_account.amount == ctx.lender_token_account.amount - loan_amount
        }),
{
}

/// Creation with a zero loan or collateral amount always fails with the
/// matching error and changes nothing.
pub proof fn lemma_loan_rejects_zero_amounts(
    ctx: Loan,
    bump: u8,
    loan_amount: u64,
    collateral_amount: u64,
    default_at: i64,
    borrower: BorrowerPolicy,
)
    requires
        loan_amount == 0 || collateral_amount == 0,
    ensures
        ({
            let (post, r) = loan_outcome(
                ctx,
                bump,
                loan_amount,
                collateral_amount,
                default_at,
                borrower,
            );
            &&& post == ctx
            &&& r == Err::<(), OperationError>(
                OperationError::Lending(
                    if loan_amount == 0 {
                        NftLendingError::LoanCannotBeZero
                    } else {
                        NftLendingError::CollateralCannotBeZero
                    },
                ),
            )
        }),
{
}

/// A successful borrow with correct matching terms on a funded agreement
/// moves the agreement to the active state: the loan escrow is emptied into
/// the borrower's loan-asset balance, and the collateral escrow now holds the
/// full collateral amount taken from the borrower.
pub proof fn lemma_borrow_activates(ctx: Borrow, expected_amount: u64, collateral_amount: u64)
    requires
        ctx.wf(),
        ctx.loan_agreement.valid_terms(),
        spec_funded(ctx.loan_agreement, ctx.loan, ctx.collateral),
        expected_amount == ctx.loan.amount,
        collateral_amount == ctx.loan_agreement.collateral_amount,
        ctx.loan_agreement.borrower.allows(ctx.borrower),
        ctx.borrower_collateral_token_account.authority == (Authority::Party {
            identity: ctx.borrower,
        }),
        ctx.borrower_collateral_token_account.amount >= collateral_amount,
        ctx.borrower_loan_token_account.amount + ctx.loan_agreement.loan_amount <= u64::MAX,
    ensures
        ({
            let (post, r) = borrow_outcome(ctx, expected_amount, collateral_amount);
            &&& r is Ok
            &&& spec_active(post.loan_agreement, post.loan, post.collateral)
            &&& post.loan.amount == 0
            &&& post.collateral.amount == collateral_amount
            &&& post.borrower_loan_token_account.amount == ctx.borrower_loan_token_account.amount
                + ctx.loan_agreement.loan_amount
            &&& post.borrower_collateral_token_account.amount
                == ctx.borrower_collateral_token_account.amount - collateral_amount
        }),
{
}

/// A borrow whose expected amounts do not match the stored agreement and the
/// current loan-escrow balance fails with the terms error and changes
/// nothing.
pub proof fn lemma_borrow_rejects_mismatched_terms(
    ctx: Borrow,
    expected_amount: u64,
    collateral_amount: u64,
)
    requires
        collateral_amount != ctx.loan_agreement.collateral_amount || expected_amount
            != ctx.loan.amount,
    ensures
        ({
            let (post, r) = borrow_outcome(ctx, expected_amount, collateral_amount);
            &&& post == ctx
            &&& r == Err::<(), OperationError>(
                OperationError::Lending(NftLendingError::UnexpectedLoanAgreement),
            )
        }),
{
}

/// A borrow by any party other than a restricted borrower fails with the
/// identity error and changes nothing, however correct the amounts are.
pub proof fn lemma_borrow_rejects_wrong_borrower(
    ctx: Borrow,
    expected_amount: u64,
    collateral_amount: u64,
    restricted: crate::ledger::Address,
)
    requires
        collateral_amount == ctx.loan_agreement.collateral_amount,
        expected_amount == ctx.loan.amount,
        ctx.loan_agreement.borrower == BorrowerPolicy::RestrictedTo(restricted),
        ctx.borrower != restricted,
    ensures
        ({
            let (post, r) = borrow_outcome(ctx, expected_amount, collateral_amount);
            &&& post == ctx
            &&& r == Err::<(), OperationError>(
                OperationError::Lending(NftLendingError::IncorrectBorrower),
            )
        }),
{
}

/// A repay on an active agreement by a sufficiently funded repayer returns
/// the agreement to the funded state: the loan escrow holds the full loan
/// amount again, the collateral escrow is empty, and the repayer's collateral
/// balance grows by the collateral amount.
pub proof fn lemma_repay_returns_to_funded(ctx: Repay)
    requires
        ctx.wf(),
        ctx.loan_agreement.valid_terms(),
        spec_active(ctx.loan_agreement, ctx.loan, ctx.collateral),
        ctx.borrower_loan_token_account.authority == (Authority::Party {
            identity: ctx.borrower,
        }),
        ctx.borrower_loan_token_account.amount >= ctx.loan_agreement.loan_amount,
        ctx.borrower_collateral_token_account.amount + ctx.loan_agreement.collateral_amount
            <= u64::MAX,
    ensures
        ({
            let (post, r) = repay_outcome(ctx);
            &&& r is Ok
            &&& spec_funded(post.loan_agreement, post.loan, post.collateral)
            &&& post.collateral.amount == 0
            &&& post.borrower_collateral_token_account.amount
                == ctx.borrower_collateral_token_account.amount
                + ctx.loan_agreement.collateral_amount
            &&& post.borrower_loan_token_account.amount == ctx.borrower_loan_token_account.amount
                - ctx.loan_agreement.loan_amount
        }),
{
}

/// A repay while the collateral escrow holds less than the collateral amount
/// — in particular right after a successful repay, before another borrow —
/// fails and changes nothing: there is no double-repay effect.
pub proof fn lemma_repay_needs_locked_collateral(ctx: Repay)
    requires
        ctx.collateral.amount < ctx.loan_agreement.collateral_amount,
    ensures
        ({
            let (post, r) = repay_outcome(ctx);
            &&& post == ctx
            &&& r is Err
        }),
{
}

/// Repaying twice without an intervening borrow is impossible: after a
/// successful repay from the active state, a second repay on the same
/// accounts fails and changes nothing.
pub proof fn lemma_no_double_repay(ctx: Repay)
    requires
        ctx.loan_agreement.valid_terms(),
        spec_active(ctx.loan_agreement, ctx.loan, ctx.collateral),
    ensures
        ({
            let (post, r) = repay_outcome(ctx);
            r is Ok ==> {
                let (post2, r2) = repay_outcome(post);
                &&& post2 == post
                &&& r2 is Err
            }
        }),
{
    let (post, r) = repay_outcome(ctx);
    if r is Ok {
        lemma_repay_needs_locked_collateral(post);
    }
}

/// Closing an outstanding loan before its deadline fails with the deadline
/// error and leaves every balance and the whole state untouched; the
/// comparison is inclusive, so closing exactly at the deadline is permitted.
pub proof fn lemma_close_blocked_before_deadline(ctx: Close, now: i64)
    requires
        ctx.loan_agreement.borrowed,
        now < ctx.loan_agreement.default_at,
    ensures
        ({
            let (post, r) = close_outcome(ctx, now);
            &&& post == ctx
            &&& r == Err::<(), OperationError>(
                OperationError::Lending(NftLendingError::DefaultAtIsNotReached),
            )
        }),
{
}

/// Closing at or after the deadline succeeds and transfers the full current
/// escrow balances — whatever they are — to the lender's accounts, leaving
/// both escrows empty for destruction.
pub proof fn lemma_close_at_or_after_deadline(ctx: Close, now: i64)
    requires
        ctx.wf(),
        now >= ctx.loan_agreement.default_at,
        ctx.lender_collateral_token_account.amount + ctx.collateral.amount <= u64::MAX,
        ctx.lender_loan_token_account.amount + ctx.loan.amount <= u64::MAX,
    ensures
        ({
            let (post, r) = close_outcome(ctx, now);
            &&& r is Ok
            &&& post.loan.amount == 0
            &&& post.collateral.amount == 0
            &&& post.lender_loan_token_account.amount == ctx.lender_loan_token_account.amount
                + ctx.loan.amount
            &&& post.lender_collateral_token_account.amount
                == ctx.lender_collateral_token_account.amount + ctx.collateral.amount
        }),
{
}

/// Closing a never-borrowed funded agreement succeeds unconditionally — no
/// deadline check applies at any time — returning the full loan amount to the
/// lender.
pub proof fn lemma_close_funded_unconditional(ctx: Close, now: i64)
    requires
        ctx.wf(),
        spec_funded(ctx.loan_agreement, ctx.loan, ctx.collateral),
        ctx.lender_loan_token_account.amount + ctx.loan_agreement.loan_amount <= u64::MAX,
    ensures
        ({
            let (post, r) = close_outcome(ctx, now);
            &&& r is Ok
            &&& post.loan.amount == 0
            &&& post.collateral.amount == 0
            &&& post.lender_loan_token_account.amount == ctx.lender_loan_token_account.amount
                + ctx.loan_agreement.loan_amount
            &&& post.lender_collateral_token_account.amount
                == ctx.lender_collateral_token_account.amount
        }),
{
}

/// Escrow custody: a balance record controlled by a derived escrow authority
/// can be debited only by presenting exactly that derivation proof — no
/// party's signature and no other agreement's proof is accepted.
pub proof fn lemma_escrow_custody(
    from: TokenAccount,
    to: TokenAccount,
    authority: Authority,
    amount: u64,
    agreement_key: crate::ledger::Address,
    authority_bump: u8,
)
    requires
        from.authority == spec_escrow_authority(agreement_key, authority_bump),
        crate::ledger::spec_transfer_ok(from, to, authority, amount),
    ensures
        authority == spec_escrow_authority(agreement_key, authority_bump),
{
}

/// Every failing creation is a complete no-op, and no creation changes any
/// account's controlling authority; the loan asset's total over the lender's
/// balance and the loan escrow is conserved.
pub proof fn lemma_loan_frame(
    ctx: Loan,
    bump: u8,
    loan_amount: u64,
    collateral_amount: u64,
    default_at: i64,
    borrower: BorrowerPolicy,
)
    ensures
        ({
            let (post, r) = loan_outcome(
                ctx,
                bump,
                loan_amount,
                collateral_amount,
                default_at,
                borrower,
            );
            &&& r is Err ==> post == ctx
            &&& post.agreement_key == ctx.agreement_key
            &&& post.lender == ctx.lender
            &&& post.loan.authority == ctx.loan.authority
            &&& post.collateral.authority == ctx.collateral.authority
            &&& post.lender_token_account.authority == ctx.lender_token_account.authority
            &&& post.loan.amount + post.lender_token_account.amount == ctx.loan.amount
                + ctx.lender_token_account.amount
            &&& post.collateral == ctx.collateral
        }),
{
}

/// Every failing borrow is a complete no-op, and no borrow — failing or not —
/// changes the agreement's terms, parties, deadline or any account's
/// controlling authority: only balances and the outstanding flag move.
pub proof fn lemma_borrow_frame(ctx: Borrow, expected_amount: u64, collateral_amount: u64)
    ensures
        ({
            let (post, r) = borrow_outcome(ctx, expected_amount, collateral_amount);
            &&& r is Err ==> post == ctx
            &&& post.loan_agreement == (LoanAgreement {
                borrowed: post.loan_agreement.borrowed,
                ..ctx.loan_agreement
            })
            &&& post.agreement_key == ctx.agreement_key
            &&& post.borrower == ctx.borrower
            &&& post.loan.authority == ctx.loan.authority
            &&& post.collateral.authority == ctx.collateral.authority
            &&& post.borrower_loan_token_account.authority
                == ctx.borrower_loan_token_account.authority
            &&& post.borrower_collateral_token_account.authority
                == ctx.borrower_collateral_token_account.authority
            &&& post.loan.amount + post.borrower_loan_token_account.amount == ctx.loan.amount
                + ctx.borrower_loan_token_account.amount
            &&& post.collateral.amount + post.borrower_collateral_token_account.amount
                == ctx.collateral.amount + ctx.borrower_collateral_token_account.amount
        }),
{
}

/// Every failing repay is a complete no-op, and no repay changes the
/// agreement's terms, parties, deadline or any account's controlling
/// authority; each asset's total over the accounts involved is conserved.
pub proof fn lemma_repay_frame(ctx: Repay)
    ensures
        ({
            let (post, r) = repay_outcome(ctx);
            &&& r is Err ==> post == ctx
            &&& post.loan_agreement == (LoanAgreement {
                borrowed: post.loan_agreement.borrowed,
                ..ctx.loan_agreement
            })
            &&& post.loan.authority == ctx.loan.authority
            &&& post.collateral.authority == ctx.collateral.authority
            &&& post.loan.amount + post.borrower_loan_token_account.amount == ctx.loan.amount
                + ctx.borrower_loan_token_account.amount
            &&& post.collateral.amount + post.borrower_collateral_token_account.amount
                == ctx.collateral.amount + ctx.borrower_collateral_token_account.amount
        }),
{
}

/// Every failing close is a complete no-op, and no close changes the
/// agreement record at all; each asset's total over the accounts involved is
/// conserved.
pub proof fn lemma_close_frame(ctx: Close, now: i64)
    ensures
        ({
            let (post, r) = close_outcome(ctx, now);
            &&& r is Err ==> post == ctx
            &&& post.loan_agreement == ctx.loan_agreement
            &&& post.loan.authority == ctx.loan.authority
            &&& post.collateral.authority == ctx.collateral.authority
            &&& post.loan.amount + post.lender_loan_token_account.amount == ctx.loan.amount
                + ctx.lender_loan_token_account.amount
            &&& post.collateral.amount + post.lender_collateral_token_account.amount
                == ctx.collateral.amount + ctx.lender_collateral_token_account.amount
        }),
{
}

/// The full round trip: creation, borrow, repay, then close — immediately,
/// since no loan is outstanding any more — succeeds end to end, returns the
/// lender's original loan amount, leaves both escrows empty for destruction,
/// and moves no collateral net across the cycle for the borrower.
pub proof fn lemma_full_cycle(
    agreement_key: crate::ledger::Address,
    agreement0: LoanAgreement,
    lender: crate::ledger::Address,
    borrower_id: crate::ledger::Address,
    bump: u8,
    loan_amount: u64,
    collateral_amount: u64,
    default_at: i64,
    borrower_policy: BorrowerPolicy,
    lender_loan_acct: TokenAccount,
    lender_collateral_acct: TokenAccount,
    borrower_loan_acct: TokenAccount,
    borrower_collateral_acct: TokenAccount,
    now: i64,
)
    requires
        loan_amount > 0,
        collateral_amount > 0,
        borrower_policy.allows(borrower_id),
        lender_loan_acct.authority == (Authority::Party { identity: lender }),
        lender_loan_acct.amount >= loan_amount,
        borrower_collateral_acct.authority == (Authority::Party { identity: borrower_id }),
        borrower_collateral_acct.amount >= collateral_amount,
        borrower_loan_acct.authority == (Authority::Party { identity: borrower_id }),
        borrower_loan_acct.amount + loan_amount <= u64::MAX,
    ensures
        ({
            let escrow_authority = spec_escrow_authority(agreement_key, bump);
            let loan_escrow0 = (TokenAccount { authority: escrow_authority, amount: 0 });
            let collateral_escrow0 = (TokenAccount { authority: escrow_authority, amount: 0 });
            let loan_ctx = (Loan {
                agreement_key,
                loan_agreement: agreement0,
                loan: loan_escrow0,
                collateral: collateral_escrow0,
                lender,
                lender_token_account: lender_loan_acct,
            });
            let (loan_post, r1) = loan_outcome(
                loan_ctx,
                bump,
                loan_amount,
                collateral_amount,
                default_at,
                borrower_policy,
            );
            let borrow_ctx = (Borrow {
                agreement_key,
                loan_agreement: loan_post.loan_agreement,
                loan: loan_post.loan,
                collateral: loan_post.collateral,
                borrower: borrower_id,
                borrower_loan_token_account: borrower_loan_acct,
                borrower_collateral_token_account: borrower_collateral_acct,
            });
            let (borrow_post, r2) = borrow_outcome(borrow_ctx, loan_amount, collateral_amount);
            let repay_ctx = (Repay {
                agreement_key,
                loan_agreement: borrow_post.loan_agreement,
                loan: borrow_post.loan,
                collateral: borrow_post.collateral,
                borrower: borrower_id,
                borrower_loan_token_account: borrow_post.borrower_loan_token_account,
                borrower_collateral_token_account: borrow_post.borrower_collateral_token_account,
            });
            let (repay_post, r3) = repay_outcome(repay_ctx);
            let close_ctx = (Close {
                agreement_key,
                loan_agreement: repay_post.loan_agreement,
                loan: repay_post.loan,
                collateral: repay_post.collateral,
                lender,
                lender_loan_token_account: loan_post.lender_token_account,
                lender_collateral_token_account: lender_collateral_acct,
            });
            let (close_post, r4) = close_outcome(close_ctx, now);
            &&& r1 is Ok
            &&& r2 is Ok
            &&& r3 is Ok
            &&& r4 is Ok
            &&& close_post.lender_loan_token_account.amount == lender_loan_acct.amount
            &&& close_post.lender_collateral_token_account.amount
                == lender_collateral_acct.amount
            &&& close_post.loan.amount == 0
            &&& close_post.collateral.amount == 0
            &&& repay_post.borrower_collateral_token_account.amount
                == borrower_collateral_acct.amount
            &&& repay_post.borrower_loan_token_account.amount == borrower_loan_acct.amount
            &&& !repay_post.loan_agreement.borrowed
        }),
{
}



} // verus!
