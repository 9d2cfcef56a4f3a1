use vstd::prelude::*;
use crate::agreement::BorrowerPolicy;
use crate::agreement::LoanAgreement;
use crate::agreement::NftLendingError;
use crate::ledger::Address;

verus! {

/// Terms validation at creation: both amounts must be positive.
pub fn validate_creation_amounts(loan_amount: u64, collateral_amount: u64) -> (r: Result<
    (),
    NftLendingError,
>)
    ensures
        loan_amount == 0 ==> r == Err::<(), NftLendingError>(NftLendingError::LoanCannotBeZero),
        loan_amount > 0 && collateral_amount == 0 ==> r == Err::<(), NftLendingError>(
            NftLendingError::CollateralCannotBeZero,
        ),
        loan_amount > 0 && collateral_amount > 0 ==> r == Ok::<(), NftLendingError>(()),
{
    if loan_amount == 0 {
        return Err(NftLendingError::LoanCannotBeZero);
    }
    if collateral_amount == 0 {
        return Err(NftLendingError::CollateralCannotBeZero);
    }
    Ok(())
}

/// Terms validation of the borrow step: the caller's expected values must
/// exactly match the agreement's stored collateral amount and the current
/// loan-escrow balance, defending against a borrower signing against stale
/// or mismatched terms.
pub fn validate_borrow_terms(
    agreement: &LoanAgreement,
    loan_escrow_amount: u64,
    expected_amount: u64,
    collateral_amount: u64,
) -> (r: Result<(), NftLendingError>)
    ensures
        r == if agreement.collateral_amount != collateral_amount || loan_escrow_amount
            != expected_amount {
            Err::<(), NftLendingError>(NftLendingError::UnexpectedLoanAgreement)
        } else {
            Ok::<(), NftLendingError>(())
        },
{
    if agreement.collateral_amount != collateral_amount || loan_escrow_amount != expected_amount {
        return Err(NftLendingError::UnexpectedLoanAgreement);
    }
    Ok(())
}

/// Identity validation of the borrow step: a restricted agreement may only be
/// borrowed by the restricted party.
pub fn validate_borrower(policy: &BorrowerPolicy, caller: Address) -> (r: Result<
    (),
    NftLendingError,
>)
    ensures
        r == if policy.allows(caller) {
            Ok::<(), NftLendingError>(())
        } else {
            Err::<(), NftLendingError>(NftLendingError::IncorrectBorrower)
        },
{
    match policy {
        BorrowerPolicy::Unrestricted => Ok(()),
        BorrowerPolicy::RestrictedTo(borrower) => {
            if *borrower == caller {
                Ok(())
            } else {
                Err(NftLendingError::IncorrectBorrower)
            }
        },
    }
}

/// Deadline validation of the close step: an active loan may be closed only
/// at or after its deadline; the comparison is inclusive, so closing exactly
/// at `default_at` is permitted. A never-borrowed agreement closes at any
/// time.
pub fn validate_close_deadline(agreement: &LoanAgreement, now: i64) -> (r: Result<
    (),
    NftLendingError,
>)
    ensures
        r == if agreement.borrowed && now < agreement.default_at {
            Err::<(), NftLendingError>(NftLendingError::DefaultAtIsNotReached)
        } else {
            Ok::<(), NftLendingError>(())
        },
{
    if agreement.borrowed && now < agreement.default_at {
        return Err(NftLendingError::DefaultAtIsNotReached);
    }
    Ok(())
}

} // verus!
