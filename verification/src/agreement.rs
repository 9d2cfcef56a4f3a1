use vstd::prelude::*;
use crate::ledger::Address;
use crate::ledger::TokenAccount;
use crate::ledger::TransferError;

verus! {

/// Whether the agreement restricts who may execute the borrow step.
#[derive(Clone, Copy, Debug, PartialEq, Eq, Structural)]
pub enum BorrowerPolicy {
    /// any party may borrow
    Unrestricted,
    /// only this party may borrow
    RestrictedTo(Address),
}

impl BorrowerPolicy {
    /// Whether `party` may execute the borrow step under this policy.
    pub open spec fn allows(self, party: Address) -> bool {
        match self {
            BorrowerPolicy::Unrestricted => true,
            BorrowerPolicy::RestrictedTo(borrower) => borrower == party,
        }
    }
}

/// Error kinds of the loan-agreement state machine. Each variant is returned
/// on exactly one failed precondition of one operation.
#[derive(Clone, Copy, Debug, PartialEq, Eq, Structural)]
pub enum NftLendingError {
    /// `loan` called with a zero loan amount
    LoanCannotBeZero,
    /// `loan` called with a zero collateral amount
    CollateralCannotBeZero,
    /// `borrow` called with terms not matching the stored agreement and escrow
    UnexpectedLoanAgreement,
    /// `close` called on an active loan before its deadline
    DefaultAtIsNotReached,
    /// `borrow` called by a party other than the restricted borrower
    IncorrectBorrower,
}

/// Why an operation aborted: a failed terms check, or a refusal of the asset
/// transfer port. Either way the operation has no effect at all.
#[derive(Clone, Copy, Debug, PartialEq, Eq, Structural)]
pub enum OperationError {
    Lending(NftLendingError),
    Transfer(TransferError),
}

/// The record of one loan's terms and current state.
#[derive(Clone, Copy, Debug, PartialEq, Eq, Structural)]
pub struct LoanAgreement {
    /// disambiguation byte proving the escrow authority derives from this agreement
    pub authority_bump: u8,
    /// the party who funded the loan and who reclaims on default
    pub lender: Address,
    /// optional restriction of the borrow step to one party
    pub borrower: BorrowerPolicy,
    /// quantity of the loan asset, fixed at creation, positive
    pub loan_amount: u64,
    /// quantity of the collateral asset, fixed at creation, positive
    pub collateral_amount: u64,
    /// timestamp at or after which an unrepaid loan may be reclaimed
    pub default_at: i64,
    /// false while funded and unborrowed, true while a loan is outstanding
    pub borrowed: bool,
}

impl LoanAgreement {
    /// Terms invariant established at creation and never changed afterwards.
    pub open spec fn valid_terms(self) -> bool {
        self.loan_amount > 0 && self.collateral_amount > 0
    }
}

/// State `Funded`: no loan outstanding, the loan escrow holds the full loan
/// amount and the collateral escrow is empty.
pub open spec fn spec_funded(
    agreement: LoanAgreement,
    loan_escrow: TokenAccount,
    collateral_escrow: TokenAccount,
) -> bool {
    &&& !agreement.borrowed
    &&& loan_escrow.amount == agreement.loan_amount
    &&& collateral_escrow.amount == 0
}

/// State `Active`: a loan outstanding, the loan escrow empty and the
/// collateral escrow holding the full collateral amount.
pub open spec fn spec_active(
    agreement: LoanAgreement,
    loan_escrow: TokenAccount,
    collateral_escrow: TokenAccount,
) -> bool {
    &&& agreement.borrowed
    &&& loan_escrow.amount == 0
    &&& collateral_escrow.amount == agreement.collateral_amount
}

} // verus!
