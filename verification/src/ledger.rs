use vstd::prelude::*;

verus! {

/// A 256-bit external-ledger address, held as four 64-bit limbs.
/// Parties, agreement records and custodial authorities are all identified
/// by such an address.
#[derive(Clone, Copy, Debug, PartialEq, Eq, Structural)]
pub struct Address {
    pub w0: u64,
    pub w1: u64,
    pub w2: u64,
    pub w3: u64,
}

/// The controller of a balance record: either a party that signs for itself,
/// or the custodial escrow authority derived from a loan agreement's address
/// together with the disambiguation byte that proves the derivation.
#[derive(Clone, Copy, Debug, PartialEq, Eq, Structural)]
pub enum Authority {
    Party { identity: Address },
    EscrowAuthority { agreement_key: Address, authority_bump: u8 },
}

/// One balance record of the external ledger: a token amount moved only with
/// the consent of `authority`.
#[derive(Clone, Copy, Debug, PartialEq, Eq, Structural)]
pub struct TokenAccount {
    pub authority: Authority,
    pub amount: u64,
}

/// Failures of the asset transfer port.
#[derive(Clone, Copy, Debug, PartialEq, Eq, Structural)]
pub enum TransferError {
    /// the presented authorization does not control the debited record
    MissingAuthorization,
    /// the debited record holds less than the transferred amount
    InsufficientBalance,
    /// the credited record cannot hold the transferred amount
    BalanceOverflow,
}

/// The failure, if any, that the transfer port reports for these arguments.
/// `None` means the transfer goes through.
pub open spec fn spec_transfer_err(
    from: TokenAccount,
    to: TokenAccount,
    authority: Authority,
    amount: u64,
) -> Option<TransferError> {
    if authority != from.authority {
        Some(TransferError::MissingAuthorization)
    } else if from.amount < amount {
        Some(TransferError::InsufficientBalance)
    } else if to.amount + amount > u64::MAX {
        Some(TransferError::BalanceOverflow)
    } else {
        None
    }
}

/// Whether the transfer port accepts these arguments.
pub open spec fn spec_transfer_ok(
    from: TokenAccount,
    to: TokenAccount,
    authority: Authority,
    amount: u64,
) -> bool {
    spec_transfer_err(from, to, authority, amount) is None
}

/// Both records after a successful transfer: the exact amount moves, the
/// controlling authorities stay.
pub open spec fn spec_transfer_apply(from: TokenAccount, to: TokenAccount, amount: u64) -> (
    TokenAccount,
    TokenAccount,
) {
    (
        TokenAccount { amount: (from.amount - amount) as u64, ..from },
        TokenAccount { amount: (to.amount + amount) as u64, ..to },
    )
}

/// Pre-flight check of the transfer port: reports exactly the failure that
/// `transfer` would return on these arguments, touching nothing.
pub fn transfer_check(
    from: &TokenAccount,
    to: &TokenAccount,
    authority: &Authority,
    amount: u64,
) -> (r: Option<TransferError>)
    ensures
        r == spec_transfer_err(*from, *to, *authority, amount),
{
    if *authority != from.authority {
        Some(TransferError::MissingAuthorization)
    } else if from.amount < amount {
        Some(TransferError::InsufficientBalance)
    } else if amount > u64::MAX - to.amount {
        Some(TransferError::BalanceOverflow)
    } else {
        None
    }
}

/// The asset transfer port: an atomic, exact-amount debit-then-credit between
/// two balance records, authorized only by the controller of the debited
/// record. On failure neither record changes.
pub fn transfer(
    from: &mut TokenAccount,
    to: &mut TokenAccount,
    authority: &Authority,
    amount: u64,
) -> (r: Result<(), TransferError>)
    ensures
        match r {
            Ok(()) => spec_transfer_ok(*old(from), *old(to), *authority, amount) && (
            *final(from),
            *final(to),
            ) == spec_transfer_apply(*old(from), *old(to), amount),
            Err(e) => spec_transfer_err(*old(from), *old(to), *authority, amount) == Some(e)
                && *final(from) == *old(from) && *final(to) == *old(to),
        },
{
    match transfer_check(from, to, authority, amount) {
        Some(e) => Err(e),
        None => {
            from.amount = from.amount - amount;
            to.amount = to.amount + amount;
            Ok(())
        },
    }
}

} // verus!
