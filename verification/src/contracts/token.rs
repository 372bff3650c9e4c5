//! Balance arithmetic of a token transfer.
use vstd::prelude::*;

verus! {

/// A token contract whose transfer arithmetic is kept apart from storage.
pub struct TokenContract;

/// The balances of sender and receiver after moving `amount`.
pub open spec fn transfer_result(balance_from: int, balance_to: int, amount: int) -> (int, int) {
    (balance_from - amount, balance_to + amount)
}

impl TokenContract {
    /// Moves `amount` from one balance to another and returns the new
    /// balances.  The amount must not be negative and must be covered by the
    /// sender's balance (the contract panics otherwise).
    pub fn transfer_pure(balance_from: i128, balance_to: i128, amount: i128) -> (r: (i128, i128))
        requires
            amount >= 0,
            balance_from >= amount,
            balance_to + amount <= i128::MAX,
        ensures
            r.0 == transfer_result(balance_from as int, balance_to as int, amount as int).0,
            r.1 == transfer_result(balance_from as int, balance_to as int, amount as int).1,
    {
        let new_from = balance_from - amount;
        let new_to = balance_to + amount;
        (new_from, new_to)
    }
}

/// A transfer between balances takes exactly `amount` from the sender and
/// gives it to the receiver: the total is unchanged, the sender is not left
/// negative, and both new balances fit in `i128`.
pub proof fn verify_transfer_pure(balance_from: i128, balance_to: i128, amount: i128)
    requires
        amount >= 0,
        balance_from >= amount,
        balance_to >= 0,
        balance_to <= i128::MAX - amount,
    ensures
        ({
            let (new_from, new_to) = transfer_result(
                balance_from as int,
                balance_to as int,
                amount as int,
            );
            &&& new_from == balance_from - amount
            &&& new_to == balance_to + amount
            &&& new_from + new_to == balance_from + balance_to
            &&& 0 <= new_from <= balance_from
            &&& balance_to <= new_to <= i128::MAX
        }),
{
}

} // verus!
