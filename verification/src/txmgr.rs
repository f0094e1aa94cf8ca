//! The write side of the registry.

use vstd::prelude::*;

verus! {

/// Names the transaction manager. Signing and sending transactions is the
/// work of the driver; this crate only reads.
#[derive(Clone, Copy, Debug, PartialEq, Eq, Structural)]
pub struct TxManager;

/// The outcome of sending a transaction, once the chain has been asked for
/// its receipt: the receipt, or the message that there is none.
pub fn receipt_or_missing<R>(receipt: Option<R>) -> (r: Result<R, String>)
    ensures
        receipt matches Some(found) ==> r == Ok::<R, String>(found),
        receipt is None ==> r is Err && r->Err_0@ == "receipt not found "@,
{
    match receipt {
        Some(found) => Ok(found),
        None => Err("receipt not found ".to_string()),
    }
}

} // verus!
