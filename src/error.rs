use vstd::prelude::*;

verus! {

/// Every way an instruction of the store can fail. A failed instruction
/// leaves every record it was given as it was.
#[derive(Clone, Copy, Debug, PartialEq, Eq, Structural)]
pub enum SolanaByteStoreError {
    /// A versioned create was given a non-zero expiry that is not after now.
    CreateByteAccountInvalidExpiresAtTs,
    /// A versioned create was given a version other than the counter plus one.
    CreateByteAccountInvalidVersion,
    /// An update was given a non-zero expiry that is not after now.
    UpdateByteAccountInvalidExpiresAtTs,
    /// A legacy store was created with a declared size other than the
    /// payload's length.
    CreateByteStoreByteSizeMismatch,
    /// A record does not stand at the address derived for it.
    AddressMismatch,
    /// A record that the instruction works on holds no live data.
    AccountNotFound,
    /// A record that the instruction creates is already live.
    AccountAlreadyInUse,
    /// The owner cannot fund the deposits that the new sizes require.
    InsufficientFunds,
}

} // verus!
