use vstd::prelude::*;

verus! {

/// The ways in which resolving or validating an oracle price can fail.
#[derive(Clone, Copy, Debug, PartialEq, Eq, Structural)]
pub enum OracleError {
    /// The account is owned by none of the known price-feed programs.
    UnrecognizedOracleFormat,
    /// The account's bytes do not decode under the format that it claims.
    SchemaMismatch,
    /// Too much time has passed since the quote was last updated.
    StalePrice,
    /// The quote's price (or uncertainty) is negative.
    NegativePrice,
    /// The quote's uncertainty is too wide compared to its price.
    ExcessiveUncertainty,
    /// A checked scaling, multiplication or division overflowed.
    ArithmeticOverflow,
    /// The account is the null sentinel where a live price was required.
    MissingOracle,
    /// The account is not owned by the program that its format requires.
    AccountIdentityMismatch,
}

} // verus!
