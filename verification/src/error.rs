use vstd::prelude::*;

verus! {

/// Every way an operation of this hook can fail. All failures abort the
/// whole operation; none is downgraded or retried here.
#[derive(Clone, Copy, Debug, PartialEq, Eq, Structural)]
pub enum SliplessError {
    /// The badge's recorded user differs from the destination account's owner.
    InvalidBadgeUser,
    /// The derived storage slot is already occupied, so a second
    /// initialization or issuance is refused.
    AlreadyInitialized,
    /// Nothing is stored at the derived slot the check needs.
    MissingAccount,
    /// The supplied accounts do not match their declared roles (wrong mint,
    /// or a record of the wrong kind at the derived slot).
    MalformedBinding,
    /// No program-derived address exists for the given seeds.
    DerivationFailure,
    /// A seed configuration or buffer does not fit the declared layout.
    LayoutMismatch,
}

} // verus!
