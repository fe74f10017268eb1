//! The failure taxonomy of the state machine.

use crate::state::{Coin, CoinView};
use vstd::prelude::*;

verus! {

/// Why an operation was refused. Every guard failure aborts the whole
/// operation: the record is left untouched and no settlement instructions are
/// produced.
#[derive(Clone, Debug, PartialEq, Eq)]
pub enum ContractError {
    /// The caller is not the identity the operation demands (the owner, for
    /// transfer and exercise).
    Unauthorized,
    /// A height guard failed: at creation the expiration was not in the
    /// future, or at exercise the current height has reached it.
    Expired,
    /// The attached funds do not exactly match the recorded counter-offer.
    /// Carries the required counter-offer for diagnostics.
    DiffCounterOffer { counter_offer: Vec<Coin> },
    /// The operation targets a record that does not exist: never created, or
    /// already consumed by an exercise or a burn.
    NotFound,
    /// A record already occupies the slot, so no new option can be created.
    AlreadyExists,
    /// Burn was attempted before the expiration height.
    NotYetExpired,
    /// Funds were attached to a burn, which never collects funds.
    FundsNotAllowed,
}

/// The mathematical value of a [`ContractError`].
#[verifier::ext_equal]
pub ghost enum ErrorView {
    Unauthorized,
    Expired,
    DiffCounterOffer { counter_offer: Seq<CoinView> },
    NotFound,
    AlreadyExists,
    NotYetExpired,
    FundsNotAllowed,
}

impl View for ContractError {
    type V = ErrorView;

    open spec fn view(&self) -> ErrorView {
        match self {
            ContractError::Unauthorized => ErrorView::Unauthorized,
            ContractError::Expired => ErrorView::Expired,
            ContractError::DiffCounterOffer { counter_offer } => ErrorView::DiffCounterOffer {
                counter_offer: counter_offer.deep_view(),
            },
            ContractError::NotFound => ErrorView::NotFound,
            ContractError::AlreadyExists => ErrorView::AlreadyExists,
            ContractError::NotYetExpired => ErrorView::NotYetExpired,
            ContractError::FundsNotAllowed => ErrorView::FundsNotAllowed,
        }
    }
}

/// The diagnostic text of each failure, as the host renders it back to the
/// invoking party.
pub open spec fn spec_message(e: ErrorView) -> Seq<char> {
    match e {
        ErrorView::Unauthorized => "Unauthorized"@,
        ErrorView::Expired => "Expired"@,
        ErrorView::DiffCounterOffer { .. } => "Must send exact counter_offer"@,
        ErrorView::NotFound => "Option not found"@,
        ErrorView::AlreadyExists => "An option already exists"@,
        ErrorView::NotYetExpired => "Option not yet expired"@,
        ErrorView::FundsNotAllowed => "dont send funds with burn"@,
    }
}

impl ContractError {
    /// A short diagnostic text for the failure.
    pub fn message(&self) -> (r: String)
        ensures
            r@ == spec_message(self@),
    {
        match self {
            ContractError::Unauthorized => "Unauthorized".to_owned(),
            ContractError::Expired => "Expired".to_owned(),
            ContractError::DiffCounterOffer { .. } => "Must send exact counter_offer".to_owned(),
            ContractError::NotFound => "Option not found".to_owned(),
            ContractError::AlreadyExists => "An option already exists".to_owned(),
            ContractError::NotYetExpired => "Option not yet expired".to_owned(),
            ContractError::FundsNotAllowed => "dont send funds with burn".to_owned(),
        }
    }
}

} // verus!
