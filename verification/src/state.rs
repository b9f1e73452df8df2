//! The ledger as a mathematical value, and each operation as a function from
//! one ledger to the next.
use vstd::prelude::*;
use crate::errors::MarketError;
use crate::records::{RentalView, ResourceView};
use crate::rules::{completion, rent_outcome};

verus! {

/// Everything the marketplace keeps: the listings by provider, the rentals by
/// id, and the highest rental id given out so far (0 before the first).
#[verifier::ext_equal]
pub struct LedgerState {
    pub resources: Map<Seq<char>, ResourceView>,
    pub rentals: Map<u64, RentalView>,
    pub counter: u64,
}

impl LedgerState {
    /// The ledger before any operation.
    pub open spec fn empty() -> Self {
        LedgerState { resources: Map::empty(), rentals: Map::empty(), counter: 0 }
    }

    /// Every listing is kept under its own provider, and the ids under which
    /// a rental is kept are exactly those given out so far: 1 up to the
    /// counter, none missing and none beyond.
    pub open spec fn well_formed(self) -> bool {
        &&& forall|provider: Seq<char>| #[trigger]
            self.resources.contains_key(provider) ==> self.resources[provider].provider
                == provider
        &&& forall|id: u64| #[trigger] self.rentals.contains_key(id) <==> 1 <= id <= self.counter
    }

    /// The listing of `provider`, or the placeholder if there is none.
    pub open spec fn view_resource(self, provider: Seq<char>) -> ResourceView {
        if self.resources.contains_key(provider) {
            self.resources[provider]
        } else {
            ResourceView::unlisted(provider)
        }
    }

    /// The rental kept under `rental_id`, or the placeholder if there is none.
    pub open spec fn view_rental(self, rental_id: u64) -> RentalView {
        if self.rentals.contains_key(rental_id) {
            self.rentals[rental_id]
        } else {
            RentalView::missing()
        }
    }

    /// The ledger after `provider` lists `available_hours` at `token_rate`.
    /// Whatever was listed before is replaced.
    pub open spec fn list_resource(
        self,
        authorized: bool,
        provider: Seq<char>,
        token_rate: u64,
        available_hours: u64,
    ) -> Result<LedgerState, MarketError> {
        if !authorized {
            Err(MarketError::Unauthorized)
        } else {
            Ok(
                LedgerState {
                    resources: self.resources.insert(
                        provider,
                        ResourceView::listed(provider, token_rate, available_hours),
                    ),
                    rentals: self.rentals,
                    counter: self.counter,
                },
            )
        }
    }

    /// What is kept under `rental_id`: the rental, or nothing.
    pub open spec fn find_rental(self, rental_id: u64) -> Option<RentalView> {
        if self.rentals.contains_key(rental_id) {
            Some(self.rentals[rental_id])
        } else {
            None
        }
    }

    /// The new rental's id and the ledger after `renter` rents `hours` from
    /// `provider` at ledger time `now`.
    pub open spec fn rent_resource(
        self,
        authorized: bool,
        renter: Seq<char>,
        provider: Seq<char>,
        hours: u64,
        now: u64,
    ) -> Result<(u64, LedgerState), MarketError> {
        if !authorized {
            Err(MarketError::Unauthorized)
        } else {
            match rent_outcome(self.view_resource(provider), self.counter, renter, hours, now) {
                Ok(lease) => Ok(
                    (
                        lease.rental_id,
                        LedgerState {
                            resources: self.resources.insert(provider, lease.resource),
                            rentals: self.rentals.insert(lease.rental_id, lease.rental),
                            counter: lease.rental_id,
                        },
                    ),
                ),
                Err(reason) => Err(reason),
            }
        }
    }

    /// The ledger after `provider` completes the rental kept under
    /// `rental_id`. Where nothing is kept under it, the completion is
    /// refused: completing never makes a rental.
    pub open spec fn complete_rental(
        self,
        authorized: bool,
        rental_id: u64,
        provider: Seq<char>,
    ) -> Result<LedgerState, MarketError> {
        if !authorized {
            Err(MarketError::Unauthorized)
        } else {
            match completion(self.find_rental(rental_id), provider) {
                Ok(done) => Ok(
                    LedgerState {
                        resources: self.resources,
                        rentals: self.rentals.insert(rental_id, done),
                        counter: self.counter,
                    },
                ),
                Err(reason) => Err(reason),
            }
        }
    }
}

} // verus!
