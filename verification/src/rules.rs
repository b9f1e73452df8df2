//! The rules of the marketplace on single records: what a rental does to a
//! listing, and what completing does to what is kept under a rental id.
//!
//! These functions take the records that an operation has read and return
//! the records that it must write, so that a host which keeps the records in
//! a store of its own can apply the same rules.
use vstd::prelude::*;
use crate::errors::MarketError;
use crate::records::{ComputeResource, RentalAgreement, RentalView, ResourceView};

verus! {

/// What a [`Lease`] holds, as mathematical values.
pub struct LeaseView {
    pub rental_id: u64,
    pub resource: ResourceView,
    pub rental: RentalView,
}

/// What a successful rental writes: the debited listing, the new rental, and
/// the rental's id, which is also the new value of the rental counter.
#[derive(Debug, PartialEq, Eq)]
pub struct Lease {
    pub rental_id: u64,
    pub resource: ComputeResource,
    pub rental: RentalAgreement,
}

impl View for Lease {
    type V = LeaseView;

    open spec fn view(&self) -> LeaseView {
        LeaseView { rental_id: self.rental_id, resource: self.resource@, rental: self.rental@ }
    }
}

/// Whether `hours` can be leased from `resource`.
pub open spec fn can_lease(resource: ResourceView, hours: u64) -> bool {
    resource.is_active && hours <= resource.available_hours
}

/// The listing after `hours` of it were leased: that many hours fewer, and
/// active exactly as long as hours are left.
pub open spec fn debited(resource: ResourceView, hours: u64) -> ResourceView
    recommends
        can_lease(resource, hours),
{
    ResourceView {
        provider: resource.provider,
        token_rate: resource.token_rate,
        available_hours: (resource.available_hours - hours) as u64,
        is_active: resource.available_hours - hours != 0,
    }
}

/// The result of renting `hours` from `resource` at ledger time `now`, when
/// `counter` rentals have been made so far.
///
/// The rental is refused when the listing is inactive or holds fewer hours
/// than asked for. It is also refused, rather than recorded with a wrapped
/// number, when the token total or the next id would exceed 64 bits.
pub open spec fn rent_outcome(
    resource: ResourceView,
    counter: u64,
    renter: Seq<char>,
    hours: u64,
    now: u64,
) -> Result<LeaseView, MarketError> {
    if !can_lease(resource, hours) {
        Err(MarketError::ResourceUnavailable)
    } else if hours * resource.token_rate > u64::MAX || counter == u64::MAX {
        Err(MarketError::Overflow)
    } else {
        Ok(
            LeaseView {
                rental_id: (counter + 1) as u64,
                resource: debited(resource, hours),
                rental: RentalView {
                    renter,
                    provider: resource.provider,
                    hours_rented: hours,
                    total_tokens: (hours * resource.token_rate) as u64,
                    start_time: now,
                    is_completed: false,
                },
            },
        )
    }
}

/// What a rental that may or may not be kept holds, as mathematical values.
pub open spec fn kept_view(kept: Option<RentalAgreement>) -> Option<RentalView> {
    match kept {
        Some(rental) => Some(rental@),
        None => None,
    }
}

/// The result of `provider` completing what is kept under a rental id.
///
/// Refused when nothing is kept there, whoever asks: a rental that was never
/// made belongs to no provider. Refused for a rental of another provider,
/// then for one that is already completed. Otherwise the rental, marked as
/// completed and unchanged in every other field.
pub open spec fn completion(kept: Option<RentalView>, provider: Seq<char>) -> Result<
    RentalView,
    MarketError,
> {
    match kept {
        None => Err(MarketError::ProviderMismatch),
        Some(rental) => {
            if rental.provider != provider {
                Err(MarketError::ProviderMismatch)
            } else if rental.is_completed {
                Err(MarketError::AlreadyCompleted)
            } else {
                Ok(
                    RentalView {
                        renter: rental.renter,
                        provider: rental.provider,
                        hours_rented: rental.hours_rented,
                        total_tokens: rental.total_tokens,
                        start_time: rental.start_time,
                        is_completed: true,
                    },
                )
            }
        },
    }
}

/// Rents `hours` from `resource` to `renter` at ledger time `now`, when
/// `counter` rentals have been made so far.
pub fn rent(
    resource: ComputeResource,
    counter: u64,
    renter: String,
    hours: u64,
    now: u64,
) -> (result: Result<Lease, MarketError>)
    ensures
        match rent_outcome(resource@, counter, renter@, hours, now) {
            Ok(expected) => result matches Ok(lease) && lease@ == expected,
            Err(reason) => result matches Err(e) && e == reason,
        },
{
    if !resource.is_active || resource.available_hours < hours {
        return Err(MarketError::ResourceUnavailable);
    }
    let total_tokens: u64 = match hours.checked_mul(resource.token_rate) {
        Some(total) => total,
        None => {
            return Err(MarketError::Overflow);
        },
    };
    let rental_id: u64 = match counter.checked_add(1) {
        Some(id) => id,
        None => {
            return Err(MarketError::Overflow);
        },
    };
    let remaining: u64 = resource.available_hours - hours;
    let rental = RentalAgreement {
        renter,
        provider: resource.provider.clone(),
        hours_rented: hours,
        total_tokens,
        start_time: now,
        is_completed: false,
    };
    let resource = ComputeResource {
        provider: resource.provider,
        token_rate: resource.token_rate,
        available_hours: remaining,
        is_active: remaining != 0,
    };
    Ok(Lease { rental_id, resource, rental })
}

/// Marks what is kept under a rental id as completed, on behalf of
/// `provider`. `kept` is what the store holds under the id: the rental, or
/// nothing.
pub fn complete(
    kept: Option<RentalAgreement>,
    provider: &String,
) -> (result: Result<RentalAgreement, MarketError>)
    ensures
        match completion(kept_view(kept), provider@) {
            Ok(expected) => result matches Ok(done) && done@ == expected,
            Err(reason) => result matches Err(e) && e == reason,
        },
{
    let rental = match kept {
        Some(rental) => rental,
        None => {
            return Err(MarketError::ProviderMismatch);
        },
    };
    if rental.provider != *provider {
        return Err(MarketError::ProviderMismatch);
    }
    if rental.is_completed {
        return Err(MarketError::AlreadyCompleted);
    }
    Ok(
        RentalAgreement {
            renter: rental.renter,
            provider: rental.provider,
            hours_rented: rental.hours_rented,
            total_tokens: rental.total_tokens,
            start_time: rental.start_time,
            is_completed: true,
        },
    )
}

} // verus!
