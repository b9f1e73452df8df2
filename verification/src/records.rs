//! The records that the ledger keeps, the keys it keeps them under, and the
//! placeholder records that stand for a missing entry.
//!
//! A principal is identified by a text key. The record that stands for a
//! missing rental carries the empty key for both of its identities; it is
//! what a read returns, never something the ledger keeps.
use vstd::prelude::*;

verus! {

/// What a [`ComputeResource`] holds, as mathematical values.
pub struct ResourceView {
    pub provider: Seq<char>,
    pub token_rate: u64,
    pub available_hours: u64,
    pub is_active: bool,
}

/// What a [`RentalAgreement`] holds, as mathematical values.
pub struct RentalView {
    pub renter: Seq<char>,
    pub provider: Seq<char>,
    pub hours_rented: u64,
    pub total_tokens: u64,
    pub start_time: u64,
    pub is_completed: bool,
}

/// One provider's current listing.
#[derive(Debug, PartialEq, Eq)]
pub struct ComputeResource {
    /// The provider, which is also the key of the listing.
    pub provider: String,
    /// Tokens charged per hour.
    pub token_rate: u64,
    /// Hours that can still be leased.
    pub available_hours: u64,
    /// Whether hours can be leased at all.
    pub is_active: bool,
}

/// One lease of hours from a provider to a renter.
#[derive(Debug, PartialEq, Eq)]
pub struct RentalAgreement {
    pub renter: String,
    pub provider: String,
    pub hours_rented: u64,
    /// `hours_rented` times the provider's rate when the lease was made.
    pub total_tokens: u64,
    /// The ledger time at which the lease was made.
    pub start_time: u64,
    pub is_completed: bool,
}

/// The key under which a provider's listing is kept.
#[derive(Debug, PartialEq, Eq)]
pub enum ResourceBook {
    Resource(String),
}

/// The key under which a rental is kept.
#[derive(Clone, Copy, Debug, PartialEq, Eq, Structural)]
pub enum RentalBook {
    Rental(u64),
}

impl ResourceView {
    /// The listing that a provider's call creates: active, with the rate and
    /// hours as given.
    pub open spec fn listed(provider: Seq<char>, token_rate: u64, available_hours: u64) -> Self {
        ResourceView { provider, token_rate, available_hours, is_active: true }
    }

    /// The placeholder for a provider without a listing: nothing to lease.
    pub open spec fn unlisted(provider: Seq<char>) -> Self {
        ResourceView { provider, token_rate: 0, available_hours: 0, is_active: false }
    }
}

impl RentalView {
    /// The placeholder for a rental id under which nothing is kept: empty
    /// identities, zero amounts, not completed.
    pub open spec fn missing() -> Self {
        RentalView {
            renter: Seq::empty(),
            provider: Seq::empty(),
            hours_rented: 0,
            total_tokens: 0,
            start_time: 0,
            is_completed: false,
        }
    }
}

impl View for ComputeResource {
    type V = ResourceView;

    open spec fn view(&self) -> ResourceView {
        ResourceView {
            provider: self.provider@,
            token_rate: self.token_rate,
            available_hours: self.available_hours,
            is_active: self.is_active,
        }
    }
}

impl View for RentalAgreement {
    type V = RentalView;

    open spec fn view(&self) -> RentalView {
        RentalView {
            renter: self.renter@,
            provider: self.provider@,
            hours_rented: self.hours_rented,
            total_tokens: self.total_tokens,
            start_time: self.start_time,
            is_completed: self.is_completed,
        }
    }
}

impl Clone for ComputeResource {
    fn clone(&self) -> (copy: Self)
        ensures
            copy == *self,
    {
        ComputeResource {
            provider: self.provider.clone(),
            token_rate: self.token_rate,
            available_hours: self.available_hours,
            is_active: self.is_active,
        }
    }
}

impl Clone for RentalAgreement {
    fn clone(&self) -> (copy: Self)
        ensures
            copy == *self,
    {
        RentalAgreement {
            renter: self.renter.clone(),
            provider: self.provider.clone(),
            hours_rented: self.hours_rented,
            total_tokens: self.total_tokens,
            start_time: self.start_time,
            is_completed: self.is_completed,
        }
    }
}

impl ComputeResource {
    /// The listing that a provider's call creates.
    pub fn listed(provider: String, token_rate: u64, available_hours: u64) -> (resource: Self)
        ensures
            resource@ == ResourceView::listed(provider@, token_rate, available_hours),
    {
        ComputeResource { provider, token_rate, available_hours, is_active: true }
    }

    /// The placeholder for a provider without a listing.
    pub fn unlisted(provider: String) -> (resource: Self)
        ensures
            resource@ == ResourceView::unlisted(provider@),
    {
        ComputeResource { provider, token_rate: 0, available_hours: 0, is_active: false }
    }
}

impl RentalAgreement {
    /// The placeholder for a rental id under which nothing is kept.
    pub fn missing() -> (rental: Self)
        ensures
            rental@ == RentalView::missing(),
    {
        RentalAgreement {
            renter: String::new(),
            provider: String::new(),
            hours_rented: 0,
            total_tokens: 0,
            start_time: 0,
            is_completed: false,
        }
    }
}

impl ResourceBook {
    /// The provider whose listing the key names.
    pub open spec fn provider(self) -> Seq<char> {
        match self {
            ResourceBook::Resource(provider) => provider@,
        }
    }
}

impl RentalBook {
    /// The rental id that the key names.
    pub open spec fn rental_id(self) -> u64 {
        match self {
            RentalBook::Rental(id) => id,
        }
    }
}

} // verus!
