//! The marketplace itself: a ledger held in memory, and the operations on it.
//!
//! Each operation that changes the ledger takes the verdict of the
//! authorization gate as `authorized`: whether the invocation is attributable
//! to the principal it acts for. An operation either succeeds and changes the
//! ledger as [`LedgerState`] says, or is aborted and changes nothing.
use std::collections::HashMap;
use vstd::prelude::*;
use crate::errors::MarketError;
use crate::records::{ComputeResource, RentalAgreement, RentalBook, ResourceBook, ResourceView};
use crate::rules::{complete, rent, Lease};
use crate::state::LedgerState;

verus! {

broadcast use vstd::std_specs::hash::group_hash_axioms;

/// After a successful change, a host that leases its storage renews the
/// lease when fewer than this many ledgers of it are left.
pub const LEASE_RENEWAL_THRESHOLD: u32 = 5000;

/// The number of ledgers to which such a renewal extends the lease.
pub const LEASE_RENEWAL_TARGET: u32 = 5000;

/// Whether `listings[i]` is the listing of `provider`.
spec fn listed_at(listings: Seq<ComputeResource>, provider: Seq<char>, i: int) -> bool {
    0 <= i < listings.len() && listings[i].provider@ == provider
}

/// No provider has two listings.
spec fn distinct_providers(listings: Seq<ComputeResource>) -> bool {
    forall|i: int, j: int|
        0 <= i < j < listings.len() ==> listings[i].provider@ != listings[j].provider@
}

/// The listings as a map from each provider to its listing.
spec fn listings_map(listings: Seq<ComputeResource>) -> Map<Seq<char>, ResourceView> {
    Map::new(
        |provider: Seq<char>| exists|i: int| listed_at(listings, provider, i),
        |provider: Seq<char>| listings[choose|i: int| listed_at(listings, provider, i)]@,
    )
}

/// The one listing of a provider is what the map holds for it.
proof fn lemma_listing_found(listings: Seq<ComputeResource>, provider: Seq<char>, i: int)
    requires
        distinct_providers(listings),
        listed_at(listings, provider, i),
    ensures
        listings_map(listings).contains_key(provider),
        listings_map(listings)[provider] == listings[i]@,
{
    let k = choose|k: int| listed_at(listings, provider, k);
    if k < i {
        assert(listings[k].provider@ != listings[i].provider@);
    } else if i < k {
        assert(listings[i].provider@ != listings[k].provider@);
    }
}

/// Appending the listing of a provider that had none adds it to the map.
proof fn lemma_listing_added(listings: Seq<ComputeResource>, resource: ComputeResource)
    requires
        distinct_providers(listings),
        forall|i: int| !listed_at(listings, resource.provider@, i),
    ensures
        distinct_providers(listings.push(resource)),
        listings_map(listings.push(resource)) == listings_map(listings).insert(
            resource.provider@,
            resource@,
        ),
{
    let after = listings.push(resource);
    let last = listings.len() as int;
    let expected = listings_map(listings).insert(resource.provider@, resource@);
    assert forall|i: int, j: int| 0 <= i < j < after.len() implies after[i].provider@
        != after[j].provider@ by {
        if j == last {
            assert(!listed_at(listings, resource.provider@, i));
        }
    }
    assert forall|q: Seq<char>| #[trigger]
        listings_map(after).dom().contains(q) implies expected.dom().contains(q)
        && listings_map(after)[q] == expected[q] by {
        let i = choose|i: int| listed_at(after, q, i);
        lemma_listing_found(after, q, i);
        if i != last {
            assert(listed_at(listings, q, i));
            lemma_listing_found(listings, q, i);
        }
    }
    assert forall|q: Seq<char>| #[trigger]
        expected.dom().contains(q) implies listings_map(after).dom().contains(q) by {
        if q == resource.provider@ {
            assert(listed_at(after, q, last));
        } else {
            let i = choose|i: int| listed_at(listings, q, i);
            assert(listed_at(after, q, i));
        }
    }
    assert(listings_map(after) =~= expected);
}

/// Replacing the listing of a provider by another of the same provider
/// replaces it in the map.
proof fn lemma_listing_replaced(
    listings: Seq<ComputeResource>,
    at: int,
    resource: ComputeResource,
)
    requires
        distinct_providers(listings),
        listed_at(listings, resource.provider@, at),
    ensures
        distinct_providers(listings.update(at, resource)),
        listings_map(listings.update(at, resource)) == listings_map(listings).insert(
            resource.provider@,
            resource@,
        ),
{
    let after = listings.update(at, resource);
    let expected = listings_map(listings).insert(resource.provider@, resource@);
    assert forall|i: int, j: int| 0 <= i < j < after.len() implies after[i].provider@
        != after[j].provider@ by {
        assert(listings[i].provider@ != listings[j].provider@);
    }
    assert forall|q: Seq<char>| #[trigger]
        listings_map(after).dom().contains(q) implies expected.dom().contains(q)
        && listings_map(after)[q] == expected[q] by {
        let i = choose|i: int| listed_at(after, q, i);
        lemma_listing_found(after, q, i);
        if i != at {
            assert(listed_at(listings, q, i));
            lemma_listing_found(listings, q, i);
            if i < at {
                assert(listings[i].provider@ != listings[at].provider@);
            } else {
                assert(listings[at].provider@ != listings[i].provider@);
            }
        }
    }
    assert forall|q: Seq<char>| #[trigger]
        expected.dom().contains(q) implies listings_map(after).dom().contains(q) by {
        if q == resource.provider@ {
            assert(listed_at(after, q, at));
        } else {
            let i = choose|i: int| listed_at(listings, q, i);
            assert(listed_at(after, q, i));
        }
    }
    assert(listings_map(after) =~= expected);
}

/// The marketplace: the listings, the rentals and the rental counter.
pub struct TokenBridgeContract {
    resources: Vec<ComputeResource>,
    rentals: HashMap<u64, RentalAgreement>,
    rental_counter: u64,
}

impl View for TokenBridgeContract {
    type V = LedgerState;

    closed spec fn view(&self) -> LedgerState {
        LedgerState {
            resources: listings_map(self.resources@),
            rentals: self.rentals@.map_values(|rental: RentalAgreement| rental@),
            counter: self.rental_counter,
        }
    }
}

impl TokenBridgeContract {
    /// No provider has two listings, and the ids under which a rental is
    /// kept are exactly 1 up to the rental counter.
    /// [`TokenBridgeContract::new`] establishes this and every operation
    /// keeps it.
    pub closed spec fn consistent(&self) -> bool {
        &&& distinct_providers(self.resources@)
        &&& forall|id: u64| #[trigger]
            self.rentals@.contains_key(id) <==> 1 <= id <= self.rental_counter
    }

    /// A marketplace without listings or rentals.
    pub fn new() -> (contract: Self)
        ensures
            contract.consistent(),
            contract@ == LedgerState::empty(),
    {
        let contract = TokenBridgeContract {
            resources: Vec::new(),
            rentals: HashMap::new(),
            rental_counter: 0,
        };
        assert(contract@.resources =~= Map::empty());
        assert(contract@.rentals =~= Map::empty());
        contract
    }

    /// Where the listing of `provider` is kept, if it has one.
    fn position(&self, provider: &String) -> (found: Option<usize>)
        ensures
            match found {
                Some(i) => listed_at(self.resources@, provider@, i as int),
                None => forall|i: int| !listed_at(self.resources@, provider@, i),
            },
    {
        let mut i: usize = 0;
        while i < self.resources.len()
            invariant
                i <= self.resources.len(),
                forall|j: int| 0 <= j < i ==> !listed_at(self.resources@, provider@, j),
            decreases self.resources.len() - i,
        {
            if self.resources[i].provider == *provider {
                return Some(i);
            }
            i += 1;
        }
        None
    }

    /// The listing kept under `key`, if there is one.
    pub fn find_resource(&self, key: &ResourceBook) -> (found: Option<ComputeResource>)
        requires
            self.consistent(),
        ensures
            match found {
                Some(resource) => self@.resources.contains_key(key.provider())
                    && self@.resources[key.provider()] == resource@,
                None => !self@.resources.contains_key(key.provider()),
            },
    {
        let ResourceBook::Resource(provider) = key;
        match self.position(provider) {
            Some(i) => {
                proof {
                    lemma_listing_found(self.resources@, provider@, i as int);
                }
                Some(self.resources[i].clone())
            },
            None => None,
        }
    }

    /// The rental kept under `key`, if there is one.
    pub fn find_rental(&self, key: &RentalBook) -> (found: Option<RentalAgreement>)
        requires
            self.consistent(),
        ensures
            match found {
                Some(rental) => self@.rentals.contains_key(key.rental_id())
                    && self@.rentals[key.rental_id()] == rental@,
                None => !self@.rentals.contains_key(key.rental_id()),
            },
    {
        let RentalBook::Rental(rental_id) = key;
        match self.rentals.get(rental_id) {
            Some(rental) => Some(rental.clone()),
            None => None,
        }
    }

    /// A consistent marketplace has a well-formed ledger.
    pub proof fn lemma_well_formed(&self)
        requires
            self.consistent(),
        ensures
            self@.well_formed(),
    {
        assert forall|provider: Seq<char>| #[trigger]
            self@.resources.contains_key(provider) implies self@.resources[provider].provider
            == provider by {
            let i = choose|i: int| listed_at(self.resources@, provider, i);
            lemma_listing_found(self.resources@, provider, i);
        }
    }

    /// Keeps `resource` under `key`, in place of what was kept there.
    fn put_resource(&mut self, key: ResourceBook, resource: ComputeResource)
        requires
            old(self).consistent(),
            key.provider() == resource.provider@,
        ensures
            final(self).consistent(),
            final(self)@ == (LedgerState {
                resources: old(self)@.resources.insert(key.provider(), resource@),
                rentals: old(self)@.rentals,
                counter: old(self)@.counter,
            }),
    {
        let ResourceBook::Resource(provider) = key;
        match self.position(&provider) {
            Some(i) => {
                proof {
                    lemma_listing_replaced(self.resources@, i as int, resource);
                }
                self.resources.set(i, resource);
            },
            None => {
                proof {
                    lemma_listing_added(self.resources@, resource);
                }
                self.resources.push(resource);
            },
        }
    }

    /// Keeps `rental` under `key`, in place of what was kept there.
    fn put_rental(&mut self, key: RentalBook, rental: RentalAgreement)
        ensures
            final(self)@ == (LedgerState {
                resources: old(self)@.resources,
                rentals: old(self)@.rentals.insert(key.rental_id(), rental@),
                counter: old(self)@.counter,
            }),
            final(self).resources == old(self).resources,
            final(self).rentals@.dom() == old(self).rentals@.dom().insert(key.rental_id()),
            final(self).rental_counter == old(self).rental_counter,
    {
        let RentalBook::Rental(rental_id) = key;
        self.rentals.insert(rental_id, rental);
        assert(self@.rentals =~= old(self)@.rentals.insert(rental_id, rental@));
        assert(self.rentals@.dom() =~= old(self).rentals@.dom().insert(rental_id));
    }

    /// Lists `available_hours` of `provider` at `token_rate` tokens an hour.
    ///
    /// The listing replaces whatever `provider` had listed before, hours that
    /// were left included, and is active.
    pub fn list_resource(
        &mut self,
        authorized: bool,
        provider: String,
        token_rate: u64,
        available_hours: u64,
    ) -> (result: Result<(), MarketError>)
        requires
            old(self).consistent(),
        ensures
            final(self).consistent(),
            match old(self)@.list_resource(authorized, provider@, token_rate, available_hours) {
                Ok(next) => result is Ok && final(self)@ == next,
                Err(reason) => {
                    &&& result == Err::<(), MarketError>(reason)
                    &&& final(self)@ == old(self)@
                },
            },
    {
        if !authorized {
            return Err(MarketError::Unauthorized);
        }
        let resource = ComputeResource::listed(provider.clone(), token_rate, available_hours);
        self.put_resource(ResourceBook::Resource(provider), resource);
        Ok(())
    }

    /// Rents `hours` from `provider` to `renter` at ledger time `now`, and
    /// returns the id of the new rental.
    ///
    /// The rental is refused when `provider`'s listing is inactive or holds
    /// fewer hours than asked for, and when the token total or the next id
    /// would exceed 64 bits. Otherwise the listing loses `hours` hours and
    /// stays active exactly if hours are left, and the rental is kept under
    /// the next id.
    pub fn rent_resource(
        &mut self,
        authorized: bool,
        renter: String,
        provider: String,
        hours: u64,
        now: u64,
    ) -> (result: Result<u64, MarketError>)
        requires
            old(self).consistent(),
        ensures
            final(self).consistent(),
            match old(self)@.rent_resource(authorized, renter@, provider@, hours, now) {
                Ok((rental_id, next)) => {
                    &&& result == Ok::<u64, MarketError>(rental_id)
                    &&& final(self)@ == next
                },
                Err(reason) => {
                    &&& result == Err::<u64, MarketError>(reason)
                    &&& final(self)@ == old(self)@
                },
            },
    {
        if !authorized {
            return Err(MarketError::Unauthorized);
        }
        let listing = self.view_resource(provider.clone());
        match rent(listing, self.rental_counter, renter, hours, now) {
            Ok(lease) => {
                let Lease { rental_id, resource, rental } = lease;
                self.put_resource(ResourceBook::Resource(provider), resource);
                self.put_rental(RentalBook::Rental(rental_id), rental);
                self.rental_counter = rental_id;
                Ok(rental_id)
            },
            Err(reason) => Err(reason),
        }
    }

    /// Marks the rental kept under `rental_id` as completed, on behalf of
    /// `provider`.
    ///
    /// Refused where nothing is kept under `rental_id`, whoever asks; then
    /// for a rental of another provider; then for one that is already
    /// completed. Completing changes the completion mark of a kept rental
    /// and nothing else: it never makes a rental.
    pub fn complete_rental(
        &mut self,
        authorized: bool,
        rental_id: u64,
        provider: String,
    ) -> (result: Result<(), MarketError>)
        requires
            old(self).consistent(),
        ensures
            final(self).consistent(),
            match old(self)@.complete_rental(authorized, rental_id, provider@) {
                Ok(next) => result is Ok && final(self)@ == next,
                Err(reason) => {
                    &&& result == Err::<(), MarketError>(reason)
                    &&& final(self)@ == old(self)@
                },
            },
    {
        if !authorized {
            return Err(MarketError::Unauthorized);
        }
        let kept = self.find_rental(&RentalBook::Rental(rental_id));
        match complete(kept, &provider) {
            Ok(done) => {
                self.put_rental(RentalBook::Rental(rental_id), done);
                Ok(())
            },
            Err(reason) => Err(reason),
        }
    }

    /// The listing of `provider`, or the placeholder if there is none: the
    /// provider with no rate, no hours, inactive.
    pub fn view_resource(&self, provider: String) -> (resource: ComputeResource)
        requires
            self.consistent(),
        ensures
            resource@ == self@.view_resource(provider@),
    {
        let key = ResourceBook::Resource(provider);
        match self.find_resource(&key) {
            Some(resource) => resource,
            None => {
                let ResourceBook::Resource(provider) = key;
                ComputeResource::unlisted(provider)
            },
        }
    }

    /// The rental kept under `rental_id`, or the placeholder if there is
    /// none: empty identities, zero amounts, not completed.
    pub fn view_rental(&self, rental_id: u64) -> (rental: RentalAgreement)
        requires
            self.consistent(),
        ensures
            rental@ == self@.view_rental(rental_id),
    {
        match self.find_rental(&RentalBook::Rental(rental_id)) {
            Some(rental) => rental,
            None => RentalAgreement::missing(),
        }
    }
}

} // verus!
