//! What holds of the marketplace whatever is asked of it, proved over the
//! ledger model that the operations' contracts are stated in.
use vstd::prelude::*;
use crate::errors::MarketError;
use crate::records::ResourceView;
use crate::rules::{can_lease, completion};
use crate::state::LedgerState;

verus! {

/// One invocation of an operation that can change the ledger.
pub enum Call {
    List { authorized: bool, provider: Seq<char>, token_rate: u64, available_hours: u64 },
    Rent { authorized: bool, renter: Seq<char>, provider: Seq<char>, hours: u64, now: u64 },
    Complete { authorized: bool, rental_id: u64, provider: Seq<char> },
}

impl LedgerState {
    /// The ledger after `call`: changed as the operation says if it
    /// succeeds, and as it was if the operation is aborted.
    pub open spec fn after(self, call: Call) -> LedgerState {
        match call {
            Call::List { authorized, provider, token_rate, available_hours } => {
                match self.list_resource(authorized, provider, token_rate, available_hours) {
                    Ok(next) => next,
                    Err(_) => self,
                }
            },
            Call::Rent { authorized, renter, provider, hours, now } => {
                match self.rent_resource(authorized, renter, provider, hours, now) {
                    Ok((_, next)) => next,
                    Err(_) => self,
                }
            },
            Call::Complete { authorized, rental_id, provider } => {
                match self.complete_rental(authorized, rental_id, provider) {
                    Ok(next) => next,
                    Err(_) => self,
                }
            },
        }
    }

    /// The rental id that `call` returns, if it is a rental that succeeds.
    pub open spec fn id_given(self, call: Call) -> Option<u64> {
        match call {
            Call::Rent { authorized, renter, provider, hours, now } => {
                match self.rent_resource(authorized, renter, provider, hours, now) {
                    Ok((rental_id, _)) => Some(rental_id),
                    Err(_) => None,
                }
            },
            _ => None,
        }
    }
}

/// The ledger after the calls of `history`, made in order on an empty ledger.
pub open spec fn ledger_after(history: Seq<Call>) -> LedgerState
    decreases history.len(),
{
    if history.len() == 0 {
        LedgerState::empty()
    } else {
        ledger_after(history.drop_last()).after(history.last())
    }
}

/// How many of the calls of `history` are rentals that succeed.
pub open spec fn rentals_made(history: Seq<Call>) -> nat
    decreases history.len(),
{
    if history.len() == 0 {
        0
    } else {
        let before = history.drop_last();
        let made = rentals_made(before);
        if ledger_after(before).id_given(history.last()) is Some {
            made + 1
        } else {
            made
        }
    }
}

/// The empty ledger is well-formed, and every operation keeps a well-formed
/// ledger well-formed.
pub proof fn law_well_formed_is_kept(state: LedgerState, call: Call)
    requires
        state.well_formed(),
    ensures
        LedgerState::empty().well_formed(),
        state.after(call).well_formed(),
{
}

/// After a provider has listed a resource, viewing it gives the rate and
/// hours of the listing, active, whatever the provider had listed before;
/// the listings of all other providers are as they were.
pub proof fn law_listing_is_what_is_viewed(
    state: LedgerState,
    provider: Seq<char>,
    token_rate: u64,
    available_hours: u64,
)
    ensures
        state.list_resource(true, provider, token_rate, available_hours) matches Ok(next) && {
            &&& next.view_resource(provider) == ResourceView::listed(
                provider,
                token_rate,
                available_hours,
            )
            &&& forall|other: Seq<char>|
                other != provider ==> #[trigger] next.view_resource(other) == state.view_resource(
                    other,
                )
            &&& next.rentals == state.rentals
            &&& next.counter == state.counter
        },
{
}

/// A rental that succeeds takes exactly the rented hours from the listing,
/// leaves it active exactly if hours remain, and leaves its provider and
/// rate as they were.
pub proof fn law_rental_debits_listing(
    state: LedgerState,
    renter: Seq<char>,
    provider: Seq<char>,
    hours: u64,
    now: u64,
)
    requires
        state.rent_resource(true, renter, provider, hours, now) is Ok,
    ensures
        ({
            let before = state.view_resource(provider);
            let after = state.rent_resource(true, renter, provider, hours, now)->Ok_0.1.view_resource(
                provider,
            );
            &&& before.is_active
            &&& hours <= before.available_hours
            &&& after.available_hours == before.available_hours - hours
            &&& !after.is_active <==> after.available_hours == 0
            &&& after.token_rate == before.token_rate
            &&& after.provider == before.provider
        }),
{
}

/// A rental that succeeds returns the id that follows the counter, makes
/// that id the counter, and keeps the new rental under it, where nothing was
/// kept before: for the hours asked, at exactly `hours` times the listing's
/// rate, from the time given, not completed. Every other rental is as it
/// was.
pub proof fn law_rental_is_recorded(
    state: LedgerState,
    renter: Seq<char>,
    provider: Seq<char>,
    hours: u64,
    now: u64,
)
    requires
        state.well_formed(),
        state.rent_resource(true, renter, provider, hours, now) is Ok,
    ensures
        ({
            let (rental_id, next) = state.rent_resource(true, renter, provider, hours, now)->Ok_0;
            let rental = next.view_rental(rental_id);
            &&& rental_id == state.counter + 1
            &&& next.counter == rental_id
            &&& !state.rentals.contains_key(rental_id)
            &&& next.rentals.contains_key(rental_id)
            &&& rental.renter == renter
            &&& rental.provider == provider
            &&& rental.hours_rented == hours
            &&& rental.total_tokens == hours * state.view_resource(provider).token_rate
            &&& rental.start_time == now
            &&& !rental.is_completed
            &&& forall|other: u64|
                other != rental_id ==> #[trigger] next.view_rental(other) == state.view_rental(
                    other,
                )
        }),
{
}

/// A rental succeeds exactly when the caller is authorized, the listing is
/// active with enough hours, and neither the token total nor the next id
/// exceeds 64 bits; each other case has its own reason.
pub proof fn law_rental_outcomes(
    state: LedgerState,
    authorized: bool,
    renter: Seq<char>,
    provider: Seq<char>,
    hours: u64,
    now: u64,
)
    ensures
        ({
            let listing = state.view_resource(provider);
            let fits = hours * listing.token_rate <= u64::MAX && state.counter < u64::MAX;
            match state.rent_resource(authorized, renter, provider, hours, now) {
                Ok(_) => authorized && can_lease(listing, hours) && fits,
                Err(MarketError::Unauthorized) => !authorized,
                Err(MarketError::ResourceUnavailable) => authorized && !can_lease(listing, hours),
                Err(MarketError::Overflow) => authorized && can_lease(listing, hours) && !fits,
                Err(_) => false,
            }
        }),
{
}

/// A rental of more hours than the listing holds, or from an inactive
/// listing, is aborted and leaves the whole ledger as it was.
pub proof fn law_refused_rental_changes_nothing(
    state: LedgerState,
    authorized: bool,
    renter: Seq<char>,
    provider: Seq<char>,
    hours: u64,
    now: u64,
)
    requires
        hours > state.view_resource(provider).available_hours || !state.view_resource(
            provider,
        ).is_active,
    ensures
        state.rent_resource(authorized, renter, provider, hours, now) is Err,
        state.after(Call::Rent { authorized, renter, provider, hours, now }) == state,
{
}

/// Only a rental that succeeds moves the counter, and it moves it by one.
pub proof fn law_counter_steps(state: LedgerState, call: Call)
    ensures
        match state.id_given(call) {
            Some(rental_id) => rental_id == state.counter + 1 && state.after(call).counter
                == rental_id,
            None => state.after(call).counter == state.counter,
        },
{
}

/// Rental ids count the rentals: after any history of calls, by whatever
/// providers and renters, the counter is the number of rentals made, a
/// rental is kept under exactly the ids from 1 to that number, and a rental
/// that succeeds next gets the number that follows. So the first rental has
/// id 1 and each later one the id of the one before plus 1, with no id
/// skipped or used twice.
pub proof fn law_ids_count_rentals(history: Seq<Call>, call: Call)
    ensures
        ledger_after(history).well_formed(),
        ledger_after(history).counter == rentals_made(history),
        forall|id: u64| #[trigger]
            ledger_after(history).rentals.contains_key(id) <==> 1 <= id <= rentals_made(history),
        ledger_after(history).id_given(call) matches Some(rental_id) ==> rental_id
            == rentals_made(history) + 1,
    decreases history.len(),
{
    if history.len() > 0 {
        let before = history.drop_last();
        law_ids_count_rentals(before, history.last());
        law_counter_steps(ledger_after(before), history.last());
        law_well_formed_is_kept(ledger_after(before), history.last());
    }
    law_counter_steps(ledger_after(history), call);
}

/// Whether `call` is a listing by `provider` that succeeds.
pub open spec fn lists_anew(call: Call, provider: Seq<char>) -> bool {
    call matches Call::List { authorized, provider: lister, .. } && authorized && lister
        == provider
}

/// No call removes a listing, and an inactive listing, or the lack of one,
/// stays exactly as it is until its provider lists anew.
pub proof fn law_inactive_until_listed_anew(state: LedgerState, provider: Seq<char>, call: Call)
    ensures
        state.resources.contains_key(provider) ==> state.after(call).resources.contains_key(
            provider,
        ),
        !state.view_resource(provider).is_active && !lists_anew(call, provider) ==> state.after(
            call,
        ).view_resource(provider) == state.view_resource(provider),
{
}

/// The hours that `provider` offered in its latest listing among the calls
/// of `history`, or 0 if it has not listed.
pub open spec fn hours_listed(history: Seq<Call>, provider: Seq<char>) -> int
    decreases history.len(),
{
    if history.len() == 0 {
        0
    } else {
        match history.last() {
            Call::List { authorized, provider: lister, available_hours, .. } => {
                if authorized && lister == provider {
                    available_hours as int
                } else {
                    hours_listed(history.drop_last(), provider)
                }
            },
            _ => hours_listed(history.drop_last(), provider),
        }
    }
}

/// The hours rented from `provider` by the calls of `history` since its
/// latest listing: the sum over the rentals that succeeded.
pub open spec fn hours_leased(history: Seq<Call>, provider: Seq<char>) -> int
    decreases history.len(),
{
    if history.len() == 0 {
        0
    } else {
        let before = history.drop_last();
        match history.last() {
            Call::List { authorized, provider: lister, .. } => {
                if authorized && lister == provider {
                    0
                } else {
                    hours_leased(before, provider)
                }
            },
            Call::Rent { provider: lessor, hours, .. } => {
                if lessor == provider && ledger_after(before).id_given(history.last()) is Some {
                    hours_leased(before, provider) + hours
                } else {
                    hours_leased(before, provider)
                }
            },
            Call::Complete { .. } => hours_leased(before, provider),
        }
    }
}

/// Hours are neither lost nor made: after any history of calls, the hours a
/// provider has available are those of its latest listing less all that
/// were rented from it since, and never more were rented than it listed.
pub proof fn law_hours_are_accounted_for(history: Seq<Call>, provider: Seq<char>)
    ensures
        ledger_after(history).view_resource(provider).available_hours == hours_listed(
            history,
            provider,
        ) - hours_leased(history, provider),
        0 <= hours_leased(history, provider) <= hours_listed(history, provider),
    decreases history.len(),
{
    if history.len() > 0 {
        law_hours_are_accounted_for(history.drop_last(), provider);
    }
}

/// The rate of `provider`'s latest listing among the calls of `history`, or
/// 0 if it has not listed.
pub open spec fn rate_listed(history: Seq<Call>, provider: Seq<char>) -> int
    decreases history.len(),
{
    if history.len() == 0 {
        0
    } else {
        match history.last() {
            Call::List { authorized, provider: lister, token_rate, .. } => {
                if authorized && lister == provider {
                    token_rate as int
                } else {
                    rate_listed(history.drop_last(), provider)
                }
            },
            _ => rate_listed(history.drop_last(), provider),
        }
    }
}

/// The tokens recorded in the rentals that the calls of `history` made from
/// `provider` since its latest listing: the sum of their token totals.
pub open spec fn tokens_charged(history: Seq<Call>, provider: Seq<char>) -> int
    decreases history.len(),
{
    if history.len() == 0 {
        0
    } else {
        let before = history.drop_last();
        match history.last() {
            Call::List { authorized, provider: lister, .. } => {
                if authorized && lister == provider {
                    0
                } else {
                    tokens_charged(before, provider)
                }
            },
            Call::Rent { authorized, renter, provider: lessor, hours, now } => {
                match ledger_after(before).rent_resource(authorized, renter, lessor, hours, now) {
                    Ok((rental_id, next)) => {
                        if lessor == provider {
                            tokens_charged(before, provider) + next.rentals[rental_id].total_tokens
                        } else {
                            tokens_charged(before, provider)
                        }
                    },
                    Err(_) => tokens_charged(before, provider),
                }
            },
            Call::Complete { .. } => tokens_charged(before, provider),
        }
    }
}

/// A listing keeps its rate until its provider lists anew, and the tokens
/// recorded in the rentals made from it add up to that rate times the hours
/// rented.
pub proof fn law_tokens_are_accounted_for(history: Seq<Call>, provider: Seq<char>)
    ensures
        ledger_after(history).view_resource(provider).token_rate == rate_listed(
            history,
            provider,
        ),
        tokens_charged(history, provider) == rate_listed(history, provider) * hours_leased(
            history,
            provider,
        ),
    decreases history.len(),
{
    if history.len() > 0 {
        let before = history.drop_last();
        law_tokens_are_accounted_for(before, provider);
        let rate = rate_listed(before, provider);
        let leased = hours_leased(before, provider);
        match history.last() {
            Call::Rent { authorized, renter, provider: lessor, hours, now } => {
                if lessor == provider && ledger_after(before).id_given(history.last()) is Some {
                    assert(rate * (leased + hours) == rate * leased + hours * rate)
                        by (nonlinear_arith);
                }
            },
            _ => {},
        }
    }
}

/// A completion succeeds exactly when the caller is authorized, a rental is
/// kept under the id, it is the provider's, and it is not yet completed;
/// each other case has its own reason. A completion that succeeds marks that
/// rental as completed and changes nothing else.
pub proof fn law_completion_outcomes(
    state: LedgerState,
    authorized: bool,
    rental_id: u64,
    provider: Seq<char>,
)
    ensures
        ({
            let kept = state.rentals.contains_key(rental_id);
            let rental = state.rentals[rental_id];
            match state.complete_rental(authorized, rental_id, provider) {
                Ok(next) => {
                    &&& authorized && kept && rental.provider == provider && !rental.is_completed
                    &&& next.rentals == state.rentals.insert(
                        rental_id,
                        completion(Some(rental), provider)->Ok_0,
                    )
                    &&& next.rentals.dom() == state.rentals.dom()
                    &&& next.view_rental(rental_id).is_completed
                    &&& next.view_rental(rental_id).renter == rental.renter
                    &&& next.view_rental(rental_id).provider == rental.provider
                    &&& next.view_rental(rental_id).hours_rented == rental.hours_rented
                    &&& next.view_rental(rental_id).total_tokens == rental.total_tokens
                    &&& next.view_rental(rental_id).start_time == rental.start_time
                    &&& next.resources == state.resources
                    &&& next.counter == state.counter
                },
                Err(MarketError::Unauthorized) => !authorized,
                Err(MarketError::ProviderMismatch) => authorized && (!kept || rental.provider
                    != provider),
                Err(MarketError::AlreadyCompleted) => authorized && kept && rental.provider
                    == provider && rental.is_completed,
                Err(_) => false,
            }
        }),
{
    if state.complete_rental(authorized, rental_id, provider) is Ok {
        let next = state.complete_rental(authorized, rental_id, provider)->Ok_0;
        assert(next.rentals.dom() =~= state.rentals.dom());
    }
}

/// A rental that has been completed cannot be completed again: the second
/// attempt is aborted, and the rental stays completed.
pub proof fn law_completion_happens_once(
    state: LedgerState,
    rental_id: u64,
    provider: Seq<char>,
    again: bool,
)
    requires
        state.complete_rental(true, rental_id, provider) is Ok,
    ensures
        ({
            let next = state.complete_rental(true, rental_id, provider)->Ok_0;
            &&& next.view_rental(rental_id).is_completed
            &&& next.complete_rental(again, rental_id, provider) is Err
            &&& again ==> next.complete_rental(again, rental_id, provider) == Err::<
                LedgerState,
                MarketError,
            >(MarketError::AlreadyCompleted)
            &&& next.after(Call::Complete { authorized: again, rental_id, provider }) == next
        }),
{
}

/// A completion by a provider other than the rental's own is aborted and
/// leaves the whole ledger, the rental's completion mark included, as it
/// was.
pub proof fn law_foreign_completion_changes_nothing(
    state: LedgerState,
    authorized: bool,
    rental_id: u64,
    provider: Seq<char>,
)
    requires
        state.rentals.contains_key(rental_id),
        state.rentals[rental_id].provider != provider,
    ensures
        state.complete_rental(authorized, rental_id, provider) is Err,
        authorized ==> state.complete_rental(authorized, rental_id, provider) == Err::<
            LedgerState,
            MarketError,
        >(MarketError::ProviderMismatch),
        state.after(Call::Complete { authorized, rental_id, provider }) == state,
        state.after(Call::Complete { authorized, rental_id, provider }).view_rental(
            rental_id,
        ).is_completed == state.view_rental(rental_id).is_completed,
{
}

/// A completion of an id under which nothing is kept is aborted, whatever
/// provider is claimed, the empty key included, and leaves the whole ledger
/// as it was: nothing is kept under the id afterwards either.
pub proof fn law_missing_rental_is_not_completed(
    state: LedgerState,
    authorized: bool,
    rental_id: u64,
    provider: Seq<char>,
)
    requires
        !state.rentals.contains_key(rental_id),
    ensures
        state.complete_rental(authorized, rental_id, provider) is Err,
        authorized ==> state.complete_rental(authorized, rental_id, provider) == Err::<
            LedgerState,
            MarketError,
        >(MarketError::ProviderMismatch),
        state.after(Call::Complete { authorized, rental_id, provider }) == state,
        !state.after(Call::Complete { authorized, rental_id, provider }).rentals.contains_key(
            rental_id,
        ),
{
}

/// Only a rental that succeeds adds a rental to the ledger, and it adds it
/// under the id that it returns.
pub proof fn law_only_renting_adds_rentals(state: LedgerState, call: Call, rental_id: u64)
    requires
        !state.rentals.contains_key(rental_id),
        state.after(call).rentals.contains_key(rental_id),
    ensures
        state.id_given(call) == Some(rental_id),
{
}

/// No call removes or replaces a kept rental's record of who rented what,
/// and a rental, once completed, stays completed whatever is called next.
pub proof fn law_completed_stays_completed(state: LedgerState, rental_id: u64, call: Call)
    requires
        state.well_formed(),
        state.rentals.contains_key(rental_id),
    ensures
        state.after(call).rentals.contains_key(rental_id),
        state.after(call).view_rental(rental_id).renter == state.view_rental(rental_id).renter,
        state.after(call).view_rental(rental_id).provider == state.view_rental(
            rental_id,
        ).provider,
        state.after(call).view_rental(rental_id).hours_rented == state.view_rental(
            rental_id,
        ).hours_rented,
        state.after(call).view_rental(rental_id).total_tokens == state.view_rental(
            rental_id,
        ).total_tokens,
        state.after(call).view_rental(rental_id).start_time == state.view_rental(
            rental_id,
        ).start_time,
        state.view_rental(rental_id).is_completed ==> state.after(call).view_rental(
            rental_id,
        ).is_completed,
{
}

} // verus!
