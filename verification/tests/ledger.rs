use token_bridge::{
    ComputeResource, MarketError, RentalAgreement, RentalBook, ResourceBook, TokenBridgeContract,
};

fn name(text: &str) -> String {
    String::from(text)
}

fn listing(provider: &str, token_rate: u64, available_hours: u64, is_active: bool) -> ComputeResource {
    ComputeResource { provider: name(provider), token_rate, available_hours, is_active }
}

#[test]
fn listing_then_viewing_returns_what_was_listed() {
    let mut market = TokenBridgeContract::new();
    assert_eq!(market.list_resource(true, name("alice"), 3, 40), Ok(()));
    assert_eq!(market.view_resource(name("alice")), listing("alice", 3, 40, true));
}

#[test]
fn relisting_discards_the_prior_listing() {
    let mut market = TokenBridgeContract::new();
    market.list_resource(true, name("alice"), 3, 40).unwrap();
    market.rent_resource(true, name("bob"), name("alice"), 40, 0).unwrap();
    assert_eq!(market.view_resource(name("alice")), listing("alice", 3, 0, false));
    market.list_resource(true, name("alice"), 8, 5).unwrap();
    assert_eq!(market.view_resource(name("alice")), listing("alice", 8, 5, true));
}

#[test]
fn listing_leaves_other_providers_alone() {
    let mut market = TokenBridgeContract::new();
    market.list_resource(true, name("alice"), 3, 40).unwrap();
    market.list_resource(true, name("carol"), 5, 6).unwrap();
    market.list_resource(true, name("alice"), 4, 41).unwrap();
    assert_eq!(market.view_resource(name("carol")), listing("carol", 5, 6, true));
    assert_eq!(market.view_resource(name("alice")), listing("alice", 4, 41, true));
}

#[test]
fn listing_zero_hours_is_active() {
    let mut market = TokenBridgeContract::new();
    market.list_resource(true, name("alice"), 3, 0).unwrap();
    assert_eq!(market.view_resource(name("alice")), listing("alice", 3, 0, true));
}

#[test]
fn unauthorized_listing_changes_nothing() {
    let mut market = TokenBridgeContract::new();
    assert_eq!(market.list_resource(false, name("alice"), 3, 40), Err(MarketError::Unauthorized));
    assert_eq!(market.find_resource(&ResourceBook::Resource(name("alice"))), None);
    market.list_resource(true, name("alice"), 3, 40).unwrap();
    assert_eq!(market.list_resource(false, name("alice"), 9, 9), Err(MarketError::Unauthorized));
    assert_eq!(market.view_resource(name("alice")), listing("alice", 3, 40, true));
}

#[test]
fn missing_resource_reads_as_placeholder() {
    let market = TokenBridgeContract::new();
    assert_eq!(market.view_resource(name("nobody")), listing("nobody", 0, 0, false));
    assert_eq!(market.find_resource(&ResourceBook::Resource(name("nobody"))), None);
}

#[test]
fn missing_rental_reads_as_placeholder() {
    let market = TokenBridgeContract::new();
    assert_eq!(
        market.view_rental(7),
        RentalAgreement {
            renter: String::new(),
            provider: String::new(),
            hours_rented: 0,
            total_tokens: 0,
            start_time: 0,
            is_completed: false,
        }
    );
    assert_eq!(market.find_rental(&RentalBook::Rental(7)), None);
}

#[test]
fn found_entries_are_the_stored_ones() {
    let mut market = TokenBridgeContract::new();
    market.list_resource(true, name("alice"), 3, 40).unwrap();
    market.rent_resource(true, name("bob"), name("alice"), 1, 55).unwrap();
    assert_eq!(
        market.find_resource(&ResourceBook::Resource(name("alice"))),
        Some(listing("alice", 3, 39, true))
    );
    assert_eq!(market.find_rental(&RentalBook::Rental(1)), Some(market.view_rental(1)));
    assert_eq!(market.find_rental(&RentalBook::Rental(2)), None);
}

#[test]
fn rental_debits_hours_and_deactivates_at_zero() {
    let mut market = TokenBridgeContract::new();
    market.list_resource(true, name("alice"), 2, 10).unwrap();
    market.rent_resource(true, name("bob"), name("alice"), 9, 0).unwrap();
    assert_eq!(market.view_resource(name("alice")), listing("alice", 2, 1, true));
    market.rent_resource(true, name("bob"), name("alice"), 1, 0).unwrap();
    assert_eq!(market.view_resource(name("alice")), listing("alice", 2, 0, false));
}

#[test]
fn rental_of_all_hours_at_once() {
    let mut market = TokenBridgeContract::new();
    market.list_resource(true, name("alice"), 2, 10).unwrap();
    assert_eq!(market.rent_resource(true, name("bob"), name("alice"), 10, 0), Ok(1));
    assert_eq!(market.view_resource(name("alice")), listing("alice", 2, 0, false));
    assert_eq!(market.view_rental(1).total_tokens, 20);
}

#[test]
fn rental_of_zero_hours_succeeds_without_debit() {
    let mut market = TokenBridgeContract::new();
    market.list_resource(true, name("alice"), 2, 10).unwrap();
    assert_eq!(market.rent_resource(true, name("bob"), name("alice"), 0, 77), Ok(1));
    assert_eq!(market.view_resource(name("alice")), listing("alice", 2, 10, true));
    let rental = market.view_rental(1);
    assert_eq!(rental.hours_rented, 0);
    assert_eq!(rental.total_tokens, 0);
    assert_eq!(rental.start_time, 77);
}

#[test]
fn rental_of_zero_hours_from_empty_active_listing_deactivates_it() {
    let mut market = TokenBridgeContract::new();
    market.list_resource(true, name("alice"), 2, 0).unwrap();
    assert_eq!(market.rent_resource(true, name("bob"), name("alice"), 0, 0), Ok(1));
    assert_eq!(market.view_resource(name("alice")), listing("alice", 2, 0, false));
}

#[test]
fn rental_ids_count_up_from_one_across_providers_and_renters() {
    let mut market = TokenBridgeContract::new();
    market.list_resource(true, name("alice"), 1, 100).unwrap();
    market.list_resource(true, name("carol"), 2, 100).unwrap();
    assert_eq!(market.rent_resource(true, name("bob"), name("alice"), 1, 0), Ok(1));
    assert_eq!(market.rent_resource(true, name("dave"), name("carol"), 1, 0), Ok(2));
    assert_eq!(market.rent_resource(true, name("bob"), name("carol"), 1, 0), Ok(3));
    assert_eq!(market.rent_resource(true, name("erin"), name("alice"), 1, 0), Ok(4));
    assert_eq!(market.view_rental(2).renter, name("dave"));
    assert_eq!(market.view_rental(3).provider, name("carol"));
}

#[test]
fn aborted_rental_gives_out_no_id() {
    let mut market = TokenBridgeContract::new();
    market.list_resource(true, name("alice"), 1, 5).unwrap();
    assert_eq!(market.rent_resource(true, name("bob"), name("alice"), 1, 0), Ok(1));
    assert_eq!(
        market.rent_resource(true, name("bob"), name("alice"), 5, 0),
        Err(MarketError::ResourceUnavailable)
    );
    assert_eq!(market.rent_resource(false, name("bob"), name("alice"), 1, 0), Err(MarketError::Unauthorized));
    market.complete_rental(true, 1, name("alice")).unwrap();
    assert_eq!(market.rent_resource(true, name("bob"), name("alice"), 1, 0), Ok(2));
}

#[test]
fn rental_of_too_many_hours_changes_nothing() {
    let mut market = TokenBridgeContract::new();
    market.list_resource(true, name("alice"), 4, 10).unwrap();
    assert_eq!(
        market.rent_resource(true, name("bob"), name("alice"), 11, 0),
        Err(MarketError::ResourceUnavailable)
    );
    assert_eq!(market.view_resource(name("alice")), listing("alice", 4, 10, true));
    assert_eq!(market.find_rental(&RentalBook::Rental(1)), None);
}

#[test]
fn rental_from_inactive_listing_changes_nothing() {
    let mut market = TokenBridgeContract::new();
    market.list_resource(true, name("alice"), 4, 10).unwrap();
    market.rent_resource(true, name("bob"), name("alice"), 10, 0).unwrap();
    assert_eq!(
        market.rent_resource(true, name("bob"), name("alice"), 0, 0),
        Err(MarketError::ResourceUnavailable)
    );
    assert_eq!(market.view_resource(name("alice")), listing("alice", 4, 0, false));
    assert_eq!(market.find_rental(&RentalBook::Rental(2)), None);
}

#[test]
fn rental_from_unlisted_provider_is_refused() {
    let mut market = TokenBridgeContract::new();
    assert_eq!(
        market.rent_resource(true, name("bob"), name("ghost"), 0, 0),
        Err(MarketError::ResourceUnavailable)
    );
    assert_eq!(market.find_resource(&ResourceBook::Resource(name("ghost"))), None);
}

#[test]
fn unauthorized_rental_changes_nothing() {
    let mut market = TokenBridgeContract::new();
    market.list_resource(true, name("alice"), 4, 10).unwrap();
    assert_eq!(market.rent_resource(false, name("bob"), name("alice"), 1, 0), Err(MarketError::Unauthorized));
    assert_eq!(market.view_resource(name("alice")), listing("alice", 4, 10, true));
    assert_eq!(market.find_rental(&RentalBook::Rental(1)), None);
}

#[test]
fn token_total_is_hours_times_rate() {
    let mut market = TokenBridgeContract::new();
    market.list_resource(true, name("alice"), 4_294_967_296, 4_294_967_295).unwrap();
    assert_eq!(market.rent_resource(true, name("bob"), name("alice"), 4_294_967_295, 0), Ok(1));
    assert_eq!(market.view_rental(1).total_tokens, 18_446_744_069_414_584_320);
}

#[test]
fn token_total_that_overflows_aborts_the_rental() {
    let mut market = TokenBridgeContract::new();
    market.list_resource(true, name("alice"), u64::MAX, 10).unwrap();
    assert_eq!(market.rent_resource(true, name("bob"), name("alice"), 2, 0), Err(MarketError::Overflow));
    assert_eq!(market.view_resource(name("alice")), listing("alice", u64::MAX, 10, true));
    assert_eq!(market.find_rental(&RentalBook::Rental(1)), None);
    assert_eq!(market.rent_resource(true, name("bob"), name("alice"), 1, 0), Ok(1));
    assert_eq!(market.view_rental(1).total_tokens, u64::MAX);
}

#[test]
fn completing_twice_aborts_the_second_time() {
    let mut market = TokenBridgeContract::new();
    market.list_resource(true, name("alice"), 1, 5).unwrap();
    market.rent_resource(true, name("bob"), name("alice"), 1, 0).unwrap();
    assert_eq!(market.complete_rental(true, 1, name("alice")), Ok(()));
    let completed = market.view_rental(1);
    assert!(completed.is_completed);
    assert_eq!(market.complete_rental(true, 1, name("alice")), Err(MarketError::AlreadyCompleted));
    assert_eq!(market.view_rental(1), completed);
}

#[test]
fn completing_keeps_the_other_fields() {
    let mut market = TokenBridgeContract::new();
    market.list_resource(true, name("alice"), 6, 5).unwrap();
    market.rent_resource(true, name("bob"), name("alice"), 2, 31).unwrap();
    market.complete_rental(true, 1, name("alice")).unwrap();
    assert_eq!(
        market.view_rental(1),
        RentalAgreement {
            renter: name("bob"),
            provider: name("alice"),
            hours_rented: 2,
            total_tokens: 12,
            start_time: 31,
            is_completed: true,
        }
    );
    assert_eq!(market.view_resource(name("alice")), listing("alice", 6, 3, true));
}

#[test]
fn completing_by_another_provider_changes_nothing() {
    let mut market = TokenBridgeContract::new();
    market.list_resource(true, name("alice"), 1, 5).unwrap();
    market.rent_resource(true, name("bob"), name("alice"), 1, 0).unwrap();
    assert_eq!(market.complete_rental(true, 1, name("carol")), Err(MarketError::ProviderMismatch));
    assert!(!market.view_rental(1).is_completed);
    assert_eq!(market.complete_rental(true, 1, name("bob")), Err(MarketError::ProviderMismatch));
    assert!(!market.view_rental(1).is_completed);
    market.complete_rental(true, 1, name("alice")).unwrap();
    assert_eq!(market.complete_rental(true, 1, name("carol")), Err(MarketError::ProviderMismatch));
    assert!(market.view_rental(1).is_completed);
}

#[test]
fn unauthorized_completion_changes_nothing() {
    let mut market = TokenBridgeContract::new();
    market.list_resource(true, name("alice"), 1, 5).unwrap();
    market.rent_resource(true, name("bob"), name("alice"), 1, 0).unwrap();
    assert_eq!(market.complete_rental(false, 1, name("alice")), Err(MarketError::Unauthorized));
    assert!(!market.view_rental(1).is_completed);
}

#[test]
fn completing_a_missing_rental_is_a_mismatch() {
    let mut market = TokenBridgeContract::new();
    assert_eq!(market.complete_rental(true, 1, name("alice")), Err(MarketError::ProviderMismatch));
    assert_eq!(market.find_rental(&RentalBook::Rental(1)), None);
}

#[test]
fn completing_a_missing_rental_as_the_empty_key_is_refused() {
    let mut market = TokenBridgeContract::new();
    assert_eq!(market.complete_rental(true, 9, String::new()), Err(MarketError::ProviderMismatch));
    assert_eq!(market.find_rental(&RentalBook::Rental(9)), None);
    assert_eq!(market.view_rental(9), RentalAgreement::missing());
    assert!(!market.view_rental(9).is_completed);
}

#[test]
fn completing_never_makes_a_rental() {
    let mut market = TokenBridgeContract::new();
    market.list_resource(true, name("alice"), 1, 5).unwrap();
    assert_eq!(market.complete_rental(true, 1, String::new()), Err(MarketError::ProviderMismatch));
    assert_eq!(market.complete_rental(true, 1, name("alice")), Err(MarketError::ProviderMismatch));
    assert_eq!(market.find_rental(&RentalBook::Rental(1)), None);
    assert_eq!(market.rent_resource(true, name("bob"), name("alice"), 1, 0), Ok(1));
    assert!(!market.view_rental(1).is_completed);
    assert_eq!(market.view_rental(1).renter, name("bob"));
}

#[test]
fn kept_ids_are_exactly_those_given_out() {
    let mut market = TokenBridgeContract::new();
    market.list_resource(true, name("alice"), 1, 5).unwrap();
    assert_eq!(market.find_rental(&RentalBook::Rental(0)), None);
    assert_eq!(market.find_rental(&RentalBook::Rental(1)), None);
    for expected in 1..=3u64 {
        assert_eq!(market.rent_resource(true, name("bob"), name("alice"), 1, 0), Ok(expected));
        assert_eq!(market.complete_rental(true, expected + 1, name("alice")), Err(MarketError::ProviderMismatch));
        assert_eq!(market.complete_rental(true, 0, name("alice")), Err(MarketError::ProviderMismatch));
        for id in 1..=expected {
            assert!(market.find_rental(&RentalBook::Rental(id)).is_some());
        }
        assert_eq!(market.find_rental(&RentalBook::Rental(0)), None);
        assert_eq!(market.find_rental(&RentalBook::Rental(expected + 1)), None);
        assert_eq!(market.find_rental(&RentalBook::Rental(u64::MAX)), None);
    }
}

#[test]
fn a_rental_by_the_empty_key_is_a_rental_like_any_other() {
    let mut market = TokenBridgeContract::new();
    market.list_resource(true, String::new(), 2, 5).unwrap();
    assert_eq!(market.rent_resource(true, String::new(), String::new(), 1, 0), Ok(1));
    assert_eq!(market.complete_rental(true, 1, name("alice")), Err(MarketError::ProviderMismatch));
    assert_eq!(market.complete_rental(true, 1, String::new()), Ok(()));
    assert!(market.view_rental(1).is_completed);
    assert_eq!(market.view_rental(1).total_tokens, 2);
}

#[test]
fn a_later_rental_leaves_earlier_rentals_as_they_were() {
    let mut market = TokenBridgeContract::new();
    market.list_resource(true, name("alice"), 3, 9).unwrap();
    market.rent_resource(true, name("bob"), name("alice"), 2, 10).unwrap();
    market.complete_rental(true, 1, name("alice")).unwrap();
    let first = market.view_rental(1);
    assert_eq!(market.rent_resource(true, name("carol"), name("alice"), 4, 20), Ok(2));
    market.list_resource(true, name("alice"), 8, 1).unwrap();
    assert_eq!(market.view_rental(1), first);
    assert!(first.is_completed);
    assert_eq!(market.view_rental(2).total_tokens, 12);
}

#[test]
fn many_providers_keep_their_own_listings() {
    let mut market = TokenBridgeContract::new();
    for i in 0..50u64 {
        market.list_resource(true, format!("provider-{}", i), i, 2 * i).unwrap();
    }
    for i in 0..50u64 {
        assert_eq!(
            market.view_resource(format!("provider-{}", i)),
            ComputeResource {
                provider: format!("provider-{}", i),
                token_rate: i,
                available_hours: 2 * i,
                is_active: true,
            }
        );
    }
}

#[test]
fn hours_and_tokens_add_up_over_several_rentals() {
    let mut market = TokenBridgeContract::new();
    market.list_resource(true, name("alice"), 7, 50).unwrap();
    market.list_resource(true, name("carol"), 2, 10).unwrap();
    let rented = [5u64, 0, 12, 3];
    let mut hours_so_far = 0u64;
    let mut tokens_so_far = 0u64;
    for (nth, hours) in rented.iter().enumerate() {
        let id = market.rent_resource(true, name("bob"), name("alice"), *hours, 0).unwrap();
        assert_eq!(id, nth as u64 + 1);
        hours_so_far += hours;
        tokens_so_far += market.view_rental(id).total_tokens;
        assert_eq!(market.view_resource(name("alice")).available_hours, 50 - hours_so_far);
        assert_eq!(market.view_resource(name("alice")).token_rate, 7);
        assert_eq!(tokens_so_far, 7 * hours_so_far);
    }
    assert_eq!(hours_so_far, 20);
    assert_eq!(tokens_so_far, 140);
    assert_eq!(market.view_resource(name("carol")), listing("carol", 2, 10, true));

    market.list_resource(true, name("alice"), 9, 4).unwrap();
    let id = market.rent_resource(true, name("bob"), name("alice"), 4, 0).unwrap();
    assert_eq!(id, 5);
    assert_eq!(market.view_rental(id).total_tokens, 36);
    assert_eq!(market.view_resource(name("alice")), listing("alice", 9, 0, false));
}
