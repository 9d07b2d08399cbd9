use pallets::kitties::dna::Kitty;
use pallets::kitties::state::{Error, Event};
use pallets::kitties::storage::Pallet;

const SEED: [u8; 32] = [0u8; 32];

fn create(pallet: &mut Pallet, who: u64) -> Result<Event, Error> {
    pallet.create_kitty(who, &SEED, None)
}

fn transfer(pallet: &mut Pallet, who: u64, new_owner: u64, kitty_id: u32) -> Result<Event, Error> {
    pallet.transfer_kitty(who, new_owner, kitty_id)
}

fn breed(pallet: &mut Pallet, who: u64, kitty_id_1: u32, kitty_id_2: u32) -> Result<Event, Error> {
    pallet.breed_kitty(who, kitty_id_1, kitty_id_2, &SEED, None)
}

/// Checks that the call is refused with `expected` and leaves the registry as it was.
fn assert_refused(
    pallet: &mut Pallet,
    call: impl FnOnce(&mut Pallet) -> Result<Event, Error>,
    expected: Error,
) {
    let before = pallet.clone();
    assert_eq!(call(pallet), Err(expected));
    assert_eq!(*pallet, before);
}

#[test]
fn create_kitty_works() {
    let mut pallet = Pallet::new();

    assert!(create(&mut pallet, 123).is_ok());
    assert_eq!(pallet.kitties_count(), Some(1));
    assert!(pallet.kitties(0).is_some());
    assert_eq!(pallet.owner(0), Some(123));
}

#[test]
fn create_kitty_failed_when_kitty_count_overflow() {
    let mut pallet = Pallet::new();
    pallet.put_kitties_count(u32::MAX);

    assert_refused(&mut pallet, |p| create(p, 123), Error::KittiesCountOverflow);
}

#[test]
fn transfer_kitty_works() {
    let mut pallet = Pallet::new();
    let _ = create(&mut pallet, 123);

    assert!(transfer(&mut pallet, 123, 456, 0).is_ok());
    assert_eq!(pallet.owner(0), Some(456));
}

#[test]
fn transfer_kitty_failed_when_kitty_not_exist() {
    let mut pallet = Pallet::new();

    assert_refused(&mut pallet, |p| transfer(p, 123, 456, 0), Error::KittyNotExist);
}

#[test]
fn transfer_kitty_failed_when_not_kitty_owner() {
    let mut pallet = Pallet::new();
    let _ = create(&mut pallet, 123);

    assert_refused(&mut pallet, |p| transfer(p, 1, 456, 0), Error::NotKittyOwner);
}

#[test]
fn breed_kitty_works() {
    let mut pallet = Pallet::new();
    let _ = create(&mut pallet, 123);
    let _ = create(&mut pallet, 123);

    assert!(breed(&mut pallet, 123, 0, 1).is_ok());
    assert_eq!(pallet.kitties_count(), Some(3));
    assert!(pallet.kitties(2).is_some());
    assert_eq!(pallet.owner(2), Some(123));
}

#[test]
fn breed_kitty_failed_when_parent_index_is_same() {
    let mut pallet = Pallet::new();
    let _ = create(&mut pallet, 123);
    let _ = create(&mut pallet, 123);

    assert_refused(&mut pallet, |p| breed(p, 123, 1, 1), Error::SameParentIndex);
}

#[test]
fn breed_kitty_failed_when_kitty1_not_exist() {
    let mut pallet = Pallet::new();
    let _ = create(&mut pallet, 123);

    assert!(pallet.kitties(0).is_some());
    assert!(pallet.kitties(1).is_none());
    assert_refused(&mut pallet, |p| breed(p, 123, 0, 1), Error::KittyNotExist);
}

#[test]
fn breed_kitty_failed_when_kitty2_not_exist() {
    let mut pallet = Pallet::new();
    let _ = create(&mut pallet, 123);

    assert!(pallet.kitties(0).is_some());
    assert!(pallet.kitties(1).is_none());
    assert_refused(&mut pallet, |p| breed(p, 123, 1, 0), Error::KittyNotExist);
}

#[test]
fn new_registry_is_empty() {
    let pallet = Pallet::new();

    assert_eq!(pallet.kitties_count(), None);
    assert_eq!(pallet.kitties(0), None);
    assert_eq!(pallet.owner(0), None);
    assert!(!pallet.contains_kitty(0));
    assert_eq!(pallet.next_kitty_id(), Ok(0));
}

#[test]
fn create_reports_owner_and_index() {
    let mut pallet = Pallet::new();

    assert_eq!(create(&mut pallet, 7), Ok(Event::KittyCreated(7, 0)));
    assert_eq!(create(&mut pallet, 8), Ok(Event::KittyCreated(8, 1)));
    assert_eq!(create(&mut pallet, 7), Ok(Event::KittyCreated(7, 2)));
    assert_eq!(pallet.owner(0), Some(7));
    assert_eq!(pallet.owner(1), Some(8));
    assert_eq!(pallet.owner(2), Some(7));
    assert_eq!(pallet.next_kitty_id(), Ok(3));
}

#[test]
fn create_with_dna_stores_that_dna() {
    let mut pallet = Pallet::new();
    let dna = [9u8; 16];

    assert_eq!(pallet.create_kitty_with_dna(5, dna), Ok(Event::KittyCreated(5, 0)));
    assert_eq!(pallet.kitties(0), Some(Kitty(dna)));
    assert_eq!(pallet.owner(0), Some(5));
    assert_eq!(pallet.kitties_count(), Some(1));
}

#[test]
fn create_draws_dna_from_seed_caller_and_position() {
    let mut pallet = Pallet::new();
    let _ = pallet.create_kitty(123, &SEED, None);
    let _ = pallet.create_kitty(123, &SEED, Some(7));

    assert_eq!(pallet.kitties(0), Some(Kitty(Pallet::random_value(&SEED, 123, None))));
    assert_eq!(pallet.kitties(1), Some(Kitty(Pallet::random_value(&SEED, 123, Some(7)))));
    assert_ne!(pallet.kitties(0), pallet.kitties(1));
}

#[test]
fn counter_counts_kitties_ever_created() {
    let mut pallet = Pallet::new();
    let mut expected = 0u32;
    for round in 0..20u32 {
        if round % 3 == 2 {
            assert!(breed(&mut pallet, 1, round - 2, round - 1).is_ok());
        } else {
            assert!(create(&mut pallet, u64::from(round)).is_ok());
        }
        expected += 1;
        // a refused call and a transfer leave the counter alone
        assert!(breed(&mut pallet, 1, 0, 0).is_err());
        assert!(transfer(&mut pallet, 999, 1, 0).is_err());
        assert_eq!(pallet.kitties_count(), Some(expected));
        for id in 0..expected {
            assert!(pallet.kitties(id).is_some());
            assert!(pallet.owner(id).is_some());
        }
        assert!(pallet.kitties(expected).is_none());
        assert!(pallet.owner(expected).is_none());
    }
}

#[test]
fn transfer_changes_the_owner_and_nothing_else() {
    let mut pallet = Pallet::new();
    let _ = create(&mut pallet, 123);
    let _ = create(&mut pallet, 123);
    let kitty = pallet.kitties(1);

    assert_eq!(transfer(&mut pallet, 123, 456, 1), Ok(Event::KittyTransfer(123, 456, 1)));
    assert_eq!(pallet.owner(1), Some(456));
    assert_eq!(pallet.owner(0), Some(123));
    assert_eq!(pallet.kitties(1), kitty);
    assert_eq!(pallet.kitties_count(), Some(2));
}

#[test]
fn transfer_to_oneself_succeeds_and_changes_nothing() {
    let mut pallet = Pallet::new();
    let _ = create(&mut pallet, 123);
    let before = pallet.clone();

    assert_eq!(transfer(&mut pallet, 123, 123, 0), Ok(Event::KittyTransfer(123, 123, 0)));
    assert_eq!(pallet, before);
}

#[test]
fn transfer_to_an_unknown_account_succeeds() {
    let mut pallet = Pallet::new();
    let _ = create(&mut pallet, 123);

    assert_eq!(
        transfer(&mut pallet, 123, 0xdead_beef_0000_0001, 0),
        Ok(Event::KittyTransfer(123, 0xdead_beef_0000_0001, 0))
    );
    assert_eq!(pallet.owner(0), Some(0xdead_beef_0000_0001));
}

#[test]
fn former_owner_cannot_transfer_again() {
    let mut pallet = Pallet::new();
    let _ = create(&mut pallet, 123);
    let _ = transfer(&mut pallet, 123, 456, 0);

    assert_refused(&mut pallet, |p| transfer(p, 123, 789, 0), Error::NotKittyOwner);
    assert_eq!(transfer(&mut pallet, 456, 789, 0), Ok(Event::KittyTransfer(456, 789, 0)));
}

#[test]
fn transfer_of_a_kitty_without_owner_on_record_is_refused() {
    let mut pallet = Pallet::new();
    pallet.insert_kitty(4, Kitty([1u8; 16]), 123);
    let mut orphaned = Pallet::new();
    orphaned.put_kitties_count(5);

    assert_eq!(transfer(&mut pallet, 123, 456, 4), Ok(Event::KittyTransfer(123, 456, 4)));
    assert_refused(&mut orphaned, |p| transfer(p, 123, 456, 4), Error::KittyNotExist);
}

#[test]
fn breed_same_parent_is_refused_whether_or_not_it_exists() {
    let mut pallet = Pallet::new();
    assert_refused(&mut pallet, |p| breed(p, 123, 0, 0), Error::SameParentIndex);
    assert_refused(&mut pallet, |p| breed(p, 123, 77, 77), Error::SameParentIndex);

    let _ = create(&mut pallet, 123);
    assert_refused(&mut pallet, |p| breed(p, 123, 0, 0), Error::SameParentIndex);
}

#[test]
fn breed_does_not_ask_who_owns_the_parents() {
    let mut pallet = Pallet::new();
    let _ = create(&mut pallet, 1);
    let _ = create(&mut pallet, 2);

    assert_eq!(breed(&mut pallet, 3, 0, 1), Ok(Event::KittyBreed(0, 1)));
    assert_eq!(pallet.owner(2), Some(3));
    assert_eq!(pallet.owner(0), Some(1));
    assert_eq!(pallet.owner(1), Some(2));
}

#[test]
fn breed_with_selector_takes_bits_from_one_parent_each() {
    let mut pallet = Pallet::new();
    let dna_1 = [0b1111_0000u8; 16];
    let mut dna_2 = [0u8; 16];
    let mut selector = [0u8; 16];
    for i in 0..16 {
        dna_2[i] = i as u8;
        selector[i] = if i % 2 == 0 { 0xff } else { 0b1010_1010 };
    }
    let _ = pallet.create_kitty_with_dna(1, dna_1);
    let _ = pallet.create_kitty_with_dna(1, dna_2);

    assert_eq!(pallet.breed_kitty_with_selector(2, 0, 1, selector), Ok(Event::KittyBreed(0, 1)));

    let child = pallet.kitties(2).unwrap().0;
    assert_eq!(
        child,
        [0xf0, 0xa1, 0xf0, 0xa1, 0xf0, 0xa5, 0xf0, 0xa5, 0xf0, 0xa1, 0xf0, 0xa1, 0xf0, 0xa5, 0xf0, 0xa5]
    );
    for i in 0..16 {
        for k in 0..8 {
            let from = if (selector[i] >> k) & 1 == 1 { dna_1[i] } else { dna_2[i] };
            assert_eq!((child[i] >> k) & 1, (from >> k) & 1);
        }
    }
    assert_eq!(pallet.kitties(0), Some(Kitty(dna_1)));
    assert_eq!(pallet.kitties(1), Some(Kitty(dna_2)));
    assert_eq!(pallet.kitties_count(), Some(3));
}

#[test]
fn breed_draws_its_selector_from_seed_caller_and_position() {
    let mut pallet = Pallet::new();
    let _ = pallet.create_kitty_with_dna(1, [0xffu8; 16]);
    let _ = pallet.create_kitty_with_dna(1, [0x00u8; 16]);
    let mut twin = pallet.clone();

    assert!(pallet.breed_kitty(9, 0, 1, &[5u8; 32], Some(3)).is_ok());
    // all ones against all zeroes: the child is the selector itself
    assert_eq!(pallet.kitties(2), Some(Kitty(Pallet::random_value(&[5u8; 32], 9, Some(3)))));

    // the same call on the same registry gives the same child
    assert!(twin.breed_kitty(9, 0, 1, &[5u8; 32], Some(3)).is_ok());
    assert_eq!(twin, pallet);
}

#[test]
fn breed_fails_on_overflow_only_after_the_parents_were_checked() {
    let mut pallet = Pallet::new();
    let _ = create(&mut pallet, 123);
    let _ = create(&mut pallet, 123);
    pallet.put_kitties_count(u32::MAX);

    assert_refused(&mut pallet, |p| breed(p, 123, 0, 1), Error::KittiesCountOverflow);
    assert_refused(&mut pallet, |p| breed(p, 123, 0, 0), Error::SameParentIndex);
    assert_refused(&mut pallet, |p| breed(p, 123, 0, 5), Error::KittyNotExist);
    assert_refused(&mut pallet, |p| create(p, 123), Error::KittiesCountOverflow);
    assert_eq!(pallet.next_kitty_id(), Err(Error::KittiesCountOverflow));
}

#[test]
fn last_index_below_the_maximum_is_still_handed_out() {
    let mut pallet = Pallet::new();
    pallet.put_kitties_count(u32::MAX - 1);

    assert_eq!(pallet.next_kitty_id(), Ok(u32::MAX - 1));
    assert_eq!(create(&mut pallet, 123), Ok(Event::KittyCreated(123, u32::MAX - 1)));
    assert_eq!(pallet.kitties_count(), Some(u32::MAX));
    assert_refused(&mut pallet, |p| create(p, 123), Error::KittiesCountOverflow);
}

#[test]
fn raw_writes_touch_only_their_entry() {
    let mut pallet = Pallet::new();
    pallet.insert_kitty(3, Kitty([3u8; 16]), 30);
    assert_eq!(pallet.kitties_count(), None);
    assert_eq!(pallet.kitties(3), Some(Kitty([3u8; 16])));
    assert_eq!(pallet.owner(3), Some(30));
    assert!(pallet.contains_kitty(3));
    assert!(!pallet.contains_kitty(2));

    pallet.set_owner(3, 31);
    assert_eq!(pallet.owner(3), Some(31));
    assert_eq!(pallet.kitties(3), Some(Kitty([3u8; 16])));

    pallet.put_kitties_count(4);
    assert_eq!(pallet.kitties_count(), Some(4));
    assert_eq!(pallet.owner(3), Some(31));
}

#[test]
fn scenario_create_breed_transfer() {
    let (alice, bob, carol) = (1u64, 2u64, 3u64);
    let mut pallet = Pallet::new();

    assert_eq!(create(&mut pallet, alice), Ok(Event::KittyCreated(alice, 0)));
    assert_eq!(pallet.owner(0), Some(alice));
    assert_eq!(pallet.kitties_count(), Some(1));

    assert_eq!(pallet.create_kitty(alice, &SEED, Some(1)), Ok(Event::KittyCreated(alice, 1)));
    assert_eq!(pallet.owner(1), Some(alice));
    assert_eq!(pallet.kitties_count(), Some(2));

    assert_eq!(pallet.breed_kitty(alice, 0, 1, &SEED, Some(2)), Ok(Event::KittyBreed(0, 1)));
    assert_eq!(pallet.owner(2), Some(alice));
    assert_eq!(pallet.kitties_count(), Some(3));
    let (dna_0, dna_1, dna_2) =
        (pallet.kitties(0).unwrap().0, pallet.kitties(1).unwrap().0, pallet.kitties(2).unwrap().0);
    let selector = Pallet::random_value(&SEED, alice, Some(2));
    for i in 0..16 {
        assert_eq!(dna_2[i], (selector[i] & dna_0[i]) | (!selector[i] & dna_1[i]));
    }

    assert_eq!(transfer(&mut pallet, alice, bob, 2), Ok(Event::KittyTransfer(alice, bob, 2)));
    assert_eq!(pallet.owner(2), Some(bob));

    assert_refused(&mut pallet, |p| transfer(p, carol, bob, 2), Error::NotKittyOwner);
    assert_refused(&mut pallet, |p| breed(p, alice, 5, 1), Error::KittyNotExist);
}
