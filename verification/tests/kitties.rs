use kitties::genome::{Kitty, KittyGender};
use kitties::pallet::{Error, Event, Pallet};

// The entropy seed the host supplies when none has been set explicitly, and
// the submission index of the first call in a block.
const DEFAULT_SEED: [u8; 32] = [0u8; 32];
const INDEX: Option<u32> = Some(0);

#[test]
fn should_create_and_own_kitty() {
    let mut pallet = Pallet::new();
    assert!(pallet.create(100, &DEFAULT_SEED, INDEX).is_ok());

    let kitty = Kitty([59, 250, 138, 82, 209, 39, 141, 109, 163, 238, 183, 145, 235, 168, 18, 122]);

    assert_eq!(pallet.kitties(100, 0), Some(kitty.clone()));
    assert_eq!(pallet.next_kitty_id(), 1);

    assert_eq!(pallet.events().last(), Some(&Event::KittyCreated(100, 0, kitty)));
}

#[test]
fn should_be_female_kitty() {
    assert_eq!(Kitty([0; 16]).gender(), KittyGender::Female);
}

#[test]
fn should_be_male_kitty() {
    assert_eq!(Kitty([1, 0, 0, 0, 0, 0, 0, 0, 0, 0, 0, 0, 0, 0, 0, 0]).gender(), KittyGender::Male);
}

#[test]
fn should_create_kitty_from_breeding_pair() {
    let mut pallet = Pallet::new();

    // create kitty_0
    assert!(pallet.create(100, &DEFAULT_SEED, INDEX).is_ok());

    // create kitty_1
    let seed = [2u8; 32];
    assert!(pallet.create(100, &seed, INDEX).is_ok());

    // breed kitty_0 with kitty_1
    assert!(pallet.breed(100, 0, 1, &seed, INDEX).is_ok());

    let kitty =
        Kitty([187, 250, 235, 118, 211, 247, 237, 253, 187, 239, 191, 185, 239, 171, 211, 122]);

    assert_eq!(pallet.kitties(100, 2), Some(kitty.clone()));
    assert_eq!(pallet.next_kitty_id(), 3);

    assert_eq!(pallet.events().last(), Some(&Event::KittyCreatedByBreeding(100, 2, kitty)));
}

#[test]
fn should_not_breed_when_kitty_not_found() {
    let mut pallet = Pallet::new();
    assert!(pallet.create(100, &DEFAULT_SEED, INDEX).is_ok());
    assert_eq!(pallet.breed(100, 0, 11, &DEFAULT_SEED, INDEX), Err(Error::InvalidKittyId));
}

#[test]
fn should_not_breed_when_kitty_not_owned() {
    let mut pallet = Pallet::new();

    // create kitty_0
    assert!(pallet.create(100, &DEFAULT_SEED, INDEX).is_ok());

    // create kitty_1
    let seed = [2u8; 32];
    assert!(pallet.create(100, &seed, INDEX).is_ok());

    // breed kitty_0 with kitty_1
    assert_eq!(pallet.breed(101, 0, 1, &seed, INDEX), Err(Error::InvalidKittyId));
}

#[test]
fn should_tranfer_kitty() {
    let mut pallet = Pallet::new();
    assert!(pallet.create(100, &DEFAULT_SEED, INDEX).is_ok());
    assert!(pallet.transfer(100, 200, 0).is_ok());

    let kitty = Kitty([59, 250, 138, 82, 209, 39, 141, 109, 163, 238, 183, 145, 235, 168, 18, 122]);

    assert_eq!(pallet.kitties(200, 0), Some(kitty));
    assert_eq!(pallet.kitties(100, 0), None);

    assert_eq!(pallet.events().last(), Some(&Event::KittyTransferred(100, 200, 0)));
}

#[test]
fn should_not_transfer_when_kitty_invalid() {
    let mut pallet = Pallet::new();
    assert!(pallet.create(100, &DEFAULT_SEED, INDEX).is_ok());

    // kitty #0 not owned by user #101
    assert_eq!(pallet.transfer(101, 200, 0), Err(Error::InvalidKittyId));

    // kitty #1 does not exists
    assert_eq!(pallet.transfer(100, 100, 1), Err(Error::InvalidKittyId));
}

#[test]
fn should_not_transfer_to_self() {
    let mut pallet = Pallet::new();
    assert!(pallet.create(100, &DEFAULT_SEED, INDEX).is_ok());

    // we reset events before transferring to
    // check later that the call did not emit any event.
    pallet.reset_events();

    assert!(pallet.transfer(100, 100, 0).is_ok());

    let kitty = Kitty([59, 250, 138, 82, 209, 39, 141, 109, 163, 238, 183, 145, 235, 168, 18, 122]);

    assert_eq!(pallet.kitties(100, 0), Some(kitty));
    assert_eq!(pallet.events().len(), 0);
}
