use kitties::genome::{combine_kitties_dna, generate_kitty_dna, Kitty, KittyGender};
use kitties::pallet::{Error, Pallet};

const SEED: [u8; 32] = [7u8; 32];

#[test]
fn generate_is_deterministic() {
    let a = generate_kitty_dna(100, &SEED, Some(3));
    let b = generate_kitty_dna(100, &SEED, Some(3));
    assert_eq!(a, b);
}

#[test]
fn generate_depends_on_every_input() {
    let base = generate_kitty_dna(100, &SEED, Some(3));
    assert_ne!(base, generate_kitty_dna(101, &SEED, Some(3)));
    assert_ne!(base, generate_kitty_dna(100, &[8u8; 32], Some(3)));
    assert_ne!(base, generate_kitty_dna(100, &SEED, Some(4)));
    assert_ne!(base, generate_kitty_dna(100, &SEED, None));
}

#[test]
fn combine_is_a_bitwise_mosaic() {
    // with parent a all ones and parent b all zeros, the child is the
    // complement of the mask; swapped, the child is the mask itself
    let mask = generate_kitty_dna(100, &SEED, None);
    let from_a = combine_kitties_dna(100, [0xff; 16], [0x00; 16], &SEED, None);
    let from_b = combine_kitties_dna(100, [0x00; 16], [0xff; 16], &SEED, None);
    for i in 0..16usize {
        assert_eq!(from_a[i], !mask[i]);
        assert_eq!(from_b[i], mask[i]);
    }

    // and on arbitrary parents, every bit comes from the parent the mask picks
    let a = [0b1010_1010u8; 16];
    let b = [0b0011_1100u8; 16];
    let child = combine_kitties_dna(100, a, b, &SEED, None);
    for i in 0..16usize {
        for j in 0..8usize {
            let expected = if (mask[i] >> j) & 1 == 0 { (a[i] >> j) & 1 } else { (b[i] >> j) & 1 };
            assert_eq!((child[i] >> j) & 1, expected);
        }
    }
}

#[test]
fn gender_follows_first_byte_parity() {
    assert_eq!(Kitty([2, 1, 1, 1, 1, 1, 1, 1, 1, 1, 1, 1, 1, 1, 1, 1]).gender(), KittyGender::Female);
    assert_eq!(Kitty([255, 0, 0, 0, 0, 0, 0, 0, 0, 0, 0, 0, 0, 0, 0, 0]).gender(), KittyGender::Male);
    assert_eq!(Kitty([59, 250, 138, 82, 209, 39, 141, 109, 163, 238, 183, 145, 235, 168, 18, 122]).gender(), KittyGender::Male);
}

#[test]
fn should_not_breed_same_gender() {
    let mut pallet = Pallet::new();
    assert!(pallet.create(100, &[0u8; 32], None).is_ok());
    // a kitty bred with itself shares its own sex
    assert_eq!(pallet.breed(100, 0, 0, &[0u8; 32], None), Err(Error::SameGender));
}

#[test]
fn allocated_ids_increase_without_gaps() {
    let mut pallet = Pallet::new();
    assert_eq!(pallet.next_kitty_id(), 0);
    for expected in 0u32..5 {
        assert_eq!(pallet.get_kitty_id(), Ok(expected));
        assert_eq!(pallet.next_kitty_id(), expected + 1);
    }
}

#[test]
fn should_fail_with_overflow_when_id_space_is_exhausted() {
    let mut pallet = Pallet::with_next_kitty_id(u32::MAX);
    assert_eq!(pallet.get_kitty_id(), Err(Error::Overflow));
    assert_eq!(pallet.create(100, &SEED, None), Err(Error::Overflow));
    assert_eq!(pallet.next_kitty_id(), u32::MAX);
    assert_eq!(pallet.events().len(), 0);

    // one id below the ceiling, the last id is handed out and then the space ends
    let mut pallet = Pallet::with_next_kitty_id(u32::MAX - 1);
    assert_eq!(pallet.get_kitty_id(), Ok(u32::MAX - 1));
    assert_eq!(pallet.get_kitty_id(), Err(Error::Overflow));
}

#[test]
fn breeding_counts_as_a_mint() {
    let mut pallet = Pallet::new();
    assert!(pallet.create(100, &[0u8; 32], None).is_ok());
    assert!(pallet.create(100, &[2u8; 32], None).is_ok());
    assert!(pallet.breed(100, 0, 1, &[2u8; 32], None).is_ok());
    assert_eq!(pallet.next_kitty_id(), 3);

    // the child genome is exactly the mosaic of the parents under the mask
    let mask = generate_kitty_dna(100, &[2u8; 32], None);
    let a = pallet.kitties(100, 0).unwrap().dna();
    let b = pallet.kitties(100, 1).unwrap().dna();
    let child = pallet.kitties(100, 2).unwrap().dna();
    for i in 0..16usize {
        assert_eq!(child[i], (!mask[i] & a[i]) | (mask[i] & b[i]));
    }
}
