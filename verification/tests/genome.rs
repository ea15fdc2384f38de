use pallets::kitties::genome::mix_genome;
use pallets::kitties::genome::random_subject;
use pallets::kitties::genome::random_value;
use pallets::kitties::Pallet;

#[test]
fn mix_takes_first_parent_under_ones() {
    let a = [0xabu8; 16];
    let b = [0xcdu8; 16];
    assert_eq!(mix_genome(&[0xff; 16], &a, &b), a);
}

#[test]
fn mix_takes_second_parent_under_zeros() {
    let a = [0xabu8; 16];
    let b = [0xcdu8; 16];
    assert_eq!(mix_genome(&[0x00; 16], &a, &b), b);
}

#[test]
fn mix_blends_bit_by_bit() {
    let mut selector = [0u8; 16];
    let mut a = [0u8; 16];
    let mut b = [0u8; 16];
    for i in 0..16 {
        selector[i] = 0xf0;
        a[i] = 0xab;
        b[i] = 0xcd;
    }
    selector[3] = 0x0f;
    selector[15] = 0b1010_1010;
    a[15] = 0b1111_0000;
    b[15] = 0b0011_1100;
    let child = mix_genome(&selector, &a, &b);
    let mut expected = [0xadu8; 16];
    expected[3] = 0xcb;
    expected[15] = 0b1011_0100;
    assert_eq!(child, expected);
}

#[test]
fn mix_follows_the_formula_on_every_byte() {
    let mut selector = [0u8; 16];
    let mut a = [0u8; 16];
    let mut b = [0u8; 16];
    for i in 0..16u8 {
        selector[i as usize] = i.wrapping_mul(37).wrapping_add(11);
        a[i as usize] = i.wrapping_mul(91).wrapping_add(5);
        b[i as usize] = i.wrapping_mul(53).wrapping_add(200);
    }
    let child = mix_genome(&selector, &a, &b);
    for i in 0..16 {
        assert_eq!(child[i], (selector[i] & a[i]) | (!selector[i] & b[i]));
    }
}

#[test]
fn subject_outside_an_extrinsic() {
    let payload = random_subject(&vec![1, 2, 3], 0x0102_0304_0506_0708, None);
    assert_eq!(payload, vec![1, 2, 3, 8, 7, 6, 5, 4, 3, 2, 1, 0]);
}

#[test]
fn subject_inside_an_extrinsic() {
    let payload = random_subject(&vec![0xaa], 1, Some(0x0a0b_0c0d));
    assert_eq!(payload, vec![0xaa, 1, 0, 0, 0, 0, 0, 0, 0, 1, 0x0d, 0x0c, 0x0b, 0x0a]);
}

#[test]
fn subject_with_an_empty_seed() {
    let payload = random_subject(&Vec::new(), 0, Some(0));
    assert_eq!(payload, vec![0, 0, 0, 0, 0, 0, 0, 0, 1, 0, 0, 0, 0]);
}

#[test]
fn random_value_is_the_digest_of_the_subject() {
    let seed = vec![9u8, 8, 7];
    let dna = random_value(&seed, 1, None);
    let payload = [9u8, 8, 7, 1, 0, 0, 0, 0, 0, 0, 0, 0];
    assert_eq!(dna, sp_io::hashing::blake2_128(&payload));
    assert_ne!(&dna[..], &payload[..]);
    assert_ne!(dna, [0u8; 16]);
}

#[test]
fn random_value_is_a_function_of_its_inputs() {
    let seed = vec![5u8; 32];
    assert_eq!(random_value(&seed, 7, Some(3)), random_value(&seed, 7, Some(3)));
    assert_ne!(random_value(&seed, 7, Some(3)), random_value(&seed, 8, Some(3)));
    assert_ne!(random_value(&seed, 7, Some(3)), random_value(&seed, 7, Some(4)));
    assert_ne!(random_value(&seed, 7, Some(3)), random_value(&seed, 7, None));
    assert_ne!(random_value(&seed, 7, Some(3)), random_value(&vec![6u8; 32], 7, Some(3)));
}

#[test]
fn pallet_account_is_derived_from_the_identifier() {
    let kitties = Pallet::new(20, *b"py/kitty", u32::MAX);
    assert_eq!(kitties.account_id(), 0x6b2f_7970_6c64_6f6d);
    assert_eq!(kitties.account_id(), u64::from_le_bytes(*b"modlpy/k"));
    let other = Pallet::new(20, *b"abcdefgh", u32::MAX);
    assert_eq!(other.account_id(), u64::from_le_bytes(*b"modlabcd"));
}
