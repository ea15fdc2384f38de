use pallets::kitties::Kitty;
use pallets::kitties::Pallet;

#[test]
fn a_new_store_is_empty() {
    let kitties = Pallet::new(20, *b"py/kitty", 10);
    assert_eq!(kitties.kitties_count(), 0);
    assert_eq!(kitties.balance_to_reserve(), 20);
    assert_eq!(kitties.max_kitty_index(), 10);
    assert_eq!(kitties.kitties(0), None);
    assert_eq!(kitties.owner(0), None);
    assert_eq!(kitties.creator(0), None);
    assert_eq!(kitties.next_kitty_id(), Ok(0));
}

#[test]
fn gen_kitty_gives_out_the_indices_in_turn() {
    let mut kitties = Pallet::new(20, *b"py/kitty", 10);
    assert_eq!(kitties.gen_kitty(5, [1; 16]), 0);
    assert_eq!(kitties.gen_kitty(6, [2; 16]), 1);
    assert_eq!(kitties.kitties_count(), 2);
    assert_eq!(kitties.kitties(0), Some(Kitty([1; 16])));
    assert_eq!(kitties.kitties(1), Some(Kitty([2; 16])));
    assert_eq!(kitties.owner(0), Some(5));
    assert_eq!(kitties.owner(1), Some(6));
    assert_eq!(kitties.creator(0), None);
    assert_eq!(kitties.creator(1), None);
    assert_eq!(kitties.owner(2), None);
    assert_eq!(kitties.next_kitty_id(), Ok(2));
}

#[test]
fn a_store_comes_back_from_its_parts() {
    let mut kitties = Pallet::new(20, *b"py/kitty", 10);
    kitties.gen_kitty(5, [1; 16]);
    kitties.gen_kitty(6, [2; 16]);
    let (genomes, owners, creators) = kitties.clone().into_parts();
    assert_eq!(genomes, vec![Kitty([1; 16]), Kitty([2; 16])]);
    assert_eq!(owners, vec![5, 6]);
    assert_eq!(creators, vec![None, None]);
    let restored = Pallet::from_parts(20, *b"py/kitty", 10, genomes, owners, creators);
    assert_eq!(restored, Some(kitties));
}

#[test]
fn parts_that_do_not_fit_make_no_store() {
    let one = vec![Kitty([1; 16])];
    assert!(Pallet::from_parts(20, *b"py/kitty", 10, one.clone(), vec![], vec![None]).is_none());
    assert!(Pallet::from_parts(20, *b"py/kitty", 10, one.clone(), vec![5], vec![]).is_none());
    assert!(Pallet::from_parts(20, *b"py/kitty", 0, one.clone(), vec![5], vec![None]).is_none());
    let restored = Pallet::from_parts(20, *b"py/kitty", 1, one, vec![5], vec![Some(4)]).unwrap();
    assert_eq!(restored.creator(0), Some(4));
    assert_eq!(restored.owner(0), Some(5));
    assert!(Pallet::from_parts(20, *b"py/kitty", 0, vec![], vec![], vec![]).is_some());
}
