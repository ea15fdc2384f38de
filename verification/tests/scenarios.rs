use pallets::kitties::genome::mix_genome;
use pallets::kitties::genome::random_value;
use pallets::kitties::AccountData;
use pallets::kitties::Config;
use pallets::kitties::Error;
use pallets::kitties::Event;
use pallets::kitties::Kitty;
use pallets::kitties::Pallet;
use pallets::kitties::Runtime;

const A: u64 = 1;

fn funded() -> (Pallet, Runtime) {
    let mut runtime = Runtime::new(1);
    runtime.make_free_balance_be(A, 100);
    runtime.set_random_seed(vec![7; 32]);
    runtime.set_extrinsic_index(Some(0));
    (Pallet::new(20, *b"py/kitty", u32::MAX), runtime)
}

#[test]
fn create_then_buy_then_sell_at_the_whole_balance() {
    let (mut kitties, mut runtime) = funded();
    let treasury = kitties.account_id();
    // the pallet's account exists without a free balance
    runtime.make_free_balance_be(treasury, 1);
    assert_eq!(runtime.reserve(treasury, 1), Ok(()));
    assert_eq!(runtime.free_balance(treasury), 0);

    assert_eq!(kitties.create(&mut runtime, A), Ok(Event::KittyCreate(A, 0)));
    assert_eq!(runtime.account(A), AccountData { free: 80, reserved: 20 });
    assert_eq!(kitties.creator(0), Some(A));
    assert_eq!(kitties.owner(0), Some(treasury));
    assert_eq!(kitties.kitties_count(), 1);

    assert_eq!(kitties.buy(&mut runtime, A, 0), Ok(Event::KittyBuy(A, 0, 20)));
    assert_eq!(kitties.creator(0), None);
    assert_eq!(kitties.owner(0), Some(A));
    assert_eq!(runtime.reserved_balance(A), 0);
    assert_eq!(runtime.free_balance(treasury), 20);

    let before = (kitties.clone(), runtime.clone());
    assert_eq!(kitties.sell(&mut runtime, A, 0, 20), Err(Error::PriceTooHigh));
    assert_eq!((kitties.clone(), runtime.clone()), before);

    assert_eq!(kitties.sell(&mut runtime, A, 0, 19), Ok(Event::KittySell(A, 0, 19)));
    assert_eq!(runtime.free_balance(A), 99);
    assert_eq!(runtime.free_balance(treasury), 1);
    assert_eq!(kitties.owner(0), Some(treasury));
    // a sold asset does not come back into escrow
    assert_eq!(kitties.creator(0), None);
    assert_eq!(kitties.buy(&mut runtime, A, 0), Err(Error::NotCreator));
    assert_eq!(kitties.transfer(A, 2, 0), Err(Error::NotOwner));
}

#[test]
fn create_two_then_buy_both_then_breed() {
    let (mut kitties, mut runtime) = funded();
    let treasury = kitties.account_id();
    runtime.make_free_balance_be(treasury, 1);
    assert_eq!(kitties.create(&mut runtime, A), Ok(Event::KittyCreate(A, 0)));
    runtime.set_extrinsic_index(Some(1));
    assert_eq!(kitties.create(&mut runtime, A), Ok(Event::KittyCreate(A, 1)));
    assert_eq!(runtime.account(A), AccountData { free: 60, reserved: 40 });
    assert_eq!(kitties.buy(&mut runtime, A, 0), Ok(Event::KittyBuy(A, 0, 20)));
    assert_eq!(kitties.buy(&mut runtime, A, 1), Ok(Event::KittyBuy(A, 1, 20)));
    assert_eq!(runtime.free_balance(treasury), 41);

    runtime.set_extrinsic_index(Some(2));
    let before = runtime.clone();
    assert_eq!(kitties.breed(&runtime, A, 0, 1), Ok(Event::KittyCreate(A, 2)));
    assert_eq!(runtime, before);
    assert_eq!(kitties.kitties_count(), 3);
    assert_eq!(kitties.owner(2), Some(A));
    assert_eq!(kitties.creator(2), None);

    let first = kitties.kitties(0).unwrap();
    let second = kitties.kitties(1).unwrap();
    let child = kitties.kitties(2).unwrap();
    let selector = random_value(&vec![7; 32], A, Some(2));
    assert_eq!(child, Kitty(mix_genome(&selector, &first.0, &second.0)));
    for i in 0..16 {
        assert_eq!(child.0[i], (selector[i] & first.0[i]) | (!selector[i] & second.0[i]));
    }
}

#[test]
fn a_minted_genome_is_drawn_from_seed_caller_and_index() {
    let (mut kitties, mut runtime) = funded();
    assert!(kitties.create(&mut runtime, A).is_ok());
    assert_eq!(kitties.kitties(0), Some(Kitty(random_value(&vec![7; 32], A, Some(0)))));
    runtime.make_free_balance_be(2, 50);
    runtime.set_extrinsic_index(None);
    assert!(kitties.create(&mut runtime, 2).is_ok());
    assert_eq!(kitties.kitties(1), Some(Kitty(random_value(&vec![7; 32], 2, None))));
    assert_ne!(kitties.kitties(0), kitties.kitties(1));
    assert_eq!(kitties.kitties(2), None);
}

#[test]
fn anyone_may_breed_any_two_assets() {
    let (mut kitties, mut runtime) = funded();
    assert!(kitties.create(&mut runtime, A).is_ok());
    assert!(kitties.create(&mut runtime, A).is_ok());
    let stranger = 77;
    assert_eq!(kitties.breed(&runtime, stranger, 1, 0), Ok(Event::KittyCreate(stranger, 2)));
    assert_eq!(kitties.owner(2), Some(stranger));
    assert_eq!(kitties.owner(0), Some(kitties.account_id()));
    assert_eq!(kitties.creator(0), Some(A));
}

#[test]
fn breeding_checks_the_parents_before_the_count() {
    let mut runtime = Runtime::new(1);
    runtime.make_free_balance_be(A, 100);
    let mut kitties = Pallet::new(20, *b"py/kitty", 2);
    assert!(kitties.create(&mut runtime, A).is_ok());
    assert!(kitties.create(&mut runtime, A).is_ok());
    let before = kitties.clone();
    assert_eq!(kitties.breed(&runtime, A, 5, 5), Err(Error::SameParentIndex));
    assert_eq!(kitties.breed(&runtime, A, 0, 2), Err(Error::InvalidKittyIndex));
    assert_eq!(kitties.breed(&runtime, A, 2, 0), Err(Error::InvalidKittyIndex));
    assert_eq!(kitties.breed(&runtime, A, 0, 1), Err(Error::KittiesCountOverflow));
    assert_eq!(kitties, before);
}

#[test]
fn the_count_stops_at_the_largest_index() {
    let mut runtime = Runtime::new(1);
    runtime.make_free_balance_be(A, 100);
    let mut kitties = Pallet::new(20, *b"py/kitty", 1);
    assert_eq!(kitties.next_kitty_id(), Ok(0));
    assert_eq!(kitties.create(&mut runtime, A), Ok(Event::KittyCreate(A, 0)));
    assert_eq!(kitties.next_kitty_id(), Err(Error::KittiesCountOverflow));
    let before = (kitties.clone(), runtime.clone());
    assert_eq!(kitties.create(&mut runtime, A), Err(Error::KittiesCountOverflow));
    assert_eq!((kitties.clone(), runtime.clone()), before);
    assert_eq!(runtime.reserved_balance(A), 20);
}

#[test]
fn no_sale_without_the_payment() {
    let mut runtime = Runtime::new(1);
    runtime.make_free_balance_be(A, u64::MAX);
    let mut kitties = Pallet::new(0, *b"py/kitty", u32::MAX);
    let treasury = kitties.account_id();
    runtime.make_free_balance_be(treasury, 10);
    assert!(kitties.create(&mut runtime, A).is_ok());
    assert!(kitties.buy(&mut runtime, A, 0).is_ok());
    // the seller's balance has no room for the price
    let before = (kitties.clone(), runtime.clone());
    assert_eq!(kitties.sell(&mut runtime, A, 0, 5), Err(Error::PriceTooHigh));
    assert_eq!((kitties.clone(), runtime.clone()), before);
    assert_eq!(kitties.owner(0), Some(A));
}

#[test]
fn no_sale_for_less_than_the_seller_needs_to_exist() {
    let mut runtime = Runtime::new(100);
    runtime.make_free_balance_be(A, 1000);
    let mut kitties = Pallet::new(20, *b"py/kitty", u32::MAX);
    let treasury = kitties.account_id();
    runtime.make_free_balance_be(treasury, 101);
    assert!(kitties.create(&mut runtime, A).is_ok());
    assert!(kitties.buy(&mut runtime, A, 0).is_ok());
    assert_eq!(runtime.free_balance(treasury), 121);
    let seller = 9;
    assert!(kitties.transfer(A, seller, 0).is_ok());
    assert_eq!(runtime.free_balance(seller), 0);

    let before = (kitties.clone(), runtime.clone());
    assert_eq!(kitties.sell(&mut runtime, seller, 0, 20), Err(Error::PriceTooHigh));
    assert_eq!((kitties.clone(), runtime.clone()), before);
    assert_eq!(kitties.owner(0), Some(seller));
    assert_eq!(runtime.free_balance(seller), 0);

    assert_eq!(kitties.sell(&mut runtime, seller, 0, 100), Ok(Event::KittySell(seller, 0, 100)));
    assert_eq!(runtime.free_balance(seller), 100);
    assert_eq!(runtime.free_balance(treasury), 21);
    assert_eq!(kitties.owner(0), Some(treasury));
}

#[test]
fn the_pallet_account_sells_to_itself_for_nothing() {
    let (mut kitties, mut runtime) = funded();
    let treasury = kitties.account_id();
    runtime.make_free_balance_be(treasury, 50);
    assert!(kitties.create(&mut runtime, A).is_ok());
    let before = runtime.clone();
    assert_eq!(kitties.sell(&mut runtime, treasury, 0, 49), Ok(Event::KittySell(treasury, 0, 49)));
    assert_eq!(runtime, before);
    assert_eq!(kitties.owner(0), Some(treasury));
    assert_eq!(kitties.sell(&mut runtime, treasury, 0, 50), Err(Error::PriceTooHigh));
}

#[test]
fn the_pallet_account_can_hand_on_what_it_holds() {
    let (mut kitties, mut runtime) = funded();
    let treasury = kitties.account_id();
    assert!(kitties.create(&mut runtime, A).is_ok());
    assert_eq!(kitties.transfer(treasury, 9, 0), Ok(Event::KittyTransfer(treasury, 9, 0)));
    assert_eq!(kitties.owner(0), Some(9));
    assert_eq!(kitties.creator(0), Some(A));
    assert_eq!(kitties.transfer(9, 9, 0), Ok(Event::KittyTransfer(9, 9, 0)));
    assert_eq!(kitties.transfer(9, 3, 1), Err(Error::NotOwner));
}
