use conveyor_city::clock::Clock;
use conveyor_city::economy::{give_money, wallet_label, Wallet, INCOME_PER_SMALL_HOUSE};
use conveyor_city::tiles::{PlacedTile, Position, Tile};

fn tile(kind: Tile, x: i32, y: i32) -> PlacedTile {
    PlacedTile { kind, position: Position { x, y } }
}

#[test]
fn fresh_wallet_is_empty() {
    assert_eq!(Wallet::new().balance, 0);
}

#[test]
fn income_accrues_per_small_house_on_firing() {
    let mut clock = Clock::new(5000).unwrap();
    let mut wallet = Wallet::new();
    let tiles = vec![
        tile(Tile::SmallHouse, 0, 0),
        tile(Tile::PowerPlant, 1, 0),
        tile(Tile::SmallHouse, 2, 0),
        tile(Tile::Road, 3, 0),
    ];
    give_money(&mut clock, 5000, &mut wallet, &tiles);
    assert_eq!(wallet.balance, 2 * INCOME_PER_SMALL_HOUSE);
}

#[test]
fn no_income_before_the_clock_fires() {
    let mut clock = Clock::new(5000).unwrap();
    let mut wallet = Wallet::new();
    let tiles = vec![tile(Tile::SmallHouse, 0, 0)];
    give_money(&mut clock, 4999, &mut wallet, &tiles);
    assert_eq!(wallet.balance, 0);
}

#[test]
fn only_small_houses_yield_income() {
    let mut clock = Clock::new(5000).unwrap();
    let mut wallet = Wallet::new();
    let tiles = vec![
        tile(Tile::MediumHouse, 0, 0),
        tile(Tile::BigHouse, 1, 0),
        tile(Tile::Wiring, 2, 0),
        tile(Tile::Plumbing, 3, 0),
        tile(Tile::Road, 4, 0),
        tile(Tile::PowerPlant, 5, 0),
        tile(Tile::WaterSource, 6, 0),
        tile(Tile::Empty, 7, 0),
    ];
    give_money(&mut clock, 5000, &mut wallet, &tiles);
    assert_eq!(wallet.balance, 0);
}

#[test]
fn balance_after_firings_is_income_times_houses_times_firings() {
    let mut clock = Clock::new(5000).unwrap();
    let mut wallet = Wallet::new();
    let tiles = vec![tile(Tile::SmallHouse, 0, 0), tile(Tile::SmallHouse, 1, 0)];
    for _ in 0..3 {
        give_money(&mut clock, 5000, &mut wallet, &tiles);
    }
    assert_eq!(wallet.balance, INCOME_PER_SMALL_HOUSE * 3 * 2);
}

#[test]
fn balance_never_decreases() {
    let mut clock = Clock::new(100).unwrap();
    let mut wallet = Wallet::new();
    let tiles = vec![tile(Tile::SmallHouse, 0, 0)];
    let mut previous = wallet.balance;
    let elapsed_times = [30u64, 80, 0, 100, 250, 99, 1];
    for &elapsed in elapsed_times.iter() {
        give_money(&mut clock, elapsed, &mut wallet, &tiles);
        assert!(wallet.balance >= previous);
        previous = wallet.balance;
    }
}

#[test]
fn wallet_label_shows_the_balance() {
    assert_eq!(wallet_label(&Wallet::new()), "Wallet: 0");
    assert_eq!(wallet_label(&Wallet { balance: 7 }), "Wallet: 7");
    assert_eq!(wallet_label(&Wallet { balance: 12345 }), "Wallet: 12345");
    assert_eq!(wallet_label(&Wallet { balance: 1000000 }), "Wallet: 1000000");
}

#[test]
fn wallet_label_follows_income() {
    let mut clock = Clock::new(5000).unwrap();
    let mut wallet = Wallet::new();
    let tiles = vec![tile(Tile::SmallHouse, 0, 0)];
    give_money(&mut clock, 5000, &mut wallet, &tiles);
    assert_eq!(wallet_label(&wallet), "Wallet: 10");
}
