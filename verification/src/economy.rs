//! The wallet and the income pass of the city-builder variant: on every
//! firing of the income clock, each placed small house yields a fixed income.
//! No other tile kind yields income, and nothing ever spends,
//! so the balance never decreases.

use crate::clock::{next_remaining, tick_fires, Clock};
use crate::text::{decimal_digits, decimal_string};
use crate::tiles::{PlacedTile, Tile};
use vstd::prelude::*;
use vstd::string::StringExecFns;

verus! {

/// The income one small house yields per clock firing.
pub const INCOME_PER_SMALL_HOUSE: i64 = 10;

/// The process-wide currency balance. It starts at zero and only ever grows.
#[derive(Clone, Copy, Debug, PartialEq, Eq, Structural)]
pub struct Wallet {
    pub balance: i64,
}

impl Wallet {
    /// The wallet invariant: the balance is never negative.
    pub open spec fn wf(self) -> bool {
        self.balance >= 0
    }

    /// A fresh wallet holding nothing.
    pub fn new() -> (wallet: Wallet)
        ensures
            wallet.balance == 0,
            wallet.wf(),
    {
        Wallet { balance: 0 }
    }
}

/// How many of the placed tiles are small houses.
pub open spec fn small_house_count(tiles: Seq<PlacedTile>) -> nat
    decreases tiles.len(),
{
    if tiles.len() == 0 {
        0
    } else {
        small_house_count(tiles.drop_last()) + if tiles.last().kind == Tile::SmallHouse {
            1nat
        } else {
            0nat
        }
    }
}

/// The income one clock firing yields over these tiles.
pub open spec fn income_per_firing(tiles: Seq<PlacedTile>) -> int {
    INCOME_PER_SMALL_HOUSE * small_house_count(tiles)
}

/// There cannot be more small houses than tiles.
pub proof fn lemma_small_house_count_le_len(tiles: Seq<PlacedTile>)
    ensures
        small_house_count(tiles) <= tiles.len(),
    decreases tiles.len(),
{
    if tiles.len() > 0 {
        lemma_small_house_count_le_len(tiles.drop_last());
    }
}

/// Advances the income clock; when it fires, adds the income of every placed
/// small house to the wallet. The balance never decreases, and changes only
/// on a firing, by exactly the per-firing income.
pub fn give_money(clock: &mut Clock, elapsed: u64, wallet: &mut Wallet, tiles: &Vec<PlacedTile>)
    requires
        old(clock).wf(),
        old(wallet).wf(),
        old(wallet).balance + INCOME_PER_SMALL_HOUSE * tiles@.len() <= i64::MAX,
    ensures
        final(clock).wf(),
        final(clock).period == old(clock).period,
        final(clock).remaining == next_remaining(
            old(clock).remaining as int,
            old(clock).period as int,
            elapsed as int,
        ),
        final(wallet).wf(),
        final(wallet).balance >= old(wallet).balance,
        tick_fires(old(clock).remaining as int, elapsed as int) ==> final(wallet).balance == old(
            wallet,
        ).balance + income_per_firing(tiles@),
        !tick_fires(old(clock).remaining as int, elapsed as int) ==> final(wallet).balance == old(
            wallet,
        ).balance,
{
    let fired = clock.tick(elapsed);
    if !fired {
        return;
    }
    let tile_count = tiles.len();
    let mut i: usize = 0;
    while i < tile_count
        invariant
            old(wallet).wf(),
            i <= tile_count,
            tile_count == tiles@.len(),
            old(wallet).balance + INCOME_PER_SMALL_HOUSE * tiles@.len() <= i64::MAX,
            wallet.balance == old(wallet).balance + INCOME_PER_SMALL_HOUSE * small_house_count(
                tiles@.take(i as int),
            ),
        decreases tile_count - i,
    {
        proof {
            lemma_small_house_count_le_len(tiles@.take(i as int));
            assert(tiles@.take(i as int + 1).drop_last() =~= tiles@.take(i as int));
            assert(tiles@.take(i as int + 1).last() == tiles@[i as int]);
        }
        match tiles[i].kind {
            Tile::SmallHouse => {
                wallet.balance = wallet.balance + INCOME_PER_SMALL_HOUSE;
            },
            _ => {},
        }
        i = i + 1;
    }
    proof {
        assert(tiles@.take(tile_count as int) =~= tiles@);
    }
}

/// The balance reached from `start` after the given number of clock firings,
/// each adding the per-firing income of the same placed tiles.
pub open spec fn balance_after_firings(start: int, tiles: Seq<PlacedTile>, firings: nat) -> int
    decreases firings,
{
    if firings == 0 {
        start
    } else {
        balance_after_firings(start, tiles, (firings - 1) as nat) + income_per_firing(tiles)
    }
}

/// After any number of clock firings with the same tiles placed throughout,
/// the balance is the starting balance plus the per-house income times the
/// number of small houses times the number of firings; in particular it never
/// falls below the starting balance.
pub proof fn lemma_balance_after_firings(start: int, tiles: Seq<PlacedTile>, firings: nat)
    ensures
        balance_after_firings(start, tiles, firings) == start + INCOME_PER_SMALL_HOUSE
            * small_house_count(tiles) * firings,
        balance_after_firings(start, tiles, firings) >= start,
    decreases firings,
{
    if firings == 0 {
    } else {
        lemma_balance_after_firings(start, tiles, (firings - 1) as nat);
        let houses = small_house_count(tiles) as int;
        assert(INCOME_PER_SMALL_HOUSE * houses * (firings - 1) + INCOME_PER_SMALL_HOUSE * houses
            == INCOME_PER_SMALL_HOUSE * houses * firings) by (nonlinear_arith);
        assert(INCOME_PER_SMALL_HOUSE * houses * firings >= 0) by (nonlinear_arith)
            requires
                houses >= 0,
                firings >= 0,
        ;
    }
}

/// The text of the wallet label: the word `Wallet:` followed by the balance
/// in decimal.
pub open spec fn wallet_label_spec(balance: int) -> Seq<char>
    recommends
        balance >= 0,
{
    "Wallet: "@ + decimal_digits(balance as nat)
}

/// The text the wallet label shows for this wallet.
pub fn wallet_label(wallet: &Wallet) -> (label: String)
    requires
        wallet.wf(),
    ensures
        label@ == wallet_label_spec(wallet.balance as int),
{
    let mut label = "Wallet: ".to_owned();
    let digits = decimal_string(wallet.balance as u64);
    label.append(digits.as_str());
    label
}

} // verus!
