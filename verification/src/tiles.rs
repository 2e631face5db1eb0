//! The build tiles of the city-builder variant: their kinds, prices, sprite
//! paths, and their placement on an integer grid. A placed tile's position is
//! immutable; tile removal and spending are not implemented, so prices are
//! defined but never debited.

use crate::text::{decimal_digits, decimal_string};
use vstd::prelude::*;
use vstd::string::StringExecFns;

verus! {

/// The width of one grid cell in world units; a tile's world position is its
/// grid position scaled by this.
pub const TILE_WIDTH: i64 = 64;

/// A kind of build tile.
#[derive(Clone, Copy, Debug, PartialEq, Eq, Structural)]
pub enum Tile {
    SmallHouse,
    MediumHouse,
    BigHouse,
    Wiring,
    Plumbing,
    Road,
    PowerPlant,
    WaterSource,
    Empty,
}

/// A position on the integer build grid.
#[derive(Clone, Copy, Debug, PartialEq, Eq, Structural)]
pub struct Position {
    pub x: i32,
    pub y: i32,
}

/// A tile placed on the grid.
#[derive(Clone, Copy, Debug, PartialEq, Eq, Structural)]
pub struct PlacedTile {
    pub kind: Tile,
    pub position: Position,
}

impl Tile {
    /// The listed price of this tile kind.
    pub open spec fn price_spec(self) -> int {
        match self {
            Tile::SmallHouse => 20,
            Tile::MediumHouse => 40,
            Tile::BigHouse => 80,
            Tile::Wiring => 10,
            Tile::Plumbing => 10,
            Tile::Road => 10,
            Tile::PowerPlant => 40,
            Tile::WaterSource => 40,
            Tile::Empty => 0,
        }
    }

    /// The listed price of this tile kind. Prices are shown on the build
    /// panel; nothing ever debits them.
    pub fn price(&self) -> (price: i32)
        ensures
            price == self.price_spec(),
    {
        match self {
            Tile::SmallHouse => 20,
            Tile::MediumHouse => 40,
            Tile::BigHouse => 80,
            Tile::Wiring => 10,
            Tile::Plumbing => 10,
            Tile::Road => 10,
            Tile::PowerPlant => 40,
            Tile::WaterSource => 40,
            Tile::Empty => 0,
        }
    }

    /// The asset path of this tile kind's sprite; kinds without a sprite of
    /// their own fall back to the empty tile's sprite.
    pub open spec fn sprite_path_spec(self) -> Seq<char> {
        match self {
            Tile::SmallHouse => "sprites/small_house.png"@,
            Tile::PowerPlant => "sprites/powerplant.png"@,
            _ => "sprites/empty.png"@,
        }
    }

    /// The asset path of this tile kind's sprite.
    pub fn sprite_path(&self) -> (path: String)
        ensures
            path@ == self.sprite_path_spec(),
    {
        match self {
            Tile::SmallHouse => "sprites/small_house.png".to_owned(),
            Tile::PowerPlant => "sprites/powerplant.png".to_owned(),
            _ => "sprites/empty.png".to_owned(),
        }
    }
}

/// The text of a panel button's price tag: the price in decimal, then the
/// currency sign.
pub open spec fn price_label_spec(kind: Tile) -> Seq<char> {
    decimal_digits(kind.price_spec() as nat) + " $"@
}

/// The text of a panel button's price tag.
pub fn price_label(kind: &Tile) -> (label: String)
    ensures
        label@ == price_label_spec(*kind),
{
    let price = kind.price();
    let mut label = decimal_string(price as u64);
    label.append(" $");
    label
}

/// Places a tile of the given kind at the given grid position. Placement
/// never fails and never disturbs the tiles already placed.
pub fn put_tile(tiles: &mut Vec<PlacedTile>, kind: Tile, position: Position)
    ensures
        final(tiles)@ == old(tiles)@.push((PlacedTile { kind, position })),
{
    tiles.push(PlacedTile { kind, position });
}

/// The world coordinates at which a grid position's sprite stands: the grid
/// position scaled by the tile width.
pub fn tile_world_position(position: Position) -> (world: (i64, i64))
    ensures
        world.0 == position.x * TILE_WIDTH,
        world.1 == position.y * TILE_WIDTH,
{
    ((position.x as i64) * TILE_WIDTH, (position.y as i64) * TILE_WIDTH)
}

/// The hardcoded startup layout: one small house and one power plant.
pub fn initial_tiles() -> (tiles: Vec<PlacedTile>)
    ensures
        tiles@.len() == 2,
        tiles@[0] == (PlacedTile { kind: Tile::SmallHouse, position: Position { x: 1, y: 0 } }),
        tiles@[1] == (PlacedTile { kind: Tile::PowerPlant, position: Position { x: 1, y: 1 } }),
{
    let mut tiles: Vec<PlacedTile> = Vec::new();
    put_tile(&mut tiles, Tile::SmallHouse, Position { x: 1, y: 0 });
    put_tile(&mut tiles, Tile::PowerPlant, Position { x: 1, y: 1 });
    tiles
}

} // verus!
