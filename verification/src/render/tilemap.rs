//! Tiles of a map.
use vstd::prelude::*;

verus! {

/// The kinds of terrain a map tile can be.
#[derive(Debug, Clone, Copy, PartialEq, Eq, Structural)]
pub enum TileType {
    Floor,
    Wall,
    Water,
    Grass,
    Path,
    Entrance,
    Exit,
    Treasure,
}

/// One tile of a map: its terrain, the sprite drawn for it, and whether
/// characters can walk on it.
#[derive(Debug, Clone)]
pub struct TileInfo {
    pub tile_type: TileType,
    pub sprite_id: String,
    pub walkable: bool,
}

/// The atlas sprite drawn for terrain `t`.
pub open spec fn tile_sprite_name(t: TileType) -> Seq<char> {
    match t {
        TileType::Floor => "tile_floor"@,
        TileType::Wall => "tile_wall"@,
        TileType::Water => "tile_water"@,
        TileType::Grass => "tile_grass"@,
        TileType::Path => "tile_path"@,
        TileType::Entrance => "tile_entrance"@,
        TileType::Exit => "tile_exit"@,
        TileType::Treasure => "tile_treasure"@,
    }
}

/// `info` is the tile for terrain `t`, walkable or not as `walkable` says.
pub open spec fn is_tile_for(info: TileInfo, t: TileType, walkable: bool) -> bool {
    &&& info.tile_type == t
    &&& info.sprite_id@ == tile_sprite_name(t)
    &&& info.walkable == walkable
}

impl TileInfo {
    /// The tile for terrain `tile_type`, drawn with its sprite.
    pub fn from_cell(tile_type: TileType, walkable: bool) -> (r: Self)
        ensures
            is_tile_for(r, tile_type, walkable),
    {
        let sprite_id = match tile_type {
            TileType::Floor => "tile_floor".to_string(),
            TileType::Wall => "tile_wall".to_string(),
            TileType::Water => "tile_water".to_string(),
            TileType::Grass => "tile_grass".to_string(),
            TileType::Path => "tile_path".to_string(),
            TileType::Entrance => "tile_entrance".to_string(),
            TileType::Exit => "tile_exit".to_string(),
            TileType::Treasure => "tile_treasure".to_string(),
        };
        TileInfo { tile_type, sprite_id, walkable }
    }
}

/// The tile rows of a map whose cells are given as (terrain, walkable)
/// rows: row by row and cell by cell, each cell becomes its tile.
pub fn build_tiles(cells: &Vec<Vec<(TileType, bool)>>) -> (r: Vec<Vec<TileInfo>>)
    ensures
        r@.len() == cells@.len(),
        forall|y: int| 0 <= y < cells@.len() ==> #[trigger] r@[y]@.len() == cells@[y]@.len(),
        forall|y: int, x: int|
            0 <= y < cells@.len() && 0 <= x < cells@[y]@.len() ==> is_tile_for(
                #[trigger] r@[y]@[x],
                cells@[y]@[x].0,
                cells@[y]@[x].1,
            ),
{
    let mut rows: Vec<Vec<TileInfo>> = Vec::new();
    let mut y: usize = 0;
    while y < cells.len()
        invariant
            y <= cells@.len(),
            rows@.len() == y,
            forall|j: int| 0 <= j < y ==> #[trigger] rows@[j]@.len() == cells@[j]@.len(),
            forall|j: int, x: int|
                0 <= j < y && 0 <= x < cells@[j]@.len() ==> is_tile_for(#[trigger] rows@[j]@[x], cells@[j]@[x].0, cells@[j]@[x].1),
        decreases cells@.len() - y,
    {
        let source = &cells[y];
        let mut row: Vec<TileInfo> = Vec::new();
        let mut x: usize = 0;
        while x < source.len()
            invariant
                x <= source@.len(),
                row@.len() == x,
                forall|k: int| 0 <= k < x ==> is_tile_for(#[trigger] row@[k], source@[k].0, source@[k].1),
            decreases source@.len() - x,
        {
            let (tile_type, walkable) = source[x];
            row.push(TileInfo::from_cell(tile_type, walkable));
            x += 1;
        }
        rows.push(row);
        y += 1;
    }
    rows
}

/// The tile in column `x` of row `y`, if there is one.
pub fn get_tile(tiles: &Vec<Vec<TileInfo>>, x: usize, y: usize) -> (r: Option<&TileInfo>)
    ensures
        match r {
            Some(t) => y < tiles@.len() && x < tiles@[y as int]@.len() && *t == tiles@[y as int]@[x as int],
            None => y >= tiles@.len() || x >= tiles@[y as int]@.len(),
        },
{
    if y < tiles.len() && x < tiles[y].len() {
        Some(&tiles[y][x])
    } else {
        None
    }
}

} // verus!
