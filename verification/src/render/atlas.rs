//! Texture atlases: named pixel regions of one large texture.
use vstd::prelude::*;
use crate::resources::asset_manager::{stored, table_keys, AssetTable};
use crate::text::{first_index_of, lemma_first_index_absent};

verus! {

/// A rectangle of an atlas, in pixels: its top-left corner and its size.
#[derive(Debug, Clone, Copy, PartialEq, Eq, Structural)]
pub struct AtlasRegion {
    pub x: u32,
    pub y: u32,
    pub width: u32,
    pub height: u32,
}

/// An atlas: its regions by name, its size in pixels, and the texture it
/// belongs to. Texture coordinates of a region are its pixel rectangle
/// divided by the atlas size; the renderer computes them.
pub struct TextureAtlas {
    pub regions: AssetTable<AtlasRegion>,
    pub atlas_width: u32,
    pub atlas_height: u32,
    pub texture_id: String,
}

/// The regions of the sprite atlas, in order: the four class sprites in the
/// first column, the five enemy sprites in the third, and the eight tile
/// sprites in the fifth, each 32 pixels square and stacked from the top.
pub open spec fn sprite_atlas_regions() -> Seq<(Seq<char>, AtlasRegion)> {
    seq![
        ("player_TwinBlade"@, AtlasRegion { x: 0, y: 0, width: 32, height: 32 }),
        ("player_HeavyBlade"@, AtlasRegion { x: 0, y: 32, width: 32, height: 32 }),
        ("player_LongArm"@, AtlasRegion { x: 0, y: 64, width: 32, height: 32 }),
        ("player_Wavemaster"@, AtlasRegion { x: 0, y: 96, width: 32, height: 32 }),
        ("enemy_Goblin"@, AtlasRegion { x: 64, y: 0, width: 32, height: 32 }),
        ("enemy_Wolf"@, AtlasRegion { x: 64, y: 32, width: 32, height: 32 }),
        ("enemy_Skeleton"@, AtlasRegion { x: 64, y: 64, width: 32, height: 32 }),
        ("enemy_Mage"@, AtlasRegion { x: 64, y: 96, width: 32, height: 32 }),
        ("enemy_Boss"@, AtlasRegion { x: 64, y: 128, width: 32, height: 32 }),
        ("tile_floor"@, AtlasRegion { x: 128, y: 0, width: 32, height: 32 }),
        ("tile_wall"@, AtlasRegion { x: 128, y: 32, width: 32, height: 32 }),
        ("tile_water"@, AtlasRegion { x: 128, y: 64, width: 32, height: 32 }),
        ("tile_grass"@, AtlasRegion { x: 128, y: 96, width: 32, height: 32 }),
        ("tile_path"@, AtlasRegion { x: 128, y: 128, width: 32, height: 32 }),
        ("tile_entrance"@, AtlasRegion { x: 128, y: 160, width: 32, height: 32 }),
        ("tile_exit"@, AtlasRegion { x: 128, y: 192, width: 32, height: 32 }),
        ("tile_treasure"@, AtlasRegion { x: 128, y: 224, width: 32, height: 32 }),
    ]
}

/// Storing under a name that is not in the table appends it.
proof fn lemma_store_new_name<V>(entries: Seq<(Seq<char>, V)>, key: Seq<char>, value: V)
    requires
        forall|j: int| 0 <= j < entries.len() ==> entries[j].0 != key,
    ensures
        stored(entries, key, value) == entries.push((key, value)),
{
    assert forall|j: int| 0 <= j < entries.len() implies table_keys(entries)[j] != key by {
        assert(table_keys(entries)[j] == entries[j].0);
    }
    lemma_first_index_absent(table_keys(entries), key);
}

/// The names of the sprite atlas are pairwise distinct.
proof fn lemma_sprite_names_distinct()
    ensures
        forall|i: int, j: int| 0 <= i < j < 17 ==> sprite_atlas_regions()[i].0 != sprite_atlas_regions()[j].0,
{
    reveal_strlit("player_TwinBlade");
    reveal_strlit("player_HeavyBlade");
    reveal_strlit("player_LongArm");
    reveal_strlit("player_Wavemaster");
    reveal_strlit("enemy_Goblin");
    reveal_strlit("enemy_Wolf");
    reveal_strlit("enemy_Skeleton");
    reveal_strlit("enemy_Mage");
    reveal_strlit("enemy_Boss");
    reveal_strlit("tile_floor");
    reveal_strlit("tile_wall");
    reveal_strlit("tile_water");
    reveal_strlit("tile_grass");
    reveal_strlit("tile_path");
    reveal_strlit("tile_entrance");
    reveal_strlit("tile_exit");
    reveal_strlit("tile_treasure");
    let names = sprite_atlas_regions();
    assert forall|i: int, j: int| 0 <= i < j < 17 implies names[i].0 != names[j].0 by {
        let a = names[i].0;
        let b = names[j].0;
        if a.len() == b.len() {
            assert(a[0] != b[0] || a[6] != b[6] || a[7] != b[7] || a[8] != b[8] || a[9] != b[9]);
        }
    }
}

impl TextureAtlas {
    /// An empty atlas of `width` by `height` pixels for texture `texture_id`.
    pub fn new(texture_id: &str, width: u32, height: u32) -> (r: Self)
        ensures
            r.regions@.len() == 0,
            r.atlas_width == width,
            r.atlas_height == height,
            r.texture_id@ == texture_id@,
    {
        Self { regions: AssetTable::new(), atlas_width: width, atlas_height: height, texture_id: texture_id.to_string() }
    }

    /// Name the rectangle at (`x`, `y`) of `width` by `height` pixels `id`,
    /// replacing any region already called so.
    pub fn add_region(&mut self, id: &str, x: u32, y: u32, width: u32, height: u32)
        ensures
            final(self).regions@ == stored(old(self).regions@, id@, AtlasRegion { x, y, width, height }),
            final(self).atlas_width == old(self).atlas_width,
            final(self).atlas_height == old(self).atlas_height,
            final(self).texture_id == old(self).texture_id,
    {
        self.regions.insert(id.to_string(), AtlasRegion { x, y, width, height });
    }

    /// The region called `id`, if any.
    pub fn get_region(&self, id: &str) -> (r: Option<&AtlasRegion>)
        ensures
            match crate::resources::asset_manager::value_of(self.regions@, id@) {
                Some(v) => r is Some && *r.unwrap() == v,
                None => r is None,
            },
    {
        self.regions.get(id)
    }

    /// Whether a region is called `id`.
    pub fn contains(&self, id: &str) -> (r: bool)
        ensures
            r == crate::resources::asset_manager::value_of(self.regions@, id@) is Some,
    {
        self.regions.contains_key(id)
    }

    /// How many regions the atlas names.
    pub fn region_count(&self) -> (r: usize)
        ensures
            r == self.regions@.len(),
    {
        self.regions.len()
    }

    /// The 512 by 512 sprite atlas with the regions of
    /// [`sprite_atlas_regions`].
    pub fn create_sprite_atlas() -> (r: Self)
        ensures
            r.regions@ == sprite_atlas_regions(),
            r.atlas_width == 512,
            r.atlas_height == 512,
            r.texture_id@ == "sprite_atlas"@,
    {
        let mut atlas = TextureAtlas::new("sprite_atlas", 512, 512);
        let ghost all = sprite_atlas_regions();
        proof {
            lemma_sprite_names_distinct();
        }
        atlas.add_region("player_TwinBlade", 0, 0, 32, 32);
        proof { lemma_store_new_name(all.take(0), all[0].0, all[0].1); assert(all.take(1) =~= all.take(0).push(all[0])); }
        atlas.add_region("player_HeavyBlade", 0, 32, 32, 32);
        proof { lemma_store_new_name(all.take(1), all[1].0, all[1].1); assert(all.take(2) =~= all.take(1).push(all[1])); }
        atlas.add_region("player_LongArm", 0, 64, 32, 32);
        proof { lemma_store_new_name(all.take(2), all[2].0, all[2].1); assert(all.take(3) =~= all.take(2).push(all[2])); }
        atlas.add_region("player_Wavemaster", 0, 96, 32, 32);
        proof { lemma_store_new_name(all.take(3), all[3].0, all[3].1); assert(all.take(4) =~= all.take(3).push(all[3])); }
        atlas.add_region("enemy_Goblin", 64, 0, 32, 32);
        proof { lemma_store_new_name(all.take(4), all[4].0, all[4].1); assert(all.take(5) =~= all.take(4).push(all[4])); }
        atlas.add_region("enemy_Wolf", 64, 32, 32, 32);
        proof { lemma_store_new_name(all.take(5), all[5].0, all[5].1); assert(all.take(6) =~= all.take(5).push(all[5])); }
        atlas.add_region("enemy_Skeleton", 64, 64, 32, 32);
        proof { lemma_store_new_name(all.take(6), all[6].0, all[6].1); assert(all.take(7) =~= all.take(6).push(all[6])); }
        atlas.add_region("enemy_Mage", 64, 96, 32, 32);
        proof { lemma_store_new_name(all.take(7), all[7].0, all[7].1); assert(all.take(8) =~= all.take(7).push(all[7])); }
        atlas.add_region("enemy_Boss", 64, 128, 32, 32);
        proof { lemma_store_new_name(all.take(8), all[8].0, all[8].1); assert(all.take(9) =~= all.take(8).push(all[8])); }
        atlas.add_region("tile_floor", 128, 0, 32, 32);
        proof { lemma_store_new_name(all.take(9), all[9].0, all[9].1); assert(all.take(10) =~= all.take(9).push(all[9])); }
        atlas.add_region("tile_wall", 128, 32, 32, 32);
        proof { lemma_store_new_name(all.take(10), all[10].0, all[10].1); assert(all.take(11) =~= all.take(10).push(all[10])); }
        atlas.add_region("tile_water", 128, 64, 32, 32);
        proof { lemma_store_new_name(all.take(11), all[11].0, all[11].1); assert(all.take(12) =~= all.take(11).push(all[11])); }
        atlas.add_region("tile_grass", 128, 96, 32, 32);
        proof { lemma_store_new_name(all.take(12), all[12].0, all[12].1); assert(all.take(13) =~= all.take(12).push(all[12])); }
        atlas.add_region("tile_path", 128, 128, 32, 32);
        proof { lemma_store_new_name(all.take(13), all[13].0, all[13].1); assert(all.take(14) =~= all.take(13).push(all[13])); }
        atlas.add_region("tile_entrance", 128, 160, 32, 32);
        proof { lemma_store_new_name(all.take(14), all[14].0, all[14].1); assert(all.take(15) =~= all.take(14).push(all[14])); }
        atlas.add_region("tile_exit", 128, 192, 32, 32);
        proof { lemma_store_new_name(all.take(15), all[15].0, all[15].1); assert(all.take(16) =~= all.take(15).push(all[15])); }
        atlas.add_region("tile_treasure", 128, 224, 32, 32);
        proof { lemma_store_new_name(all.take(16), all[16].0, all[16].1); assert(all.take(17) =~= all.take(16).push(all[16])); }
        assert(all.take(17) =~= all);
        atlas
    }
}

} // verus!
