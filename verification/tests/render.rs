use shambala::render::texture::decode_image;
use shambala::components::render::RenderLayer;
use shambala::render::sprite::{group_by_texture, sort_by_layer};
use shambala::render::tilemap::{build_tiles, get_tile, TileType};
use shambala::render::atlas::{AtlasRegion, TextureAtlas};

#[test]
fn test_atlas_creation() {
    let atlas = TextureAtlas::new("test", 256, 256);
    assert_eq!(atlas.atlas_width, 256);
    assert_eq!(atlas.region_count(), 0);
}

#[test]
fn test_add_region() {
    let mut atlas = TextureAtlas::new("test", 256, 256);
    atlas.add_region("player", 0, 0, 32, 32);
    assert!(atlas.contains("player"));
    assert_eq!(atlas.region_count(), 1);
}

#[test]
fn test_create_sprite_atlas() {
    let atlas = TextureAtlas::create_sprite_atlas();
    assert!(atlas.contains("player_TwinBlade"));
    assert!(atlas.contains("enemy_Goblin"));
    assert!(atlas.contains("tile_floor"));
    assert_eq!(atlas.region_count(), 17);
}

#[test]
fn test_get_nonexistent_region() {
    let atlas = TextureAtlas::new("test", 256, 256);
    assert!(!atlas.contains("nonexistent"));
    assert!(atlas.get_region("nonexistent").is_none());
}

#[test]
fn adding_a_region_twice_replaces_it() {
    let mut atlas = TextureAtlas::new("test", 256, 256);
    atlas.add_region("hero", 0, 0, 32, 32);
    atlas.add_region("hero", 32, 64, 16, 16);
    assert_eq!(atlas.region_count(), 1);
    assert_eq!(atlas.get_region("hero"), Some(&AtlasRegion { x: 32, y: 64, width: 16, height: 16 }));
}

#[test]
fn sprite_atlas_layout() {
    let atlas = TextureAtlas::create_sprite_atlas();
    assert_eq!(atlas.get_region("enemy_Boss"), Some(&AtlasRegion { x: 64, y: 128, width: 32, height: 32 }));
    assert_eq!(atlas.get_region("tile_treasure"), Some(&AtlasRegion { x: 128, y: 224, width: 32, height: 32 }));
    assert_eq!(atlas.texture_id, "sprite_atlas");
}

#[test]
fn glyph_cells_follow_code_order() {
    let renderer = shambala::render::text::TextRenderer::new("font", (16, 16), 16);
    assert_eq!(renderer.glyph_cell(b'A'), (1, 4));
    assert_eq!(renderer.glyph_cell(0), (0, 0));
    assert_eq!(renderer.glyph_cell(255), (15, 15));
}

#[test]
fn wrapping_cuts_at_spaces() {
    let text = "Hello World";
    let lines = shambala::render::text::wrap_ranges(text.as_bytes(), 5);
    assert_eq!(lines, vec![(0, 5), (5, 5), (6, 11)]);
    let lines = shambala::render::text::wrap_ranges(b"the quick brown fox", 10);
    assert_eq!(lines, vec![(0, 9), (10, 19)]);
    assert!(shambala::render::text::wrap_ranges(b"", 4).is_empty());
}

#[test]
fn tiles_are_built_cell_by_cell() {
    let cells = vec![
        vec![(TileType::Wall, false), (TileType::Floor, true)],
        vec![(TileType::Water, false), (TileType::Treasure, true)],
    ];
    let tiles = build_tiles(&cells);
    assert_eq!(tiles.len(), 2);
    let t = get_tile(&tiles, 1, 1).unwrap();
    assert_eq!(t.tile_type, TileType::Treasure);
    assert_eq!(t.sprite_id, "tile_treasure");
    assert!(t.walkable);
    assert_eq!(get_tile(&tiles, 0, 1).unwrap().sprite_id, "tile_water");
    assert!(get_tile(&tiles, 99, 99).is_none());
    assert!(get_tile(&tiles, 2, 0).is_none());
}

#[test]
fn layers_are_drawn_back_to_front_stably() {
    let layers = [RenderLayer::UI, RenderLayer::Background];
    assert_eq!(sort_by_layer(&layers), vec![1, 0]);
    let layers = [
        RenderLayer::Characters,
        RenderLayer::Floor,
        RenderLayer::Characters,
        RenderLayer::Overlay,
        RenderLayer::Floor,
    ];
    assert_eq!(sort_by_layer(&layers), vec![1, 4, 0, 2, 3]);
    assert!(sort_by_layer(&[]).is_empty());
}

#[test]
fn sprites_are_batched_by_texture() {
    let groups = group_by_texture(&["a", "b", "a"]);
    assert_eq!(groups.len(), 2);
    assert_eq!(groups.iter().find(|(id, _)| *id == "a").unwrap().1.len(), 2);
    assert_eq!(groups.iter().find(|(id, _)| *id == "b").unwrap().1.len(), 1);
    assert_eq!(groups, vec![("a", vec![0, 2]), ("b", vec![1])]);
}

#[test]
fn textures_decode_from_png_bytes() {
    let pixels = vec![255u8, 0, 0, 255, 0, 255, 0, 128];
    let source = image::RgbaImage::from_raw(2, 1, pixels.clone()).unwrap();
    let mut png: Vec<u8> = Vec::new();
    source.write_to(&mut std::io::Cursor::new(&mut png), image::ImageFormat::Png).unwrap();
    let decoded = decode_image(&png).unwrap();
    assert_eq!((decoded.width, decoded.height), (2, 1));
    assert_eq!(decoded.rgba, pixels);
}

#[test]
fn non_images_are_refused() {
    let err = decode_image(b"definitely not an image").err().unwrap();
    assert!(err.starts_with("Failed to load image: "));
    assert!(err.len() > "Failed to load image: ".len());
}
