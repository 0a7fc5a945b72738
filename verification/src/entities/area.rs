//! Areas of the world: the root town and the fields, dungeons and boss
//! arenas opened through the Chaos Gate.
use vstd::prelude::*;
use crate::text::{decimal_view, push_decimal, string_views};

verus! {

/// The kinds of area the world is made of.
#[derive(Debug, Clone, Copy, PartialEq, Eq, Structural)]
pub enum AreaType {
    RootTown,
    Field,
    Dungeon,
    Boss,
    ChaosGate,
}

/// An area: its id and name, its kind, its size in tiles, the level it is
/// meant for, the keywords it was opened with, where characters may appear
/// (pixel coordinates), and the seed its terrain is generated from (none
/// for hand-made areas).
#[derive(Debug, Clone)]
pub struct Area {
    pub id: String,
    pub name: String,
    pub area_type: AreaType,
    pub width: usize,
    pub height: usize,
    pub recommended_level: u32,
    pub keywords: Vec<String>,
    pub generation_seed: Option<u64>,
    pub spawn_points: Vec<(u32, u32)>,
}

/// `a` is the field generated from `seed` for `keywords`: called "field_"
/// and "Field " followed by the seed, 30 by 30, for level 1, with one spawn
/// point at (64, 64).
pub open spec fn is_field_area(a: Area, keywords: Seq<Seq<char>>, seed: u64) -> bool {
    &&& a.id@ == "field_"@ + decimal_view(seed as nat)
    &&& a.name@ == "Field "@ + decimal_view(seed as nat)
    &&& a.area_type == AreaType::Field
    &&& a.width == 30 && a.height == 30
    &&& a.recommended_level == 1
    &&& string_views(a.keywords@) == keywords
    &&& a.generation_seed == Some(seed)
    &&& a.spawn_points@ == seq![(64u32, 64u32)]
}

/// `prefix` followed by `n` in decimal.
fn numbered(prefix: &str, n: u64) -> (r: String)
    ensures
        r@ == prefix@ + decimal_view(n as nat),
{
    let mut s = prefix.to_string();
    push_decimal(&mut s, n);
    s
}

/// Copies of `keywords`.
fn copy_keywords(keywords: &[String]) -> (r: Vec<String>)
    ensures
        string_views(r@) == string_views(keywords@),
{
    let mut out: Vec<String> = Vec::new();
    let mut i: usize = 0;
    while i < keywords.len()
        invariant
            i <= keywords@.len(),
            string_views(out@) == string_views(keywords@.take(i as int)),
        decreases keywords@.len() - i,
    {
        let ghost before = out@;
        let copy = keywords[i].clone();
        out.push(copy);
        assert(keywords@.take(i as int + 1) =~= keywords@.take(i as int).push(keywords@[i as int]));
        assert(string_views(out@) =~= string_views(before).push(copy@));
        assert(string_views(keywords@.take(i as int + 1)) =~= string_views(keywords@.take(i as int)).push(keywords@[i as int]@));
        i += 1;
    }
    assert(keywords@.take(keywords@.len() as int) =~= keywords@);
    out
}

/// Factory for areas.
pub struct AreaEntity;

impl AreaEntity {
    /// Mac Anu, the root town: 50 by 50, level 1, safe for beginners, with
    /// three spawn points and no generated terrain.
    pub fn create_root_town() -> (r: Area)
        ensures
            r.id@ == "mac_anu"@,
            r.name@ == "Mac Anu"@,
            r.area_type == AreaType::RootTown,
            r.width == 50 && r.height == 50,
            r.recommended_level == 1,
            string_views(r.keywords@) == seq!["beginner"@, "town"@, "safe"@],
            r.generation_seed is None,
            r.spawn_points@ == seq![(400u32, 300u32), (500u32, 300u32), (400u32, 400u32)],
    {
        let mut keywords: Vec<String> = Vec::new();
        keywords.push("beginner".to_string());
        keywords.push("town".to_string());
        keywords.push("safe".to_string());
        assert(string_views(keywords@) =~= seq!["beginner"@, "town"@, "safe"@]);
        let mut spawn_points: Vec<(u32, u32)> = Vec::new();
        spawn_points.push((400, 300));
        spawn_points.push((500, 300));
        spawn_points.push((400, 400));
        Area {
            id: "mac_anu".to_string(),
            name: "Mac Anu".to_string(),
            area_type: AreaType::RootTown,
            width: 50,
            height: 50,
            recommended_level: 1,
            keywords,
            generation_seed: None,
            spawn_points,
        }
    }

    /// The field generated from `seed` for `keywords` (see [`is_field_area`]).
    pub fn create_field(keywords: &[String], seed: u64) -> (r: Area)
        ensures
            is_field_area(r, string_views(keywords@), seed),
    {
        let mut spawn_points: Vec<(u32, u32)> = Vec::new();
        spawn_points.push((64, 64));
        Area {
            id: numbered("field_", seed),
            name: numbered("Field ", seed),
            area_type: AreaType::Field,
            width: 30,
            height: 30,
            recommended_level: 1,
            keywords: copy_keywords(keywords),
            generation_seed: Some(seed),
            spawn_points,
        }
    }

    /// A 40 by 40 dungeon for `level` generated from `seed`, opened with
    /// `keywords`; it is called "dungeon_" and "Dungeon " followed by the seed.
    pub fn create_dungeon(keywords: &[String], seed: u64, level: u32) -> (r: Area)
        ensures
            r.id@ == "dungeon_"@ + decimal_view(seed as nat),
            r.name@ == "Dungeon "@ + decimal_view(seed as nat),
            r.area_type == AreaType::Dungeon,
            r.width == 40 && r.height == 40,
            r.recommended_level == level,
            string_views(r.keywords@) == string_views(keywords@),
            r.generation_seed == Some(seed),
            r.spawn_points@ == seq![(64u32, 64u32)],
    {
        let mut spawn_points: Vec<(u32, u32)> = Vec::new();
        spawn_points.push((64, 64));
        Area {
            id: numbered("dungeon_", seed),
            name: numbered("Dungeon ", seed),
            area_type: AreaType::Dungeon,
            width: 40,
            height: 40,
            recommended_level: level,
            keywords: copy_keywords(keywords),
            generation_seed: Some(seed),
            spawn_points,
        }
    }

    /// The 20 by 20 boss arena for level 10 generated from `seed`, called
    /// "boss_" followed by the seed, with the keywords "boss" and "danger".
    pub fn create_boss_arena(seed: u64) -> (r: Area)
        ensures
            r.id@ == "boss_"@ + decimal_view(seed as nat),
            r.name@ == "Boss Arena"@,
            r.area_type == AreaType::Boss,
            r.width == 20 && r.height == 20,
            r.recommended_level == 10,
            string_views(r.keywords@) == seq!["boss"@, "danger"@],
            r.generation_seed == Some(seed),
            r.spawn_points@ == seq![(64u32, 64u32)],
    {
        let mut keywords: Vec<String> = Vec::new();
        keywords.push("boss".to_string());
        keywords.push("danger".to_string());
        assert(string_views(keywords@) =~= seq!["boss"@, "danger"@]);
        let mut spawn_points: Vec<(u32, u32)> = Vec::new();
        spawn_points.push((64, 64));
        Area {
            id: numbered("boss_", seed),
            name: "Boss Arena".to_string(),
            area_type: AreaType::Boss,
            width: 20,
            height: 20,
            recommended_level: 10,
            keywords,
            generation_seed: Some(seed),
            spawn_points,
        }
    }

    /// The five keyword sets the Chaos Gate offers, three keywords each.
    pub fn get_area_keywords() -> (r: Vec<Vec<&'static str>>)
        ensures
            r@.len() == 5,
            r@[0]@ == seq!["grunty", "lake", "forest"],
            r@[1]@ == seq!["temple", "ruins", "desert"],
            r@[2]@ == seq!["mountain", "cave", "waterfall"],
            r@[3]@ == seq!["castle", "dungeon", "dark"],
            r@[4]@ == seq!["sky", "cloud", "wind"],
    {
        vec![
            vec!["grunty", "lake", "forest"],
            vec!["temple", "ruins", "desert"],
            vec!["mountain", "cave", "waterfall"],
            vec!["castle", "dungeon", "dark"],
            vec!["sky", "cloud", "wind"],
        ]
    }
}

} // verus!
