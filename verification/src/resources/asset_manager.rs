//! Registry of texture, audio, font and configuration assets, with a queue
//! of assets waiting to be loaded.
use vstd::prelude::*;
use crate::text::{
    first_index_of, is_first_index, lemma_first_index_absent, lemma_first_index_exists, lemma_first_index_found, remove_id, str_eq,
    string_views, without_id,
};

verus! {

/// Where an asset lives, whether it has been loaded, and its size.
#[derive(Debug, Clone)]
pub struct AssetInfo {
    pub path: String,
    pub loaded: bool,
    pub size_bytes: u64,
}

/// A table of assets keyed by name. Its view lists the (name, value)
/// entries in the order the names were first inserted; since values are only
/// ever stored through [`AssetTable::insert`], no name occurs twice (see
/// [`law_store_keeps_names_distinct`]).
#[derive(Debug, Clone)]
pub struct AssetTable<V> {
    entries: Vec<(String, V)>,
}

/// The names of `entries`, in order.
pub open spec fn table_keys<V>(entries: Seq<(Seq<char>, V)>) -> Seq<Seq<char>> {
    entries.map_values(|e: (Seq<char>, V)| e.0)
}

/// No name occurs twice in `entries`.
pub open spec fn keys_distinct<V>(entries: Seq<(Seq<char>, V)>) -> bool {
    forall|i: int, j: int| 0 <= i < j < entries.len() ==> entries[i].0 != entries[j].0
}

/// The value stored under `key`, if any.
pub open spec fn value_of<V>(entries: Seq<(Seq<char>, V)>, key: Seq<char>) -> Option<V> {
    match first_index_of(table_keys(entries), key) {
        Some(i) => Some(entries[i].1),
        None => None,
    }
}

/// The entries after storing `value` under `key`: an existing entry is
/// overwritten in place, a new name is appended.
pub open spec fn stored<V>(entries: Seq<(Seq<char>, V)>, key: Seq<char>, value: V) -> Seq<(Seq<char>, V)> {
    match first_index_of(table_keys(entries), key) {
        Some(i) => entries.update(i, (key, value)),
        None => entries.push((key, value)),
    }
}

/// The entries after flagging the asset `key` as loaded (no change when
/// there is no such asset).
pub open spec fn flagged_loaded(entries: Seq<(Seq<char>, AssetInfo)>, key: Seq<char>) -> Seq<(Seq<char>, AssetInfo)> {
    match first_index_of(table_keys(entries), key) {
        Some(i) => entries.update(i, (key, AssetInfo { loaded: true, ..entries[i].1 })),
        None => entries,
    }
}

/// How many of `entries` are flagged as loaded.
pub open spec fn loaded_count(entries: Seq<(Seq<char>, AssetInfo)>) -> nat {
    entries.filter(|e: (Seq<char>, AssetInfo)| e.1.loaded).len()
}

/// Whether the asset `key` is present and flagged as loaded.
pub open spec fn is_loaded_in(entries: Seq<(Seq<char>, AssetInfo)>, key: Seq<char>) -> bool {
    match value_of(entries, key) {
        Some(info) => info.loaded,
        None => false,
    }
}

/// The queue after asking for `id` to be loaded: appended unless already queued.
pub open spec fn queued(queue: Seq<Seq<char>>, id: Seq<char>) -> Seq<Seq<char>> {
    if queue.contains(id) { queue } else { queue.push(id) }
}

impl<V> View for AssetTable<V> {
    type V = Seq<(Seq<char>, V)>;

    closed spec fn view(&self) -> Seq<(Seq<char>, V)> {
        self.entries@.map_values(|e: (String, V)| (e.0@, e.1))
    }
}

impl<V> AssetTable<V> {
    /// An empty table.
    pub fn new() -> (r: Self)
        ensures
            r@.len() == 0,
    {
        Self { entries: Vec::new() }
    }

    fn find(&self, key: &str) -> (r: Option<usize>)
        ensures
            match r {
                Some(i) => first_index_of(table_keys(self@), key@) == Some(i as int) && i < self@.len(),
                None => first_index_of(table_keys(self@), key@) is None,
            },
    {
        let mut i: usize = 0;
        while i < self.entries.len()
            invariant
                i <= self.entries@.len(),
                self@.len() == self.entries@.len(),
                forall|j: int| 0 <= j < i ==> table_keys(self@)[j] != key@,
            decreases self.entries@.len() - i,
        {
            assert(table_keys(self@)[i as int] == self.entries@[i as int].0@);
            if str_eq(self.entries[i].0.as_str(), key) {
                proof {
                    lemma_first_index_found(table_keys(self@), key@, i as int);
                }
                return Some(i);
            }
            i += 1;
        }
        proof {
            lemma_first_index_absent(table_keys(self@), key@);
        }
        None
    }

    /// Store `value` under `key`, replacing any value already there.
    pub fn insert(&mut self, key: String, value: V)
        ensures
            final(self)@ == stored(old(self)@, key@, value),
    {
        let ghost key_view = key@;
        match self.find(key.as_str()) {
            Some(i) => {
                let ghost before = self@;
                self.entries.set(i, (key, value));
                assert(self@ =~= before.update(i as int, (key_view, value)));
            },
            None => {
                let ghost before = self@;
                self.entries.push((key, value));
                assert(self@ =~= before.push((key_view, value)));
            },
        }
    }

    /// Whether a value is stored under `key`.
    pub fn contains_key(&self, key: &str) -> (r: bool)
        ensures
            r == value_of(self@, key@) is Some,
    {
        self.find(key).is_some()
    }

    /// The value stored under `key`, if any.
    pub fn get(&self, key: &str) -> (r: Option<&V>)
        ensures
            match value_of(self@, key@) {
                Some(v) => r is Some && *r.unwrap() == v,
                None => r is None,
            },
    {
        match self.find(key) {
            Some(i) => Some(&self.entries[i].1),
            None => None,
        }
    }

    /// The number of names in the table.
    pub fn len(&self) -> (r: usize)
        ensures
            r == self@.len(),
    {
        self.entries.len()
    }

    /// Whether the table holds no name.
    pub fn is_empty(&self) -> (r: bool)
        ensures
            r == (self@.len() == 0),
    {
        self.entries.len() == 0
    }
}

impl AssetTable<AssetInfo> {
    /// Flag the asset `key` as loaded, if it is in the table.
    pub fn set_loaded(&mut self, key: &str)
        ensures
            final(self)@ == flagged_loaded(old(self)@, key@),
    {
        match self.find(key) {
            Some(i) => {
                let ghost before = self@;
                let (name, info) = self.entries.remove(i);
                let ghost name_view = name@;
                let updated = AssetInfo { path: info.path, loaded: true, size_bytes: info.size_bytes };
                self.entries.insert(i, (name, updated));
                assert(self@ =~= before.update(i as int, (name_view, AssetInfo { loaded: true, ..before[i as int].1 })));
                assert(table_keys(before)[i as int] == name_view);
            },
            None => {},
        }
    }

    /// How many assets of the table are flagged as loaded.
    pub fn count_loaded(&self) -> (r: usize)
        ensures
            r == loaded_count(self@),
    {
        let ghost pred = |e: (Seq<char>, AssetInfo)| e.1.loaded;
        let mut count: usize = 0;
        let mut i: usize = 0;
        while i < self.entries.len()
            invariant
                i <= self.entries@.len(),
                self@.len() == self.entries@.len(),
                pred == (|e: (Seq<char>, AssetInfo)| e.1.loaded),
                count == self@.take(i as int).filter(pred).len(),
                count <= i,
            decreases self.entries@.len() - i,
        {
            proof {
                reveal_with_fuel(Seq::filter, 1);
                assert(self@.take(i as int + 1).drop_last() == self@.take(i as int));
                assert(self@[i as int].1 == self.entries@[i as int].1);
            }
            if self.entries[i].1.loaded {
                count += 1;
            }
            i += 1;
        }
        assert(self@.take(self@.len() as int) == self@);
        count
    }
}

/// The assets the engine registers at start-up, as (id, path): sprites of
/// the four classes and five enemy kinds, eight tile textures, three HUD
/// pieces and two music tracks.
pub open spec fn default_assets() -> Seq<(Seq<char>, Seq<char>)> {
    seq![
        ("player_TwinBlade"@, "assets/sprites/player/TwinBlade.svg"@),
        ("player_HeavyBlade"@, "assets/sprites/player/HeavyBlade.svg"@),
        ("player_LongArm"@, "assets/sprites/player/LongArm.svg"@),
        ("player_Wavemaster"@, "assets/sprites/player/Wavemaster.svg"@),
        ("enemy_Goblin"@, "assets/sprites/enemy/Goblin.svg"@),
        ("enemy_Wolf"@, "assets/sprites/enemy/Wolf.svg"@),
        ("enemy_Skeleton"@, "assets/sprites/enemy/Skeleton.svg"@),
        ("enemy_Mage"@, "assets/sprites/enemy/Mage.svg"@),
        ("enemy_Boss"@, "assets/sprites/enemy/Boss.svg"@),
        ("tile_floor"@, "assets/tiles/floor.svg"@),
        ("tile_wall"@, "assets/tiles/wall.svg"@),
        ("tile_water"@, "assets/tiles/water.svg"@),
        ("tile_grass"@, "assets/tiles/grass.svg"@),
        ("tile_path"@, "assets/tiles/path.svg"@),
        ("tile_entrance"@, "assets/tiles/entrance.svg"@),
        ("tile_exit"@, "assets/tiles/exit.svg"@),
        ("tile_treasure"@, "assets/tiles/treasure.svg"@),
        ("hud_frame"@, "assets/ui/hud_frame.svg"@),
        ("hp_bar"@, "assets/ui/hp_bar.svg"@),
        ("mp_bar"@, "assets/ui/mp_bar.svg"@),
        ("bgm_root_town"@, "assets/audio/bgm/root_town.ogg"@),
        ("bgm_field"@, "assets/audio/bgm/field.ogg"@),
    ]
}

/// `after` is `mid` with the asset `asset` (id, path) registered as `info`:
/// an unloaded texture of size 0 stored at that path.
pub open spec fn registration(mid: Seq<(Seq<char>, AssetInfo)>, asset: (Seq<char>, Seq<char>), info: AssetInfo, after: Seq<(Seq<char>, AssetInfo)>) -> bool {
    &&& info.path@ == asset.1
    &&& !info.loaded
    &&& info.size_bytes == 0
    &&& after == stored(mid, asset.0, info)
}

/// `chain` walks from `before` through the registration of each of
/// `assets` in turn, recording the stored values in `infos`.
pub open spec fn registration_chain(
    chain: Seq<Seq<(Seq<char>, AssetInfo)>>,
    infos: Seq<AssetInfo>,
    assets: Seq<(Seq<char>, Seq<char>)>,
) -> bool {
    &&& chain.len() == assets.len() + 1
    &&& infos.len() == assets.len()
    &&& forall|k: int| 0 <= k < assets.len() ==> #[trigger] registration(chain[k], assets[k], infos[k], chain[k + 1])
}

/// `after` is `before` with each of `assets` registered in turn, as an
/// unloaded texture of size 0 stored at the given path.
pub open spec fn registers(before: Seq<(Seq<char>, AssetInfo)>, after: Seq<(Seq<char>, AssetInfo)>, assets: Seq<(Seq<char>, Seq<char>)>) -> bool {
    exists|chain: Seq<Seq<(Seq<char>, AssetInfo)>>, infos: Seq<AssetInfo>| {
        &&& #[trigger] registration_chain(chain, infos, assets)
        &&& chain[0] == before
        &&& chain.last() == after
    }
}

/// Registered textures, audio clips, fonts and configuration values, and
/// the names of the assets waiting to be loaded.
#[derive(Debug, Clone)]
pub struct AssetManager {
    pub textures: AssetTable<AssetInfo>,
    pub audio: AssetTable<AssetInfo>,
    pub fonts: AssetTable<AssetInfo>,
    pub configs: AssetTable<String>,
    pub loading_queue: Vec<String>,
}

impl Default for AssetManager {
    fn default() -> (r: Self)
        ensures
            r.textures@.len() == 0,
            r.audio@.len() == 0,
            r.fonts@.len() == 0,
            r.configs@.len() == 0,
            r.loading_queue@.len() == 0,
    {
        Self::new()
    }
}

impl AssetManager {
    /// A manager with nothing registered or queued.
    pub fn new() -> (r: Self)
        ensures
            r.textures@.len() == 0,
            r.audio@.len() == 0,
            r.fonts@.len() == 0,
            r.configs@.len() == 0,
            r.loading_queue@.len() == 0,
    {
        Self {
            textures: AssetTable::new(),
            audio: AssetTable::new(),
            fonts: AssetTable::new(),
            configs: AssetTable::new(),
            loading_queue: Vec::new(),
        }
    }

    /// Register texture `id` at `path`, not yet loaded and of size 0;
    /// re-registering an id replaces its entry.
    pub fn register_texture(&mut self, id: &str, path: &str)
        ensures
            exists|info: AssetInfo| {
                &&& info.path@ == path@
                &&& !info.loaded
                &&& info.size_bytes == 0
                &&& final(self).textures@ == stored(old(self).textures@, id@, info)
            },
            final(self).audio@ == old(self).audio@,
            final(self).fonts@ == old(self).fonts@,
            final(self).configs@ == old(self).configs@,
            final(self).loading_queue@ == old(self).loading_queue@,
    {
        let info = AssetInfo { path: path.to_string(), loaded: false, size_bytes: 0 };
        self.textures.insert(id.to_string(), info);
    }

    /// Register the start-up assets (see [`default_assets`]) in order, each
    /// as a texture entry that is not yet loaded.
    pub fn register_default_assets(&mut self)
        ensures
            registers(old(self).textures@, final(self).textures@, default_assets()),
            final(self).audio@ == old(self).audio@,
            final(self).fonts@ == old(self).fonts@,
            final(self).configs@ == old(self).configs@,
            final(self).loading_queue@ == old(self).loading_queue@,
    {
        let assets: Vec<(&str, &str)> = vec![
            ("player_TwinBlade", "assets/sprites/player/TwinBlade.svg"),
            ("player_HeavyBlade", "assets/sprites/player/HeavyBlade.svg"),
            ("player_LongArm", "assets/sprites/player/LongArm.svg"),
            ("player_Wavemaster", "assets/sprites/player/Wavemaster.svg"),
            ("enemy_Goblin", "assets/sprites/enemy/Goblin.svg"),
            ("enemy_Wolf", "assets/sprites/enemy/Wolf.svg"),
            ("enemy_Skeleton", "assets/sprites/enemy/Skeleton.svg"),
            ("enemy_Mage", "assets/sprites/enemy/Mage.svg"),
            ("enemy_Boss", "assets/sprites/enemy/Boss.svg"),
            ("tile_floor", "assets/tiles/floor.svg"),
            ("tile_wall", "assets/tiles/wall.svg"),
            ("tile_water", "assets/tiles/water.svg"),
            ("tile_grass", "assets/tiles/grass.svg"),
            ("tile_path", "assets/tiles/path.svg"),
            ("tile_entrance", "assets/tiles/entrance.svg"),
            ("tile_exit", "assets/tiles/exit.svg"),
            ("tile_treasure", "assets/tiles/treasure.svg"),
            ("hud_frame", "assets/ui/hud_frame.svg"),
            ("hp_bar", "assets/ui/hp_bar.svg"),
            ("mp_bar", "assets/ui/mp_bar.svg"),
            ("bgm_root_town", "assets/audio/bgm/root_town.ogg"),
            ("bgm_field", "assets/audio/bgm/field.ogg"),
        ];
        let ghost list = assets@.map_values(|a: (&str, &str)| (a.0@, a.1@));
        assert(list =~= default_assets());
        let ghost mut chain: Seq<Seq<(Seq<char>, AssetInfo)>> = seq![self.textures@];
        let ghost mut infos: Seq<AssetInfo> = Seq::empty();
        let mut i: usize = 0;
        while i < assets.len()
            invariant
                i <= assets@.len(),
                list == assets@.map_values(|a: (&str, &str)| (a.0@, a.1@)),
                registration_chain(chain, infos, list.take(i as int)),
                chain[0] == old(self).textures@,
                chain.last() == self.textures@,
                self.audio@ == old(self).audio@,
                self.fonts@ == old(self).fonts@,
                self.configs@ == old(self).configs@,
                self.loading_queue@ == old(self).loading_queue@,
            decreases assets@.len() - i,
        {
            let ghost mid = self.textures@;
            let (id, path) = assets[i];
            self.register_texture(id, path);
            proof {
                let info = choose|info: AssetInfo| {
                    &&& info.path@ == path@
                    &&& !info.loaded
                    &&& info.size_bytes == 0
                    &&& self.textures@ == stored(mid, id@, info)
                };
                assert(list[i as int] == (assets@[i as int].0@, assets@[i as int].1@));
                let prev_chain = chain;
                let prev_infos = infos;
                chain = chain.push(self.textures@);
                infos = infos.push(info);
                let step = list.take(i as int + 1);
                assert forall|k: int| 0 <= k < step.len() implies #[trigger] registration(chain[k], step[k], infos[k], chain[k + 1]) by {
                    if k < i {
                        assert(step[k] == list.take(i as int)[k]);
                        assert(registration(prev_chain[k], list.take(i as int)[k], prev_infos[k], prev_chain[k + 1]));
                    } else {
                        assert(step[k] == (id@, path@));
                    }
                }
            }
            i += 1;
        }
        assert(list.take(assets@.len() as int) =~= list);
        assert(registration_chain(chain, infos, default_assets()));

    }

    /// Queue asset `asset_id` for loading unless it is already queued.
    pub fn queue_loading(&mut self, asset_id: &str)
        ensures
            string_views(final(self).loading_queue@) == queued(string_views(old(self).loading_queue@), asset_id@),
            final(self).textures@ == old(self).textures@,
            final(self).audio@ == old(self).audio@,
            final(self).fonts@ == old(self).fonts@,
            final(self).configs@ == old(self).configs@,
    {
        let ghost queue = string_views(self.loading_queue@);
        let mut present = false;
        let mut i: usize = 0;
        while i < self.loading_queue.len()
            invariant
                i <= self.loading_queue@.len(),
                queue == string_views(self.loading_queue@),
                present == exists|j: int| 0 <= j < i && queue[j] == asset_id@,
            decreases self.loading_queue@.len() - i,
        {
            assert(queue[i as int] == self.loading_queue@[i as int]@);
            if str_eq(self.loading_queue[i].as_str(), asset_id) {
                present = true;
            }
            i += 1;
        }
        if !present {
            self.loading_queue.push(asset_id.to_string());
            assert(string_views(self.loading_queue@) =~= queue.push(asset_id@));
        }
    }

    /// Flag asset `asset_id` as loaded among the textures and among the
    /// audio clips (wherever it is registered), and take it off the queue.
    pub fn mark_loaded(&mut self, asset_id: &str)
        ensures
            final(self).textures@ == flagged_loaded(old(self).textures@, asset_id@),
            final(self).audio@ == flagged_loaded(old(self).audio@, asset_id@),
            final(self).loading_queue@ == without_id(old(self).loading_queue@, asset_id@),
            final(self).fonts@ == old(self).fonts@,
            final(self).configs@ == old(self).configs@,
    {
        self.textures.set_loaded(asset_id);
        self.audio.set_loaded(asset_id);
        self.loading_queue = remove_id(&self.loading_queue, asset_id);
    }

    /// Whether `asset_id` is a loaded texture or a loaded audio clip.
    pub fn is_loaded(&self, asset_id: &str) -> (r: bool)
        ensures
            r == (is_loaded_in(self.textures@, asset_id@) || is_loaded_in(self.audio@, asset_id@)),
    {
        let in_textures = match self.textures.get(asset_id) {
            Some(info) => info.loaded,
            None => false,
        };
        let in_audio = match self.audio.get(asset_id) {
            Some(info) => info.loaded,
            None => false,
        };
        in_textures || in_audio
    }

    /// (loaded, total) over textures and audio clips.
    pub fn loading_progress(&self) -> (r: (usize, usize))
        requires
            self.textures@.len() + self.audio@.len() <= usize::MAX,
        ensures
            r.0 == loaded_count(self.textures@) + loaded_count(self.audio@),
            r.1 == self.textures@.len() + self.audio@.len(),
    {
        let total = self.textures.len() + self.audio.len();
        let loaded_textures = self.textures.count_loaded();
        let loaded_audio = self.audio.count_loaded();
        proof {
            self.textures@.lemma_filter_len(|e: (Seq<char>, AssetInfo)| e.1.loaded);
            self.audio@.lemma_filter_len(|e: (Seq<char>, AssetInfo)| e.1.loaded);
        }
        (loaded_textures + loaded_audio, total)
    }
}

/// Storing under a name never duplicates it: a table whose names are
/// distinct keeps them distinct.
pub proof fn law_store_keeps_names_distinct<V>(entries: Seq<(Seq<char>, V)>, key: Seq<char>, value: V)
    requires
        keys_distinct(entries),
    ensures
        keys_distinct(stored(entries, key, value)),
        value_of(stored(entries, key, value), key) == Some(value),
{
    let after = stored(entries, key, value);
    match first_index_of(table_keys(entries), key) {
        Some(i) => {
            assert(is_first_index(table_keys(entries), key, i));
            assert forall|a: int, b: int| 0 <= a < b < after.len() implies after[a].0 != after[b].0 by {
                assert(table_keys(entries)[a] == entries[a].0);
                assert(table_keys(entries)[b] == entries[b].0);
            }
            assert(table_keys(after)[i] == key);
            assert forall|j: int| 0 <= j < i implies table_keys(after)[j] != key by {
                assert(table_keys(entries)[j] == entries[j].0);
            }
            lemma_first_index_found(table_keys(after), key, i);
        },
        None => {
            assert forall|j: int| 0 <= j < entries.len() implies entries[j].0 != key by {
                assert(table_keys(entries)[j] == entries[j].0);
                if entries[j].0 == key {
                    lemma_first_index_exists(table_keys(entries), key, j);
                }
            }
            assert forall|j: int| 0 <= j < entries.len() implies table_keys(after)[j] != key by {
                assert(table_keys(after)[j] == entries[j].0);
            }
            lemma_first_index_found(table_keys(after), key, entries.len() as int);
        },
    }
}

/// What a read gives back of a write: after flagging a registered asset as
/// loaded it reads as loaded, and every other asset reads as before.
pub proof fn law_flag_then_read(entries: Seq<(Seq<char>, AssetInfo)>, key: Seq<char>, other: Seq<char>)
    requires
        value_of(entries, key) is Some,
        other != key,
    ensures
        is_loaded_in(flagged_loaded(entries, key), key),
        is_loaded_in(flagged_loaded(entries, key), other) == is_loaded_in(entries, other),
{
    let i = first_index_of(table_keys(entries), key).unwrap();
    let after = flagged_loaded(entries, key);
    assert(is_first_index(table_keys(entries), key, i));
    assert(table_keys(after) =~= table_keys(entries).update(i, key));
    assert(table_keys(entries).update(i, key) =~= table_keys(entries));
    assert(table_keys(after) == table_keys(entries));
}

/// Asking twice for the same asset queues it once, and after asking the
/// asset is queued.
pub proof fn law_queue_is_idempotent(queue: Seq<Seq<char>>, id: Seq<char>)
    ensures
        queued(queue, id).contains(id),
        queued(queued(queue, id), id) == queued(queue, id),
{
    if !queue.contains(id) {
        assert(queue.push(id)[queue.len() as int] == id);
    }
}

} // verus!
