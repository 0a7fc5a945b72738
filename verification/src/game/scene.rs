//! Scene registry, loading and unloading.
use vstd::prelude::*;
use crate::gamecore::types::GameState;
use crate::text::{first_index_of, lemma_first_index_absent, lemma_first_index_found, str_eq};

verus! {

/// A registered scene and the entities it holds.
#[derive(Debug, Clone)]
pub struct Scene {
    pub id: String,
    pub scene_type: SceneType,
    pub entities: Vec<String>,
    pub is_loaded: bool,
}

/// The kinds of scene.
#[derive(Debug, Clone, Copy, PartialEq, Eq, Structural)]
pub enum SceneType {
    Title,
    CharacterSelect,
    RootTown,
    Field,
    Dungeon,
    Boss,
    Menu,
    Cutscene,
}

/// The registered scenes and a copy of the one currently loaded.
pub struct SceneManager {
    pub current_scene: Option<Scene>,
    pub scenes: Vec<Scene>,
}

/// The ids of `scenes`, in order.
pub open spec fn scene_ids(scenes: Seq<Scene>) -> Seq<Seq<char>> {
    scenes.map_values(|s: Scene| s.id@)
}

/// The scene kind shown in game state `state`, if any.
pub open spec fn scene_type_for(state: GameState) -> Option<SceneType> {
    match state {
        GameState::Title => Some(SceneType::Title),
        GameState::CharacterSelect => Some(SceneType::CharacterSelect),
        GameState::Exploring => Some(SceneType::Field),
        GameState::Combat => Some(SceneType::Boss),
        GameState::Menu => Some(SceneType::Menu),
        GameState::Cutscene => Some(SceneType::Cutscene),
        _ => None,
    }
}

fn copy_strings(v: &Vec<String>) -> (r: Vec<String>)
    ensures
        r@ == v@,
{
    let mut out: Vec<String> = Vec::new();
    let mut i: usize = 0;
    while i < v.len()
        invariant
            i <= v@.len(),
            out@ == v@.take(i as int),
        decreases v@.len() - i,
    {
        out.push(v[i].clone());
        assert(out@ =~= v@.take(i as int + 1));
        i += 1;
    }
    assert(v@.take(v@.len() as int) =~= v@);
    out
}

/// `a` and `b` hold the same scene: same id, kind, entities and load flag.
pub open spec fn same_scene(a: Scene, b: Scene) -> bool {
    &&& a.id == b.id
    &&& a.scene_type == b.scene_type
    &&& a.entities@ == b.entities@
    &&& a.is_loaded == b.is_loaded
}

fn copy_scene(s: &Scene) -> (r: Scene)
    ensures
        same_scene(r, *s),
{
    Scene { id: s.id.clone(), scene_type: s.scene_type, entities: copy_strings(&s.entities), is_loaded: s.is_loaded }
}

impl Default for SceneManager {
    fn default() -> (r: Self)
        ensures
            r.current_scene is None,
            r.scenes@.len() == 0,
    {
        Self::new()
    }
}

impl SceneManager {
    /// A manager with no scenes and nothing loaded.
    pub fn new() -> (r: Self)
        ensures
            r.current_scene is None,
            r.scenes@.len() == 0,
    {
        Self { current_scene: None, scenes: Vec::new() }
    }

    /// Add `scene` to the registry.
    pub fn register_scene(&mut self, scene: Scene)
        ensures
            final(self).scenes@ == old(self).scenes@.push(scene),
            final(self).current_scene == old(self).current_scene,
    {
        self.scenes.push(scene);
    }

    /// Load the first registered scene with id `scene_id`: it is marked
    /// loaded in the registry and a copy becomes the current scene. Refused
    /// with "Scene not found" (and no change) when there is no such scene.
    pub fn load_scene(&mut self, scene_id: &str) -> (r: Result<(), &str>)
        ensures
            match first_index_of(scene_ids(old(self).scenes@), scene_id@) {
                None => {
                    &&& r == Err::<(), &str>("Scene not found")
                    &&& final(self).scenes@ == old(self).scenes@
                    &&& final(self).current_scene == old(self).current_scene
                },
                Some(i) => {
                    let loaded = Scene { is_loaded: true, ..old(self).scenes@[i] };
                    &&& r == Ok::<(), &str>(())
                    &&& final(self).scenes@ == old(self).scenes@.update(i, loaded)
                    &&& final(self).current_scene is Some
                    &&& same_scene(final(self).current_scene.unwrap(), loaded)
                },
            },
    {
        let mut i: usize = 0;
        while i < self.scenes.len()
            invariant
                i <= self.scenes@.len(),
                self.scenes@ == old(self).scenes@,
                self.current_scene == old(self).current_scene,
                forall|j: int| 0 <= j < i ==> scene_ids(self.scenes@)[j] != scene_id@,
            decreases self.scenes@.len() - i,
        {
            if str_eq(self.scenes[i].id.as_str(), scene_id) {
                proof {
                    lemma_first_index_found(scene_ids(self.scenes@), scene_id@, i as int);
                }
                let mut scene = self.scenes.remove(i);
                scene.is_loaded = true;
                let copy = copy_scene(&scene);
                self.scenes.insert(i, scene);
                self.current_scene = Some(copy);
                assert(self.scenes@ =~= old(self).scenes@.update(i as int, Scene { is_loaded: true, ..old(self).scenes@[i as int] }));
                return Ok(());
            }
            i += 1;
        }
        proof {
            lemma_first_index_absent(scene_ids(self.scenes@), scene_id@);
        }
        Err("Scene not found")
    }

    /// Unload the current scene: afterwards no scene is current.
    pub fn unload_current(&mut self)
        ensures
            final(self).current_scene is None,
            final(self).scenes@ == old(self).scenes@,
    {
        if let Some(ref mut scene) = self.current_scene {
            scene.is_loaded = false;
        }
        self.current_scene = None;
    }

    /// The kind of scene shown in game state `state`, if any.
    pub fn scene_for_state(state: GameState) -> (r: Option<SceneType>)
        ensures
            r == scene_type_for(state),
    {
        match state {
            GameState::Title => Some(SceneType::Title),
            GameState::CharacterSelect => Some(SceneType::CharacterSelect),
            GameState::Exploring => Some(SceneType::Field),
            GameState::Combat => Some(SceneType::Boss),
            GameState::Menu => Some(SceneType::Menu),
            GameState::Cutscene => Some(SceneType::Cutscene),
            _ => None,
        }
    }
}

} // verus!
