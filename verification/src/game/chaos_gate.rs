//! The Chaos Gate: picking three keywords, one per offered set, to name the
//! area to travel to.
use vstd::prelude::*;
use crate::entities::area::{is_field_area, Area, AreaEntity};
use crate::text::string_views;

verus! {

/// How many keywords make a complete gate address.
pub const KEYWORDS_PER_ADDRESS: usize = 3;

/// The keyword sets on offer, as text.
pub open spec fn offered_keyword_sets() -> Seq<Seq<Seq<char>>> {
    seq![
        seq!["grunty"@, "lake"@, "forest"@],
        seq!["temple"@, "ruins"@, "desert"@],
        seq!["mountain"@, "cave"@, "waterfall"@],
        seq!["castle"@, "dungeon"@, "dark"@],
        seq!["sky"@, "cloud"@, "wind"@],
    ]
}

/// The text of a list of keyword sets.
pub open spec fn set_views(sets: Seq<Vec<String>>) -> Seq<Seq<Seq<char>>> {
    sets.map_values(|v: Vec<String>| string_views(v@))
}

/// The selection after picking `keyword`: appended while fewer than three
/// keywords are chosen, ignored otherwise.
pub open spec fn after_select(selected: Seq<Seq<char>>, keyword: Seq<char>) -> Seq<Seq<char>> {
    if selected.len() < KEYWORDS_PER_ADDRESS { selected.push(keyword) } else { selected }
}

/// The selection after removing the last keyword (none to remove when empty).
pub open spec fn after_remove(selected: Seq<Seq<char>>) -> Seq<Seq<char>> {
    if selected.len() > 0 { selected.drop_last() } else { selected }
}

/// The Chaos Gate: whether it is open, the keywords picked so far from the
/// offered sets, the set being picked from, the area a confirmed address
/// leads to, and whether the travel to it is under way. The timing of the
/// travel animation is kept by the application.
#[derive(Debug, Clone)]
pub struct ChaosGate {
    pub is_active: bool,
    pub selected_keywords: Vec<String>,
    pub available_keyword_sets: Vec<Vec<String>>,
    pub current_set_index: usize,
    pub current_keyword_index: usize,
    pub generated_area: Option<Area>,
    pub is_transitioning: bool,
}

fn owned_words(words: &Vec<&'static str>) -> (r: Vec<String>)
    ensures
        string_views(r@) == words@.map_values(|w: &'static str| w@),
{
    let mut out: Vec<String> = Vec::new();
    let mut i: usize = 0;
    while i < words.len()
        invariant
            i <= words@.len(),
            string_views(out@) == words@.take(i as int).map_values(|w: &'static str| w@),
        decreases words@.len() - i,
    {
        let word: &str = words[i];
        let ghost before = string_views(out@);
        out.push(word.to_string());
        assert(string_views(out@) =~= before.push(word@));
        assert(words@.take(i as int + 1).map_values(|w: &'static str| w@)
            =~= words@.take(i as int).map_values(|w: &'static str| w@).push(words@[i as int]@));
        i += 1;
    }
    assert(words@.take(words@.len() as int) =~= words@);
    out
}

impl Default for ChaosGate {
    fn default() -> (r: Self)
        ensures
            !r.is_active,
            r.selected_keywords@.len() == 0,
            set_views(r.available_keyword_sets@) == offered_keyword_sets(),
            r.current_set_index == 0,
            r.current_keyword_index == 0,
            r.generated_area is None,
            !r.is_transitioning,
    {
        Self::new()
    }
}

impl ChaosGate {
    /// An inactive gate offering the five keyword sets, nothing selected.
    pub fn new() -> (r: Self)
        ensures
            !r.is_active,
            r.selected_keywords@.len() == 0,
            set_views(r.available_keyword_sets@) == offered_keyword_sets(),
            r.current_set_index == 0,
            r.current_keyword_index == 0,
            r.generated_area is None,
            !r.is_transitioning,
    {
        let source = AreaEntity::get_area_keywords();
        let mut sets: Vec<Vec<String>> = Vec::new();
        let mut i: usize = 0;
        while i < source.len()
            invariant
                i <= source@.len(),
                source@.len() == 5,
                source@[0]@ == seq!["grunty", "lake", "forest"],
                source@[1]@ == seq!["temple", "ruins", "desert"],
                source@[2]@ == seq!["mountain", "cave", "waterfall"],
                source@[3]@ == seq!["castle", "dungeon", "dark"],
                source@[4]@ == seq!["sky", "cloud", "wind"],
                sets@.len() == i,
                forall|j: int| 0 <= j < i ==> string_views(#[trigger] sets@[j]@) == source@[j]@.map_values(|w: &'static str| w@),
            decreases source@.len() - i,
        {
            let words = owned_words(&source[i]);
            sets.push(words);
            i += 1;
        }
        let ghost views = set_views(sets@);
        assert(views.len() == 5);
        assert(views[0] =~= offered_keyword_sets()[0]);
        assert(views[1] =~= offered_keyword_sets()[1]);
        assert(views[2] =~= offered_keyword_sets()[2]);
        assert(views[3] =~= offered_keyword_sets()[3]);
        assert(views[4] =~= offered_keyword_sets()[4]);
        assert(views =~= offered_keyword_sets());
        Self {
            is_active: false,
            selected_keywords: Vec::new(),
            available_keyword_sets: sets,
            current_set_index: 0,
            current_keyword_index: 0,
            generated_area: None,
            is_transitioning: false,
        }
    }

    /// Open up with an empty selection, back at the first set, no travel
    /// under way.
    pub fn activate(&mut self)
        ensures
            final(self).is_active,
            final(self).selected_keywords@.len() == 0,
            final(self).available_keyword_sets@ == old(self).available_keyword_sets@,
            final(self).current_set_index == 0,
            final(self).current_keyword_index == 0,
            !final(self).is_transitioning,
            final(self).generated_area == old(self).generated_area,
    {
        self.is_active = true;
        self.selected_keywords.clear();
        self.current_set_index = 0;
        self.current_keyword_index = 0;
        self.is_transitioning = false;
    }

    /// Close up and forget the area; the selection is kept.
    pub fn deactivate(&mut self)
        ensures
            !final(self).is_active,
            final(self).generated_area is None,
            final(self).selected_keywords@ == old(self).selected_keywords@,
            final(self).available_keyword_sets@ == old(self).available_keyword_sets@,
            final(self).current_set_index == old(self).current_set_index,
            final(self).current_keyword_index == old(self).current_keyword_index,
            final(self).is_transitioning == old(self).is_transitioning,
    {
        self.is_active = false;
        self.generated_area = None;
    }

    /// With a complete address, start travelling to the field generated from
    /// `seed` for the selected keywords (see [`is_field_area`]); with an
    /// incomplete one, nothing happens.
    pub fn confirm_area(&mut self, seed: u64)
        ensures
            old(self).selected_keywords@.len() == KEYWORDS_PER_ADDRESS ==> {
                &&& final(self).is_transitioning
                &&& final(self).generated_area matches Some(a) && is_field_area(a, string_views(old(self).selected_keywords@), seed)
            },
            old(self).selected_keywords@.len() != KEYWORDS_PER_ADDRESS ==> {
                &&& final(self).is_transitioning == old(self).is_transitioning
                &&& final(self).generated_area == old(self).generated_area
            },
            final(self).is_active == old(self).is_active,
            final(self).selected_keywords@ == old(self).selected_keywords@,
            final(self).available_keyword_sets@ == old(self).available_keyword_sets@,
            final(self).current_set_index == old(self).current_set_index,
            final(self).current_keyword_index == old(self).current_keyword_index,
    {
        if self.selected_keywords.len() == KEYWORDS_PER_ADDRESS {
            self.is_transitioning = true;
            let area = AreaEntity::create_field(self.selected_keywords.as_slice(), seed);
            self.generated_area = Some(area);
        }
    }

    /// Pick `keyword` (see [`after_select`]). While the address is still
    /// incomplete afterwards, selection moves on to the next keyword set
    /// (wrapping around) and to its first keyword.
    pub fn select_keyword(&mut self, keyword: &str)
        requires
            old(self).selected_keywords@.len() + 1 < KEYWORDS_PER_ADDRESS ==> {
                &&& old(self).available_keyword_sets@.len() > 0
                &&& old(self).current_set_index < usize::MAX
            },
        ensures
            string_views(final(self).selected_keywords@) == after_select(string_views(old(self).selected_keywords@), keyword@),
            final(self).available_keyword_sets@ == old(self).available_keyword_sets@,
            final(self).is_active == old(self).is_active,
            final(self).generated_area == old(self).generated_area,
            final(self).is_transitioning == old(self).is_transitioning,
            old(self).selected_keywords@.len() + 1 < KEYWORDS_PER_ADDRESS ==> {
                &&& final(self).current_set_index
                    == (old(self).current_set_index + 1) % (old(self).available_keyword_sets@.len() as int)
                &&& final(self).current_keyword_index == 0
            },
            old(self).selected_keywords@.len() + 1 >= KEYWORDS_PER_ADDRESS ==> {
                &&& final(self).current_set_index == old(self).current_set_index
                &&& final(self).current_keyword_index == old(self).current_keyword_index
            },
    {
        if self.selected_keywords.len() < KEYWORDS_PER_ADDRESS {
            self.selected_keywords.push(keyword.to_string());
            assert(string_views(self.selected_keywords@) =~= string_views(old(self).selected_keywords@).push(keyword@));
            if self.selected_keywords.len() < KEYWORDS_PER_ADDRESS {
                self.current_set_index = (self.current_set_index + 1) % self.available_keyword_sets.len();
                self.current_keyword_index = 0;
            }
        }
    }

    /// Take back the last keyword (see [`after_remove`]); while keywords
    /// remain, selection returns to the set of the last remaining one (or
    /// the last set, if there are fewer sets).
    pub fn remove_last_keyword(&mut self)
        requires
            old(self).selected_keywords@.len() >= 2 ==> old(self).available_keyword_sets@.len() > 0,
        ensures
            string_views(final(self).selected_keywords@) == after_remove(string_views(old(self).selected_keywords@)),
            final(self).available_keyword_sets@ == old(self).available_keyword_sets@,
            final(self).is_active == old(self).is_active,
            final(self).generated_area == old(self).generated_area,
            final(self).is_transitioning == old(self).is_transitioning,
            final(self).current_keyword_index == old(self).current_keyword_index,
            final(self).current_set_index == (if old(self).selected_keywords@.len() >= 2 {
                let last = old(self).selected_keywords@.len() - 2;
                let top = old(self).available_keyword_sets@.len() - 1;
                if last <= top { last } else { top }
            } else {
                old(self).current_set_index as int
            }),
    {
        self.selected_keywords.pop();
        assert(string_views(self.selected_keywords@) =~= after_remove(string_views(old(self).selected_keywords@)));
        if self.selected_keywords.len() > 0 {
            let last = self.selected_keywords.len() - 1;
            let top = self.available_keyword_sets.len() - 1;
            self.current_set_index = if last <= top { last } else { top };
        }
    }

    /// The keywords of the current set (none when that set does not exist).
    pub fn get_current_keywords(&self) -> (r: &[String])
        ensures
            r@ == (if self.current_set_index < self.available_keyword_sets@.len() {
                self.available_keyword_sets@[self.current_set_index as int]@
            } else {
                Seq::<String>::empty()
            }),
    {
        if self.current_set_index < self.available_keyword_sets.len() {
            self.available_keyword_sets[self.current_set_index].as_slice()
        } else {
            &[]
        }
    }

    /// How many keywords are chosen.
    pub fn keyword_count(&self) -> (r: usize)
        ensures
            r == self.selected_keywords@.len(),
    {
        self.selected_keywords.len()
    }

    /// Whether a complete address (three keywords) is chosen.
    pub fn is_ready(&self) -> (r: bool)
        ensures
            r == (self.selected_keywords@.len() == KEYWORDS_PER_ADDRESS),
    {
        self.selected_keywords.len() == KEYWORDS_PER_ADDRESS
    }
}

/// An address never grows past three keywords.
pub proof fn law_selection_stays_bounded(selected: Seq<Seq<char>>, keyword: Seq<char>)
    requires
        selected.len() <= KEYWORDS_PER_ADDRESS,
    ensures
        after_select(selected, keyword).len() <= KEYWORDS_PER_ADDRESS,
{
}

/// Taking back a keyword just picked restores the previous selection, as
/// long as the address was not already complete.
pub proof fn law_remove_undoes_select(selected: Seq<Seq<char>>, keyword: Seq<char>)
    requires
        selected.len() < KEYWORDS_PER_ADDRESS,
    ensures
        after_remove(after_select(selected, keyword)) == selected,
{
    assert(selected.push(keyword).drop_last() =~= selected);
}

} // verus!
