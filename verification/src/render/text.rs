//! Bitmap-font settings.
use vstd::prelude::*;

verus! {

/// A bitmap font: the atlas holding its glyphs, the size of one glyph in
/// pixels (width, height), and how many glyphs one atlas row holds.
#[derive(Debug)]
pub struct TextRenderer {
    pub font_atlas_id: String,
    pub glyph_size: (u32, u32),
    pub characters_per_row: u32,
}

impl Clone for TextRenderer {
    fn clone(&self) -> (r: Self)
        ensures
            r == *self,
    {
        Self {
            font_atlas_id: self.font_atlas_id.clone(),
            glyph_size: self.glyph_size,
            characters_per_row: self.characters_per_row,
        }
    }
}

impl TextRenderer {
    /// A font read from atlas `font_atlas_id`.
    pub fn new(font_atlas_id: &str, glyph_size: (u32, u32), characters_per_row: u32) -> (r: Self)
        ensures
            r.font_atlas_id@ == font_atlas_id@,
            r.glyph_size == glyph_size,
            r.characters_per_row == characters_per_row,
    {
        Self { font_atlas_id: font_atlas_id.to_string(), glyph_size, characters_per_row }
    }

    /// The cell of the glyph for byte `char_code` in the font atlas, as
    /// (column, row): glyphs are laid out in code order,
    /// `characters_per_row` to a row.
    pub fn glyph_cell(&self, char_code: u8) -> (r: (u32, u32))
        requires
            self.characters_per_row > 0,
        ensures
            r == ((char_code as u32 % self.characters_per_row) as u32, (char_code as u32 / self.characters_per_row) as u32),
    {
        let code = char_code as u32;
        (code % self.characters_per_row, code / self.characters_per_row)
    }
}

/// The position of the last space byte among positions `lo` to `hi - 1`
/// of `t`, if any.
pub open spec fn rfind_space(t: Seq<u8>, lo: int, hi: int) -> Option<int>
    decreases hi - lo,
{
    if hi <= lo {
        None
    } else if t[hi - 1] == 32u8 {
        Some(hi - 1)
    } else {
        rfind_space(t, lo, hi - 1)
    }
}

/// A space found between `lo` and `hi` lies in that range.
pub proof fn lemma_rfind_space_in_range(t: Seq<u8>, lo: int, hi: int)
    ensures
        rfind_space(t, lo, hi) matches Some(q) ==> lo <= q < hi && t[q] == 32u8,
    decreases hi - lo,
{
    if hi > lo && t[hi - 1] != 32u8 {
        lemma_rfind_space_in_range(t, lo, hi - 1);
    }
}

/// The lines of `t` from byte `start` on, at most `max` bytes each, as
/// (first byte, end byte) pairs: a line that does not reach the end of the
/// text is cut at its last space, which is dropped; a line with no space is
/// cut at `max` bytes.
pub open spec fn wrapped_from(t: Seq<u8>, start: int, max: int) -> Seq<(int, int)>
    decreases t.len() - start,
{
    if start >= t.len() || start < 0 || max <= 0 {
        Seq::empty()
    } else {
        let end = if start + max < t.len() { start + max } else { t.len() as int };
        let cut = if end < t.len() { rfind_space(t, start, end) } else { None };
        proof {
            lemma_rfind_space_in_range(t, start, end);
        }
        match cut {
            Some(q) => seq![(start, q)] + wrapped_from(t, q + 1, max),
            None => seq![(start, end)] + wrapped_from(t, end, max),
        }
    }
}

/// The byte ranges of the lines of `t`, `max` bytes at most each.
pub open spec fn wrapped(t: Seq<u8>, max: int) -> Seq<(int, int)> {
    wrapped_from(t, 0, max)
}

fn last_space(text: &[u8], lo: usize, hi: usize) -> (r: Option<usize>)
    requires
        lo <= hi <= text@.len(),
    ensures
        match rfind_space(text@, lo as int, hi as int) {
            Some(q) => r == Some(q as usize),
            None => r is None,
        },
{
    let mut k: usize = hi;
    while k > lo
        invariant
            lo <= k <= hi <= text@.len(),
            rfind_space(text@, lo as int, k as int) == rfind_space(text@, lo as int, hi as int),
        decreases k,
    {
        if text[k - 1] == 32u8 {
            return Some(k - 1);
        }
        k = k - 1;
    }
    None
}

/// Split `text` into lines of at most `max_chars` bytes (see [`wrapped`]),
/// given as (first byte, end byte) ranges.
pub fn wrap_ranges(text: &[u8], max_chars: usize) -> (r: Vec<(usize, usize)>)
    requires
        max_chars > 0,
    ensures
        r@.map_values(|p: (usize, usize)| (p.0 as int, p.1 as int)) == wrapped(text@, max_chars as int),
{
    let ghost full = wrapped(text@, max_chars as int);
    let mut lines: Vec<(usize, usize)> = Vec::new();
    let mut start: usize = 0;
    while start < text.len()
        invariant
            max_chars > 0,
            start <= text@.len(),
            lines@.map_values(|p: (usize, usize)| (p.0 as int, p.1 as int)) + wrapped_from(text@, start as int, max_chars as int)
                == full,
            full == wrapped(text@, max_chars as int),
        decreases text@.len() - start,
    {
        let ghost before = lines@.map_values(|p: (usize, usize)| (p.0 as int, p.1 as int));
        let end: usize = if max_chars < text.len() - start { start + max_chars } else { text.len() };
        let cut = if end < text.len() { last_space(text, start, end) } else { None };
        proof {
            lemma_rfind_space_in_range(text@, start as int, end as int);
        }
        match cut {
            Some(q) => {
                lines.push((start, q));
                assert(lines@.map_values(|p: (usize, usize)| (p.0 as int, p.1 as int)) =~= before.push((start as int, q as int)));
                assert(before + wrapped_from(text@, start as int, max_chars as int) =~= before.push((start as int, q as int))
                    + wrapped_from(text@, q + 1, max_chars as int));
                start = q + 1;
            },
            None => {
                lines.push((start, end));
                assert(lines@.map_values(|p: (usize, usize)| (p.0 as int, p.1 as int)) =~= before.push((start as int, end as int)));
                assert(before + wrapped_from(text@, start as int, max_chars as int) =~= before.push((start as int, end as int))
                    + wrapped_from(text@, end as int, max_chars as int));
                start = end;
            },
        }
    }
    assert(wrapped_from(text@, start as int, max_chars as int) =~= Seq::<(int, int)>::empty());
    assert(lines@.map_values(|p: (usize, usize)| (p.0 as int, p.1 as int)) =~= full);
    lines
}

/// Every wrapped line lies inside the text, after the starting byte, and is
/// at most `max` bytes long.
pub proof fn law_wrapped_lines_fit(t: Seq<u8>, start: int, max: int)
    ensures
        forall|k: int| 0 <= k < wrapped_from(t, start, max).len() ==> {
            let (a, b) = #[trigger] wrapped_from(t, start, max)[k];
            start <= a <= b <= t.len() && b - a <= max
        },
    decreases t.len() - start,
{
    if !(start >= t.len() || start < 0 || max <= 0) {
        let end = if start + max < t.len() { start + max } else { t.len() as int };
        let cut = if end < t.len() { rfind_space(t, start, end) } else { None };
        lemma_rfind_space_in_range(t, start, end);
        let next = match cut {
            Some(q) => q + 1,
            None => end,
        };
        law_wrapped_lines_fit(t, next, max);
        let rest = wrapped_from(t, next, max);
        let all = wrapped_from(t, start, max);
        assert forall|k: int| 0 <= k < all.len() implies {
            let (a, b) = #[trigger] all[k];
            start <= a <= b <= t.len() && b - a <= max
        } by {
            if k > 0 {
                assert(all[k] == rest[k - 1]);
            }
        }
    }
}

} // verus!
