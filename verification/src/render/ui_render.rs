//! The UI element registry and the queries the renderer makes of it.
use vstd::prelude::*;

verus! {

/// A UI element: an id, a screen rectangle in pixels, a visibility flag and
/// what kind of widget it is.
#[derive(Debug, Clone)]
pub struct UIElement {
    pub id: String,
    pub x: i32,
    pub y: i32,
    pub width: i32,
    pub height: i32,
    pub visible: bool,
    pub element_type: UIElementType,
}

/// The kinds of widget.
#[derive(Debug, Clone)]
pub enum UIElementType {
    /// A plain rectangle.
    Panel,
    /// A clickable button with its caption.
    Button(String),
    /// A line of text.
    Text(String),
    /// A bar filled to `current` out of `max`.
    ProgressBar { current: u32, max: u32 },
}

/// The elements registered for the current frame, in insertion order.
#[derive(Debug, Clone)]
pub struct UIRenderer {
    pub elements: Vec<UIElement>,
}

/// The caption of a text element, if `e` is one.
pub open spec fn text_of(e: UIElement) -> Option<Seq<char>> {
    match e.element_type {
        UIElementType::Text(t) => Some(t@),
        _ => None,
    }
}

/// The fill (current, max) of a progress bar, if `e` is one.
pub open spec fn bar_of(e: UIElement) -> Option<(u32, u32)> {
    match e.element_type {
        UIElementType::ProgressBar { current, max } => Some((current, max)),
        _ => None,
    }
}

/// Whether `e` is a button.
pub open spec fn is_button(e: UIElement) -> bool {
    e.element_type is Button
}

/// The elements of `es` whose `pick` is `Some`, each with what it picked.
pub open spec fn picked<T>(es: Seq<UIElement>, pick: spec_fn(UIElement) -> Option<T>) -> Seq<(UIElement, T)> {
    es.filter_map(|e: UIElement| match pick(e) {
        Some(t) => Some((e, t)),
        None => None,
    })
}

impl UIRenderer {
    /// An empty registry.
    pub fn new() -> (r: Self)
        ensures
            r.elements@.len() == 0,
    {
        Self { elements: Vec::new() }
    }

    /// Register `element` after the existing ones.
    pub fn add_element(&mut self, element: UIElement)
        ensures
            final(self).elements@ == old(self).elements@.push(element),
    {
        self.elements.push(element);
    }

    /// Drop every element.
    pub fn clear(&mut self)
        ensures
            final(self).elements@.len() == 0,
    {
        self.elements.clear();
    }

    /// The visible elements, in insertion order.
    pub fn get_visible_elements(&self) -> (r: Vec<&UIElement>)
        ensures
            r@.map_values(|e: &UIElement| *e) == self.elements@.filter(|e: UIElement| e.visible),
    {
        let ghost pred = |e: UIElement| e.visible;
        let mut out: Vec<&UIElement> = Vec::new();
        let mut i: usize = 0;
        while i < self.elements.len()
            invariant
                i <= self.elements@.len(),
                pred == (|e: UIElement| e.visible),
                out@.map_values(|e: &UIElement| *e) == self.elements@.take(i as int).filter(pred),
            decreases self.elements@.len() - i,
        {
            proof {
                reveal_with_fuel(Seq::filter, 1);
                assert(self.elements@.take(i as int + 1).drop_last() == self.elements@.take(i as int));
            }
            let ghost before = out@;
            if self.elements[i].visible {
                out.push(&self.elements[i]);
                assert(out@.map_values(|e: &UIElement| *e) =~= before.map_values(|e: &UIElement| *e).push(self.elements@[i as int]));
            }
            i += 1;
        }
        assert(self.elements@.take(self.elements@.len() as int) == self.elements@);
        out
    }

    /// The progress bars with their fill (current, max), in insertion order.
    pub fn get_progress_bars(&self) -> (r: Vec<(&UIElement, u32, u32)>)
        ensures
            r@.map_values(|t: (&UIElement, u32, u32)| (*t.0, (t.1, t.2))) == picked(self.elements@, |e: UIElement| bar_of(e)),
    {
        let ghost pick = |e: UIElement| bar_of(e);
        let mut out: Vec<(&UIElement, u32, u32)> = Vec::new();
        let mut i: usize = 0;
        while i < self.elements.len()
            invariant
                i <= self.elements@.len(),
                pick == (|e: UIElement| bar_of(e)),
                out@.map_values(|t: (&UIElement, u32, u32)| (*t.0, (t.1, t.2))) == picked(self.elements@.take(i as int), pick),
            decreases self.elements@.len() - i,
        {
            proof {
                reveal_with_fuel(Seq::filter_map, 1);
                assert(self.elements@.take(i as int + 1).drop_last() == self.elements@.take(i as int));
            }
            let ghost before = out@;
            let e = &self.elements[i];
            if let UIElementType::ProgressBar { current, max } = &e.element_type {
                out.push((e, *current, *max));
                assert(out@.map_values(|t: (&UIElement, u32, u32)| (*t.0, (t.1, t.2)))
                    =~= before.map_values(|t: (&UIElement, u32, u32)| (*t.0, (t.1, t.2))) + seq![(*e, (*current, *max))]);
            }
            i += 1;
        }
        assert(self.elements@.take(self.elements@.len() as int) == self.elements@);
        out
    }

    /// The buttons, in insertion order.
    pub fn get_buttons(&self) -> (r: Vec<&UIElement>)
        ensures
            r@.map_values(|e: &UIElement| *e) == self.elements@.filter(|e: UIElement| is_button(e)),
    {
        let ghost pred = |e: UIElement| is_button(e);
        let mut out: Vec<&UIElement> = Vec::new();
        let mut i: usize = 0;
        while i < self.elements.len()
            invariant
                i <= self.elements@.len(),
                pred == (|e: UIElement| is_button(e)),
                out@.map_values(|e: &UIElement| *e) == self.elements@.take(i as int).filter(pred),
            decreases self.elements@.len() - i,
        {
            proof {
                reveal_with_fuel(Seq::filter, 1);
                assert(self.elements@.take(i as int + 1).drop_last() == self.elements@.take(i as int));
            }
            let ghost before = out@;
            if let UIElementType::Button(_) = &self.elements[i].element_type {
                out.push(&self.elements[i]);
                assert(out@.map_values(|e: &UIElement| *e) =~= before.map_values(|e: &UIElement| *e).push(self.elements@[i as int]));
            }
            i += 1;
        }
        assert(self.elements@.take(self.elements@.len() as int) == self.elements@);
        out
    }

    /// The text elements with their captions, in insertion order.
    pub fn get_text_elements(&self) -> (r: Vec<(&UIElement, &str)>)
        ensures
            r@.map_values(|t: (&UIElement, &str)| (*t.0, t.1@)) == picked(self.elements@, |e: UIElement| text_of(e)),
    {
        let ghost pick = |e: UIElement| text_of(e);
        let mut out: Vec<(&UIElement, &str)> = Vec::new();
        let mut i: usize = 0;
        while i < self.elements.len()
            invariant
                i <= self.elements@.len(),
                pick == (|e: UIElement| text_of(e)),
                out@.map_values(|t: (&UIElement, &str)| (*t.0, t.1@)) == picked(self.elements@.take(i as int), pick),
            decreases self.elements@.len() - i,
        {
            proof {
                reveal_with_fuel(Seq::filter_map, 1);
                assert(self.elements@.take(i as int + 1).drop_last() == self.elements@.take(i as int));
            }
            let ghost before = out@;
            let e = &self.elements[i];
            if let UIElementType::Text(text) = &e.element_type {
                let s = text.as_str();
                out.push((e, s));
                assert(out@.map_values(|t: (&UIElement, &str)| (*t.0, t.1@))
                    =~= before.map_values(|t: (&UIElement, &str)| (*t.0, t.1@)) + seq![(*e, text@)]);
            }
            i += 1;
        }
        assert(self.elements@.take(self.elements@.len() as int) == self.elements@);
        out
    }
}

} // verus!
