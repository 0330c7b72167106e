//! Element identity and the interaction state store.
//!
//! Every widget invocation derives a stable [`ElementId`] from its label
//! and the identifier stack, so calls across frames that mean "the same"
//! widget resolve to the same identifier even though no widget objects
//! persist. The [`UiState`] store keyed by those identifiers holds hover,
//! capture (active), keyboard focus, inline text-edit and scroll state
//! between frames, together with the per-frame input snapshot and the
//! layout cursor stack.

use vstd::prelude::*;
use vstd::string::{StrSliceExecFns, StringExecFns, StringSliceAdditionalSpecFns};
use vstd::std_specs::iter::IteratorSpec;
use std::collections::HashMap;
use crate::event::Key;
use crate::input::{KeyState, MouseState};
use crate::gui::Rect;

verus! {

broadcast use vstd::string::axiom_spec_iter, vstd::string::next_postcondition;

/// A stable widget identifier: a 64-bit hash of the label and the
/// identifier stack.
pub type ElementId = u64;

/// The multiplier of the 64-bit Fowler–Noll–Vo hash.
pub open spec fn spec_fnv_prime() -> u64 {
    0x100_0000_01b3
}

/// The offset basis of the 64-bit Fowler–Noll–Vo hash.
pub open spec fn spec_fnv_basis() -> u64 {
    0xcbf2_9ce4_8422_2325
}

/// One hash step: fold `b` into the accumulator and multiply, wrapping.
pub open spec fn spec_fnv_step(acc: u64, b: u64) -> u64 {
    ((acc ^ b) as u128 * spec_fnv_prime() as u128) as u64
}

/// The hash of `bytes` folded onto `acc`, front to back.
pub open spec fn spec_fnv_bytes(bytes: Seq<u8>, acc: u64) -> u64
    decreases bytes.len(),
{
    if bytes.len() == 0 {
        acc
    } else {
        spec_fnv_bytes(bytes.drop_first(), spec_fnv_step(acc, bytes[0] as u64))
    }
}

/// The hash of the parent identifiers folded onto `acc`, outermost first.
pub open spec fn spec_fnv_ids(ids: Seq<u64>, acc: u64) -> u64
    decreases ids.len(),
{
    if ids.len() == 0 {
        acc
    } else {
        spec_fnv_ids(ids.drop_first(), spec_fnv_step(acc, ids[0]))
    }
}

/// The identifier of a widget call: the label bytes hashed from the basis,
/// then every pushed parent identifier folded in, outermost first. A pure
/// function of the label and the identifier-stack context alone.
pub open spec fn spec_element_id(label: Seq<u8>, stack: Seq<u64>) -> u64 {
    spec_fnv_ids(stack, spec_fnv_bytes(label, spec_fnv_basis()))
}

/// Identity stability: two widget calls whose labels and identifier-stack
/// contexts are equal resolve to the same element identifier, in any frame
/// and in any process.
pub proof fn lemma_element_id_stable(l1: Seq<u8>, c1: Seq<u64>, l2: Seq<u8>, c2: Seq<u64>)
    requires
        l1 == l2,
        c1 == c2,
    ensures
        spec_element_id(l1, c1) == spec_element_id(l2, c2),
{
}

/// One executable hash step.
fn fnv_step(acc: u64, b: u64) -> (r: u64)
    ensures
        r == spec_fnv_step(acc, b),
{
    let x: u64 = acc ^ b;
    proof {
        assert(x * 0x100_0000_01b3 < 0x1_0000_0000_0000_0000_0000_0000_0000_0000)
            by (nonlinear_arith)
            requires
                x < 0x1_0000_0000_0000_0000,
        ;
    }
    let wide: u128 = x as u128 * 0x100_0000_01b3u128;
    let r: u64 = #[verifier::truncate] (wide as u64);
    r
}

/// Hashes the bytes of `label` under the identifier `stack`, outermost
/// parent first.
pub fn element_id_of(label: &str, stack: &Vec<u64>) -> (r: ElementId)
    ensures
        r == spec_element_id(label.spec_bytes(), stack@),
{
    let bytes = label.as_bytes();
    let mut acc: u64 = 0xcbf2_9ce4_8422_2325;
    proof {
        assert(bytes@.skip(0) =~= bytes@);
    }
    let mut i: usize = 0;
    while i < bytes.len()
        invariant
            i <= bytes@.len(),
            bytes@ == label.spec_bytes(),
            spec_fnv_bytes(label.spec_bytes(), spec_fnv_basis()) == spec_fnv_bytes(
                bytes@.skip(i as int),
                acc,
            ),
        decreases bytes@.len() - i,
    {
        let ghost pre = bytes@.skip(i as int);
        acc = fnv_step(acc, bytes[i] as u64);
        proof {
            assert(pre.drop_first() =~= bytes@.skip(i + 1));
        }
        i = i + 1;
    }
    proof {
        assert(bytes@.skip(i as int) =~= Seq::<u8>::empty());
    }
    proof {
        assert(stack@.skip(0) =~= stack@);
    }
    let mut j: usize = 0;
    while j < stack.len()
        invariant
            j <= stack@.len(),
            spec_element_id(label.spec_bytes(), stack@) == spec_fnv_ids(
                stack@.skip(j as int),
                acc,
            ),
        decreases stack@.len() - j,
    {
        let ghost pre = stack@.skip(j as int);
        acc = fnv_step(acc, stack[j]);
        proof {
            assert(pre.drop_first() =~= stack@.skip(j + 1));
        }
        j = j + 1;
    }
    proof {
        assert(stack@.skip(j as int) =~= Seq::<u64>::empty());
    }
    acc
}

/// An `i32` taken as a hash word: its two's-complement bits, zero-extended.
pub open spec fn spec_word_of_i32(v: i32) -> u64 {
    (v as u32) as u64
}

/// The identifier of an anonymous widget keyed by its rectangle: the four
/// rectangle components hashed from the basis, then every pushed parent
/// identifier folded in.
pub open spec fn spec_rect_id(rect: crate::gui::Rect, stack: Seq<u64>) -> u64 {
    spec_fnv_ids(
        stack,
        spec_fnv_step(
            spec_fnv_step(
                spec_fnv_step(
                    spec_fnv_step(spec_fnv_basis(), spec_word_of_i32(rect.x)),
                    spec_word_of_i32(rect.y),
                ),
                spec_word_of_i32(rect.width),
            ),
            spec_word_of_i32(rect.height),
        ),
    )
}

/// An `i32` as a hash word.
fn word_of_i32(v: i32) -> (r: u64)
    ensures
        r == spec_word_of_i32(v),
{
    let w: u32 = #[verifier::truncate] (v as u32);
    w as u64
}

/// The index of the first `#` in `text`, or its length when none occurs.
pub open spec fn spec_hash_mark(text: Seq<char>) -> int
    decreases text.len(),
{
    if text.len() == 0 {
        0
    } else if text[0] == '#' {
        0
    } else {
        1 + spec_hash_mark(text.drop_first())
    }
}

/// The first `#` of a label lies between its start and its end.
pub proof fn lemma_hash_mark_bounds(text: Seq<char>)
    ensures
        0 <= spec_hash_mark(text) <= text.len(),
    decreases text.len(),
{
    if text.len() > 0 && text[0] != '#' {
        lemma_hash_mark_bounds(text.drop_first());
    }
}

/// The visible part of a widget label: everything before the first `#`,
/// which starts the hidden disambiguation suffix.
pub fn label_text<'a>(label: &'a str) -> (r: &'a str)
    ensures
        r@ == label@.take(spec_hash_mark(label@)),
{
    let n = label.unicode_len();
    proof {
        lemma_hash_mark_bounds(label@);
    }
    let mut i: usize = 0;
    while i < n && !(label.get_char(i) == '#')
        invariant
            i <= n,
            n == label@.len(),
            forall|j: int| 0 <= j < i ==> label@[j] != '#',
            spec_hash_mark(label@) >= i,
        decreases n - i,
    {
        proof {
            lemma_hash_mark_advance(label@, i as int);
        }
        i = i + 1;
    }
    proof {
        lemma_hash_mark_at(label@, i as int);
    }
    if i == n {
        proof {
            assert(label@.take(i as int) =~= label@);
        }
        label
    } else {
        let head = label.substring_char(0, i);
        proof {
            assert(head@ =~= label@.take(i as int));
        }
        head
    }
}

/// While no `#` has occurred through position `i`, the first `#` lies
/// beyond `i`.
proof fn lemma_hash_mark_advance(text: Seq<char>, i: int)
    requires
        0 <= i < text.len(),
        text[i] != '#',
        spec_hash_mark(text) >= i,
        forall|j: int| 0 <= j < i ==> text[j] != '#',
    ensures
        spec_hash_mark(text) >= i + 1,
    decreases i,
{
    lemma_hash_mark_bounds(text.drop_first());
    if i > 0 {
        lemma_hash_mark_advance(text.drop_first(), i - 1);
    }
}

/// At the loop's end the first `#` is exactly at `i`: either the
/// character there is `#`, or the label ended.
proof fn lemma_hash_mark_at(text: Seq<char>, i: int)
    requires
        0 <= i <= text.len(),
        i < text.len() ==> text[i] == '#',
        forall|j: int| 0 <= j < i ==> text[j] != '#',
    ensures
        spec_hash_mark(text) == i,
    decreases i,
{
    if i > 0 {
        lemma_hash_mark_at(text.drop_first(), i - 1);
    }
}

/// What a widget's hit-test does to the hovered element: when the pointer
/// lies inside the widget's rectangle and no other element holds the
/// capture, `id` becomes hovered; otherwise `id` loses any hover it had.
pub open spec fn spec_step_hover(
    hovered: Option<u64>,
    active: Option<u64>,
    inside: bool,
    id: u64,
) -> Option<u64> {
    if inside && (active is None || active == Some(id)) {
        Some(id)
    } else if hovered == Some(id) {
        None
    } else {
        hovered
    }
}

/// What a widget's focus step does: an element holding the capture takes
/// keyboard focus from whoever had it; focus is otherwise untouched.
pub open spec fn spec_step_focus(focused: Option<u64>, active: Option<u64>, id: u64) -> Option<
    u64,
> {
    if active == Some(id) {
        Some(id)
    } else {
        focused
    }
}

/// What one frame's event handling does to the capture owner, from the
/// standpoint of the element `id`: a primary-button press while `id` is
/// hovered claims the capture if it is free, and a released primary button
/// lets `id` drop a capture it holds — wherever the pointer has moved in
/// between.
pub open spec fn spec_step_active(
    active: Option<u64>,
    hovered: Option<u64>,
    left_down: bool,
    id: u64,
) -> Option<u64> {
    if left_down && hovered == Some(id) && active is None {
        Some(id)
    } else if !left_down && active == Some(id) {
        None
    } else {
        active
    }
}

/// The capture owner after a run of frames, each described by who was
/// hovered and whether the primary button was down.
pub open spec fn spec_active_after(
    active: Option<u64>,
    id: u64,
    hovers: Seq<Option<u64>>,
    downs: Seq<bool>,
) -> Option<u64>
    decreases hovers.len(),
{
    if hovers.len() == 0 || downs.len() == 0 {
        active
    } else {
        spec_active_after(
            spec_step_active(active, hovers[0], downs[0], id),
            id,
            hovers.drop_first(),
            downs.drop_first(),
        )
    }
}

/// Capture persistence under drag: once `id` holds the capture, it keeps
/// it across any run of frames in which the primary button stays down —
/// whatever the pointer hovers over in between. The frame after the button
/// goes up, the capture is released.
pub proof fn lemma_capture_persistence(id: u64, hovers: Seq<Option<u64>>, downs: Seq<bool>)
    requires
        hovers.len() == downs.len(),
        forall|i: int| 0 <= i < downs.len() ==> downs[i],
    ensures
        spec_active_after(Some(id), id, hovers, downs) == Some(id),
        spec_step_active(Some(id), hovers.last(), false, id) is None,
    decreases hovers.len(),
{
    if hovers.len() > 0 {
        assert(downs[0]);
        lemma_capture_persistence(id, hovers.drop_first(), downs.drop_first());
    }
}

/// The interaction state store plus the per-frame input snapshot and the
/// layout bookkeeping the widgets share.
#[derive(Debug)]
pub struct UiState {
    /// The mouse snapshot of this frame.
    pub mouse: MouseState,
    /// The mouse position of the previous frame.
    pub pmouse_x: i32,
    /// The mouse position of the previous frame.
    pub pmouse_y: i32,
    /// The keyboard snapshot of this frame.
    pub keys: KeyState,
    /// The element under the pointer, if any; at most one per frame.
    pub hovered: Option<u64>,
    /// The element holding the mouse capture, if any; exclusive.
    pub active: Option<u64>,
    /// The element holding keyboard focus, if any; exclusive.
    pub focused: Option<u64>,
    /// The element in inline text-edit mode, if any; exclusive.
    pub editing: Option<u64>,
    /// The edit buffer of the editing element.
    pub edit_text: String,
    /// Whether the edit has been committed and awaits parsing.
    pub edit_done: bool,
    /// Persisted scroll offsets keyed by element identifier.
    pub scroll_map: HashMap<u64, (i32, i32)>,
    /// The identifier stack that contextualizes child widgets.
    pub id_stack: Vec<u64>,
    /// The layout cursor.
    pub cursor_x: i32,
    /// The layout cursor.
    pub cursor_y: i32,
    /// Saved layout cursors, innermost last.
    pub cursor_stack: Vec<(i32, i32)>,
    /// Whether widgets are currently disabled.
    pub disabled: bool,
    /// A width override for the next widget, if any.
    pub next_width: Option<u32>,
}

impl UiState {
    /// The store's structural invariant: the key set is well-formed and
    /// the layout cursor stays in the range the rasterizer accepts.
    pub open spec fn wf(&self) -> bool {
        &&& self.keys.wf()
        &&& -0x10000 <= self.cursor_x <= 0x10000
        &&& -0x10000 <= self.cursor_y <= 0x10000
        &&& -0x10000 <= self.mouse.xpos <= 0x10000
        &&& -0x10000 <= self.mouse.ypos <= 0x10000
        &&& -0x10000 <= self.pmouse_x <= 0x10000
        &&& -0x10000 <= self.pmouse_y <= 0x10000
        &&& forall|i: int|
            0 <= i < self.cursor_stack@.len() ==> {
                &&& -0x10000 <= (#[trigger] self.cursor_stack@[i]).0 <= 0x10000
                &&& -0x10000 <= self.cursor_stack@[i].1 <= 0x10000
            }
    }

    /// Whether `id` is active (holds the capture), as a specification.
    pub open spec fn spec_is_active(&self, id: u64) -> bool {
        self.active == Some(id)
    }

    /// Whether `id` is hovered, as a specification.
    pub open spec fn spec_is_hovered(&self, id: u64) -> bool {
        self.hovered == Some(id)
    }

    /// Whether `id` holds keyboard focus, as a specification.
    pub open spec fn spec_is_focused(&self, id: u64) -> bool {
        self.focused == Some(id)
    }

    /// The persisted scroll offset of `id`, defaulting to the origin.
    pub open spec fn spec_scroll(&self, id: u64) -> (i32, i32) {
        if self.scroll_map@.contains_key(id) {
            self.scroll_map@[id]
        } else {
            (0, 0)
        }
    }

    /// Exclusivity: in every frame at most one element is active and at
    /// most one element is focused — whatever identifiers are asked about.
    pub proof fn lemma_exclusive(&self, a: u64, b: u64)
        ensures
            self.spec_is_active(a) && self.spec_is_active(b) ==> a == b,
            self.spec_is_focused(a) && self.spec_is_focused(b) ==> a == b,
    {
    }

    /// A fresh store: nothing hovered, captured, focused or edited, no
    /// scroll state, an empty identifier stack and the cursor at the
    /// origin.
    pub fn new() -> (s: UiState)
        ensures
            s.wf(),
            s.hovered is None,
            s.active is None,
            s.focused is None,
            s.editing is None,
            !s.edit_done,
            s.scroll_map@ == Map::<u64, (i32, i32)>::empty(),
            s.id_stack@.len() == 0,
            s.cursor_stack@.len() == 0,
            s.cursor_x == 0 && s.cursor_y == 0,
            !s.disabled,
            s.next_width is None,
            s.mouse == MouseState::spec_default(),
            s.keys.entered is None,
            s.keys.pressed@.len() == 0,
            s.pmouse_x == 0 && s.pmouse_y == 0,
    {
        UiState {
            mouse: MouseState::new(),
            pmouse_x: 0,
            pmouse_y: 0,
            keys: KeyState::new(),
            hovered: None,
            active: None,
            focused: None,
            editing: None,
            edit_text: String::new(),
            edit_done: false,
            scroll_map: HashMap::new(),
            id_stack: Vec::new(),
            cursor_x: 0,
            cursor_y: 0,
            cursor_stack: Vec::new(),
            disabled: false,
            next_width: None,
        }
    }

    /// The identifier an anonymous widget keyed by `rect` resolves to
    /// under the identifier `stack`.
    pub fn rect_id(rect: crate::gui::Rect, stack: &Vec<u64>) -> (r: ElementId)
        ensures
            r == spec_rect_id(rect, stack@),
    {
        let mut acc: u64 = 0xcbf2_9ce4_8422_2325;
        acc = fnv_step(acc, word_of_i32(rect.x));
        acc = fnv_step(acc, word_of_i32(rect.y));
        acc = fnv_step(acc, word_of_i32(rect.width));
        acc = fnv_step(acc, word_of_i32(rect.height));
        proof {
            assert(stack@.skip(0) =~= stack@);
        }
        let mut j: usize = 0;
        while j < stack.len()
            invariant
                j <= stack@.len(),
                spec_rect_id(rect, stack@) == spec_fnv_ids(stack@.skip(j as int), acc),
            decreases stack@.len() - j,
        {
            let ghost pre = stack@.skip(j as int);
            acc = fnv_step(acc, stack[j]);
            proof {
                assert(pre.drop_first() =~= stack@.skip(j + 1));
            }
            j = j + 1;
        }
        proof {
            assert(stack@.skip(j as int) =~= Seq::<u64>::empty());
        }
        acc
    }

    /// The identifier a widget with this `label` resolves to in the
    /// current identifier-stack context.
    pub fn get_id(&self, label: &str) -> (r: ElementId)
        ensures
            r == spec_element_id(label.spec_bytes(), self.id_stack@),
    {
        element_id_of(label, &self.id_stack)
    }

    /// Pushes `id` onto the identifier stack, contextualizing child
    /// widgets until the matching pop.
    pub fn push_id(&mut self, id: u64)
        requires
            old(self).wf(),
        ensures
            final(self).wf(),
            *final(self) == (UiState { id_stack: final(self).id_stack, ..*old(self) }),
            final(self).id_stack@ == old(self).id_stack@.push(id),
    {
        self.id_stack.push(id);
    }

    /// Pops the innermost pushed identifier. Pushes and pops must pair up;
    /// popping an empty stack is a programming error.
    pub fn pop_id(&mut self)
        requires
            old(self).wf(),
            old(self).id_stack@.len() > 0,
        ensures
            final(self).wf(),
            *final(self) == (UiState { id_stack: final(self).id_stack, ..*old(self) }),
            final(self).id_stack@ == old(self).id_stack@.drop_last(),
    {
        self.id_stack.pop();
    }

    /// Whether `id` is hovered this frame.
    pub fn is_hovered(&self, id: ElementId) -> (r: bool)
        ensures
            r == self.spec_is_hovered(id),
    {
        match self.hovered {
            Some(h) => h == id,
            None => false,
        }
    }

    /// Whether `id` holds the mouse capture.
    pub fn is_active(&self, id: ElementId) -> (r: bool)
        ensures
            r == self.spec_is_active(id),
    {
        match self.active {
            Some(a) => a == id,
            None => false,
        }
    }

    /// Whether `id` holds keyboard focus.
    pub fn is_focused(&self, id: ElementId) -> (r: bool)
        ensures
            r == self.spec_is_focused(id),
    {
        match self.focused {
            Some(f) => f == id,
            None => false,
        }
    }

    /// Hit-tests `id` against `rect`: when the pointer lies inside the
    /// rectangle and no other element holds the capture, `id` becomes the
    /// hovered element and the call reports true; otherwise `id` loses any
    /// hover it had.
    pub fn try_hover(&mut self, id: ElementId, rect: Rect) -> (r: bool)
        requires
            old(self).wf(),
            rect.wf(),
        ensures
            final(self).wf(),
            *final(self) == (UiState { hovered: final(self).hovered, ..*old(self) }),
            final(self).hovered == spec_step_hover(
                old(self).hovered,
                old(self).active,
                rect.spec_contains(old(self).mouse.xpos as int, old(self).mouse.ypos as int),
                id,
            ),
            r == (rect.spec_contains(old(self).mouse.xpos as int, old(self).mouse.ypos as int)
                && (old(self).active is None || old(self).active == Some(id))),
    {
        let inside = rect.contains_point(self.mouse.xpos, self.mouse.ypos);
        let capture_free = match self.active {
            None => true,
            Some(a) => a == id,
        };
        if inside && capture_free {
            self.hovered = Some(id);
            true
        } else {
            if self.is_hovered(id) {
                self.hovered = None;
            }
            false
        }
    }

    /// Grants keyboard focus to `id` once it has claimed the capture, and
    /// reports whether `id` is focused. Focus granted here revokes any
    /// other element's focus and survives the capture's release.
    pub fn try_focus(&mut self, id: ElementId) -> (r: bool)
        requires
            old(self).wf(),
        ensures
            final(self).wf(),
            *final(self) == (UiState { focused: final(self).focused, ..*old(self) }),
            final(self).focused == spec_step_focus(old(self).focused, old(self).active, id),
            r == (final(self).focused == Some(id)),
    {
        let has_capture = match self.active {
            Some(a) => a == id,
            None => false,
        };
        if has_capture {
            self.focused = Some(id);
        }
        self.is_focused(id)
    }

    /// Grants keyboard focus to `id` outright, as explicit navigation
    /// does, revoking it from whichever element held it.
    pub fn focus(&mut self, id: ElementId)
        requires
            old(self).wf(),
        ensures
            final(self).wf(),
            *final(self) == (UiState { focused: Some(id), ..*old(self) }),
    {
        self.focused = Some(id);
    }

    /// Removes keyboard focus from every element.
    pub fn blur(&mut self)
        requires
            old(self).wf(),
        ensures
            final(self).wf(),
            *final(self) == (UiState { focused: None, ..*old(self) }),
    {
        self.focused = None;
    }

    /// Settles the capture for `id` at the end of its widget call: a held
    /// primary button while `id` is hovered claims the free capture, and a
    /// released primary button lets `id` drop the capture it holds — even
    /// if the pointer has long left the widget.
    pub fn handle_events(&mut self, id: ElementId)
        requires
            old(self).wf(),
        ensures
            final(self).wf(),
            *final(self) == (UiState { active: final(self).active, ..*old(self) }),
            final(self).active == spec_step_active(
                old(self).active,
                old(self).hovered,
                old(self).mouse.left_down,
                id,
            ),
    {
        let hovered_here = self.is_hovered(id);
        if self.mouse.left_down {
            if hovered_here && matches!(self.active, None) {
                self.active = Some(id);
            }
        } else {
            if self.is_active(id) {
                self.active = None;
            }
        }
    }

    /// The persisted scroll offset of `id`; an element never scrolled
    /// reads the origin.
    pub fn scroll(&self, id: ElementId) -> (r: (i32, i32))
        ensures
            r == self.spec_scroll(id),
    {
        match self.scroll_map.get(&id) {
            Some(v) => *v,
            None => (0, 0),
        }
    }

    /// Persists the scroll offset of `id`.
    pub fn set_scroll(&mut self, id: ElementId, x: i32, y: i32)
        requires
            old(self).wf(),
        ensures
            final(self).wf(),
            *final(self) == (UiState { scroll_map: final(self).scroll_map, ..*old(self) }),
            final(self).scroll_map@ == old(self).scroll_map@.insert(id, (x, y)),
            final(self).spec_scroll(id) == (x, y),
            forall|o: u64| o != id ==> final(self).spec_scroll(o) == old(self).spec_scroll(o),
    {
        self.scroll_map.insert(id, (x, y));
    }

    /// The key entered this frame, if any.
    pub fn key_entered(&self) -> (r: Option<Key>)
        ensures
            r == self.keys.entered,
    {
        self.keys.entered
    }

    /// Whether `id` is in inline text-edit mode.
    pub fn is_editing(&self, id: ElementId) -> (r: bool)
        ensures
            r == (self.editing == Some(id) && !self.edit_done),
    {
        match self.editing {
            Some(e) => e == id && !self.edit_done,
            None => false,
        }
    }

    /// Puts `id` into inline text-edit mode with `initial_text` in its
    /// buffer, unless some element is already editing.
    pub fn begin_edit(&mut self, id: ElementId, initial_text: &str)
        requires
            old(self).wf(),
        ensures
            final(self).wf(),
            old(self).editing is None ==> *final(self) == (UiState {
                editing: Some(id),
                edit_text: final(self).edit_text,
                edit_done: false,
                ..*old(self)
            }) && final(self).edit_text@ == initial_text@,
            old(self).editing is Some ==> *final(self) == *old(self),
    {
        if matches!(self.editing, None) {
            self.editing = Some(id);
            self.edit_text = String::from_str(initial_text);
            self.edit_done = false;
        }
    }

    /// The current edit buffer of `id`, or empty when `id` is not editing.
    pub fn text_edit(&self, id: ElementId) -> (r: String)
        ensures
            self.editing == Some(id) && !self.edit_done ==> r@ == self.edit_text@,
            !(self.editing == Some(id) && !self.edit_done) ==> r@ == Seq::<char>::empty(),
    {
        if self.is_editing(id) {
            String::from_str(self.edit_text.as_str())
        } else {
            String::new()
        }
    }

    /// Replaces the edit buffer of `id` while it is editing.
    pub fn set_text_edit(&mut self, id: ElementId, text: String)
        requires
            old(self).wf(),
        ensures
            final(self).wf(),
            old(self).editing == Some(id) && !old(self).edit_done ==> *final(self) == (UiState {
                edit_text: final(self).edit_text,
                ..*old(self)
            }) && final(self).edit_text@ == text@,
            !(old(self).editing == Some(id) && !old(self).edit_done) ==> *final(self) == *old(
                self,
            ),
    {
        if self.is_editing(id) {
            self.edit_text = text;
        }
    }

    /// Appends typed text to the running edit's buffer; without a running
    /// edit the text is dropped.
    pub fn edit_type(&mut self, text: &str)
        requires
            old(self).wf(),
        ensures
            final(self).wf(),
            old(self).editing is Some && !old(self).edit_done ==> *final(self) == (UiState {
                edit_text: final(self).edit_text,
                ..*old(self)
            }) && final(self).edit_text@ == old(self).edit_text@ + text@,
            !(old(self).editing is Some && !old(self).edit_done) ==> *final(self) == *old(self),
    {
        let running = match self.editing {
            Some(_) => !self.edit_done,
            None => false,
        };
        if running {
            self.edit_text.append(text);
        }
    }

    /// Commits the running edit: the buffer is kept for the owner to parse
    /// on its next call.
    pub fn end_edit(&mut self)
        requires
            old(self).wf(),
        ensures
            final(self).wf(),
            old(self).editing is Some ==> *final(self) == (UiState {
                edit_done: true,
                ..*old(self)
            }),
            old(self).editing is None ==> *final(self) == *old(self),
    {
        if matches!(self.editing, Some(_)) {
            self.edit_done = true;
        }
    }

    /// Collects the committed edit of `id`: its buffer parsed as a signed
    /// decimal number, or `fallback` when the buffer does not parse — a
    /// failed commit never disturbs the bound value. The edit state is
    /// discarded either way. Without a committed edit for `id` the call
    /// just reports `fallback`.
    pub fn parse_text_edit(&mut self, id: ElementId, fallback: i64) -> (r: i64)
        requires
            old(self).wf(),
        ensures
            final(self).wf(),
            old(self).editing == Some(id) && old(self).edit_done ==> {
                &&& *final(self) == (UiState {
                    editing: None,
                    edit_text: final(self).edit_text,
                    edit_done: false,
                    ..*old(self)
                })
                &&& final(self).edit_text@ == Seq::<char>::empty()
                &&& r == (match spec_parse_i64(old(self).edit_text@) {
                    Some(v) => v,
                    None => fallback,
                })
            },
            !(old(self).editing == Some(id) && old(self).edit_done) ==> *final(self) == *old(
                self,
            ) && r == fallback,
    {
        let committed = match self.editing {
            Some(e) => e == id && self.edit_done,
            None => false,
        };
        if committed {
            let parsed = parse_i64(self.edit_text.as_str());
            self.editing = None;
            self.edit_text = String::new();
            self.edit_done = false;
            match parsed {
                Some(v) => v,
                None => fallback,
            }
        } else {
            fallback
        }
    }

    /// Saves the layout cursor; the matching pop restores it.
    pub fn push_cursor(&mut self)
        requires
            old(self).wf(),
        ensures
            final(self).wf(),
            *final(self) == (UiState { cursor_stack: final(self).cursor_stack, ..*old(self) }),
            final(self).cursor_stack@ == old(self).cursor_stack@.push(
                (old(self).cursor_x, old(self).cursor_y),
            ),
    {
        let c = (self.cursor_x, self.cursor_y);
        self.cursor_stack.push(c);
    }

    /// Restores the innermost saved layout cursor. Pushes and pops must
    /// pair up; popping an empty stack is a programming error.
    pub fn pop_cursor(&mut self)
        requires
            old(self).wf(),
            old(self).cursor_stack@.len() > 0,
        ensures
            final(self).wf(),
            *final(self) == (UiState {
                cursor_x: old(self).cursor_stack@.last().0,
                cursor_y: old(self).cursor_stack@.last().1,
                cursor_stack: final(self).cursor_stack,
                ..*old(self)
            }),
            final(self).cursor_stack@ == old(self).cursor_stack@.drop_last(),
    {
        match self.cursor_stack.pop() {
            Some(c) => {
                self.cursor_x = c.0;
                self.cursor_y = c.1;
            },
            None => {},
        }
    }

    /// The layout cursor as `(x, y)`.
    pub fn cursor_pos(&self) -> (r: (i32, i32))
        ensures
            r == (self.cursor_x, self.cursor_y),
    {
        (self.cursor_x, self.cursor_y)
    }

    /// Moves the layout cursor, clamped into the layout range.
    pub fn set_cursor_pos(&mut self, x: i32, y: i32)
        requires
            old(self).wf(),
        ensures
            final(self).wf(),
            *final(self) == (UiState {
                cursor_x: final(self).cursor_x,
                cursor_y: final(self).cursor_y,
                ..*old(self)
            }),
            final(self).cursor_x == vstd::math::max(
                -0x10000,
                vstd::math::min(x as int, 0x10000),
            ),
            final(self).cursor_y == vstd::math::max(
                -0x10000,
                vstd::math::min(y as int, 0x10000),
            ),
    {
        self.cursor_x = crate::gui::clamp_i32(x, -0x10000, 0x10000);
        self.cursor_y = crate::gui::clamp_i32(y, -0x10000, 0x10000);
    }

    /// Clears the frame-transient input: the entered key, the clicked
    /// buttons and the relative mouse motion; held keys and buttons
    /// persist, and this frame's pointer position becomes the previous
    /// one of the next frame.
    pub fn end_frame(&mut self)
        requires
            old(self).wf(),
        ensures
            final(self).wf(),
            final(self).pmouse_x == old(self).mouse.xpos,
            final(self).pmouse_y == old(self).mouse.ypos,
            final(self).mouse == (MouseState {
                xrel: 0,
                yrel: 0,
                left_clicked: false,
                middle_clicked: false,
                right_clicked: false,
                ..old(self).mouse
            }),
            final(self).keys == (crate::input::KeyState { entered: None, ..old(self).keys }),
            *final(self) == (UiState {
                mouse: final(self).mouse,
                pmouse_x: final(self).pmouse_x,
                pmouse_y: final(self).pmouse_y,
                keys: final(self).keys,
                ..*old(self)
            }),
    {
        self.pmouse_x = self.mouse.xpos;
        self.pmouse_y = self.mouse.ypos;
        self.mouse.clear();
        self.keys.entered = None;
    }
}

/// The numeric value of `digits` read as a decimal, most significant
/// first, on top of `acc`; `None` on a non-digit or once the value leaves
/// the `i64` range when carried with sign `negative`.
pub open spec fn spec_parse_digits(digits: Seq<char>, acc: int, negative: bool) -> Option<int>
    decreases digits.len(),
{
    if digits.len() == 0 {
        Some(acc)
    } else if !(48 <= digits[0] as u32 <= 57) {
        None
    } else {
        let next = acc * 10 + (digits[0] as u32 - 48);
        if (negative && -next < i64::MIN) || (!negative && next > i64::MAX) {
            None
        } else {
            spec_parse_digits(digits.drop_first(), next, negative)
        }
    }
}

/// A run of digits that parses successfully starts with a digit.
pub proof fn lemma_parse_digits_head(digits: Seq<char>, acc: int, neg: bool)
    requires
        digits.len() > 0,
        spec_parse_digits(digits, acc, neg) is Some,
    ensures
        48 <= digits[0] as u32 <= 57,
{
}

/// The signed decimal number `text` spells, or `None` when it is not one
/// or does not fit an `i64`: an optional sign, then one or more digits.
pub open spec fn spec_parse_i64(text: Seq<char>) -> Option<i64> {
    let negative = text.len() > 0 && text[0] == '-';
    let digits = if text.len() > 0 && (text[0] == '-' || text[0] == '+') {
        text.drop_first()
    } else {
        text
    };
    if digits.len() == 0 {
        None
    } else {
        match spec_parse_digits(digits, 0, negative) {
            Some(v) => Some((if negative { -v } else { v }) as i64),
            None => None,
        }
    }
}

/// Parses `text` as a signed decimal `i64`: an optional `+` or `-`, then
/// one or more digits, rejecting anything else or a value out of range.
#[verifier::loop_isolation(false)]
pub fn parse_i64(text: &str) -> (r: Option<i64>)
    ensures
        r == spec_parse_i64(text@),
{
    let mut it = text.chars();
    proof {
        assert(vstd::string::spec_iter(text).remaining() == text@);
        assert(it.remaining() == text@);
    }
    let first = it.next();
    let c0 = match first {
        None => {
            return None;
        },
        Some(c) => c,
    };
    let ghost digits = if c0 == '-' || c0 == '+' {
        text@.drop_first()
    } else {
        text@
    };
    let negative = c0 == '-';
    let mut acc: i64 = 0;
    let mut has_digit = false;
    if !(c0 == '-') && !(c0 == '+') {
        let d0 = c0 as u32;
        if d0 < 48 || d0 > 57 {
            return None;
        }
        acc = (d0 - 48) as i64;
        has_digit = true;
    }
    proof {
        if has_digit {
            assert(digits == text@);
            assert(digits.drop_first() == it.remaining());
            assert(spec_parse_digits(digits, 0, negative) == spec_parse_digits(
                it.remaining(),
                acc as int,
                negative,
            ));
        } else {
            assert(digits == it.remaining());
        }
    }
    loop
        invariant
            0 <= acc,
            !has_digit ==> acc == 0 && it.remaining() == digits,
            spec_parse_digits(digits, 0, negative) == spec_parse_digits(
                it.remaining(),
                acc as int,
                negative,
            ),
            digits.len() == 0 ==> !has_digit,
            has_digit || it.remaining() == digits,
            it.decrease() is Some,
        decreases it.decrease()->0,
    {
        let ghost pre = it.remaining();
        let step = it.next();
        let c = match step {
            None => {
                break ;
            },
            Some(c) => c,
        };
        let d32 = c as u32;
        if d32 < 48 || d32 > 57 {
            return None;
        }
        let d: i64 = (d32 - 48) as i64;
        proof {
            assert(pre.drop_first() == it.remaining());
        }
        if negative {
            if acc > 922_337_203_685_477_580i64 || (acc == 922_337_203_685_477_580i64 && d > 8) {
                return None;
            }
        } else {
            if acc > 922_337_203_685_477_580i64 || (acc == 922_337_203_685_477_580i64 && d > 7) {
                return None;
            }
        }
        if negative && acc == 922_337_203_685_477_580i64 && d == 8 {
            // This carry lands exactly on the most negative value; any
            // further character either fails to parse or passes below it.
            let ghost rem = it.remaining();
            let after = it.next();
            match after {
                Some(_) => {
                    proof {
                        assert(rem.len() > 0);
                        assert(spec_parse_digits(rem, 9223372036854775808int, negative) is None);
                    }
                    return None;
                },
                None => {
                    proof {
                        assert(it.remaining().len() == 0);
                        assert(spec_parse_digits(it.remaining(), 9223372036854775808int, negative)
                            == Some(9223372036854775808int));
                    }
                    return Some(i64::MIN);
                },
            }
        }
        acc = acc * 10 + d;
        has_digit = true;
    }
    if has_digit {
        if negative {
            Some(-acc)
        } else {
            Some(acc)
        }
    } else {
        None
    }
}

} // verus!
