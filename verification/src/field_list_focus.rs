//! Field-versus-list sub-focus for overlays that pair a text field with a list
//! (chart search, orders filter, palette, loan import). Tab and Shift+Tab move
//! between the two bands; while the list has focus, typed characters do not edit
//! the field. Tab order is kept by `ratatui_interact::state::FocusManager`.
use vstd::prelude::*;
use ratatui_interact::state::FocusManager;

verus! {

/// `ratatui_interact::state::FocusManager`, carried as an opaque value.
#[verifier::external_type_specification]
#[verifier::external_body]
#[verifier::reject_recursive_types(T)]
pub struct ExFocusManager<T: Clone + Eq + std::hash::Hash>(FocusManager<T>);

/// The registered elements of a focus manager, in registration order.
pub uninterp spec fn spec_focus_elements(m: FocusManager<u8>) -> Seq<u8>;

/// The index of the focused element of a focus manager, if any.
pub uninterp spec fn spec_focus_index(m: FocusManager<u8>) -> Option<usize>;

/// A focus index that is absent or points at a registered element.
pub open spec fn focus_index_valid(m: FocusManager<u8>) -> bool {
    match spec_focus_index(m) {
        Some(i) => i < spec_focus_elements(m).len(),
        None => true,
    }
}

/// `FocusManager::new`: no elements and no focus.
#[verifier::external_body]
fn focus_new() -> (m: FocusManager<u8>)
    ensures
        spec_focus_elements(m) == Seq::<u8>::empty(),
        spec_focus_index(m) == None::<usize>,
{
    FocusManager::new()
}

/// `FocusManager::clear`: removes every element and the focus.
#[verifier::external_body]
fn focus_clear(m: &mut FocusManager<u8>)
    ensures
        spec_focus_elements(*final(m)) == Seq::<u8>::empty(),
        spec_focus_index(*final(m)) == None::<usize>,
{
    m.clear()
}

/// `FocusManager::register`: appends an element that is not yet registered (a
/// repeated one is ignored) and focuses the first element when nothing had focus.
#[verifier::external_body]
fn focus_register(m: &mut FocusManager<u8>, element: u8)
    ensures
        spec_focus_elements(*old(m)).contains(element) ==> *final(m) == *old(m),
        !spec_focus_elements(*old(m)).contains(element) ==> {
            &&& spec_focus_elements(*final(m)) == spec_focus_elements(*old(m)).push(element)
            &&& spec_focus_index(*final(m)) == (match spec_focus_index(*old(m)) {
                Some(i) => Some(i),
                None => Some(0usize),
            })
        },
{
    m.register(element)
}

/// `FocusManager::next`: with no elements nothing changes; otherwise focus moves to
/// the following element, wrapping after the last, and starts at the first when
/// nothing had focus.
#[verifier::external_body]
fn focus_next(m: &mut FocusManager<u8>)
    requires
        focus_index_valid(*old(m)),
    ensures
        spec_focus_elements(*final(m)) == spec_focus_elements(*old(m)),
        spec_focus_elements(*old(m)).len() == 0 ==> spec_focus_index(*final(m))
            == spec_focus_index(*old(m)),
        spec_focus_elements(*old(m)).len() > 0 ==> spec_focus_index(*final(m)) == Some(
            match spec_focus_index(*old(m)) {
                Some(i) => ((i + 1) % (spec_focus_elements(*old(m)).len() as int)) as usize,
                None => 0usize,
            },
        ),
{
    m.next()
}

/// `FocusManager::prev`: with no elements nothing changes; otherwise focus moves to
/// the preceding element, wrapping before the first, and starts at the first when
/// nothing had focus.
#[verifier::external_body]
fn focus_prev(m: &mut FocusManager<u8>)
    requires
        focus_index_valid(*old(m)),
    ensures
        spec_focus_elements(*final(m)) == spec_focus_elements(*old(m)),
        spec_focus_elements(*old(m)).len() == 0 ==> spec_focus_index(*final(m))
            == spec_focus_index(*old(m)),
        spec_focus_elements(*old(m)).len() > 0 ==> spec_focus_index(*final(m)) == Some(
            match spec_focus_index(*old(m)) {
                Some(i) => if i == 0 {
                    (spec_focus_elements(*old(m)).len() - 1) as usize
                } else {
                    (i - 1) as usize
                },
                None => 0usize,
            },
        ),
{
    m.prev()
}

/// `FocusManager::current`, copied out: the element at the focus index, if any.
#[verifier::external_body]
fn focus_current(m: &FocusManager<u8>) -> (r: Option<u8>)
    ensures
        r == (match spec_focus_index(*m) {
            Some(i) => if i < spec_focus_elements(*m).len() {
                Some(spec_focus_elements(*m)[i as int])
            } else {
                None
            },
            None => None,
        }),
{
    m.current().copied()
}

/// The two focusable bands of such an overlay.
#[derive(Clone, Copy, PartialEq, Eq, Hash, Debug, Structural)]
pub enum FieldListRegion {
    Field,
    List,
}

/// The focus after Tab or Shift+Tab: with two bands either key moves to the other
/// one; with the overlay closed nothing has focus before or after.
pub open spec fn tabbed(v: Option<FieldListRegion>) -> Option<FieldListRegion> {
    match v {
        Some(FieldListRegion::Field) => Some(FieldListRegion::List),
        Some(FieldListRegion::List) => Some(FieldListRegion::Field),
        None => None,
    }
}

/// Tab order between the field and the list of an overlay.
#[derive(Debug)]
pub struct FieldListFocus {
    focus: FocusManager<u8>,
}

impl View for FieldListFocus {
    type V = Option<FieldListRegion>;

    /// The focused band; `None` while the overlay is closed.
    closed spec fn view(&self) -> Option<FieldListRegion> {
        match spec_focus_index(self.focus) {
            Some(i) => if i == 0 {
                Some(FieldListRegion::Field)
            } else {
                Some(FieldListRegion::List)
            },
            None => None,
        }
    }
}

impl FieldListFocus {
    /// Either nothing is registered, or exactly the field then the list are, with the
    /// focus on one of them.
    #[verifier::type_invariant]
    spec fn well_formed(self) -> bool {
        ||| spec_focus_elements(self.focus) == Seq::<u8>::empty() && spec_focus_index(self.focus)
            == None::<usize>
        ||| spec_focus_elements(self.focus) == seq![0u8, 1u8] && (spec_focus_index(self.focus)
            == Some(0usize) || spec_focus_index(self.focus) == Some(1usize))
    }

    /// A closed overlay: no band has focus.
    pub fn new() -> (s: Self)
        ensures
            s@ == None::<FieldListRegion>,
    {
        FieldListFocus { focus: focus_new() }
    }

    /// Registers the field and then the list, starting on the field.
    pub fn on_open(&mut self)
        ensures
            final(self)@ == Some(FieldListRegion::Field),
    {
        let mut f = focus_new();
        std::mem::swap(&mut f, &mut self.focus);
        focus_clear(&mut f);
        focus_register(&mut f, 0);
        focus_register(&mut f, 1);
        assert(spec_focus_elements(f) =~= seq![0u8, 1u8]);
        self.focus = f;
    }

    /// Forgets both bands: nothing has focus.
    pub fn on_close(&mut self)
        ensures
            final(self)@ == None::<FieldListRegion>,
    {
        let mut f = focus_new();
        std::mem::swap(&mut f, &mut self.focus);
        focus_clear(&mut f);
        self.focus = f;
    }

    /// Tab: moves to the other band; does nothing while closed.
    pub fn tab_next(&mut self)
        ensures
            final(self)@ == tabbed(old(self)@),
    {
        proof {
            use_type_invariant(&*self);
        }
        let mut f = focus_new();
        std::mem::swap(&mut f, &mut self.focus);
        focus_next(&mut f);
        self.focus = f;
    }

    /// Shift+Tab: moves to the other band; does nothing while closed.
    pub fn tab_prev(&mut self)
        ensures
            final(self)@ == tabbed(old(self)@),
    {
        proof {
            use_type_invariant(&*self);
        }
        let mut f = focus_new();
        std::mem::swap(&mut f, &mut self.focus);
        focus_prev(&mut f);
        self.focus = f;
    }

    /// Whether typed characters and Backspace may edit the field: only while the
    /// field has focus.
    pub fn allows_field_edit(&self) -> (r: bool)
        ensures
            r == (self@ == Some(FieldListRegion::Field)),
    {
        proof {
            use_type_invariant(self);
        }
        match focus_current(&self.focus) {
            Some(code) => code == 0,
            None => false,
        }
    }

    /// The focused band; `None` before the overlay opens and after it closes.
    pub fn focused_region(&self) -> (r: Option<FieldListRegion>)
        ensures
            r == self@,
    {
        proof {
            use_type_invariant(self);
        }
        match focus_current(&self.focus) {
            Some(code) => if code == 0 {
                Some(FieldListRegion::Field)
            } else {
                Some(FieldListRegion::List)
            },
            None => None,
        }
    }
}

/// Tab followed by Shift+Tab (or the reverse, or two Tabs) returns focus to where it
/// was, whether the overlay is open or closed.
pub proof fn law_overlay_tab_round_trip(before: Option<FieldListRegion>)
    ensures
        tabbed(tabbed(before)) == before,
{
}

} // verus!
