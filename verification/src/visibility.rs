use core::marker::PhantomData;
use vstd::prelude::*;

verus! {

/// A value that can be switched on and off.
pub trait Toggle {
    /// Flips the value.
    fn toggle(&mut self);
}

/// A value that reads as a boolean.
pub trait BoolValue {
    /// The boolean that the value stands for.
    fn value(&self) -> bool;
}

/// Marks what an `IsVisible` flag is about.
pub trait VisibilityMarker: Clone + Copy {}

/// The cursor.
#[derive(Clone, Copy)]
pub struct Cursor;

impl VisibilityMarker for Cursor {}

/// The in-game interface.
#[derive(Clone, Copy)]
pub struct Ui;

impl VisibilityMarker for Ui {}

/// The in-game settings menu.
#[derive(Clone, Copy)]
pub struct SettingsMenu;

impl VisibilityMarker for SettingsMenu {}

/// Whether the thing marked by `T` is shown.
pub struct IsVisible<T: VisibilityMarker> {
    visible: bool,
    _phantom: PhantomData<T>,
}

impl<T: VisibilityMarker> IsVisible<T> {
    /// Whether the flag says "shown".
    pub closed spec fn is_shown(self) -> bool {
        self.visible
    }

    /// A flag that says "shown".
    pub fn visible() -> (r: Self)
        ensures
            r.is_shown(),
    {
        IsVisible { visible: true, _phantom: PhantomData }
    }

    /// A flag that says "hidden".
    pub fn hidden() -> (r: Self)
        ensures
            !r.is_shown(),
    {
        IsVisible { visible: false, _phantom: PhantomData }
    }
}

impl<T: VisibilityMarker> IsVisible<T> {
    /// The flag after one toggle: "shown" and "hidden" swapped.
    pub closed spec fn toggled(self) -> Self {
        IsVisible { visible: !self.visible, _phantom: self._phantom }
    }
}

/// Toggling a flag twice gives back the very same flag, and one toggle
/// always changes it.
pub proof fn law_toggle_twice<T: VisibilityMarker>(a: IsVisible<T>)
    ensures
        a.toggled().toggled() == a,
        a.toggled().is_shown() == !a.is_shown(),
        a.toggled() != a,
{
}

impl<T: VisibilityMarker> Clone for IsVisible<T> {
    fn clone(&self) -> (r: Self)
        ensures
            r.is_shown() == self.is_shown(),
    {
        IsVisible { visible: self.visible, _phantom: PhantomData }
    }
}

impl<T: VisibilityMarker> Copy for IsVisible<T> {}

impl<T: VisibilityMarker> PartialEq for IsVisible<T> {
    fn eq(&self, other: &Self) -> (r: bool) {
        self.visible == other.visible
    }
}

impl<T: VisibilityMarker> vstd::std_specs::cmp::PartialEqSpecImpl for IsVisible<T> {
    open spec fn obeys_eq_spec() -> bool {
        true
    }

    open spec fn eq_spec(&self, other: &Self) -> bool {
        self.is_shown() == other.is_shown()
    }
}

impl<T: VisibilityMarker> Eq for IsVisible<T> {}

impl<T: VisibilityMarker> Toggle for IsVisible<T> {
    fn toggle(&mut self)
        ensures
            *final(self) == old(self).toggled(),
            final(self).is_shown() == !old(self).is_shown(),
    {
        self.visible = !self.visible;
    }
}

impl<T: VisibilityMarker> BoolValue for IsVisible<T> {
    fn value(&self) -> (r: bool)
        ensures
            r == self.is_shown(),
    {
        self.visible
    }
}

impl<T: VisibilityMarker> core::ops::Deref for IsVisible<T> {
    type Target = bool;

    fn deref(&self) -> (r: &bool)
        ensures
            *r == self.is_shown(),
    {
        &self.visible
    }
}

impl<T: VisibilityMarker> core::ops::Not for IsVisible<T> {
    type Output = bool;

    fn not(self) -> (r: bool)
        ensures
            r == !self.is_shown(),
    {
        !self.visible
    }
}

impl<T: VisibilityMarker> vstd::std_specs::ops::NotSpecImpl for IsVisible<T> {
    open spec fn obeys_not_spec() -> bool {
        true
    }

    open spec fn not_req(self) -> bool {
        true
    }

    open spec fn not_spec(self) -> bool {
        !self.is_shown()
    }
}

} // verus!
