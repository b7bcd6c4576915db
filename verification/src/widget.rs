//! Widgets: what a menu can focus, activate and adjust.

use vstd::prelude::*;

verus! {

/// A widget of a menu: it can be focused (marked), activated (selected) and,
/// where it holds a value, adjusted to the left or right.
///
/// The spec functions say what each operation does to a widget; the two
/// lemmas are the laws that every widget obeys, and each implementation
/// proves them of itself.
pub trait Clickable: Sized {
    /// What activating the widget asks its owner to do.
    type Effect;

    /// Whether the widget shows itself as focused.
    spec fn marked(&self) -> bool;

    /// The effect bound to the widget.
    spec fn effect(&self) -> Self::Effect;

    /// The widget with its focus flag set to `marked` and nothing else
    /// changed.
    spec fn with_mark(&self, marked: bool) -> Self;

    /// The widget after one adjustment to the right.
    spec fn toggled_right(&self) -> Self;

    /// The widget after one adjustment to the left.
    spec fn toggled_left(&self) -> Self;

    /// Setting the focus flag gives a widget that reports the flag and keeps
    /// its effect; setting it to what it already is changes nothing; and of
    /// two settings in a row only the second one counts.
    proof fn lemma_with_mark(&self, first: bool, second: bool)
        ensures
            self.with_mark(second).marked() == second,
            self.with_mark(second).effect() == self.effect(),
            self.marked() == second ==> self.with_mark(second) == *self,
            self.with_mark(first).with_mark(second) == self.with_mark(second),
    ;

    /// An adjustment never changes the focus flag.
    proof fn lemma_toggled(&self)
        ensures
            self.toggled_right().marked() == self.marked(),
            self.toggled_left().marked() == self.marked(),
    ;

    /// Whether the widget shows itself as focused.
    fn is_marked(&self) -> (marked: bool)
        ensures
            marked == self.marked(),
    ;

    /// Record that the widget is focused.
    fn mark(&mut self)
        ensures
            *final(self) == old(self).with_mark(true),
    ;

    /// Record that the widget is no longer focused.
    fn unmark(&mut self)
        ensures
            *final(self) == old(self).with_mark(false),
    ;

    /// Activate the widget: hand out the effect bound to it, for the owner
    /// of the menu to carry out.
    fn select(&self) -> (effect: Self::Effect)
        ensures
            effect == self.effect(),
    ;

    /// Adjust the widget's value to the right.
    fn toggle_right(&mut self)
        ensures
            *final(self) == old(self).toggled_right(),
    ;

    /// Adjust the widget's value to the left.
    fn toggle_left(&mut self)
        ensures
            *final(self) == old(self).toggled_left(),
    ;
}

/// A button: a label and an effect. It holds no value, so adjusting it does
/// nothing.
#[derive(Debug, PartialEq, Eq)]
pub struct Button<E> {
    pub label: String,
    pub effect: E,
    pub marked: bool,
}

impl<E: Copy> Button<E> {
    /// A button that is not focused.
    pub fn new(label: String, effect: E) -> (button: Button<E>)
        ensures
            button == (Button { label, effect, marked: false }),
    {
        Button { label, effect, marked: false }
    }
}

impl<E: Copy> Clickable for Button<E> {
    type Effect = E;

    open spec fn marked(&self) -> bool {
        self.marked
    }

    open spec fn effect(&self) -> E {
        self.effect
    }

    open spec fn with_mark(&self, marked: bool) -> Self {
        Button { label: self.label, effect: self.effect, marked }
    }

    open spec fn toggled_right(&self) -> Self {
        *self
    }

    open spec fn toggled_left(&self) -> Self {
        *self
    }

    proof fn lemma_with_mark(&self, first: bool, second: bool) {
    }

    proof fn lemma_toggled(&self) {
    }

    fn is_marked(&self) -> (marked: bool) {
        self.marked
    }

    fn mark(&mut self) {
        self.marked = true;
    }

    fn unmark(&mut self) {
        self.marked = false;
    }

    fn select(&self) -> (effect: E) {
        self.effect
    }

    fn toggle_right(&mut self) {
    }

    fn toggle_left(&mut self) {
    }
}

} // verus!
