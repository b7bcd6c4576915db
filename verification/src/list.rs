//! The list of a menu's widgets and the focus that moves through it.

use crate::draw::{button_items, DrawItem};
use crate::game::GameAction;
use crate::widget::Clickable;
use vstd::prelude::*;

verus! {

/// What a list of widgets is, mathematically: the widgets in the order in
/// which they were added, which is also the order of navigation and of
/// drawing, and the index of the focused one.
pub struct ListModel<W> {
    pub buttons: Seq<W>,
    pub marked_index: int,
}

impl<W: Clickable> ListModel<W> {
    /// The index points into the list; in an empty list it is 0.
    pub open spec fn index_valid(self) -> bool {
        if self.buttons.len() == 0 {
            self.marked_index == 0
        } else {
            0 <= self.marked_index < self.buttons.len()
        }
    }

    /// The index is valid, and a widget is marked exactly if it stands at
    /// the index.
    pub open spec fn wf(self) -> bool {
        &&& self.index_valid()
        &&& forall|i: int|
            0 <= i < self.buttons.len() ==> ((#[trigger] self.buttons[i]).marked() <==> i
                == self.marked_index)
    }

    /// The list is not empty and exactly one of its widgets is marked: the
    /// one at the index.
    pub open spec fn has_single_focus(self) -> bool {
        &&& 0 <= self.marked_index < self.buttons.len()
        &&& forall|i: int|
            0 <= i < self.buttons.len() ==> ((#[trigger] self.buttons[i]).marked() <==> i
                == self.marked_index)
    }

    /// The list after `button` was added at its end. The first widget of a
    /// list takes the focus; every later one comes in unmarked.
    pub open spec fn pushed(self, button: W) -> Self {
        ListModel {
            buttons: self.buttons.push(button.with_mark(self.buttons.len() == 0)),
            marked_index: self.marked_index,
        }
    }

    /// Where the focus goes from the index: `Up` to the widget before,
    /// `Down` to the one after, both wrapping round the ends, any other
    /// action to the first widget. In an empty list it stays.
    pub open spec fn next_index(self, direction: GameAction) -> int {
        if self.buttons.len() == 0 {
            self.marked_index
        } else {
            match direction {
                GameAction::Up => (self.marked_index - 1) % (self.buttons.len() as int),
                GameAction::Down => (self.marked_index + 1) % (self.buttons.len() as int),
                _ => 0,
            }
        }
    }

    /// The list with the index moved and the widgets left as they are.
    pub open spec fn with_next_index(self, direction: GameAction) -> Self {
        ListModel { buttons: self.buttons, marked_index: self.next_index(direction) }
    }

    /// The list after the focus moved: the widget at the old index is
    /// unmarked, then the one at the new index is marked. An empty list
    /// stays as it is.
    pub open spec fn moved(self, direction: GameAction) -> Self {
        if self.buttons.len() == 0 {
            self
        } else {
            let from = self.marked_index;
            let to = self.next_index(direction);
            let unmarked = self.buttons.update(from, self.buttons[from].with_mark(false));
            ListModel {
                buttons: unmarked.update(to, unmarked[to].with_mark(true)),
                marked_index: to,
            }
        }
    }

    /// The list after the focused widget was adjusted to the right. An
    /// empty list stays as it is.
    pub open spec fn toggled_right(self) -> Self {
        if self.buttons.len() == 0 {
            self
        } else {
            ListModel {
                buttons: self.buttons.update(
                    self.marked_index,
                    self.buttons[self.marked_index].toggled_right(),
                ),
                marked_index: self.marked_index,
            }
        }
    }

    /// The list after the focused widget was adjusted to the left. An
    /// empty list stays as it is.
    pub open spec fn toggled_left(self) -> Self {
        if self.buttons.len() == 0 {
            self
        } else {
            ListModel {
                buttons: self.buttons.update(
                    self.marked_index,
                    self.buttons[self.marked_index].toggled_left(),
                ),
                marked_index: self.marked_index,
            }
        }
    }

    /// The effect of the focused widget; none in an empty list.
    pub open spec fn selected(self) -> Option<W::Effect> {
        if self.buttons.len() == 0 {
            None
        } else {
            Some(self.buttons[self.marked_index].effect())
        }
    }

    /// The list after the focus moved once for each entry of `directions`,
    /// in order.
    pub open spec fn after_moves(self, directions: Seq<GameAction>) -> Self
        decreases directions.len(),
    {
        if directions.len() == 0 {
            self
        } else {
            self.after_moves(directions.drop_last()).moved(directions.last())
        }
    }

    /// The list after the focused widget was adjusted once for each entry
    /// of `to_right`, in order: to the right where the entry is true, to the
    /// left where it is false.
    pub open spec fn after_toggles(self, to_right: Seq<bool>) -> Self
        decreases to_right.len(),
    {
        if to_right.len() == 0 {
            self
        } else {
            let before = self.after_toggles(to_right.drop_last());
            if to_right.last() {
                before.toggled_right()
            } else {
                before.toggled_left()
            }
        }
    }

    /// Moving the index keeps it valid and wraps round the ends: `Up` leads
    /// from the first widget to the last and `Down` from the last to the
    /// first; everywhere else they lead one step back and one step on.
    pub proof fn lemma_next_index_wraps(self, direction: GameAction)
        requires
            self.index_valid(),
        ensures
            self.with_next_index(direction).index_valid(),
            self.buttons.len() > 0 && self.marked_index == 0 && direction == GameAction::Up
                ==> self.next_index(direction) == self.buttons.len() - 1,
            self.buttons.len() > 0 && self.marked_index > 0 && direction == GameAction::Up
                ==> self.next_index(direction) == self.marked_index - 1,
            self.buttons.len() > 0 && self.marked_index == self.buttons.len() - 1 && direction
                == GameAction::Down ==> self.next_index(direction) == 0,
            self.buttons.len() > 0 && self.marked_index < self.buttons.len() - 1 && direction
                == GameAction::Down ==> self.next_index(direction) == self.marked_index + 1,
    {
        let n = self.buttons.len() as int;
        if n > 0 {
            let i = self.marked_index;
            if i == 0 {
                assert((i - 1) % n == n - 1) by {
                    vstd::arithmetic::div_mod::lemma_fundamental_div_mod_converse(
                        -1,
                        n,
                        -1,
                        n - 1,
                    );
                }
            } else {
                vstd::arithmetic::div_mod::lemma_small_mod((i - 1) as nat, n as nat);
            }
            if i == n - 1 {
                vstd::arithmetic::div_mod::lemma_mod_self_0(n);
            } else {
                vstd::arithmetic::div_mod::lemma_small_mod((i + 1) as nat, n as nat);
            }
        }
    }

    /// Adding a widget keeps a well-formed list well formed.
    pub proof fn lemma_pushed_wf(self, button: W)
        requires
            self.wf(),
        ensures
            self.pushed(button).wf(),
            self.pushed(button).has_single_focus(),
    {
        button.lemma_with_mark(true, self.buttons.len() == 0);
    }

    /// Moving the focus keeps a well-formed list well formed: afterwards
    /// the widget at the new index is marked and no other.
    pub proof fn lemma_moved_wf(self, direction: GameAction)
        requires
            self.wf(),
        ensures
            self.moved(direction).wf(),
            self.moved(direction).buttons.len() == self.buttons.len(),
            self.moved(direction).marked_index == self.next_index(direction),
    {
        if self.buttons.len() > 0 {
            self.lemma_next_index_wraps(direction);
            let from = self.marked_index;
            let to = self.next_index(direction);
            let unmarked = self.buttons.update(from, self.buttons[from].with_mark(false));
            self.buttons[from].lemma_with_mark(true, false);
            unmarked[to].lemma_with_mark(true, true);
        }
    }

    /// Adjusting the focused widget keeps a well-formed list well formed
    /// and leaves the focus where it is.
    pub proof fn lemma_toggled_wf(self)
        requires
            self.wf(),
        ensures
            self.toggled_right().wf(),
            self.toggled_left().wf(),
            self.toggled_right().marked_index == self.marked_index,
            self.toggled_left().marked_index == self.marked_index,
            self.toggled_right().buttons.len() == self.buttons.len(),
            self.toggled_left().buttons.len() == self.buttons.len(),
    {
        if self.buttons.len() > 0 {
            self.buttons[self.marked_index].lemma_toggled();
        }
    }

    /// Focus is unique: however often and in whichever directions the focus
    /// of a non-empty well-formed list is moved, afterwards the list has as
    /// many widgets as before and exactly one of them, the one at the
    /// index, is marked.
    pub proof fn lemma_focus_unique_after_moves(self, directions: Seq<GameAction>)
        requires
            self.wf(),
            self.buttons.len() > 0,
        ensures
            self.after_moves(directions).buttons.len() == self.buttons.len(),
            self.after_moves(directions).has_single_focus(),
        decreases directions.len(),
    {
        if directions.len() > 0 {
            self.lemma_focus_unique_after_moves(directions.drop_last());
            self.after_moves(directions.drop_last()).lemma_moved_wf(directions.last());
        }
    }

    /// Adjusting does not move the focus: however often and to whichever
    /// sides the focused widget of a well-formed list is adjusted, the
    /// index and the number of widgets stay what they were, and the list
    /// stays well formed.
    pub proof fn lemma_toggles_keep_focus(self, to_right: Seq<bool>)
        requires
            self.wf(),
        ensures
            self.after_toggles(to_right).marked_index == self.marked_index,
            self.after_toggles(to_right).buttons.len() == self.buttons.len(),
            self.after_toggles(to_right).wf(),
        decreases to_right.len(),
    {
        if to_right.len() > 0 {
            self.lemma_toggles_keep_focus(to_right.drop_last());
            self.after_toggles(to_right.drop_last()).lemma_toggled_wf();
        }
    }

    /// An empty list is safe: moving the focus, adjusting and activating
    /// leave it exactly as it is, and activating gives no effect.
    pub proof fn lemma_empty_list_stays_empty(self, direction: GameAction)
        requires
            self.buttons.len() == 0,
        ensures
            self.with_next_index(direction) == self,
            self.moved(direction) == self,
            self.toggled_right() == self,
            self.toggled_left() == self,
            self.selected() is None,
    {
    }
}

/// The widgets of a menu, in the order in which they were added, and the
/// index of the focused one.
pub struct MenuButtonList<W: Clickable> {
    button_vec: Vec<W>,
    marked_index: usize,
}

impl<W: Clickable> View for MenuButtonList<W> {
    type V = ListModel<W>;

    closed spec fn view(&self) -> ListModel<W> {
        ListModel { buttons: self.button_vec@, marked_index: self.marked_index as int }
    }
}

impl<W: Clickable> MenuButtonList<W> {
    /// An empty list, with the index at 0.
    pub fn new() -> (list: MenuButtonList<W>)
        ensures
            list@.buttons == Seq::<W>::empty(),
            list@.marked_index == 0,
            list@.wf(),
    {
        MenuButtonList { button_vec: Vec::new(), marked_index: 0 }
    }

    /// The number of widgets.
    pub fn len(&self) -> (len: usize)
        ensures
            len == self@.buttons.len(),
    {
        self.button_vec.len()
    }

    /// The index of the focused widget.
    pub fn marked_index(&self) -> (index: usize)
        ensures
            index == self@.marked_index,
    {
        self.marked_index
    }

    /// Whether the list is well formed: the index points into it (or is 0
    /// in an empty list) and the widget at the index is the only marked
    /// one. Every list built with `new` and `push_button` is, and all
    /// operations but `update_marked_index` keep it so.
    pub fn is_well_formed(&self) -> (ok: bool)
        ensures
            ok == self@.wf(),
    {
        let n = self.button_vec.len();
        if n == 0 {
            return self.marked_index == 0;
        }
        if self.marked_index >= n {
            return false;
        }
        let mut i: usize = 0;
        while i < n
            invariant
                n == self.button_vec@.len(),
                i <= n,
                self.marked_index < n,
                forall|k: int|
                    0 <= k < i ==> ((#[trigger] self.button_vec@[k]).marked() <==> k
                        == self.marked_index),
            decreases n - i,
        {
            if self.button_vec[i].is_marked() != (i == self.marked_index) {
                return false;
            }
            i += 1;
        }
        true
    }

    /// Add a widget at the end. The index stays where it is. The first
    /// widget of a list is marked as it comes in, every later one unmarked,
    /// so that the focused widget stays the only marked one.
    pub fn push_button(&mut self, button: W)
        requires
            old(self)@.wf(),
        ensures
            final(self)@ == old(self)@.pushed(button),
            final(self)@.wf(),
    {
        proof {
            old(self)@.lemma_pushed_wf(button);
        }
        let mut added = button;
        if self.button_vec.len() == 0 {
            added.mark();
        } else {
            added.unmark();
        }
        self.button_vec.push(added);
    }

    /// The widget at `index`; none where the list has no such index.
    pub fn get_button(&self, index: usize) -> (button: Option<&W>)
        ensures
            index >= self@.buttons.len() ==> button is None,
            index < self@.buttons.len() ==> button == Some(&self@.buttons[index as int]),
    {
        if index < self.button_vec.len() {
            Some(&self.button_vec[index])
        } else {
            None
        }
    }

    /// The focused widget; none in an empty list.
    pub fn get_marked_button(&self) -> (button: Option<&W>)
        requires
            self@.index_valid(),
        ensures
            self@.buttons.len() == 0 ==> button is None,
            self@.buttons.len() > 0 ==> button == Some(&self@.buttons[self@.marked_index]),
    {
        if self.button_vec.len() == 0 {
            None
        } else {
            Some(&self.button_vec[self.marked_index])
        }
    }

    /// Append the widgets to the draw list `target` in the order in which
    /// they are to be drawn: the order in which they were added, wherever
    /// the focus is.
    pub fn draw_buttons(&self, target: &mut Vec<DrawItem>)
        ensures
            final(target)@ == old(target)@ + button_items(self@.buttons.len()),
    {
        let n = self.button_vec.len();
        let mut i: usize = 0;
        while i < n
            invariant
                n == self@.buttons.len(),
                i <= n,
                target@ == old(target)@ + button_items(i as nat),
            decreases n - i,
        {
            target.push(DrawItem::Button(i));
            i += 1;
            assert(target@ =~= old(target)@ + button_items(i as nat));
        }
    }

    /// Move the index by one step without touching the widgets: `Up` to
    /// the index before, `Down` to the one after, wrapping round both ends;
    /// any other action sends it to 0. In an empty list it stays.
    pub fn update_marked_index(&mut self, direction: GameAction)
        requires
            old(self)@.index_valid(),
        ensures
            final(self)@ == old(self)@.with_next_index(direction),
            final(self)@.index_valid(),
    {
        let len = self.button_vec.len();
        proof {
            self@.lemma_next_index_wraps(direction);
        }
        if len > 0 {
            let new_marker: usize = match direction {
                GameAction::Up => if self.marked_index == 0 {
                    len - 1
                } else {
                    self.marked_index - 1
                },
                GameAction::Down => if self.marked_index == len - 1 {
                    0
                } else {
                    self.marked_index + 1
                },
                _ => 0,
            };
            self.marked_index = new_marker;
        }
    }

    /// Move the focus: unmark the focused widget, move the index as
    /// `update_marked_index` does, and mark the widget that it now points
    /// at. On an empty list nothing happens.
    pub fn move_marker(&mut self, direction: GameAction)
        requires
            old(self)@.wf(),
        ensures
            final(self)@ == old(self)@.moved(direction),
            final(self)@.wf(),
    {
        if self.button_vec.len() > 0 {
            let from = self.marked_index;
            self.button_vec[from].unmark();
            self.update_marked_index(direction);
            let to = self.marked_index;
            self.button_vec[to].mark();
        }
        proof {
            old(self)@.lemma_moved_wf(direction);
        }
    }

    /// Adjust the focused widget to the right. The focus stays where it
    /// is; on an empty list nothing happens.
    pub fn go_right(&mut self)
        requires
            old(self)@.wf(),
        ensures
            final(self)@ == old(self)@.toggled_right(),
            final(self)@.marked_index == old(self)@.marked_index,
            final(self)@.wf(),
    {
        if self.button_vec.len() > 0 {
            let at = self.marked_index;
            self.button_vec[at].toggle_right();
        }
        proof {
            old(self)@.lemma_toggled_wf();
        }
    }

    /// Adjust the focused widget to the left. The focus stays where it is;
    /// on an empty list nothing happens.
    pub fn go_left(&mut self)
        requires
            old(self)@.wf(),
        ensures
            final(self)@ == old(self)@.toggled_left(),
            final(self)@.marked_index == old(self)@.marked_index,
            final(self)@.wf(),
    {
        if self.button_vec.len() > 0 {
            let at = self.marked_index;
            self.button_vec[at].toggle_left();
        }
        proof {
            old(self)@.lemma_toggled_wf();
        }
    }

    /// Activate the focused widget: hand out its effect, for the caller to
    /// carry out. The list stays as it is; an empty list gives no effect.
    pub fn select(&self) -> (effect: Option<W::Effect>)
        requires
            self@.index_valid(),
        ensures
            effect == self@.selected(),
    {
        if self.button_vec.len() == 0 {
            None
        } else {
            Some(self.button_vec[self.marked_index].select())
        }
    }
}

/// Marking is idempotent: a widget marked twice is the widget marked once,
/// and likewise for unmarking.
pub proof fn lemma_mark_idempotent<W: Clickable>(widget: W)
    ensures
        widget.with_mark(true).with_mark(true) == widget.with_mark(true),
        widget.with_mark(false).with_mark(false) == widget.with_mark(false),
{
    widget.lemma_with_mark(true, true);
    widget.lemma_with_mark(false, false);
}

} // verus!
