//! The draw list: what a menu wants drawn, in order, as plain values.
//!
//! The engine owns no drawable. It names each thing to draw by its kind and
//! its index, and the program around it draws them in the order given.

use vstd::prelude::*;

verus! {

/// One thing to draw.
#[derive(Clone, Copy, Debug, PartialEq, Eq, Structural)]
pub enum DrawItem {
    /// The background image with this index.
    Image(usize),
    /// The static text with this index.
    Text(usize),
    /// The widget with this index in the menu's list.
    Button(usize),
}

/// The first `count` images, in order.
pub open spec fn image_items(count: nat) -> Seq<DrawItem> {
    Seq::new(count, |i: int| DrawItem::Image(i as usize))
}

/// The first `count` texts, in order.
pub open spec fn text_items(count: nat) -> Seq<DrawItem> {
    Seq::new(count, |i: int| DrawItem::Text(i as usize))
}

/// The first `count` widgets, in order.
pub open spec fn button_items(count: nat) -> Seq<DrawItem> {
    Seq::new(count, |i: int| DrawItem::Button(i as usize))
}

/// One draw pass of a menu: its images, then its texts, then its widgets,
/// each group in order.
pub open spec fn menu_items(images: nat, text: nat, buttons: nat) -> Seq<DrawItem> {
    image_items(images) + text_items(text) + button_items(buttons)
}

} // verus!
