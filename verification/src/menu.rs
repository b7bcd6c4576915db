//! The menu: a list of widgets below some decorations, driven by the events
//! of a window.
//!
//! A menu is a state machine. The program that owns the window reads an
//! event, hands it to `act_on_event`, and carries out the command that comes
//! back; once per frame it draws what `draw_menu` lists. It goes on for as
//! long as `is_active` says so.

use crate::draw::{image_items, menu_items, text_items, DrawItem};
use crate::game::{menu_action_of_key, Event, GameAction, Key};
use crate::list::{ListModel, MenuButtonList};
use crate::widget::Clickable;
use vstd::prelude::*;

verus! {

/// What a menu asks the owner of the window to do.
#[derive(Debug, PartialEq, Eq)]
pub enum MenuCommand<E> {
    /// Close the window.
    CloseWindow,
    /// Carry out this effect of an activated widget.
    Run(E),
}

/// What a menu is, mathematically: how many background images and static
/// texts decorate it, its list of widgets, and whether it is still active.
pub struct MenuModel<W> {
    pub images: nat,
    pub text: nat,
    pub buttons: ListModel<W>,
    pub active: bool,
}

impl<W: Clickable> MenuModel<W> {
    /// The menu's list of widgets is well formed.
    pub open spec fn wf(self) -> bool {
        self.buttons.wf()
    }

    /// The menu after an action: `Up` and `Down` move the focus, `Right`
    /// and `Left` adjust the focused widget, and `Enter` changes nothing in
    /// the menu itself.
    pub open spec fn after_action(self, action: GameAction) -> Self {
        MenuModel {
            images: self.images,
            text: self.text,
            buttons: match action {
                GameAction::Up | GameAction::Down => self.buttons.moved(action),
                GameAction::Right => self.buttons.toggled_right(),
                GameAction::Left => self.buttons.toggled_left(),
                GameAction::Enter => self.buttons,
            },
            active: self.active,
        }
    }

    /// The effect that an action sets free: that of the focused widget on
    /// `Enter`, none otherwise.
    pub open spec fn effect_of_action(self, action: GameAction) -> Option<W::Effect> {
        match action {
            GameAction::Enter => self.buttons.selected(),
            _ => None,
        }
    }

    /// The menu after a key press: after the action that the key is bound
    /// to, or unchanged where it is bound to none.
    pub open spec fn after_key(self, key: Key) -> Self {
        match menu_action_of_key(key) {
            Some(action) => self.after_action(action),
            None => self,
        }
    }

    /// The effect that a key press sets free.
    pub open spec fn effect_of_key(self, key: Key) -> Option<W::Effect> {
        match menu_action_of_key(key) {
            Some(action) => self.effect_of_action(action),
            None => None,
        }
    }

    /// The menu with the active flag cleared.
    pub open spec fn exited(self) -> Self {
        MenuModel { images: self.images, text: self.text, buttons: self.buttons, active: false }
    }

    /// The menu after an event: inactive once the window was asked to
    /// close, after the key press for a key, unchanged otherwise.
    pub open spec fn after_event(self, event: Event) -> Self {
        match event {
            Event::Closed => self.exited(),
            Event::KeyPressed { code } => self.after_key(code),
            Event::Other => self,
        }
    }

    /// The command that an event gives rise to: to close the window when it
    /// was asked to close, to run the focused widget's effect when a key
    /// activated it, none otherwise.
    pub open spec fn command_of_event(self, event: Event) -> Option<MenuCommand<W::Effect>> {
        match event {
            Event::Closed => Some(MenuCommand::CloseWindow),
            Event::KeyPressed { code } => match self.effect_of_key(code) {
                Some(effect) => Some(MenuCommand::Run(effect)),
                None => None,
            },
            Event::Other => None,
        }
    }

    /// The menu after each of `events` in turn.
    pub open spec fn after_events(self, events: Seq<Event>) -> Self
        decreases events.len(),
    {
        if events.len() == 0 {
            self
        } else {
            self.after_events(events.drop_last()).after_event(events.last())
        }
    }

    /// An event keeps a well-formed menu well formed, never changes its
    /// decorations or the number of its widgets, and never makes an
    /// inactive menu active again.
    pub proof fn lemma_after_event(self, event: Event)
        requires
            self.wf(),
        ensures
            self.after_event(event).wf(),
            self.after_event(event).images == self.images,
            self.after_event(event).text == self.text,
            self.after_event(event).buttons.buttons.len() == self.buttons.buttons.len(),
            !self.active ==> !self.after_event(event).active,
    {
        self.buttons.lemma_moved_wf(GameAction::Up);
        self.buttons.lemma_moved_wf(GameAction::Down);
        self.buttons.lemma_toggled_wf();
    }

    /// Inactive is final: whatever events follow, an inactive menu stays
    /// inactive, and a well-formed one stays well formed.
    pub proof fn lemma_inactive_is_final(self, events: Seq<Event>)
        requires
            self.wf(),
        ensures
            self.after_events(events).wf(),
            !self.active ==> !self.after_events(events).active,
        decreases events.len(),
    {
        if events.len() > 0 {
            self.lemma_inactive_is_final(events.drop_last());
            self.after_events(events.drop_last()).lemma_after_event(events.last());
        }
    }
}

/// A struct representing a menu state in the game.
pub struct MenuState<W: Clickable> {
    images: usize,
    text: usize,
    buttons: MenuButtonList<W>,
    _active: bool,
}

impl<W: Clickable> View for MenuState<W> {
    type V = MenuModel<W>;

    closed spec fn view(&self) -> MenuModel<W> {
        MenuModel {
            images: self.images as nat,
            text: self.text as nat,
            buttons: self.buttons@,
            active: self._active,
        }
    }
}

impl<W: Clickable> MenuState<W> {
    /// An active menu with `images` background images, `text` static texts
    /// and the given widgets.
    pub fn new(images: usize, text: usize, buttons: MenuButtonList<W>) -> (menu: MenuState<W>)
        requires
            buttons@.wf(),
        ensures
            menu@ == (MenuModel {
                images: images as nat,
                text: text as nat,
                buttons: buttons@,
                active: true,
            }),
            menu@.wf(),
    {
        MenuState { images, text, buttons, _active: true }
    }

    /// The menu's widgets.
    pub fn buttons(&self) -> (buttons: &MenuButtonList<W>)
        ensures
            buttons@ == self@.buttons,
    {
        &self.buttons
    }

    /// Whether the menu goes on: the game is running and the menu was not
    /// left.
    pub fn is_active(&self, game_running: bool) -> (active: bool)
        ensures
            active == (game_running && self@.active),
    {
        game_running && self._active
    }

    /// Leave the menu.
    pub fn exit(&mut self)
        ensures
            final(self)@ == old(self)@.exited(),
    {
        self._active = false
    }

    /// React to one event of the window, and say what the owner of the
    /// window is to do about it.
    pub fn act_on_event(&mut self, event: Event) -> (command: Option<MenuCommand<W::Effect>>)
        requires
            old(self)@.wf(),
        ensures
            final(self)@ == old(self)@.after_event(event),
            command == old(self)@.command_of_event(event),
            final(self)@.wf(),
    {
        proof {
            old(self)@.lemma_after_event(event);
        }
        match event {
            Event::KeyPressed { code } => match self.handle_key_press(code) {
                Some(effect) => Some(MenuCommand::Run(effect)),
                None => None,
            },
            Event::Closed => {
                self.exit();
                Some(MenuCommand::CloseWindow)
            },
            Event::Other => None,
        }
    }

    /// React to a key press: map the key to its action and route it to the
    /// list of widgets. A key that is bound to nothing is ignored. Returns
    /// the effect of the focused widget where the key activated it.
    pub fn handle_key_press(&mut self, key: Key) -> (effect: Option<W::Effect>)
        requires
            old(self)@.wf(),
        ensures
            final(self)@ == old(self)@.after_key(key),
            effect == old(self)@.effect_of_key(key),
            final(self)@.wf(),
    {
        match GameAction::get_menu_action_from_key(key) {
            Some(action) => match action {
                GameAction::Up | GameAction::Down => {
                    self.buttons.move_marker(action);
                    None
                },
                GameAction::Right => {
                    self.buttons.go_right();
                    None
                },
                GameAction::Left => {
                    self.buttons.go_left();
                    None
                },
                GameAction::Enter => self.buttons.select(),
            },
            None => None,
        }
    }

    /// One draw pass: the background images, then the static texts, then
    /// the widgets, each group in order.
    pub fn draw_menu(&self) -> (target: Vec<DrawItem>)
        ensures
            target@ == menu_items(self@.images, self@.text, self@.buttons.buttons.len()),
    {
        let mut target: Vec<DrawItem> = Vec::new();
        let mut i: usize = 0;
        while i < self.images
            invariant
                i <= self.images,
                target@ == image_items(i as nat),
            decreases self.images - i,
        {
            target.push(DrawItem::Image(i));
            i += 1;
            assert(target@ =~= image_items(i as nat));
        }
        let mut j: usize = 0;
        while j < self.text
            invariant
                j <= self.text,
                target@ == image_items(self.images as nat) + text_items(j as nat),
            decreases self.text - j,
        {
            target.push(DrawItem::Text(j));
            j += 1;
            assert(target@ =~= image_items(self.images as nat) + text_items(j as nat));
        }
        self.buttons.draw_buttons(&mut target);
        target
    }
}

} // verus!
