use turbotanks::{Button, Clickable, DrawItem, GameAction, MenuButtonList};

fn list_of(n: u32) -> MenuButtonList<Button<u32>> {
    let mut list = MenuButtonList::new();
    for i in 0..n {
        list.push_button(Button::new(format!("button {}", i), 100 + i));
    }
    list
}

fn marked_flags(list: &MenuButtonList<Button<u32>>) -> Vec<bool> {
    (0..list.len())
        .map(|i| list.get_button(i).unwrap().is_marked())
        .collect()
}

#[test]
fn new_list_is_empty_with_index_zero() {
    let list: MenuButtonList<Button<u32>> = MenuButtonList::new();
    assert_eq!(list.len(), 0);
    assert_eq!(list.marked_index(), 0);
    assert!(list.get_marked_button().is_none());
}

#[test]
fn first_pushed_button_takes_the_focus() {
    let mut list = MenuButtonList::new();
    list.push_button(Button::new(String::from("only"), 1u32));
    assert_eq!(list.len(), 1);
    assert_eq!(list.marked_index(), 0);
    let focused = list.get_marked_button().unwrap();
    assert!(focused.is_marked());
    assert_eq!(focused.label, "only");
    assert_eq!(focused.effect, 1);
}

#[test]
fn later_pushes_keep_the_focus_and_come_in_unmarked() {
    let mut list = list_of(1);
    let mut eager = Button::new(String::from("eager"), 5u32);
    eager.mark();
    list.push_button(eager);
    list.push_button(Button::new(String::from("last"), 6u32));
    assert_eq!(list.len(), 3);
    assert_eq!(list.marked_index(), 0);
    assert_eq!(marked_flags(&list), vec![true, false, false]);
}

#[test]
fn up_from_the_first_wraps_to_the_last() {
    let mut list = list_of(3);
    assert_eq!(list.marked_index(), 0);
    list.move_marker(GameAction::Up);
    assert_eq!(list.marked_index(), 2);
    assert_eq!(marked_flags(&list), vec![false, false, true]);
}

#[test]
fn down_from_the_last_wraps_to_the_first() {
    let mut list = list_of(3);
    list.move_marker(GameAction::Down);
    list.move_marker(GameAction::Down);
    assert_eq!(list.marked_index(), 2);
    list.move_marker(GameAction::Down);
    assert_eq!(list.marked_index(), 0);
    assert_eq!(marked_flags(&list), vec![true, false, false]);
}

#[test]
fn moves_in_the_middle_step_by_one() {
    let mut list = list_of(4);
    list.move_marker(GameAction::Down);
    assert_eq!(list.marked_index(), 1);
    list.move_marker(GameAction::Down);
    assert_eq!(list.marked_index(), 2);
    list.move_marker(GameAction::Up);
    assert_eq!(list.marked_index(), 1);
    assert_eq!(marked_flags(&list), vec![false, true, false, false]);
}

#[test]
fn exactly_one_button_is_marked_after_every_move() {
    let mut list = list_of(5);
    let moves = [
        GameAction::Down,
        GameAction::Down,
        GameAction::Up,
        GameAction::Up,
        GameAction::Up,
        GameAction::Up,
        GameAction::Down,
        GameAction::Down,
        GameAction::Down,
        GameAction::Down,
        GameAction::Down,
        GameAction::Enter,
        GameAction::Down,
        GameAction::Left,
    ];
    let expected_index = [1, 2, 1, 0, 4, 3, 4, 0, 1, 2, 3, 0, 1, 0];
    for (step, direction) in moves.iter().enumerate() {
        list.move_marker(*direction);
        assert_eq!(list.marked_index(), expected_index[step]);
        let flags = marked_flags(&list);
        assert_eq!(flags.iter().filter(|f| **f).count(), 1);
        assert!(flags[list.marked_index()]);
        assert_eq!(list.len(), 5);
    }
}

#[test]
fn single_button_keeps_the_focus_when_moving() {
    let mut list = list_of(1);
    list.move_marker(GameAction::Down);
    assert_eq!(list.marked_index(), 0);
    assert!(list.get_marked_button().unwrap().is_marked());
    list.move_marker(GameAction::Up);
    assert_eq!(list.marked_index(), 0);
    assert!(list.get_marked_button().unwrap().is_marked());
    assert_eq!(list.len(), 1);
}

#[test]
fn other_actions_send_the_marker_to_the_first_button() {
    let mut list = list_of(3);
    list.move_marker(GameAction::Down);
    list.move_marker(GameAction::Down);
    list.move_marker(GameAction::Right);
    assert_eq!(list.marked_index(), 0);
    assert_eq!(marked_flags(&list), vec![true, false, false]);
}

#[test]
fn update_marked_index_moves_the_index_only() {
    let mut list = list_of(3);
    list.update_marked_index(GameAction::Up);
    assert_eq!(list.marked_index(), 2);
    assert!(!list.get_marked_button().unwrap().is_marked());
    list.update_marked_index(GameAction::Down);
    assert_eq!(list.marked_index(), 0);
    assert!(list.get_marked_button().unwrap().is_marked());
    list.update_marked_index(GameAction::Down);
    assert_eq!(list.marked_index(), 1);
    list.update_marked_index(GameAction::Enter);
    assert_eq!(list.marked_index(), 0);
}

#[test]
fn adjusting_does_not_move_the_focus() {
    let mut list = list_of(3);
    list.move_marker(GameAction::Down);
    for _ in 0..4 {
        list.go_right();
        assert_eq!(list.marked_index(), 1);
        list.go_left();
        assert_eq!(list.marked_index(), 1);
    }
    list.go_left();
    list.go_left();
    assert_eq!(list.marked_index(), 1);
    assert_eq!(list.len(), 3);
    assert_eq!(marked_flags(&list), vec![false, true, false]);
}

#[test]
fn select_gives_the_effect_of_the_focused_button() {
    let mut list = list_of(3);
    assert_eq!(list.select(), Some(100));
    list.move_marker(GameAction::Down);
    assert_eq!(list.select(), Some(101));
    list.move_marker(GameAction::Up);
    list.move_marker(GameAction::Up);
    assert_eq!(list.select(), Some(102));
    assert_eq!(list.marked_index(), 2);
}

#[test]
fn every_operation_on_an_empty_list_leaves_it_empty() {
    let mut list: MenuButtonList<Button<u32>> = MenuButtonList::new();
    list.move_marker(GameAction::Up);
    list.move_marker(GameAction::Down);
    list.update_marked_index(GameAction::Up);
    list.update_marked_index(GameAction::Down);
    list.go_left();
    list.go_right();
    assert_eq!(list.select(), None);
    assert!(list.get_marked_button().is_none());
    let mut target = vec![DrawItem::Image(0)];
    list.draw_buttons(&mut target);
    assert_eq!(target, vec![DrawItem::Image(0)]);
    assert_eq!(list.len(), 0);
    assert_eq!(list.marked_index(), 0);
}

#[test]
fn buttons_are_drawn_in_insertion_order_wherever_the_focus_is() {
    let mut list = list_of(3);
    list.move_marker(GameAction::Up);
    let mut target = vec![DrawItem::Text(4)];
    list.draw_buttons(&mut target);
    assert_eq!(
        target,
        vec![
            DrawItem::Text(4),
            DrawItem::Button(0),
            DrawItem::Button(1),
            DrawItem::Button(2)
        ]
    );
}

#[test]
fn get_button_finds_each_button_by_its_index() {
    let list = list_of(3);
    assert_eq!(list.get_button(0).unwrap().effect, 100);
    assert_eq!(list.get_button(1).unwrap().effect, 101);
    assert_eq!(list.get_button(2).unwrap().label, "button 2");
    assert!(list.get_button(3).is_none());
    let empty: MenuButtonList<Button<u32>> = MenuButtonList::new();
    assert!(empty.get_button(0).is_none());
}

#[test]
fn lists_stay_well_formed_unless_the_index_moves_alone() {
    let mut list: MenuButtonList<Button<u32>> = MenuButtonList::new();
    assert!(list.is_well_formed());
    list.push_button(Button::new(String::from("a"), 1));
    list.push_button(Button::new(String::from("b"), 2));
    assert!(list.is_well_formed());
    list.move_marker(GameAction::Down);
    list.go_right();
    list.go_left();
    assert!(list.is_well_formed());
    list.update_marked_index(GameAction::Down);
    assert_eq!(list.marked_index(), 0);
    assert!(!list.is_well_formed());
    list.update_marked_index(GameAction::Up);
    assert_eq!(list.marked_index(), 1);
    assert!(list.is_well_formed());
}
