use turbotanks::{GameAction, Key};

#[test]
fn arrow_keys_map_to_their_actions() {
    assert_eq!(
        GameAction::get_menu_action_from_key(Key::Up),
        Some(GameAction::Up)
    );
    assert_eq!(
        GameAction::get_menu_action_from_key(Key::Down),
        Some(GameAction::Down)
    );
    assert_eq!(
        GameAction::get_menu_action_from_key(Key::Left),
        Some(GameAction::Left)
    );
    assert_eq!(
        GameAction::get_menu_action_from_key(Key::Right),
        Some(GameAction::Right)
    );
}

#[test]
fn letter_keys_are_aliases_of_the_arrows() {
    assert_eq!(
        GameAction::get_menu_action_from_key(Key::W),
        GameAction::get_menu_action_from_key(Key::Up)
    );
    assert_eq!(
        GameAction::get_menu_action_from_key(Key::S),
        GameAction::get_menu_action_from_key(Key::Down)
    );
    assert_eq!(
        GameAction::get_menu_action_from_key(Key::A),
        GameAction::get_menu_action_from_key(Key::Left)
    );
    assert_eq!(
        GameAction::get_menu_action_from_key(Key::D),
        GameAction::get_menu_action_from_key(Key::Right)
    );
    assert_eq!(
        GameAction::get_menu_action_from_key(Key::W),
        Some(GameAction::Up)
    );
    assert_eq!(
        GameAction::get_menu_action_from_key(Key::S),
        Some(GameAction::Down)
    );
    assert_eq!(
        GameAction::get_menu_action_from_key(Key::A),
        Some(GameAction::Left)
    );
    assert_eq!(
        GameAction::get_menu_action_from_key(Key::D),
        Some(GameAction::Right)
    );
}

#[test]
fn return_key_activates() {
    assert_eq!(
        GameAction::get_menu_action_from_key(Key::Return),
        Some(GameAction::Enter)
    );
}

#[test]
fn unbound_key_maps_to_nothing() {
    assert_eq!(GameAction::get_menu_action_from_key(Key::Other), None);
}
