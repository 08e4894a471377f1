use tetrs::game::GameAction;
use tetrs::input::das::DasPhase;
use tetrs::input::keybinds::{default_keybinds, format_key, Action, Key, KeybindMap};
use tetrs::input::{AppInput, InputHandler, KeyEventKind};
use tetrs::time::Duration;

#[test]
fn default_bindings_in_a_game() {
    let map = KeybindMap::new();
    assert_eq!(map.resolve_game(Key::Char('h')), Some(Action::MoveLeft));
    assert_eq!(map.resolve_game(Key::Left), Some(Action::MoveLeft));
    assert_eq!(map.resolve_game(Key::Char('l')), Some(Action::MoveRight));
    assert_eq!(map.resolve_game(Key::Char('j')), Some(Action::SoftDrop));
    assert_eq!(map.resolve_game(Key::Down), Some(Action::SoftDrop));
    assert_eq!(map.resolve_game(Key::Char('k')), Some(Action::HardDrop));
    assert_eq!(map.resolve_game(Key::Char(' ')), Some(Action::HardDrop));
    assert_eq!(map.resolve_game(Key::Char('x')), Some(Action::RotateCW));
    assert_eq!(map.resolve_game(Key::Char('z')), Some(Action::RotateCCW));
    assert_eq!(map.resolve_game(Key::Char('a')), Some(Action::Rotate180));
    assert_eq!(map.resolve_game(Key::Char('c')), Some(Action::Hold));
    assert_eq!(map.resolve_game(Key::Esc), Some(Action::Pause));
    assert_eq!(map.resolve_game(Key::Char('q')), Some(Action::Quit));
    assert_eq!(map.resolve_game(Key::Char('r')), Some(Action::Restart));
    assert_eq!(map.resolve_game(Key::Enter), None);
    assert_eq!(map.resolve_game(Key::Char('y')), None);
    assert_eq!(map.resolve_game(Key::Other), None);
}

#[test]
fn default_bindings_in_a_menu() {
    let map = KeybindMap::new();
    assert_eq!(map.resolve_menu(Key::Char('k')), Some(Action::MenuUp));
    assert_eq!(map.resolve_menu(Key::Down), Some(Action::MenuDown));
    assert_eq!(map.resolve_menu(Key::Char('h')), Some(Action::MenuLeft));
    assert_eq!(map.resolve_menu(Key::Right), Some(Action::MenuRight));
    assert_eq!(map.resolve_menu(Key::Enter), Some(Action::MenuSelect));
    assert_eq!(map.resolve_menu(Key::Char(' ')), Some(Action::MenuSelect));
    assert_eq!(map.resolve_menu(Key::Esc), Some(Action::MenuBack));
    assert_eq!(map.resolve_menu(Key::Char('q')), Some(Action::Quit));
    assert_eq!(map.resolve_menu(Key::Char('x')), None);
    assert_eq!(default_keybinds().len(), 17);
}

#[test]
fn keys_are_shown_by_name() {
    assert_eq!(format_key(Key::Char(' ')), "Space");
    assert_eq!(format_key(Key::Char('w')), "w");
    assert_eq!(format_key(Key::Left), "←");
    assert_eq!(format_key(Key::Right), "→");
    assert_eq!(format_key(Key::Up), "↑");
    assert_eq!(format_key(Key::Down), "↓");
    assert_eq!(format_key(Key::Enter), "Enter");
    assert_eq!(format_key(Key::Esc), "Esc");
    assert_eq!(format_key(Key::Tab), "Tab");
    assert_eq!(format_key(Key::Backspace), "Bksp");
    assert_eq!(format_key(Key::Other), "?");
    let map = KeybindMap::new();
    assert_eq!(map.key_display(Action::MoveLeft), "h");
    assert_eq!(map.key_display(Action::Pause), "Esc");
    assert_eq!(map.key_display(Action::MenuSelect), "Enter");
}

#[test]
fn presses_with_release_events_drive_the_held_keys() {
    let mut handler = InputHandler::new(true);
    handler.in_game = true;
    let mut actions = Vec::new();
    handler.process_key(Key::Char('h'), KeyEventKind::Press, &mut actions);
    assert_eq!(actions, vec![AppInput::Game(GameAction::MoveLeft)]);
    assert!(handler.das.left.pressed);
    handler.process_key(Key::Char('h'), KeyEventKind::Repeat, &mut actions);
    assert_eq!(actions.len(), 1);
    handler.process_key(Key::Right, KeyEventKind::Press, &mut actions);
    assert!(!handler.das.left.pressed);
    assert_eq!(handler.das.right.phase, DasPhase::Charging);
    handler.process_key(Key::Down, KeyEventKind::Press, &mut actions);
    handler.process_key(Key::Down, KeyEventKind::Release, &mut actions);
    handler.process_key(Key::Right, KeyEventKind::Release, &mut actions);
    handler.process_key(Key::Char('k'), KeyEventKind::Press, &mut actions);
    handler.process_key(Key::Esc, KeyEventKind::Press, &mut actions);
    handler.process_key(Key::Enter, KeyEventKind::Press, &mut actions);
    assert_eq!(
        actions[1..],
        [
            AppInput::Game(GameAction::MoveRight),
            AppInput::Game(GameAction::SoftDrop),
            AppInput::Game(GameAction::SoftDropRelease),
            AppInput::Game(GameAction::HardDrop),
            AppInput::Pause,
        ]
    );
    assert!(!handler.das.right.pressed);
    assert!(!handler.das.soft_drop.pressed);
}

#[test]
fn presses_without_release_events_count_once_each() {
    let mut handler = InputHandler::new(false);
    handler.in_game = true;
    let mut actions = Vec::new();
    handler.process_key(Key::Char('h'), KeyEventKind::Press, &mut actions);
    handler.process_key(Key::Char('h'), KeyEventKind::Repeat, &mut actions);
    handler.process_key(Key::Char('j'), KeyEventKind::Repeat, &mut actions);
    handler.process_key(Key::Char('k'), KeyEventKind::Repeat, &mut actions);
    handler.process_key(Key::Char('k'), KeyEventKind::Press, &mut actions);
    handler.process_key(Key::Char('g'), KeyEventKind::Repeat, &mut actions);
    handler.process_key(Key::Char('g'), KeyEventKind::Press, &mut actions);
    handler.process_key(Key::Char('h'), KeyEventKind::Release, &mut actions);
    handler.process_key(Key::Char('r'), KeyEventKind::Press, &mut actions);
    assert_eq!(
        actions,
        vec![
            AppInput::Game(GameAction::MoveLeft),
            AppInput::Game(GameAction::MoveLeft),
            AppInput::Game(GameAction::SoftDrop),
            AppInput::Game(GameAction::SoftDropRelease),
            AppInput::Game(GameAction::HardDrop),
            AppInput::Game(GameAction::Hold),
            AppInput::Restart,
        ]
    );
    assert!(!handler.das.left.pressed);
    assert_eq!(handler.tick_das(Duration::from_millis(500)), vec![]);
}

#[test]
fn menu_keys_count_on_the_press_only() {
    let mut handler = InputHandler::new(true);
    let mut actions = Vec::new();
    handler.process_key(Key::Char('j'), KeyEventKind::Press, &mut actions);
    handler.process_key(Key::Char('j'), KeyEventKind::Repeat, &mut actions);
    handler.process_key(Key::Char('j'), KeyEventKind::Release, &mut actions);
    handler.process_key(Key::Enter, KeyEventKind::Press, &mut actions);
    handler.process_key(Key::Char('q'), KeyEventKind::Press, &mut actions);
    handler.process_key(Key::Esc, KeyEventKind::Press, &mut actions);
    handler.process_key(Key::Char('x'), KeyEventKind::Press, &mut actions);
    assert_eq!(
        actions,
        vec![
            AppInput::MenuDown,
            AppInput::MenuSelect,
            AppInput::Quit,
            AppInput::MenuBack
        ]
    );
}

#[test]
fn held_keys_repeat_in_a_game() {
    let mut handler = InputHandler::new(true);
    handler.in_game = true;
    handler.das.arr_delay = Duration::from_millis(20);
    let mut actions = Vec::new();
    handler.process_key(Key::Left, KeyEventKind::Press, &mut actions);
    assert_eq!(handler.tick_das(Duration::from_millis(100)), vec![]);
    assert_eq!(
        handler.tick_das(Duration::from_millis(60)),
        vec![GameAction::MoveLeft, GameAction::MoveLeft]
    );
    handler.process_key(Key::Right, KeyEventKind::Press, &mut actions);
    assert_eq!(
        handler.tick_das(Duration::from_millis(133)),
        vec![GameAction::MoveRight]
    );
    handler.in_game = false;
    assert_eq!(handler.tick_das(Duration::from_millis(500)), vec![]);
    handler.reset_das();
    assert!(!handler.das.right.pressed);
    assert_eq!(handler.das.arr_delay, Duration::from_millis(20));
}
