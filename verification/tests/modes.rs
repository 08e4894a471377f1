use tetrs::ai::difficulty::AiDifficulty;
use tetrs::ai::AiPlayer;
use tetrs::config::Config;
use tetrs::flow::{AppState, Command, Flow};
use tetrs::game::{GameAction, GameState};
use tetrs::input::AppInput;
use tetrs::menu::{MenuChoice, MenuScreen};
use tetrs::modes::endless::EndlessMode;
use tetrs::modes::sprint::SprintMode;
use tetrs::modes::versus::VersusMode;
use tetrs::modes::GameMode;
use tetrs::time::Duration;

#[test]
fn a_sprint_ends_with_the_lines_or_the_game() {
    let mut mode = SprintMode::new();
    assert_eq!(mode.target_lines, 40);
    assert_eq!(mode.name(), "SPRINT");
    let mut game = GameState::new();
    mode.on_start(&mut game);
    game.start();
    game.scoring.lines_cleared = 12;
    assert!(mode.check_complete(&game).is_none());
    assert_eq!(mode.info_text(&game).unwrap(), "28 lines left");
    game.scoring.lines_cleared = 40;
    game.stats.time = Duration::from_millis(83_450);
    game.stats.pieces_placed = 101;
    let result = mode.check_complete(&game).unwrap();
    assert_eq!(result.mode_name, "40-Line Sprint");
    assert_eq!(result.primary_label, "TIME");
    assert_eq!(result.primary_value, "01:23.450");
    assert!(!result.is_new_high_score);
    assert_eq!(result.won, None);
    assert_eq!(result.stats.pieces_placed, 101);
    assert_eq!(mode.info_text(&game).unwrap(), "0 lines left");
    game.scoring.lines_cleared = 3;
    game.game_over = true;
    assert!(mode.check_complete(&game).is_some());
}

#[test]
fn a_marathon_ends_with_the_game() {
    let mut mode = EndlessMode::new();
    assert_eq!(mode.name(), "ENDLESS");
    let mut game = GameState::new();
    game.start();
    mode.on_update(&mut game);
    game.scoring.score = 1234567;
    assert!(mode.check_complete(&game).is_none());
    assert!(mode.info_text(&game).is_none());
    game.game_over = true;
    let result = mode.check_complete(&game).unwrap();
    assert_eq!(result.mode_name, "Endless Marathon");
    assert_eq!(result.primary_label, "SCORE");
    assert_eq!(result.primary_value, "1,234,567");
    assert_eq!(result.won, None);
}

#[test]
fn a_versus_game_ends_when_either_side_tops_out() {
    let mut mode = VersusMode::new(AiDifficulty::Hard);
    assert_eq!(mode.name(), "VERSUS");
    let mut game = GameState::new();
    game.start();
    mode.on_start(&mut game);
    assert!(mode.ai_game.started);
    assert!(mode.check_complete(&game).is_none());
    game.stats.attack_sent = 17;
    game.stats.garbage_received = 4;
    assert_eq!(mode.info_text(&game).unwrap(), "ATK:17 RCV:4");
    mode.ai_game.game_over = true;
    let result = mode.check_complete(&game).unwrap();
    assert_eq!(result.mode_name, "Versus AI (Hard)");
    assert_eq!(result.primary_label, "VICTORY");
    assert_eq!(result.primary_value, "ATK: 17 | DMG: 4");
    assert_eq!(result.won, Some(true));
    game.game_over = true;
    let result = mode.check_complete(&game).unwrap();
    assert_eq!(result.primary_label, "DEFEAT");
    assert_eq!(result.won, Some(false));
}

#[test]
fn the_opponent_plays_its_own_board() {
    let mut mode = VersusMode::new(AiDifficulty::Expert);
    let mut game = GameState::new();
    mode.on_start(&mut game);
    let mut steps = 0;
    while mode.ai_game.stats.pieces_placed < 3 && steps < 2000 {
        assert!(mode.update_ai(Duration::from_millis(16)));
        steps += 1;
    }
    assert_eq!(mode.ai_game.stats.pieces_placed, 3);
    assert!(!mode.ai_game.board.is_empty());
    assert!(mode.ai_game.stats.inputs >= 3);
    mode.ai_game.stats.attack_sent = 6;
    assert_eq!(mode.drain_ai_attack(), 6);
    assert!(mode.ai_game.events.is_empty());
    mode.ai_game.game_over = true;
    let before = mode.ai_game.stats.time;
    assert!(mode.update_ai(Duration::from_millis(16)));
    assert_eq!(mode.ai_game.stats.time, before);
}

#[test]
fn attack_crosses_between_the_two_games() {
    let mut mode = VersusMode::new(AiDifficulty::Medium);
    let mut game = GameState::new();
    game.start();
    mode.on_start(&mut game);
    game.stats.attack_sent = 5;
    mode.ai_game.stats.attack_sent = 3;
    let (last, stepped) = mode.exchange(&mut game, 1, Duration::from_millis(16));
    assert!(stepped);
    assert_eq!(last, 5);
    // the opponent's queue took the four new lines, the player's the three
    assert_eq!(mode.ai_game.garbage.pending(), 4);
    assert_eq!(game.garbage.pending(), 3);
    let (last, _) = mode.exchange(&mut game, last, Duration::from_millis(16));
    assert_eq!(last, 5);
    assert_eq!(mode.ai_game.garbage.pending(), 4);
    assert_eq!(game.garbage.pending(), 3);
}

#[test]
fn the_opponent_stops_where_a_counter_is_full() {
    let mut mode = VersusMode::new(AiDifficulty::Medium);
    let mut game = GameState::new();
    mode.on_start(&mut game);
    mode.ai_game.stats.inputs = u32::MAX;
    assert!(!mode.ai_game.can_act());
    assert!(!mode.update_ai(Duration::from_millis(16)));
    assert_eq!(mode.ai_game.stats.time, Duration::zero());
    mode.ai_game.stats.inputs = 0;
    assert!(mode.ai_game.can_act());
    assert!(mode.ai_game.can_update(Duration::from_millis(16)));
    assert!(mode.ai_game.can_update(Duration::from_nanos(u128::MAX)));
    mode.ai_game.stats.time = Duration::from_nanos(1);
    assert!(!mode.ai_game.can_update(Duration::from_nanos(u128::MAX)));
    mode.ai_game.scoring.score = u64::MAX - 100;
    assert!(!mode.ai_game.can_act());
}

#[test]
fn the_menu_cursor_wraps_around() {
    let mut menu = MenuScreen::new();
    assert_eq!(menu.items.len(), 5);
    assert_eq!(menu.items[0].label, "40 Lines Sprint");
    assert_eq!(menu.items[4].description, "Exit the game");
    assert_eq!(menu.selected_choice(), MenuChoice::Sprint);
    menu.move_up();
    assert_eq!(menu.selected, 4);
    assert_eq!(menu.selected_choice(), MenuChoice::Quit);
    menu.move_down();
    assert_eq!(menu.selected_choice(), MenuChoice::Sprint);
    menu.move_down();
    assert_eq!(menu.selected_choice(), MenuChoice::Endless);
    menu.move_down();
    assert_eq!(menu.selected_choice(), MenuChoice::Versus);
    menu.move_down();
    assert_eq!(menu.selected_choice(), MenuChoice::HighScores);
    menu.move_up();
    assert_eq!(menu.selected, 2);
}

#[test]
fn the_flow_through_the_screens() {
    let mut flow = Flow::new();
    assert_eq!(flow.state, AppState::Menu);
    assert_eq!(flow.difficulty_selected, 1);
    let sprint = MenuChoice::Sprint;
    assert_eq!(flow.handle_input(AppInput::MenuUp, sprint), Command::MenuUp);
    assert_eq!(flow.handle_input(AppInput::MenuDown, sprint), Command::MenuDown);
    assert_eq!(flow.handle_input(AppInput::Pause, sprint), Command::Stay);
    assert_eq!(flow.handle_input(AppInput::MenuSelect, MenuChoice::Quit), Command::Exit);
    assert_eq!(flow.handle_input(AppInput::MenuBack, sprint), Command::Exit);
    assert_eq!(flow.state, AppState::Menu);

    assert_eq!(flow.handle_input(AppInput::MenuSelect, MenuChoice::Versus), Command::Stay);
    assert_eq!(flow.state, AppState::DifficultySelect);
    flow.handle_input(AppInput::MenuUp, sprint);
    assert_eq!(flow.difficulty_selected, 0);
    flow.handle_input(AppInput::MenuUp, sprint);
    assert_eq!(flow.difficulty_selected, 3);
    flow.handle_input(AppInput::MenuDown, sprint);
    assert_eq!(flow.difficulty_selected, 0);
    flow.handle_input(AppInput::MenuDown, sprint);
    flow.handle_input(AppInput::MenuDown, sprint);
    assert_eq!(
        flow.handle_input(AppInput::MenuSelect, sprint),
        Command::StartVersus(AiDifficulty::Hard)
    );
    assert_eq!(flow.state, AppState::Playing);

    let left = AppInput::Game(GameAction::MoveLeft);
    assert_eq!(flow.handle_input(left, sprint), Command::Play(GameAction::MoveLeft));
    assert_eq!(flow.handle_input(AppInput::Restart, sprint), Command::Restart);
    assert_eq!(flow.handle_input(AppInput::Pause, sprint), Command::ReleaseKeys);
    assert_eq!(flow.state, AppState::Paused);
    assert_eq!(flow.handle_input(left, sprint), Command::Stay);
    assert_eq!(flow.handle_input(AppInput::Pause, sprint), Command::Stay);
    assert_eq!(flow.state, AppState::Playing);
    flow.handle_input(AppInput::Pause, sprint);
    assert_eq!(flow.handle_input(AppInput::Restart, sprint), Command::Restart);
    assert_eq!(flow.state, AppState::Playing);
    assert_eq!(
        flow.handle_input(AppInput::Quit, sprint),
        Command::LeaveGame { release_keys: true }
    );
    assert_eq!(flow.state, AppState::Menu);

    assert_eq!(flow.handle_input(AppInput::MenuSelect, MenuChoice::Endless), Command::StartEndless);
    flow.state = AppState::GameOver;
    assert_eq!(flow.handle_input(AppInput::MenuSelect, sprint), Command::Restart);
    assert_eq!(flow.state, AppState::Playing);
    flow.state = AppState::GameOver;
    assert_eq!(
        flow.handle_input(AppInput::MenuBack, sprint),
        Command::LeaveGame { release_keys: false }
    );

    assert_eq!(flow.handle_input(AppInput::MenuSelect, MenuChoice::HighScores), Command::Stay);
    assert_eq!(flow.state, AppState::HighScores);
    flow.handle_input(AppInput::MenuLeft, sprint);
    assert_eq!(flow.hs_tab, 0);
    flow.handle_input(AppInput::MenuRight, sprint);
    flow.handle_input(AppInput::MenuRight, sprint);
    flow.handle_input(AppInput::MenuRight, sprint);
    assert_eq!(flow.hs_tab, 2);
    flow.handle_input(AppInput::MenuLeft, sprint);
    assert_eq!(flow.hs_tab, 1);
    flow.handle_input(AppInput::Quit, sprint);
    assert_eq!(flow.state, AppState::Menu);
    assert_eq!(flow.handle_input(AppInput::MenuSelect, sprint), Command::StartSprint);
    flow.state = AppState::Quitting;
    assert_eq!(flow.handle_input(AppInput::Idle, sprint), Command::Exit);
}

#[test]
fn the_default_configuration() {
    let config = Config::default();
    assert_eq!(config.das_delay_ms, 133);
    assert_eq!(config.arr_delay_ms, 0);
    assert_eq!(config.sd_arr_delay_ms, 0);
}

#[test]
fn the_opponent_starts_a_fresh_game() {
    let mut mode = VersusMode::new(AiDifficulty::Hard);
    let mut game = GameState::new();
    mode.ai_game.start();
    mode.ai_game.handle_action(GameAction::HardDrop);
    mode.ai_game.garbage.add(5);
    mode.ai_game.game_over = true;
    mode.ai.last_attack_sent = 9;
    mode.on_start(&mut game);
    let piece = mode.ai_game.current_piece.unwrap();
    assert_eq!(piece, tetrs::game::piece::Piece::new(piece.piece_type));
    assert!(mode.ai_game.started);
    assert!(!mode.ai_game.game_over);
    assert!(mode.ai_game.board.is_empty());
    assert_eq!(mode.ai_game.stats, tetrs::game::stats::Stats::new());
    assert_eq!(mode.ai_game.scoring, tetrs::game::scoring::Scoring::new());
    assert_eq!(mode.ai_game.garbage.pending(), 0);
    assert!(mode.ai_game.events.is_empty());
    assert_eq!(mode.ai_game.bag.pieces_drawn(), 1);
    assert_eq!(mode.ai, AiPlayer::new(AiDifficulty::Hard));
    assert!(!game.started);
}

#[test]
fn attack_is_queued_even_where_the_opponent_takes_no_turn() {
    // the opponent's game is over
    let mut mode = VersusMode::new(AiDifficulty::Medium);
    let mut game = GameState::new();
    game.start();
    mode.on_start(&mut game);
    mode.ai_game.game_over = true;
    mode.ai_game.stats.attack_sent = 2;
    game.stats.attack_sent = 7;
    let (last, stepped) = mode.exchange(&mut game, 3, Duration::from_millis(16));
    assert_eq!((last, stepped), (7, true));
    assert_eq!(mode.ai_game.garbage.pending(), 4);
    assert_eq!(game.garbage.pending(), 2);
    assert_eq!(mode.ai_game.stats.time, Duration::zero());

    // a counter of the opponent's game is full
    let mut mode = VersusMode::new(AiDifficulty::Medium);
    let mut game = GameState::new();
    game.start();
    mode.on_start(&mut game);
    mode.ai_game.stats.inputs = u32::MAX;
    game.stats.attack_sent = 6;
    let before = mode.ai;
    let (last, stepped) = mode.exchange(&mut game, 0, Duration::from_millis(16));
    assert_eq!((last, stepped), (6, false));
    assert_eq!(mode.ai_game.garbage.pending(), 6);
    assert_eq!(mode.ai_game.stats.time, Duration::zero());
    assert_eq!(mode.ai, before);
}

#[test]
fn the_opponent_takes_its_turn_whenever_there_is_room() {
    let mut mode = VersusMode::new(AiDifficulty::Expert);
    let mut game = GameState::new();
    mode.on_start(&mut game);
    let mut elapsed = Duration::zero();
    for _ in 0..200 {
        assert!(mode.ai_game.can_update(Duration::from_millis(16)));
        assert!(mode.update_ai(Duration::from_millis(16)));
        elapsed = elapsed.checked_add(Duration::from_millis(16)).unwrap();
        assert_eq!(mode.ai_game.stats.time, elapsed);
        if mode.ai_game.game_over {
            break;
        }
    }
    assert!(mode.ai_game.stats.pieces_placed > 0);
}

#[test]
fn a_turn_stops_where_room_runs_out_after_the_action() {
    let mut mode = VersusMode::new(AiDifficulty::Expert);
    let mut game = GameState::new();
    mode.on_start(&mut game);
    // let the opponent think until its next step gives an action
    let mut guard = 0;
    while mode.ai.think_timer > Duration::zero() || mode.ai.target.is_none() {
        assert!(mode.update_ai(Duration::from_millis(25)));
        guard += 1;
        assert!(guard < 100);
    }
    // room for one more input, none after it
    mode.ai_game.stats.inputs = u32::MAX - 1;
    let time = mode.ai_game.stats.time;
    assert!(!mode.update_ai(Duration::from_millis(40)));
    assert_eq!(mode.ai_game.stats.inputs, u32::MAX);
    assert_eq!(mode.ai_game.stats.time, time);
}
