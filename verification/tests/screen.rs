use tetrs::ai::difficulty::AiDifficulty;
use tetrs::game::board::{Board, Cell};
use tetrs::game::clear::ClearType;
use tetrs::game::piece::{Piece, PieceType};
use tetrs::layout::{
    check_size_single, check_size_versus, single_fits, versus_fits, Area, SingleLayout,
    VersusLayout,
};
use tetrs::scores::HighScoreStore;
use tetrs::theme::{btb_color, cell_look, clear_type_color, combo_color, level_color, CellLook};

#[test]
fn areas_are_cut_at_the_greatest_coordinate() {
    assert_eq!(
        Area::new(1, 2, 3, 4),
        Area {
            x: 1,
            y: 2,
            width: 3,
            height: 4
        }
    );
    let cut = Area::new(65_530, 65_535, 10, 10);
    assert_eq!((cut.width, cut.height), (5, 0));
}

#[test]
fn the_layout_of_one_board_is_centred() {
    let area = Area::new(0, 0, 80, 30);
    assert!(check_size_single(area));
    assert!(!check_size_versus(area));
    assert!(single_fits(area));
    let layout = SingleLayout::new(area);
    // 80 - 48 leaves 16 to the left, 30 - 24 leaves 3 above
    assert_eq!(layout.hold, Area::new(16, 3, 12, 5));
    assert_eq!(layout.left_sidebar, Area::new(16, 9, 12, 16));
    assert_eq!(layout.board, Area::new(29, 3, 22, 22));
    assert_eq!(layout.garbage_bar, Area::new(28, 4, 1, 20));
    assert_eq!(layout.next, Area::new(52, 3, 12, 12));
    assert_eq!(layout.right_sidebar, Area::new(52, 15, 12, 10));
    assert_eq!(layout.action_text, Area::new(31, 14, 20, 4));
    assert_eq!(layout.controls, Area::new(16, 25, 48, 2));

    let small = Area::new(5, 7, 20, 10);
    assert!(!check_size_single(small));
    assert_eq!(SingleLayout::new(small).board, Area::new(18, 7, 22, 22));
    assert!(!single_fits(Area::new(65_500, 0, 20, 10)));
    assert!(!check_size_single(Area::new(0, 0, 56, 25)));
    assert!(check_size_single(Area::new(0, 0, 56, 26)));
}

#[test]
fn the_layout_of_two_boards_side_by_side() {
    let area = Area::new(0, 0, 120, 24);
    assert!(!check_size_versus(area));
    assert!(check_size_versus(Area::new(0, 0, 106, 26)));
    assert!(versus_fits(area));
    let layout = VersusLayout::new(area);
    assert_eq!(layout.player, SingleLayout::new(Area::new(10, 0, 48, 24)));
    assert_eq!(layout.ai, SingleLayout::new(Area::new(62, 0, 48, 24)));
    assert_eq!(layout.center, Area::new(58, 9, 4, 5));
    assert_eq!(layout.player.board.x, 23);
    assert_eq!(layout.ai.board.x, 75);
    assert!(!versus_fits(Area::new(65_450, 0, 80, 30)));
}

#[test]
fn colours_follow_the_state_of_the_game() {
    assert_eq!(level_color(0), (80, 200, 120));
    assert_eq!(level_color(2), (80, 200, 120));
    assert_eq!(level_color(3), (200, 200, 60));
    assert_eq!(level_color(8), (230, 150, 50));
    assert_eq!(level_color(12), (220, 60, 60));
    assert_eq!(level_color(16), (180, 60, 220));
    assert_eq!(level_color(20), (220, 100, 255));
    assert_eq!(level_color(21), (255, 180, 255));
    assert_eq!(combo_color(2), (200, 205, 215));
    assert_eq!(combo_color(5), (255, 255, 100));
    assert_eq!(combo_color(9), (255, 180, 50));
    assert_eq!(combo_color(14), (255, 80, 80));
    assert_eq!(combo_color(15), (255, 100, 255));
    assert_eq!(btb_color(0), (255, 200, 60));
    assert_eq!(btb_color(5), (255, 160, 40));
    assert_eq!(btb_color(6), (255, 120, 200));
    assert_eq!(clear_type_color(&ClearType::NoClear), (100, 105, 120));
    assert_eq!(clear_type_color(&ClearType::Quad), (255, 215, 60));
    assert_eq!(clear_type_color(&ClearType::MiniTSpin), (200, 80, 255));
    assert_eq!(clear_type_color(&ClearType::TSpinTriple), (255, 180, 255));
    assert_eq!(clear_type_color(&ClearType::AllSpin(2)), (100, 255, 200));
    assert_eq!(PieceType::I.color(), (101, 219, 200));
    assert_eq!(PieceType::L.color(), (237, 169, 63));
    assert_eq!(PieceType::T.bright_color(), (225, 100, 240));
    assert_eq!(PieceType::I.dim_color(), (50, 110, 100));
    assert_eq!(PieceType::Z.dim_color(), (108, 29, 20));
}

#[test]
fn what_a_cell_shows() {
    let mut board = Board::new();
    board.set(0, 0, Cell::Filled(PieceType::S));
    board.set(1, 0, Cell::Garbage);
    board.set(1, 1, Cell::Garbage);
    board.set(9, 17, Cell::Filled(PieceType::J));
    let mut piece = Piece::new(PieceType::T);
    piece.y = 10;
    let p = Some(&piece);
    let look = |col, row| cell_look(&board, p, &[5], true, col, row);
    assert_eq!(look(4, 10), CellLook::Active(PieceType::T));
    assert_eq!(look(4, 11), CellLook::Active(PieceType::T));
    assert_eq!(look(4, 0), CellLook::Shadow);
    assert_eq!(look(4, 1), CellLook::Shadow);
    assert_eq!(look(3, 5), CellLook::Flash);
    assert_eq!(look(0, 0), CellLook::Block { piece_type: PieceType::S, near_top: false });
    assert_eq!(look(9, 17), CellLook::Block { piece_type: PieceType::J, near_top: true });
    assert_eq!(look(1, 0), CellLook::Garbage { dark: false });
    assert_eq!(look(1, 1), CellLook::Garbage { dark: true });
    assert_eq!(look(7, 7), CellLook::Dot);
    assert_eq!(cell_look(&board, None, &[], false, 7, 7), CellLook::Blank);
    assert_eq!(cell_look(&board, None, &[], false, 4, 0), CellLook::Blank);
    // a piece at rest has no ghost
    piece.y = 0;
    assert_eq!(cell_look(&board, Some(&piece), &[], false, 4, 1), CellLook::Active(PieceType::T));
    assert_eq!(cell_look(&board, Some(&piece), &[], false, 6, 0), CellLook::Blank);
    assert_eq!(
        cell_look(&board, None, &[], false, -1, 3),
        CellLook::Block { piece_type: PieceType::I, near_top: false }
    );
}

#[test]
fn sprints_are_listed_fastest_first() {
    let mut store = HighScoreStore::new();
    assert!(store.add_sprint(90_000, 40, 100, 1));
    assert!(!store.add_sprint(95_000, 40, 110, 2));
    assert!(store.add_sprint(80_000, 40, 98, 3));
    assert!(!store.add_sprint(90_000, 40, 105, 4));
    let times: Vec<(u64, i64)> = store.sprint.iter().map(|e| (e.time_ms, e.date)).collect();
    assert_eq!(times, vec![(80_000, 3), (90_000, 1), (90_000, 4), (95_000, 2)]);
    for i in 0..20 {
        store.add_sprint(100_000 + i, 40, 100, 10 + i as i64);
    }
    assert_eq!(store.sprint.len(), 10);
    assert_eq!(store.sprint[9].time_ms, 100_005);
    assert!(!store.add_sprint(200_000, 40, 100, 99));
    assert_eq!(store.sprint.len(), 10);
    assert_eq!(store.sprint[9].time_ms, 100_005);
    assert!(store.endless.is_empty() && store.versus.is_empty());
}

#[test]
fn an_unsorted_list_is_put_in_order() {
    let mut store = HighScoreStore::new();
    store.add_sprint(3, 40, 1, 0);
    store.add_sprint(1, 40, 1, 0);
    store.sprint.swap(0, 1);
    store.add_sprint(2, 40, 1, 0);
    let times: Vec<u64> = store.sprint.iter().map(|e| e.time_ms).collect();
    assert_eq!(times, vec![1, 2, 3]);
}

#[test]
fn marathons_are_listed_highest_first() {
    let mut store = HighScoreStore::new();
    assert!(store.add_endless(5_000, 3, 30, 1));
    assert!(store.add_endless(9_000, 5, 50, 2));
    assert!(!store.add_endless(9_000, 4, 44, 3));
    assert!(!store.add_endless(100, 0, 1, 4));
    let scores: Vec<(u64, i64)> = store.endless.iter().map(|e| (e.score, e.date)).collect();
    assert_eq!(scores, vec![(9_000, 2), (9_000, 3), (5_000, 1), (100, 4)]);
}

#[test]
fn versus_games_are_listed_wins_first() {
    let mut store = HighScoreStore::new();
    assert!(store.add_versus(false, Some(AiDifficulty::Easy), 1000, 10, 1));
    assert!(store.add_versus(true, Some(AiDifficulty::Hard), 2000, 5, 2));
    assert!(!store.add_versus(true, None, 3000, 30, 3));
    assert!(!store.add_versus(false, Some(AiDifficulty::Expert), 4000, 40, 4));
    let order: Vec<(bool, u32)> = store.versus.iter().map(|e| (e.won, e.damage_sent)).collect();
    assert_eq!(order, vec![(true, 30), (true, 5), (false, 40), (false, 10)]);
    assert_eq!(store.versus[0].difficulty, None);
}
