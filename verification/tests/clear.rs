use tetrs::game::clear::{ClearType, SpinType};
use tetrs::game::piece::PieceType;

#[test]
fn test_classify_single() {
    let ct = ClearType::classify(1, SpinType::NoSpin, PieceType::T);
    assert_eq!(ct, ClearType::Single);
    assert!(!ct.is_difficult());
}

#[test]
fn test_classify_tetris() {
    let ct = ClearType::classify(4, SpinType::NoSpin, PieceType::I);
    assert_eq!(ct, ClearType::Quad);
    assert!(ct.is_difficult());
}

#[test]
fn test_classify_tspin_double() {
    let ct = ClearType::classify(2, SpinType::TSpin, PieceType::T);
    assert_eq!(ct, ClearType::TSpinDouble);
    assert!(ct.is_difficult());
}

#[test]
fn test_classify_mini_tspin() {
    let ct = ClearType::classify(1, SpinType::MiniTSpin, PieceType::T);
    assert_eq!(ct, ClearType::MiniTSpinSingle);
    assert!(ct.is_difficult());
}

#[test]
fn classify_covers_every_spin_and_line_count() {
    let t = PieceType::T;
    assert_eq!(ClearType::classify(0, SpinType::NoSpin, t), ClearType::NoClear);
    assert_eq!(ClearType::classify(2, SpinType::NoSpin, t), ClearType::Double);
    assert_eq!(ClearType::classify(3, SpinType::NoSpin, t), ClearType::Triple);
    assert_eq!(ClearType::classify(5, SpinType::NoSpin, t), ClearType::Quad);
    assert_eq!(ClearType::classify(0, SpinType::TSpin, t), ClearType::TSpin);
    assert_eq!(ClearType::classify(1, SpinType::TSpin, t), ClearType::TSpinSingle);
    assert_eq!(ClearType::classify(3, SpinType::TSpin, t), ClearType::TSpinTriple);
    assert_eq!(ClearType::classify(4, SpinType::TSpin, t), ClearType::Quad);
    assert_eq!(ClearType::classify(0, SpinType::MiniTSpin, t), ClearType::MiniTSpin);
    assert_eq!(ClearType::classify(2, SpinType::MiniTSpin, t), ClearType::MiniTSpinDouble);
    assert_eq!(ClearType::classify(3, SpinType::MiniTSpin, t), ClearType::Triple);
    assert_eq!(ClearType::classify(0, SpinType::AllSpin, t), ClearType::NoClear);
    assert_eq!(ClearType::classify(2, SpinType::AllSpin, t), ClearType::AllSpin(2));
}

#[test]
fn lines_and_names_of_clear_types() {
    assert_eq!(ClearType::NoClear.lines(), 0);
    assert_eq!(ClearType::TSpin.lines(), 0);
    assert_eq!(ClearType::MiniTSpinSingle.lines(), 1);
    assert_eq!(ClearType::TSpinDouble.lines(), 2);
    assert_eq!(ClearType::Triple.lines(), 3);
    assert_eq!(ClearType::Quad.lines(), 4);
    assert_eq!(ClearType::AllSpin(3).lines(), 3);
    assert_eq!(ClearType::NoClear.display_name(), "");
    assert_eq!(ClearType::Quad.display_name(), "TETRIS");
    assert_eq!(ClearType::TSpinTriple.display_name(), "T-SPIN TRIPLE");
    assert_eq!(ClearType::MiniTSpin.display_name(), "MINI T-SPIN");
    assert_eq!(ClearType::AllSpin(1).display_name(), "ALL-SPIN SINGLE");
    assert_eq!(ClearType::AllSpin(2).display_name(), "ALL-SPIN DOUBLE");
    assert_eq!(ClearType::AllSpin(3).display_name(), "ALL-SPIN TRIPLE");
    assert_eq!(ClearType::AllSpin(4).display_name(), "ALL-SPIN");
}

#[test]
fn difficult_clears_are_quads_and_spins() {
    assert!(!ClearType::NoClear.is_difficult());
    assert!(!ClearType::Double.is_difficult());
    assert!(!ClearType::Triple.is_difficult());
    assert!(ClearType::TSpin.is_difficult());
    assert!(ClearType::MiniTSpin.is_difficult());
    assert!(ClearType::MiniTSpinDouble.is_difficult());
    assert!(ClearType::AllSpin(1).is_difficult());
}
