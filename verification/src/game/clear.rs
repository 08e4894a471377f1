//! Classification of what a locked piece achieved.

use vstd::prelude::*;
use super::piece::PieceType;

verus! {

/// What the last rotation before a lock amounted to.
#[derive(Debug, Clone, Copy, PartialEq, Eq, Structural)]
pub enum SpinType {
    /// No spin.
    NoSpin,
    TSpin,
    MiniTSpin,
    AllSpin,
}

/// The kind of clear that a lock produced.
#[derive(Debug, Clone, Copy, PartialEq, Eq, Structural)]
pub enum ClearType {
    /// Nothing was cleared and there was no spin.
    NoClear,
    Single,
    Double,
    Triple,
    Quad,
    /// A T-spin that cleared no line.
    TSpin,
    TSpinSingle,
    TSpinDouble,
    TSpinTriple,
    /// A mini T-spin that cleared no line.
    MiniTSpin,
    MiniTSpinSingle,
    MiniTSpinDouble,
    /// A spin of another shape that cleared the given number of lines.
    AllSpin(u32),
}

impl ClearType {
    /// The clear type for a number of cleared lines and a spin.
    pub open spec fn spec_classify(lines: u32, spin: SpinType) -> ClearType {
        match spin {
            SpinType::TSpin => if lines == 0 {
                ClearType::TSpin
            } else if lines == 1 {
                ClearType::TSpinSingle
            } else if lines == 2 {
                ClearType::TSpinDouble
            } else if lines == 3 {
                ClearType::TSpinTriple
            } else {
                ClearType::Quad
            },
            SpinType::MiniTSpin => if lines == 0 {
                ClearType::MiniTSpin
            } else if lines == 1 {
                ClearType::MiniTSpinSingle
            } else if lines == 2 {
                ClearType::MiniTSpinDouble
            } else {
                ClearType::Triple
            },
            SpinType::AllSpin => if lines > 0 {
                ClearType::AllSpin(lines)
            } else {
                ClearType::NoClear
            },
            SpinType::NoSpin => if lines == 0 {
                ClearType::NoClear
            } else if lines == 1 {
                ClearType::Single
            } else if lines == 2 {
                ClearType::Double
            } else if lines == 3 {
                ClearType::Triple
            } else {
                ClearType::Quad
            },
        }
    }

    /// Whether the clear keeps a back-to-back chain going: a quad or any spin.
    pub open spec fn spec_is_difficult(&self) -> bool {
        !(self is NoClear || self is Single || self is Double || self is Triple)
    }

    /// The number of lines that the clear type stands for.
    pub open spec fn spec_lines(&self) -> u32 {
        match self {
            ClearType::NoClear | ClearType::TSpin | ClearType::MiniTSpin => 0,
            ClearType::Single | ClearType::TSpinSingle | ClearType::MiniTSpinSingle => 1,
            ClearType::Double | ClearType::TSpinDouble | ClearType::MiniTSpinDouble => 2,
            ClearType::Triple | ClearType::TSpinTriple => 3,
            ClearType::Quad => 4,
            ClearType::AllSpin(n) => *n,
        }
    }

    /// The name shown for the clear type.
    pub open spec fn spec_display_name(&self) -> &'static str {
        match self {
            ClearType::NoClear => "",
            ClearType::Single => "SINGLE",
            ClearType::Double => "DOUBLE",
            ClearType::Triple => "TRIPLE",
            ClearType::Quad => "TETRIS",
            ClearType::TSpin => "T-SPIN",
            ClearType::TSpinSingle => "T-SPIN SINGLE",
            ClearType::TSpinDouble => "T-SPIN DOUBLE",
            ClearType::TSpinTriple => "T-SPIN TRIPLE",
            ClearType::MiniTSpin => "MINI T-SPIN",
            ClearType::MiniTSpinSingle => "MINI T-SPIN SINGLE",
            ClearType::MiniTSpinDouble => "MINI T-SPIN DOUBLE",
            ClearType::AllSpin(n) => if *n == 1 {
                "ALL-SPIN SINGLE"
            } else if *n == 2 {
                "ALL-SPIN DOUBLE"
            } else if *n == 3 {
                "ALL-SPIN TRIPLE"
            } else {
                "ALL-SPIN"
            },
        }
    }

    /// Classifies a lock by the number of lines it cleared and the spin that
    /// preceded it. The shape of the piece does not enter.
    pub fn classify(lines: u32, spin: SpinType, _piece_type: PieceType) -> (clear: ClearType)
        ensures
            clear == Self::spec_classify(lines, spin),
    {
        match spin {
            SpinType::TSpin => match lines {
                0 => ClearType::TSpin,
                1 => ClearType::TSpinSingle,
                2 => ClearType::TSpinDouble,
                3 => ClearType::TSpinTriple,
                _ => ClearType::Quad,
            },
            SpinType::MiniTSpin => match lines {
                0 => ClearType::MiniTSpin,
                1 => ClearType::MiniTSpinSingle,
                2 => ClearType::MiniTSpinDouble,
                _ => ClearType::Triple,
            },
            SpinType::AllSpin => {
                if lines > 0 {
                    ClearType::AllSpin(lines)
                } else {
                    ClearType::NoClear
                }
            },
            SpinType::NoSpin => match lines {
                0 => ClearType::NoClear,
                1 => ClearType::Single,
                2 => ClearType::Double,
                3 => ClearType::Triple,
                _ => ClearType::Quad,
            },
        }
    }

    /// Whether the clear keeps a back-to-back chain going.
    #[verifier::when_used_as_spec(spec_is_difficult)]
    pub fn is_difficult(&self) -> (difficult: bool)
        ensures
            difficult == self.spec_is_difficult(),
    {
        match self {
            ClearType::NoClear | ClearType::Single | ClearType::Double | ClearType::Triple => false,
            _ => true,
        }
    }

    /// The name shown for the clear type; empty for no clear.
    #[verifier::when_used_as_spec(spec_display_name)]
    pub fn display_name(&self) -> (name: &'static str)
        ensures
            name == self.spec_display_name(),
    {
        match self {
            ClearType::NoClear => "",
            ClearType::Single => "SINGLE",
            ClearType::Double => "DOUBLE",
            ClearType::Triple => "TRIPLE",
            ClearType::Quad => "TETRIS",
            ClearType::TSpin => "T-SPIN",
            ClearType::TSpinSingle => "T-SPIN SINGLE",
            ClearType::TSpinDouble => "T-SPIN DOUBLE",
            ClearType::TSpinTriple => "T-SPIN TRIPLE",
            ClearType::MiniTSpin => "MINI T-SPIN",
            ClearType::MiniTSpinSingle => "MINI T-SPIN SINGLE",
            ClearType::MiniTSpinDouble => "MINI T-SPIN DOUBLE",
            ClearType::AllSpin(n) => match *n {
                1 => "ALL-SPIN SINGLE",
                2 => "ALL-SPIN DOUBLE",
                3 => "ALL-SPIN TRIPLE",
                _ => "ALL-SPIN",
            },
        }
    }

    /// The number of lines that the clear type stands for.
    #[verifier::when_used_as_spec(spec_lines)]
    pub fn lines(&self) -> (lines: u32)
        ensures
            lines == self.spec_lines(),
    {
        match self {
            ClearType::NoClear | ClearType::TSpin | ClearType::MiniTSpin => 0,
            ClearType::Single | ClearType::TSpinSingle | ClearType::MiniTSpinSingle => 1,
            ClearType::Double | ClearType::TSpinDouble | ClearType::MiniTSpinDouble => 2,
            ClearType::Triple | ClearType::TSpinTriple => 3,
            ClearType::Quad => 4,
            ClearType::AllSpin(n) => *n,
        }
    }

    /// A classification stands for the number of lines it was made from, as
    /// long as no more than four lines are cleared at once.
    pub proof fn lemma_classify_lines(lines: u32, spin: SpinType)
        requires
            lines <= 4,
            spin is TSpin ==> lines <= 3,
            spin is MiniTSpin ==> lines <= 2,
        ensures
            Self::spec_classify(lines, spin).spec_lines() == lines,
            Self::spec_classify(lines, spin) is NoClear ==> lines == 0,
    {
    }
}

} // verus!
