//! Gravity: how fast the piece in play falls at each level.
//!
//! At level `n` a piece falls one row every `(0.8 - 0.007 n)^n` seconds, the
//! base never taken below a thousandth. A soft drop is twenty times as fast.
//! No interval is shorter than a millisecond. Intervals are counted in
//! nanoseconds, rounded to the nearest one.

use vstd::prelude::*;
use crate::time::Duration;

verus! {

/// How many times faster a soft drop falls.
pub const SOFT_DROP_FACTOR: u128 = 20;

/// The shortest fall interval, in nanoseconds.
pub const MIN_INTERVAL_NANOS: u128 = 1_000_000;

/// The most rows that one tick lets a piece fall.
pub const MAX_DROPS_PER_TICK: u32 = 20;

/// Fall intervals in nanoseconds for the levels below 18; from level 18 on
/// the interval is the shortest one.
pub const FALL_NANOS: [u128; 18] = [
    1_000_000_000,
    793_000_000,
    617_796_000,
    472_729_139,
    355_196_928,
    262_003_550,
    189_677_245,
    134_734_731,
    93_882_249,
    64_151_585,
    42_976_258,
    28_217_678,
    18_153_329,
    11_439_342,
    7_058_616,
    4_263_557,
    2_520_084,
    1_457_139,
];

/// Fall intervals of a soft drop in nanoseconds for the levels below 12; from
/// level 12 on the interval is the shortest one.
pub const SOFT_FALL_NANOS: [u128; 12] = [
    50_000_000,
    39_650_000,
    30_889_800,
    23_636_457,
    17_759_846,
    13_100_177,
    9_483_862,
    6_736_737,
    4_694_112,
    3_207_579,
    2_148_813,
    1_410_884,
];

/// `base` to the power `exp`.
pub open spec fn power(base: int, exp: nat) -> int
    decreases exp,
{
    if exp == 0 {
        1
    } else {
        base * power(base, (exp - 1) as nat)
    }
}

/// The base of the fall interval at a level, in thousandths: `800 - 7 * level`,
/// but at least 1.
pub open spec fn fall_base(level: nat) -> int {
    if 800 - 7 * level >= 1 {
        800 - 7 * level
    } else {
        1
    }
}

/// By how much the interval is divided.
pub open spec fn fall_divisor(soft_dropping: bool) -> int {
    if soft_dropping {
        20
    } else {
        1
    }
}

/// The fall interval in nanoseconds: `(fall_base / 1000)^level` seconds,
/// divided by twenty for a soft drop, rounded to the nearest nanosecond, and
/// at least a millisecond.
pub open spec fn interval_nanos(level: nat, soft_dropping: bool) -> int {
    let num = 1_000_000_000 * power(fall_base(level), level);
    let den = power(1000, level) * fall_divisor(soft_dropping);
    let rounded = (2 * num + den) / (2 * den);
    if rounded >= 1_000_000 {
        rounded
    } else {
        1_000_000
    }
}

/// The rows that fall due once `elapsed` nanoseconds have gathered, at most twenty.
pub open spec fn drops_due(elapsed: int, interval: int) -> int {
    if elapsed / interval >= 20 {
        20
    } else {
        elapsed / interval
    }
}

/// The fall timer of a game.
#[derive(Debug, Clone, Copy, PartialEq, Eq, Structural)]
pub struct Gravity {
    /// Time gathered since the last row fell.
    pub accumulator: Duration,
    /// The level, which sets the speed.
    pub level: u32,
    /// Whether a soft drop is held.
    pub soft_dropping: bool,
}

impl Gravity {
    /// The timer at the start of a game.
    pub open spec fn spec_new() -> Gravity {
        Gravity { accumulator: Duration { nanos: 0 }, level: 0, soft_dropping: false }
    }

    /// The interval at the present level and drop mode, in nanoseconds.
    pub open spec fn spec_interval(self) -> int {
        interval_nanos(self.level as nat, self.soft_dropping)
    }

    /// The timer at the start of a game: nothing gathered, level 0, no soft drop.
    pub fn new() -> (gravity: Gravity)
        ensures
            gravity == Self::spec_new(),
    {
        Gravity { accumulator: Duration::zero(), level: 0, soft_dropping: false }
    }

    /// The time between two rows at the present level and drop mode.
    pub fn interval(&self) -> (interval: Duration)
        ensures
            interval@ == self.spec_interval(),
            interval@ >= MIN_INTERVAL_NANOS,
    {
        let level = self.level as usize;
        proof {
            lemma_interval_values(self.level as nat, self.soft_dropping);
        }
        let nanos: u128 = if self.soft_dropping {
            if level < 12 {
                SOFT_FALL_NANOS[level]
            } else {
                MIN_INTERVAL_NANOS
            }
        } else {
            if level < 18 {
                FALL_NANOS[level]
            } else {
                MIN_INTERVAL_NANOS
            }
        };
        Duration::from_nanos(nanos)
    }

    /// Gathers `dt` and returns how many rows the piece falls now: one per
    /// whole interval gathered, at most twenty. What is left over of the
    /// gathered time, less than one interval, is kept.
    pub fn tick(&mut self, dt: Duration) -> (drops: u32)
        requires
            old(self).accumulator.nanos + dt.nanos <= u128::MAX,
        ensures
            drops == drops_due(
                old(self).accumulator.nanos + dt.nanos,
                old(self).spec_interval(),
            ),
            final(self).accumulator.nanos == (old(self).accumulator.nanos + dt.nanos) % old(
                self,
            ).spec_interval(),
            final(self).level == old(self).level,
            final(self).soft_dropping == old(self).soft_dropping,
    {
        let interval = self.interval();
        let elapsed: u128 = self.accumulator.nanos + dt.nanos;
        let whole: u128 = elapsed / interval.nanos;
        self.accumulator = Duration::from_nanos(elapsed % interval.nanos);
        if whole >= MAX_DROPS_PER_TICK as u128 {
            MAX_DROPS_PER_TICK
        } else {
            whole as u32
        }
    }

    /// Forgets the gathered time.
    pub fn reset(&mut self)
        ensures
            *final(self) == (Gravity { accumulator: Duration { nanos: 0 }, ..*old(self) }),
    {
        self.accumulator = Duration::zero();
    }
}

/// The powers of 1000 up to the seventeenth.
proof fn lemma_power_of_1000()
    ensures

        power(1000, 0) == 1,
        power(1000, 1) == 1_000,
        power(1000, 2) == 1_000_000,
        power(1000, 3) == 1_000_000_000,
        power(1000, 4) == 1_000_000_000_000,
        power(1000, 5) == 1_000_000_000_000_000,
        power(1000, 6) == 1_000_000_000_000_000_000,
        power(1000, 7) == 1_000_000_000_000_000_000_000,
        power(1000, 8) == 1_000_000_000_000_000_000_000_000,
        power(1000, 9) == 1_000_000_000_000_000_000_000_000_000,
        power(1000, 10) == 1_000_000_000_000_000_000_000_000_000_000,
        power(1000, 11) == 1_000_000_000_000_000_000_000_000_000_000_000,
        power(1000, 12) == 1_000_000_000_000_000_000_000_000_000_000_000_000,
        power(1000, 13) == 1_000_000_000_000_000_000_000_000_000_000_000_000_000,
        power(1000, 14) == 1_000_000_000_000_000_000_000_000_000_000_000_000_000_000,
        power(1000, 15) == 1_000_000_000_000_000_000_000_000_000_000_000_000_000_000_000,
        power(1000, 16) == 1_000_000_000_000_000_000_000_000_000_000_000_000_000_000_000_000,
        power(1000, 17) == 1_000_000_000_000_000_000_000_000_000_000_000_000_000_000_000_000_000,
        power(1000, 18) == 1_000_000_000_000_000_000_000_000_000_000_000_000_000_000_000_000_000_000,
{
    assert(power(1000, 0) == 1);
    assert(power(1000, 1) == 1_000);
    assert(power(1000, 2) == 1_000_000);
    assert(power(1000, 3) == 1_000_000_000);
    assert(power(1000, 4) == 1_000_000_000_000);
    assert(power(1000, 5) == 1_000_000_000_000_000);
    assert(power(1000, 6) == 1_000_000_000_000_000_000);
    assert(power(1000, 7) == 1_000_000_000_000_000_000_000);
    assert(power(1000, 8) == 1_000_000_000_000_000_000_000_000);
    assert(power(1000, 9) == 1_000_000_000_000_000_000_000_000_000);
    assert(power(1000, 10) == 1_000_000_000_000_000_000_000_000_000_000);
    assert(power(1000, 11) == 1_000_000_000_000_000_000_000_000_000_000_000);
    assert(power(1000, 12) == 1_000_000_000_000_000_000_000_000_000_000_000_000);
    assert(power(1000, 13) == 1_000_000_000_000_000_000_000_000_000_000_000_000_000);
    assert(power(1000, 14) == 1_000_000_000_000_000_000_000_000_000_000_000_000_000_000);
    assert(power(1000, 15) == 1_000_000_000_000_000_000_000_000_000_000_000_000_000_000_000);
    assert(power(1000, 16) == 1_000_000_000_000_000_000_000_000_000_000_000_000_000_000_000_000);
    assert(power(1000, 17) == 1_000_000_000_000_000_000_000_000_000_000_000_000_000_000_000_000_000);
    assert(power(1000, 18) == 1_000_000_000_000_000_000_000_000_000_000_000_000_000_000_000_000_000_000);
}

/// The powers of 793 up to the first.
proof fn lemma_power_of_793()
    ensures
        power(793, 1) == 793,
{
    assert(power(793, 0) == 1);
    assert(power(793, 1) == 793);
}

/// The powers of 786 up to the second.
proof fn lemma_power_of_786()
    ensures
        power(786, 2) == 617_796,
{
    assert(power(786, 0) == 1);
    assert(power(786, 1) == 786);
    assert(power(786, 2) == 617_796);
}

/// The powers of 779 up to the third.
proof fn lemma_power_of_779()
    ensures
        power(779, 3) == 472_729_139,
{
    assert(power(779, 0) == 1);
    assert(power(779, 1) == 779);
    assert(power(779, 2) == 606_841);
    assert(power(779, 3) == 472_729_139);
}

/// The powers of 772 up to the 4th.
proof fn lemma_power_of_772()
    ensures
        power(772, 4) == 355_196_928_256,
{
    assert(power(772, 0) == 1);
    assert(power(772, 1) == 772);
    assert(power(772, 2) == 595_984);
    assert(power(772, 3) == 460_099_648);
    assert(power(772, 4) == 355_196_928_256);
}

/// The powers of 765 up to the 5th.
proof fn lemma_power_of_765()
    ensures
        power(765, 5) == 262_003_549_978_125,
{
    assert(power(765, 0) == 1);
    assert(power(765, 1) == 765);
    assert(power(765, 2) == 585_225);
    assert(power(765, 3) == 447_697_125);
    assert(power(765, 4) == 342_488_300_625);
    assert(power(765, 5) == 262_003_549_978_125);
}

/// The powers of 758 up to the 6th.
proof fn lemma_power_of_758()
    ensures
        power(758, 6) == 189_677_245_332_718_144,
{
    assert(power(758, 0) == 1);
    assert(power(758, 1) == 758);
    assert(power(758, 2) == 574_564);
    assert(power(758, 3) == 435_519_512);
    assert(power(758, 4) == 330_123_790_096);
    assert(power(758, 5) == 250_233_832_892_768);
    assert(power(758, 6) == 189_677_245_332_718_144);
}

/// The powers of 751 up to the 7th.
proof fn lemma_power_of_751()
    ensures
        power(751, 7) == 134_734_730_815_558_692_751,
{
    assert(power(751, 0) == 1);
    assert(power(751, 1) == 751);
    assert(power(751, 2) == 564_001);
    assert(power(751, 3) == 423_564_751);
    assert(power(751, 4) == 318_097_128_001);
    assert(power(751, 5) == 238_890_943_128_751);
    assert(power(751, 6) == 179_407_098_289_692_001);
    assert(power(751, 7) == 134_734_730_815_558_692_751);
}

/// The powers of 744 up to the 8th.
proof fn lemma_power_of_744()
    ensures
        power(744, 8) == 93_882_248_904_212_654_063_616,
{
    assert(power(744, 0) == 1);
    assert(power(744, 1) == 744);
    assert(power(744, 2) == 553_536);
    assert(power(744, 3) == 411_830_784);
    assert(power(744, 4) == 306_402_103_296);
    assert(power(744, 5) == 227_963_164_852_224);
    assert(power(744, 6) == 169_604_594_650_054_656);
    assert(power(744, 7) == 126_185_818_419_640_664_064);
    assert(power(744, 8) == 93_882_248_904_212_654_063_616);
}

/// The powers of 737 up to the 9th.
proof fn lemma_power_of_737()
    ensures
        power(737, 9) == 64_151_584_959_855_749_233_617_377,
{
    assert(power(737, 0) == 1);
    assert(power(737, 1) == 737);
    assert(power(737, 2) == 543_169);
    assert(power(737, 3) == 400_315_553);
    assert(power(737, 4) == 295_032_562_561);
    assert(power(737, 5) == 217_438_998_607_457);
    assert(power(737, 6) == 160_252_541_973_695_809);
    assert(power(737, 7) == 118_106_123_434_613_811_233);
    assert(power(737, 8) == 87_044_212_971_310_378_878_721);
    assert(power(737, 9) == 64_151_584_959_855_749_233_617_377);
}

/// The powers of 730 up to the 10th.
proof fn lemma_power_of_730()
    ensures
        power(730, 10) == 42_976_258_297_035_576_490_000_000_000,
{
    assert(power(730, 0) == 1);
    assert(power(730, 1) == 730);
    assert(power(730, 2) == 532_900);
    assert(power(730, 3) == 389_017_000);
    assert(power(730, 4) == 283_982_410_000);
    assert(power(730, 5) == 207_307_159_300_000);
    assert(power(730, 6) == 151_334_226_289_000_000);
    assert(power(730, 7) == 110_473_985_190_970_000_000);
    assert(power(730, 8) == 80_646_009_189_408_100_000_000);
    assert(power(730, 9) == 58_871_586_708_267_913_000_000_000);
    assert(power(730, 10) == 42_976_258_297_035_576_490_000_000_000);
}

/// The powers of 723 up to the 11th.
proof fn lemma_power_of_723()
    ensures
        power(723, 11) == 28_217_677_801_211_610_563_561_725_861_227,
{
    assert(power(723, 0) == 1);
    assert(power(723, 1) == 723);
    assert(power(723, 2) == 522_729);
    assert(power(723, 3) == 377_933_067);
    assert(power(723, 4) == 273_245_607_441);
    assert(power(723, 5) == 197_556_574_179_843);
    assert(power(723, 6) == 142_833_403_132_026_489);
    assert(power(723, 7) == 103_268_550_464_455_151_547);
    assert(power(723, 8) == 74_663_161_985_801_074_568_481);
    assert(power(723, 9) == 53_981_466_115_734_176_913_011_763);
    assert(power(723, 10) == 39_028_600_001_675_809_908_107_504_649);
    assert(power(723, 11) == 28_217_677_801_211_610_563_561_725_861_227);
}

/// The powers of 716 up to the 12th.
proof fn lemma_power_of_716()
    ensures
        power(716, 12) == 18_153_328_543_517_712_024_454_970_585_645_056,
{
    assert(power(716, 0) == 1);
    assert(power(716, 1) == 716);
    assert(power(716, 2) == 512_656);
    assert(power(716, 3) == 367_061_696);
    assert(power(716, 4) == 262_816_174_336);
    assert(power(716, 5) == 188_176_380_824_576);
    assert(power(716, 6) == 134_734_288_670_396_416);
    assert(power(716, 7) == 96_469_750_688_003_833_856);
    assert(power(716, 8) == 69_072_341_492_610_745_040_896);
    assert(power(716, 9) == 49_455_796_508_709_293_449_281_536);
    assert(power(716, 10) == 35_410_350_300_235_854_109_685_579_776);
    assert(power(716, 11) == 25_353_810_814_968_871_542_534_875_119_616);
    assert(power(716, 12) == 18_153_328_543_517_712_024_454_970_585_645_056);
}

/// The powers of 709 up to the 13th.
proof fn lemma_power_of_709()
    ensures
        power(709, 13) == 11_439_342_346_807_364_131_408_437_171_701_785_429,
{
    assert(power(709, 0) == 1);
    assert(power(709, 1) == 709);
    assert(power(709, 2) == 502_681);
    assert(power(709, 3) == 356_400_829);
    assert(power(709, 4) == 252_688_187_761);
    assert(power(709, 5) == 179_155_925_122_549);
    assert(power(709, 6) == 127_021_550_911_887_241);
    assert(power(709, 7) == 90_058_279_596_528_053_869);
    assert(power(709, 8) == 63_851_320_233_938_390_193_121);
    assert(power(709, 9) == 45_270_586_045_862_318_646_922_789);
    assert(power(709, 10) == 32_096_845_506_516_383_920_668_257_401);
    assert(power(709, 11) == 22_756_663_464_120_116_199_753_794_497_309);
    assert(power(709, 12) == 16_134_474_396_061_162_385_625_440_298_592_081);
    assert(power(709, 13) == 11_439_342_346_807_364_131_408_437_171_701_785_429);
}

/// The powers of 702 up to the 14th.
proof fn lemma_power_of_702()
    ensures
        power(702, 14) == 7_058_616_220_934_208_192_117_801_379_822_016_937_984,
{
    assert(power(702, 0) == 1);
    assert(power(702, 1) == 702);
    assert(power(702, 2) == 492_804);
    assert(power(702, 3) == 345_948_408);
    assert(power(702, 4) == 242_855_782_416);
    assert(power(702, 5) == 170_484_759_256_032);
    assert(power(702, 6) == 119_680_300_997_734_464);
    assert(power(702, 7) == 84_015_571_300_409_593_728);
    assert(power(702, 8) == 58_978_931_052_887_534_797_056);
    assert(power(702, 9) == 41_403_209_599_127_049_427_533_312);
    assert(power(702, 10) == 29_065_053_138_587_188_698_128_385_024);
    assert(power(702, 11) == 20_403_667_303_288_206_466_086_126_286_848);
    assert(power(702, 12) == 14_323_374_446_908_320_939_192_460_653_367_296);
    assert(power(702, 13) == 10_055_008_861_729_641_299_313_107_378_663_841_792);
    assert(power(702, 14) == 7_058_616_220_934_208_192_117_801_379_822_016_937_984);
}

/// The powers of 695 up to the 15th.
proof fn lemma_power_of_695()
    ensures
        power(695, 15) == 4_263_556_954_438_942_762_992_679_909_182_708_740_234_375,
{
    assert(power(695, 0) == 1);
    assert(power(695, 1) == 695);
    assert(power(695, 2) == 483_025);
    assert(power(695, 3) == 335_702_375);
    assert(power(695, 4) == 233_313_150_625);
    assert(power(695, 5) == 162_152_639_684_375);
    assert(power(695, 6) == 112_696_084_580_640_625);
    assert(power(695, 7) == 78_323_778_783_545_234_375);
    assert(power(695, 8) == 54_435_026_254_563_937_890_625);
    assert(power(695, 9) == 37_832_343_246_921_936_833_984_375);
    assert(power(695, 10) == 26_293_478_556_610_746_099_619_140_625);
    assert(power(695, 11) == 18_273_967_596_844_468_539_235_302_734_375);
    assert(power(695, 12) == 12_700_407_479_806_905_634_768_535_400_390_625);
    assert(power(695, 13) == 8_826_783_198_465_799_416_164_132_103_271_484_375);
    assert(power(695, 14) == 6_134_614_322_933_730_594_234_071_811_773_681_640_625);
    assert(power(695, 15) == 4_263_556_954_438_942_762_992_679_909_182_708_740_234_375);
}

/// The powers of 688 up to the 16th.
proof fn lemma_power_of_688()
    ensures
        power(688, 16) == 2_520_083_969_507_792_065_167_683_957_389_082_458_970_914_816,
{
    assert(power(688, 0) == 1);
    assert(power(688, 1) == 688);
    assert(power(688, 2) == 473_344);
    assert(power(688, 3) == 325_660_672);
    assert(power(688, 4) == 224_054_542_336);
    assert(power(688, 5) == 154_149_525_127_168);
    assert(power(688, 6) == 106_054_873_287_491_584);
    assert(power(688, 7) == 72_965_752_821_794_209_792);
    assert(power(688, 8) == 50_200_437_941_394_416_336_896);
    assert(power(688, 9) == 34_537_901_303_679_358_439_784_448);
    assert(power(688, 10) == 23_762_076_096_931_398_606_571_700_224);
    assert(power(688, 11) == 16_348_308_354_688_802_241_321_329_754_112);
    assert(power(688, 12) == 11_247_636_148_025_895_942_029_074_870_829_056);
    assert(power(688, 13) == 7_738_373_669_841_816_408_116_003_511_130_390_528);
    assert(power(688, 14) == 5_324_001_084_851_169_688_783_810_415_657_708_683_264);
    assert(power(688, 15) == 3_662_912_746_377_604_745_883_261_565_972_503_574_085_632);
    assert(power(688, 16) == 2_520_083_969_507_792_065_167_683_957_389_082_458_970_914_816);
}

/// The powers of 681 up to the 17th.
proof fn lemma_power_of_681()
    ensures
        power(681, 17) == 1_457_138_732_840_775_887_775_309_791_865_162_818_648_487_857_961,
{
    assert(power(681, 0) == 1);
    assert(power(681, 1) == 681);
    assert(power(681, 2) == 463_761);
    assert(power(681, 3) == 315_821_241);
    assert(power(681, 4) == 215_074_265_121);
    assert(power(681, 5) == 146_465_574_547_401);
    assert(power(681, 6) == 99_743_056_266_780_081);
    assert(power(681, 7) == 67_925_021_317_677_235_161);
    assert(power(681, 8) == 46_256_939_517_338_197_144_641);
    assert(power(681, 9) == 31_500_975_811_307_312_255_500_521);
    assert(power(681, 10) == 21_452_164_527_500_279_645_995_854_801);
    assert(power(681, 11) == 14_608_924_043_227_690_438_923_177_119_481);
    assert(power(681, 12) == 9_948_677_273_438_057_188_906_683_618_366_561);
    assert(power(681, 13) == 6_775_049_223_211_316_945_645_451_544_107_628_041);
    assert(power(681, 14) == 4_613_808_521_006_906_839_984_552_501_537_294_695_921);
    assert(power(681, 15) == 3_142_003_602_805_703_558_029_480_253_546_897_687_922_201);
    assert(power(681, 16) == 2_139_704_453_510_684_123_018_076_052_665_437_325_475_018_881);
    assert(power(681, 17) == 1_457_138_732_840_775_887_775_309_791_865_162_818_648_487_857_961);
}

/// The powers of 674 up to the 18th.
proof fn lemma_power_of_674()
    ensures
        power(674, 18) == 823_906_895_565_807_704_012_838_059_168_467_507_064_696_400_510_976,
{
    assert(power(674, 0) == 1);
    assert(power(674, 1) == 674);
    assert(power(674, 2) == 454_276);
    assert(power(674, 3) == 306_182_024);
    assert(power(674, 4) == 206_366_684_176);
    assert(power(674, 5) == 139_091_145_134_624);
    assert(power(674, 6) == 93_747_431_820_736_576);
    assert(power(674, 7) == 63_185_769_047_176_452_224);
    assert(power(674, 8) == 42_587_208_337_796_928_798_976);
    assert(power(674, 9) == 28_703_778_419_675_130_010_509_824);
    assert(power(674, 10) == 19_346_346_654_861_037_627_083_621_376);
    assert(power(674, 11) == 13_039_437_645_376_339_360_654_360_807_424);
    assert(power(674, 12) == 8_788_580_972_983_652_729_081_039_184_203_776);
    assert(power(674, 13) == 5_923_503_575_790_981_939_400_620_410_153_345_024);
    assert(power(674, 14) == 3_992_441_410_083_121_827_156_018_156_443_354_546_176);
    assert(power(674, 15) == 2_690_905_510_396_024_111_503_156_237_442_820_964_122_624);
    assert(power(674, 16) == 1_813_670_314_006_920_251_153_127_304_036_461_329_818_648_576);
    assert(power(674, 17) == 1_222_413_791_640_664_249_277_207_802_920_574_936_297_769_140_224);
    assert(power(674, 18) == 823_906_895_565_807_704_012_838_059_168_467_507_064_696_400_510_976);
}

/// A power of a positive base is positive, and grows with the base.
proof fn lemma_power_monotone(a: int, b: int, exp: nat)
    requires
        1 <= a <= b,
    ensures
        1 <= power(a, exp) <= power(b, exp),
    decreases exp,
{
    if exp > 0 {
        lemma_power_monotone(a, b, (exp - 1) as nat);
        let pa = power(a, (exp - 1) as nat);
        let pb = power(b, (exp - 1) as nat);
        assert(1 <= a * pa <= b * pb) by (nonlinear_arith)
            requires
                1 <= a <= b,
                1 <= pa <= pb,
        ;
    }
}

/// From level 18 on, `0.674^level` is below a thousandth.
proof fn lemma_decay(level: nat)
    requires
        level >= 18,
    ensures
        power(674, level) * 1000 <= power(1000, level),
    decreases level,
{
    if level == 18 {
        lemma_power_of_674();
        lemma_power_of_1000();
    } else {
        lemma_decay((level - 1) as nat);
        lemma_power_monotone(1000, 1000, (level - 1) as nat);
        let p = power(674, (level - 1) as nat);
        let q = power(1000, (level - 1) as nat);
        assert(674 * p * 1000 <= 1000 * q) by (nonlinear_arith)
            requires
                p * 1000 <= q,
                q >= 0,
        ;
    }
}

/// From level 12 on, `0.716^level` is below a fiftieth.
proof fn lemma_soft_decay(level: nat)
    requires
        level >= 12,
    ensures
        power(716, level) * 1000 <= power(1000, level) * 20,
    decreases level,
{
    if level == 12 {
        lemma_power_of_716();
        lemma_power_of_1000();
    } else {
        lemma_soft_decay((level - 1) as nat);
        lemma_power_monotone(1000, 1000, (level - 1) as nat);
        let p = power(716, (level - 1) as nat);
        let q = power(1000, (level - 1) as nat);
        assert(716 * p * 1000 <= 1000 * q * 20) by (nonlinear_arith)
            requires
                p * 1000 <= q * 20,
                q >= 0,
        ;
    }
}

/// Where the interval before rounding is at most a millisecond, the interval
/// is a millisecond.
proof fn lemma_floor_applies(level: nat, soft_dropping: bool, bound: int)
    requires
        1 <= fall_base(level) <= bound,
        power(bound, level) * 1000 <= power(1000, level) * fall_divisor(soft_dropping),
    ensures
        interval_nanos(level, soft_dropping) == 1_000_000,
{
    lemma_power_monotone(fall_base(level), bound, level);
    lemma_power_monotone(1000, 1000, level);
    let p = power(fall_base(level), level);
    let num = 1_000_000_000 * p;
    let den = power(1000, level) * fall_divisor(soft_dropping);
    assert(den >= 1) by (nonlinear_arith)
        requires
            den == power(1000, level) * fall_divisor(soft_dropping),
            power(1000, level) >= 1,
            fall_divisor(soft_dropping) >= 1,
    ;
    assert(p * 1000 <= den);
    assert((2 * num + den) / (2 * den) <= 1_000_000) by (nonlinear_arith)
        requires
            num == 1_000_000_000 * p,
            p * 1000 <= den,
            den >= 1,
    ;
}

/// The quotient of a division is the number whose multiples bracket the dividend.
proof fn lemma_quotient(a: int, d: int, q: int)
    requires
        d > 0,
        q * d <= a < (q + 1) * d,
    ensures
        a / d == q,
{
    assert(a / d == q) by (nonlinear_arith)
        requires
            d > 0,
            q * d <= a < (q + 1) * d,
    ;
}

/// The intervals at level 0.
proof fn lemma_interval_at_0()
    ensures
        interval_nanos(0, false) == 1_000_000_000,
        interval_nanos(0, true) == 50_000_000,
{
    lemma_power_of_1000();
    assert(power(800, 0) == 1);
    assert(fall_base(0) == 800);
    let num = 1_000_000_000 * power(800, 0);
    let den = power(1000, 0);
    assert(num == 1_000_000_000);
    assert(den == 1);
    lemma_quotient(2 * num + den, 2 * den, 1_000_000_000);
    lemma_quotient(2 * num + den * 20, 2 * (den * 20), 50_000_000);
}

/// The intervals at level 1.
proof fn lemma_interval_at_1()
    ensures
        interval_nanos(1, false) == 793_000_000,
        interval_nanos(1, true) == 39_650_000,
{
    lemma_power_of_1000();
    lemma_power_of_793();
    assert(fall_base(1) == 793);
    let num = 1_000_000_000 * power(793, 1);
    let den = power(1000, 1);
    assert(num == 793_000_000_000);
    assert(den == 1_000);
    lemma_quotient(2 * num + den, 2 * den, 793_000_000);
    lemma_quotient(2 * num + den * 20, 2 * (den * 20), 39_650_000);
}

/// The intervals at level 2.
proof fn lemma_interval_at_2()
    ensures
        interval_nanos(2, false) == 617_796_000,
        interval_nanos(2, true) == 30_889_800,
{
    lemma_power_of_1000();
    lemma_power_of_786();
    assert(fall_base(2) == 786);
    let num = 1_000_000_000 * power(786, 2);
    let den = power(1000, 2);
    assert(num == 617_796_000_000_000);
    assert(den == 1_000_000);
    lemma_quotient(2 * num + den, 2 * den, 617_796_000);
    lemma_quotient(2 * num + den * 20, 2 * (den * 20), 30_889_800);
}

/// The intervals at level 3.
proof fn lemma_interval_at_3()
    ensures
        interval_nanos(3, false) == 472_729_139,
        interval_nanos(3, true) == 23_636_457,
{
    lemma_power_of_1000();
    lemma_power_of_779();
    assert(fall_base(3) == 779);
    let num = 1_000_000_000 * power(779, 3);
    let den = power(1000, 3);
    assert(num == 472_729_139_000_000_000);
    assert(den == 1_000_000_000);
    lemma_quotient(2 * num + den, 2 * den, 472_729_139);
    lemma_quotient(2 * num + den * 20, 2 * (den * 20), 23_636_457);
}

/// The intervals at level 4.
proof fn lemma_interval_at_4()
    ensures
        interval_nanos(4, false) == 355_196_928,
        interval_nanos(4, true) == 17_759_846,
{
    lemma_power_of_1000();
    lemma_power_of_772();
    assert(fall_base(4) == 772);
    let num = 1_000_000_000 * power(772, 4);
    let den = power(1000, 4);
    assert(num == 355_196_928_256_000_000_000);
    assert(den == 1_000_000_000_000);
    lemma_quotient(2 * num + den, 2 * den, 355_196_928);
    lemma_quotient(2 * num + den * 20, 2 * (den * 20), 17_759_846);
}

/// The intervals at level 5.
proof fn lemma_interval_at_5()
    ensures
        interval_nanos(5, false) == 262_003_550,
        interval_nanos(5, true) == 13_100_177,
{
    lemma_power_of_1000();
    lemma_power_of_765();
    assert(fall_base(5) == 765);
    let num = 1_000_000_000 * power(765, 5);
    let den = power(1000, 5);
    assert(num == 262_003_549_978_125_000_000_000);
    assert(den == 1_000_000_000_000_000);
    lemma_quotient(2 * num + den, 2 * den, 262_003_550);
    lemma_quotient(2 * num + den * 20, 2 * (den * 20), 13_100_177);
}

/// The intervals at level 6.
proof fn lemma_interval_at_6()
    ensures
        interval_nanos(6, false) == 189_677_245,
        interval_nanos(6, true) == 9_483_862,
{
    lemma_power_of_1000();
    lemma_power_of_758();
    assert(fall_base(6) == 758);
    let num = 1_000_000_000 * power(758, 6);
    let den = power(1000, 6);
    assert(num == 189_677_245_332_718_144_000_000_000);
    assert(den == 1_000_000_000_000_000_000);
    lemma_quotient(2 * num + den, 2 * den, 189_677_245);
    lemma_quotient(2 * num + den * 20, 2 * (den * 20), 9_483_862);
}

/// The intervals at level 7.
proof fn lemma_interval_at_7()
    ensures
        interval_nanos(7, false) == 134_734_731,
        interval_nanos(7, true) == 6_736_737,
{
    lemma_power_of_1000();
    lemma_power_of_751();
    assert(fall_base(7) == 751);
    let num = 1_000_000_000 * power(751, 7);
    let den = power(1000, 7);
    assert(num == 134_734_730_815_558_692_751_000_000_000);
    assert(den == 1_000_000_000_000_000_000_000);
    lemma_quotient(2 * num + den, 2 * den, 134_734_731);
    lemma_quotient(2 * num + den * 20, 2 * (den * 20), 6_736_737);
}

/// The intervals at level 8.
proof fn lemma_interval_at_8()
    ensures
        interval_nanos(8, false) == 93_882_249,
        interval_nanos(8, true) == 4_694_112,
{
    lemma_power_of_1000();
    lemma_power_of_744();
    assert(fall_base(8) == 744);
    let num = 1_000_000_000 * power(744, 8);
    let den = power(1000, 8);
    assert(num == 93_882_248_904_212_654_063_616_000_000_000);
    assert(den == 1_000_000_000_000_000_000_000_000);
    lemma_quotient(2 * num + den, 2 * den, 93_882_249);
    lemma_quotient(2 * num + den * 20, 2 * (den * 20), 4_694_112);
}

/// The intervals at level 9.
proof fn lemma_interval_at_9()
    ensures
        interval_nanos(9, false) == 64_151_585,
        interval_nanos(9, true) == 3_207_579,
{
    lemma_power_of_1000();
    lemma_power_of_737();
    assert(fall_base(9) == 737);
    let num = 1_000_000_000 * power(737, 9);
    let den = power(1000, 9);
    assert(num == 64_151_584_959_855_749_233_617_377_000_000_000);
    assert(den == 1_000_000_000_000_000_000_000_000_000);
    lemma_quotient(2 * num + den, 2 * den, 64_151_585);
    lemma_quotient(2 * num + den * 20, 2 * (den * 20), 3_207_579);
}

/// The intervals at level 10.
proof fn lemma_interval_at_10()
    ensures
        interval_nanos(10, false) == 42_976_258,
        interval_nanos(10, true) == 2_148_813,
{
    lemma_power_of_1000();
    lemma_power_of_730();
    assert(fall_base(10) == 730);
    let num = 1_000_000_000 * power(730, 10);
    let den = power(1000, 10);
    assert(num == 42_976_258_297_035_576_490_000_000_000_000_000_000);
    assert(den == 1_000_000_000_000_000_000_000_000_000_000);
    lemma_quotient(2 * num + den, 2 * den, 42_976_258);
    lemma_quotient(2 * num + den * 20, 2 * (den * 20), 2_148_813);
}

/// The intervals at level 11.
proof fn lemma_interval_at_11()
    ensures
        interval_nanos(11, false) == 28_217_678,
        interval_nanos(11, true) == 1_410_884,
{
    lemma_power_of_1000();
    lemma_power_of_723();
    assert(fall_base(11) == 723);
    let num = 1_000_000_000 * power(723, 11);
    let den = power(1000, 11);
    assert(num == 28_217_677_801_211_610_563_561_725_861_227_000_000_000);
    assert(den == 1_000_000_000_000_000_000_000_000_000_000_000);
    lemma_quotient(2 * num + den, 2 * den, 28_217_678);
    lemma_quotient(2 * num + den * 20, 2 * (den * 20), 1_410_884);
}

/// The intervals at level 12.
proof fn lemma_interval_at_12()
    ensures
        interval_nanos(12, false) == 18_153_329,
        interval_nanos(12, true) == 1_000_000,
{
    lemma_power_of_1000();
    lemma_power_of_716();
    assert(fall_base(12) == 716);
    let num = 1_000_000_000 * power(716, 12);
    let den = power(1000, 12);
    assert(num == 18_153_328_543_517_712_024_454_970_585_645_056_000_000_000);
    assert(den == 1_000_000_000_000_000_000_000_000_000_000_000_000);
    lemma_quotient(2 * num + den, 2 * den, 18_153_329);
    lemma_quotient(2 * num + den * 20, 2 * (den * 20), 907_666);
}

/// The intervals at level 13.
proof fn lemma_interval_at_13()
    ensures
        interval_nanos(13, false) == 11_439_342,
        interval_nanos(13, true) == 1_000_000,
{
    lemma_power_of_1000();
    lemma_power_of_709();
    assert(fall_base(13) == 709);
    let num = 1_000_000_000 * power(709, 13);
    let den = power(1000, 13);
    assert(num == 11_439_342_346_807_364_131_408_437_171_701_785_429_000_000_000);
    assert(den == 1_000_000_000_000_000_000_000_000_000_000_000_000_000);
    lemma_quotient(2 * num + den, 2 * den, 11_439_342);
    lemma_quotient(2 * num + den * 20, 2 * (den * 20), 571_967);
}

/// The intervals at level 14.
proof fn lemma_interval_at_14()
    ensures
        interval_nanos(14, false) == 7_058_616,
        interval_nanos(14, true) == 1_000_000,
{
    lemma_power_of_1000();
    lemma_power_of_702();
    assert(fall_base(14) == 702);
    let num = 1_000_000_000 * power(702, 14);
    let den = power(1000, 14);
    assert(num == 7_058_616_220_934_208_192_117_801_379_822_016_937_984_000_000_000);
    assert(den == 1_000_000_000_000_000_000_000_000_000_000_000_000_000_000);
    lemma_quotient(2 * num + den, 2 * den, 7_058_616);
    lemma_quotient(2 * num + den * 20, 2 * (den * 20), 352_931);
}

/// The intervals at level 15.
proof fn lemma_interval_at_15()
    ensures
        interval_nanos(15, false) == 4_263_557,
        interval_nanos(15, true) == 1_000_000,
{
    lemma_power_of_1000();
    lemma_power_of_695();
    assert(fall_base(15) == 695);
    let num = 1_000_000_000 * power(695, 15);
    let den = power(1000, 15);
    assert(num == 4_263_556_954_438_942_762_992_679_909_182_708_740_234_375_000_000_000);
    assert(den == 1_000_000_000_000_000_000_000_000_000_000_000_000_000_000_000);
    lemma_quotient(2 * num + den, 2 * den, 4_263_557);
    lemma_quotient(2 * num + den * 20, 2 * (den * 20), 213_178);
}

/// The intervals at level 16.
proof fn lemma_interval_at_16()
    ensures
        interval_nanos(16, false) == 2_520_084,
        interval_nanos(16, true) == 1_000_000,
{
    lemma_power_of_1000();
    lemma_power_of_688();
    assert(fall_base(16) == 688);
    let num = 1_000_000_000 * power(688, 16);
    let den = power(1000, 16);
    assert(num == 2_520_083_969_507_792_065_167_683_957_389_082_458_970_914_816_000_000_000);
    assert(den == 1_000_000_000_000_000_000_000_000_000_000_000_000_000_000_000_000);
    lemma_quotient(2 * num + den, 2 * den, 2_520_084);
    lemma_quotient(2 * num + den * 20, 2 * (den * 20), 126_004);
}

/// The intervals at level 17.
proof fn lemma_interval_at_17()
    ensures
        interval_nanos(17, false) == 1_457_139,
        interval_nanos(17, true) == 1_000_000,
{
    lemma_power_of_1000();
    lemma_power_of_681();
    assert(fall_base(17) == 681);
    let num = 1_000_000_000 * power(681, 17);
    let den = power(1000, 17);
    assert(num == 1_457_138_732_840_775_887_775_309_791_865_162_818_648_487_857_961_000_000_000);
    assert(den == 1_000_000_000_000_000_000_000_000_000_000_000_000_000_000_000_000_000);
    lemma_quotient(2 * num + den, 2 * den, 1_457_139);
    lemma_quotient(2 * num + den * 20, 2 * (den * 20), 72_857);
}

/// The tables hold the interval of every level they cover, and beyond them
/// the interval is a millisecond.
pub proof fn lemma_interval_values(level: nat, soft_dropping: bool)
    ensures
        !soft_dropping && level < 18 ==> interval_nanos(level, soft_dropping)
            == FALL_NANOS[level as int],
        soft_dropping && level < 12 ==> interval_nanos(level, soft_dropping)
            == SOFT_FALL_NANOS[level as int],
        !soft_dropping && level >= 18 ==> interval_nanos(level, soft_dropping) == 1_000_000,
        soft_dropping && level >= 12 ==> interval_nanos(level, soft_dropping) == 1_000_000,
        interval_nanos(level, soft_dropping) >= 1_000_000,
{
    if level == 0 {
        lemma_interval_at_0();
    } else if level == 1 {
        lemma_interval_at_1();
    } else if level == 2 {
        lemma_interval_at_2();
    } else if level == 3 {
        lemma_interval_at_3();
    } else if level == 4 {
        lemma_interval_at_4();
    } else if level == 5 {
        lemma_interval_at_5();
    } else if level == 6 {
        lemma_interval_at_6();
    } else if level == 7 {
        lemma_interval_at_7();
    } else if level == 8 {
        lemma_interval_at_8();
    } else if level == 9 {
        lemma_interval_at_9();
    } else if level == 10 {
        lemma_interval_at_10();
    } else if level == 11 {
        lemma_interval_at_11();
    } else if level == 12 {
        lemma_interval_at_12();
    } else if level == 13 {
        lemma_interval_at_13();
    } else if level == 14 {
        lemma_interval_at_14();
    } else if level == 15 {
        lemma_interval_at_15();
    } else if level == 16 {
        lemma_interval_at_16();
    } else if level == 17 {
        lemma_interval_at_17();
    } else {
        lemma_decay(level);
        lemma_floor_applies(level, false, 674);
        lemma_soft_decay(level);
        lemma_floor_applies(level, true, 716);
    }
}

} // verus!
