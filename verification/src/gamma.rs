//! From the linear channels of a colour to the channels that LEDs are given.
use vstd::prelude::*;

use crate::color::RGB8;

verus! {

/// The channel that an LED is given for each linear level, from off to full.
pub const GAMMA: [u8; 256] = [
    0, 13, 22, 28, 34, 38, 42, 46, 50, 53, 56, 59, 61, 64, 66, 69,
    71, 73, 75, 77, 79, 81, 83, 85, 86, 88, 90, 92, 93, 95, 96, 98,
    99, 101, 102, 104, 105, 106, 108, 109, 110, 112, 113, 114, 115, 117, 118, 119,
    120, 121, 122, 124, 125, 126, 127, 128, 129, 130, 131, 132, 133, 134, 135, 136,
    137, 138, 139, 140, 141, 142, 143, 144, 145, 146, 147, 148, 148, 149, 150, 151,
    152, 153, 154, 155, 155, 156, 157, 158, 159, 159, 160, 161, 162, 163, 163, 164,
    165, 166, 167, 167, 168, 169, 170, 170, 171, 172, 173, 173, 174, 175, 175, 176,
    177, 178, 178, 179, 180, 180, 181, 182, 182, 183, 184, 185, 185, 186, 187, 187,
    188, 189, 189, 190, 190, 191, 192, 192, 193, 194, 194, 195, 196, 196, 197, 197,
    198, 199, 199, 200, 200, 201, 202, 202, 203, 203, 204, 205, 205, 206, 206, 207,
    208, 208, 209, 209, 210, 210, 211, 212, 212, 213, 213, 214, 214, 215, 215, 216,
    216, 217, 218, 218, 219, 219, 220, 220, 221, 221, 222, 222, 223, 223, 224, 224,
    225, 226, 226, 227, 227, 228, 228, 229, 229, 230, 230, 231, 231, 232, 232, 233,
    233, 234, 234, 235, 235, 236, 236, 237, 237, 238, 238, 238, 239, 239, 240, 240,
    241, 241, 242, 242, 243, 243, 244, 244, 245, 245, 246, 246, 246, 247, 247, 248,
    248, 249, 249, 250, 250, 251, 251, 251, 252, 252, 253, 253, 254, 254, 255, 255,
];

/// Corrects a linear level of one channel.
pub fn corrected(level: u8) -> (channel: u8)
    ensures
        channel == GAMMA@[level as int],
{
    GAMMA[level as usize]
}

/// Corrects the three linear levels of a colour.
pub fn corrected_color(r: u8, g: u8, b: u8) -> (color: RGB8)
    ensures
        color == (RGB8 { r: GAMMA@[r as int], g: GAMMA@[g as int], b: GAMMA@[b as int] }),
{
    RGB8 { r: corrected(r), g: corrected(g), b: corrected(b) }
}

/// The table does not fall up to level `level`.
spec fn rising_to(level: nat) -> bool
    decreases level,
{
    level == 0 || GAMMA@[level - 1] <= GAMMA@[level as int] && rising_to((level - 1) as nat)
}

proof fn lemma_rising_between(low: nat, high: nat, top: nat)
    requires
        low <= high <= top,
        rising_to(top),
    ensures
        GAMMA@[low as int] <= GAMMA@[high as int],
    decreases top,
{
    if top > high {
        lemma_rising_between(low, high, (top - 1) as nat);
    } else if low < high {
        lemma_rising_between(low, (high - 1) as nat, (top - 1) as nat);
    }
}

#[verifier::rlimit(60)]
proof fn lemma_table_rises()
    ensures
        rising_to(255),
{
    reveal_with_fuel(rising_to, 17);
    assert(rising_to(16));
    assert(rising_to(32));
    assert(rising_to(48));
    assert(rising_to(64));
    assert(rising_to(80));
    assert(rising_to(96));
    assert(rising_to(112));
    assert(rising_to(128));
    assert(rising_to(144));
    assert(rising_to(160));
    assert(rising_to(176));
    assert(rising_to(192));
    assert(rising_to(208));
    assert(rising_to(224));
    assert(rising_to(240));
}

/// A higher level never gets a darker channel.
pub proof fn correction_is_monotone(low: u8, high: u8)
    requires
        low <= high,
    ensures
        GAMMA@[low as int] <= GAMMA@[high as int],
{
    lemma_table_rises();
    lemma_rising_between(low as nat, high as nat, 255);
}

/// A channel is off exactly where its level is.
pub proof fn only_off_is_shown_as_off(level: u8)
    ensures
        GAMMA@[level as int] == 0 <==> level == 0,
{
    if level > 0 {
        correction_is_monotone(1, level);
        assert(GAMMA@[1] == 13);
    } else {
        assert(GAMMA@[0] == 0);
    }
}

/// Each channel of a corrected colour is the corrected level of that channel, and
/// depends on no other level.
pub proof fn each_level_is_corrected_alone(r: u8, g: u8, b: u8, color: RGB8, channel: u8)
    requires
        call_ensures(corrected_color, (r, g, b), color),
    ensures
        color.r == GAMMA@[r as int],
        color.g == GAMMA@[g as int],
        color.b == GAMMA@[b as int],
        call_ensures(corrected, (r,), channel) ==> channel == color.r,
        call_ensures(corrected, (g,), channel) ==> channel == color.g,
        call_ensures(corrected, (b,), channel) ==> channel == color.b,
{
}

/// The fifth power.
pub open spec fn fifth(x: int) -> int {
    x * x * x * x * x
}

/// The twelfth power.
pub open spec fn twelfth(x: int) -> int {
    let fourth = x * x * x * x;
    fourth * fourth * fourth
}

/// `channel` is the whole number nearest to where the sRGB curve takes `level`: of
/// levels and channels between nothing and one, the curve takes `x` to `y` where
/// `y` plus 0.055, over 1.055, to the power of 2.4 is `x`. Written without
/// fractions, the fifth power of the level lies between the twelfth powers of
/// half a channel less and half a channel more.
#[verifier::opaque]
pub open spec fn on_curve(level: int, channel: int) -> bool {
    &&& twelfth(1000 * channel + 13525) * fifth(255) <= fifth(level) * twelfth(269025)
    &&& fifth(level) * twelfth(269025) < twelfth(1000 * channel + 14525) * fifth(255)
}

#[verifier::rlimit(60)]
proof fn lemma_curve_from_1()
    by (nonlinear_arith)
    ensures
        on_curve(1, 13),
        on_curve(2, 22),
        on_curve(3, 28),
        on_curve(4, 34),
        on_curve(5, 38),
        on_curve(6, 42),
        on_curve(7, 46),
        on_curve(8, 50),
        on_curve(9, 53),
        on_curve(10, 56),
        on_curve(11, 59),
        on_curve(12, 61),
        on_curve(13, 64),
        on_curve(14, 66),
        on_curve(15, 69),
        on_curve(16, 71),
        on_curve(17, 73),
        on_curve(18, 75),
        on_curve(19, 77),
        on_curve(20, 79),
        on_curve(21, 81),
        on_curve(22, 83),
        on_curve(23, 85),
        on_curve(24, 86),
        on_curve(25, 88),
        on_curve(26, 90),
        on_curve(27, 92),
        on_curve(28, 93),
        on_curve(29, 95),
        on_curve(30, 96),
        on_curve(31, 98),
{
    reveal(on_curve);
}

#[verifier::rlimit(60)]
proof fn lemma_curve_from_32()
    by (nonlinear_arith)
    ensures
        on_curve(32, 99),
        on_curve(33, 101),
        on_curve(34, 102),
        on_curve(35, 104),
        on_curve(36, 105),
        on_curve(37, 106),
        on_curve(38, 108),
        on_curve(39, 109),
        on_curve(40, 110),
        on_curve(41, 112),
        on_curve(42, 113),
        on_curve(43, 114),
        on_curve(44, 115),
        on_curve(45, 117),
        on_curve(46, 118),
        on_curve(47, 119),
        on_curve(48, 120),
        on_curve(49, 121),
        on_curve(50, 122),
        on_curve(51, 124),
        on_curve(52, 125),
        on_curve(53, 126),
        on_curve(54, 127),
        on_curve(55, 128),
        on_curve(56, 129),
        on_curve(57, 130),
        on_curve(58, 131),
        on_curve(59, 132),
        on_curve(60, 133),
        on_curve(61, 134),
        on_curve(62, 135),
        on_curve(63, 136),
{
    reveal(on_curve);
}

#[verifier::rlimit(60)]
proof fn lemma_curve_from_64()
    by (nonlinear_arith)
    ensures
        on_curve(64, 137),
        on_curve(65, 138),
        on_curve(66, 139),
        on_curve(67, 140),
        on_curve(68, 141),
        on_curve(69, 142),
        on_curve(70, 143),
        on_curve(71, 144),
        on_curve(72, 145),
        on_curve(73, 146),
        on_curve(74, 147),
        on_curve(75, 148),
        on_curve(76, 148),
        on_curve(77, 149),
        on_curve(78, 150),
        on_curve(79, 151),
        on_curve(80, 152),
        on_curve(81, 153),
        on_curve(82, 154),
        on_curve(83, 155),
        on_curve(84, 155),
        on_curve(85, 156),
        on_curve(86, 157),
        on_curve(87, 158),
        on_curve(88, 159),
        on_curve(89, 159),
        on_curve(90, 160),
        on_curve(91, 161),
        on_curve(92, 162),
        on_curve(93, 163),
        on_curve(94, 163),
        on_curve(95, 164),
{
    reveal(on_curve);
}

#[verifier::rlimit(60)]
proof fn lemma_curve_from_96()
    by (nonlinear_arith)
    ensures
        on_curve(96, 165),
        on_curve(97, 166),
        on_curve(98, 167),
        on_curve(99, 167),
        on_curve(100, 168),
        on_curve(101, 169),
        on_curve(102, 170),
        on_curve(103, 170),
        on_curve(104, 171),
        on_curve(105, 172),
        on_curve(106, 173),
        on_curve(107, 173),
        on_curve(108, 174),
        on_curve(109, 175),
        on_curve(110, 175),
        on_curve(111, 176),
        on_curve(112, 177),
        on_curve(113, 178),
        on_curve(114, 178),
        on_curve(115, 179),
        on_curve(116, 180),
        on_curve(117, 180),
        on_curve(118, 181),
        on_curve(119, 182),
        on_curve(120, 182),
        on_curve(121, 183),
        on_curve(122, 184),
        on_curve(123, 185),
        on_curve(124, 185),
        on_curve(125, 186),
        on_curve(126, 187),
        on_curve(127, 187),
{
    reveal(on_curve);
}

#[verifier::rlimit(60)]
proof fn lemma_curve_from_128()
    by (nonlinear_arith)
    ensures
        on_curve(128, 188),
        on_curve(129, 189),
        on_curve(130, 189),
        on_curve(131, 190),
        on_curve(132, 190),
        on_curve(133, 191),
        on_curve(134, 192),
        on_curve(135, 192),
        on_curve(136, 193),
        on_curve(137, 194),
        on_curve(138, 194),
        on_curve(139, 195),
        on_curve(140, 196),
        on_curve(141, 196),
        on_curve(142, 197),
        on_curve(143, 197),
        on_curve(144, 198),
        on_curve(145, 199),
        on_curve(146, 199),
        on_curve(147, 200),
        on_curve(148, 200),
        on_curve(149, 201),
        on_curve(150, 202),
        on_curve(151, 202),
        on_curve(152, 203),
        on_curve(153, 203),
        on_curve(154, 204),
        on_curve(155, 205),
        on_curve(156, 205),
        on_curve(157, 206),
        on_curve(158, 206),
        on_curve(159, 207),
{
    reveal(on_curve);
}

#[verifier::rlimit(60)]
proof fn lemma_curve_from_160()
    by (nonlinear_arith)
    ensures
        on_curve(160, 208),
        on_curve(161, 208),
        on_curve(162, 209),
        on_curve(163, 209),
        on_curve(164, 210),
        on_curve(165, 210),
        on_curve(166, 211),
        on_curve(167, 212),
        on_curve(168, 212),
        on_curve(169, 213),
        on_curve(170, 213),
        on_curve(171, 214),
        on_curve(172, 214),
        on_curve(173, 215),
        on_curve(174, 215),
        on_curve(175, 216),
        on_curve(176, 216),
        on_curve(177, 217),
        on_curve(178, 218),
        on_curve(179, 218),
        on_curve(180, 219),
        on_curve(181, 219),
        on_curve(182, 220),
        on_curve(183, 220),
        on_curve(184, 221),
        on_curve(185, 221),
        on_curve(186, 222),
        on_curve(187, 222),
        on_curve(188, 223),
        on_curve(189, 223),
        on_curve(190, 224),
        on_curve(191, 224),
{
    reveal(on_curve);
}

#[verifier::rlimit(60)]
proof fn lemma_curve_from_192()
    by (nonlinear_arith)
    ensures
        on_curve(192, 225),
        on_curve(193, 226),
        on_curve(194, 226),
        on_curve(195, 227),
        on_curve(196, 227),
        on_curve(197, 228),
        on_curve(198, 228),
        on_curve(199, 229),
        on_curve(200, 229),
        on_curve(201, 230),
        on_curve(202, 230),
        on_curve(203, 231),
        on_curve(204, 231),
        on_curve(205, 232),
        on_curve(206, 232),
        on_curve(207, 233),
        on_curve(208, 233),
        on_curve(209, 234),
        on_curve(210, 234),
        on_curve(211, 235),
        on_curve(212, 235),
        on_curve(213, 236),
        on_curve(214, 236),
        on_curve(215, 237),
        on_curve(216, 237),
        on_curve(217, 238),
        on_curve(218, 238),
        on_curve(219, 238),
        on_curve(220, 239),
        on_curve(221, 239),
        on_curve(222, 240),
        on_curve(223, 240),
{
    reveal(on_curve);
}

#[verifier::rlimit(60)]
proof fn lemma_curve_from_224()
    by (nonlinear_arith)
    ensures
        on_curve(224, 241),
        on_curve(225, 241),
        on_curve(226, 242),
        on_curve(227, 242),
        on_curve(228, 243),
        on_curve(229, 243),
        on_curve(230, 244),
        on_curve(231, 244),
        on_curve(232, 245),
        on_curve(233, 245),
        on_curve(234, 246),
        on_curve(235, 246),
        on_curve(236, 246),
        on_curve(237, 247),
        on_curve(238, 247),
        on_curve(239, 248),
        on_curve(240, 248),
        on_curve(241, 249),
        on_curve(242, 249),
        on_curve(243, 250),
        on_curve(244, 250),
        on_curve(245, 251),
        on_curve(246, 251),
        on_curve(247, 251),
        on_curve(248, 252),
        on_curve(249, 252),
        on_curve(250, 253),
        on_curve(251, 253),
        on_curve(252, 254),
        on_curve(253, 254),
        on_curve(254, 255),
        on_curve(255, 255),
{
    reveal(on_curve);
}

/// The table is on the curve up to level `level`.
spec fn on_curve_to(level: nat) -> bool
    decreases level,
{
    level == 0 || on_curve(level as int, GAMMA@[level as int] as int) && on_curve_to(
        (level - 1) as nat,
    )
}

#[verifier::rlimit(60)]
proof fn lemma_table_on_curve()
    ensures
        on_curve_to(255),
{
    reveal_with_fuel(on_curve_to, 17);
    lemma_curve_from_1();
    assert(on_curve_to(15));
    assert(on_curve_to(31));
    lemma_curve_from_32();
    assert(on_curve_to(47));
    assert(on_curve_to(63));
    lemma_curve_from_64();
    assert(on_curve_to(79));
    assert(on_curve_to(95));
    lemma_curve_from_96();
    assert(on_curve_to(111));
    assert(on_curve_to(127));
    lemma_curve_from_128();
    assert(on_curve_to(143));
    assert(on_curve_to(159));
    lemma_curve_from_160();
    assert(on_curve_to(175));
    assert(on_curve_to(191));
    lemma_curve_from_192();
    assert(on_curve_to(207));
    assert(on_curve_to(223));
    lemma_curve_from_224();
    assert(on_curve_to(239));
    assert(on_curve_to(255));
}

proof fn lemma_on_curve_below(level: nat, top: nat)
    requires
        0 < level <= top,
        on_curve_to(top),
    ensures
        on_curve(level as int, GAMMA@[level as int] as int),
    decreases top,
{
    if level < top {
        lemma_on_curve_below(level, (top - 1) as nat);
    }
}

/// Each level that is on gets the channel that the sRGB curve gives it.
pub proof fn correction_follows_the_srgb_curve(level: u8)
    requires
        level > 0,
    ensures
        ({
            let channel = GAMMA@[level as int];
            let wanted = fifth(level as int) * twelfth(269025);
            &&& twelfth(1000 * channel + 13525) * fifth(255) <= wanted
            &&& wanted < twelfth(1000 * channel + 14525) * fifth(255)
        }),
{
    lemma_table_on_curve();
    lemma_on_curve_below(level as nat, 255);
    reveal(on_curve);
}

} // verus!
