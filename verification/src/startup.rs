//! The decisions of the main task while the strip comes up.
use vstd::prelude::*;

use crate::color::RGB8;
#[allow(unused_imports)]
use crate::color::black;

verus! {

/// How many LEDs the strip has.
pub const LEDS: usize = 102;

/// How long to wait before the network is looked at again, in milliseconds.
pub const POLL_MILLIS: u64 = 500;

/// A strip with every LED off.
pub fn dark_strip() -> (colors: [RGB8; LEDS])
    ensures
        forall|led: int| 0 <= led < LEDS ==> #[trigger] colors@[led] == black(),
        forall|led: int|
            0 <= led < LEDS ==> (#[trigger] colors@[led]).r == 0 && colors@[led].g == 0
                && colors@[led].b == 0,
{
    [RGB8 { r: 0, g: 0, b: 0 };LEDS]
}

/// Whether two texts are the same.
fn same_text(one: &str, other: &str) -> (same: bool)
    ensures
        same == (one@ == other@),
{
    let len: usize = one.unicode_len();
    if len != other.unicode_len() {
        return false;
    }
    let mut i: usize = 0;
    while i < len
        invariant
            i <= len,
            len == one@.len(),
            len == other@.len(),
            forall|k: int| 0 <= k < i ==> one@[k] == other@[k],
        decreases len - i,
    {
        if one.get_char(i) != other.get_char(i) {
            return false;
        }
        i += 1;
    }
    assert(one@ =~= other@);
    true
}

/// Whether the name of a network was given: where none was, a placeholder
/// stands for it.
pub fn network_is_named(ssid: &str) -> (named: bool)
    ensures
        named == (ssid@ != "PLACEHOLDER"@),
{
    !same_text(ssid, "PLACEHOLDER")
}

/// One seed out of two random words, the first of them in the upper half.
pub fn seed_from_words(high: u32, low: u32) -> (seed: u64)
    ensures
        seed == high * 0x1_0000_0000 + low,
{
    let upper: u64 = high as u64;
    let lower: u64 = low as u64;
    assert((upper << 32) | lower == upper * 0x1_0000_0000 + lower) by (bit_vector)
        requires
            upper < 0x1_0000_0000,
            lower < 0x1_0000_0000,
    ;
    (upper << 32) | lower
}

/// How far the network has come up.
#[derive(Clone, Copy, Debug, PartialEq, Eq, Structural)]
pub enum Network {
    /// The link is awaited.
    Link,
    /// The link is up, and an address is awaited.
    Address,
    /// The network can be used.
    Up,
}

impl Network {
    /// Takes in whether what is awaited is there. If it is, the next thing is
    /// awaited at once; if not, it is looked at again after the time that is
    /// returned, in milliseconds.
    pub fn poll(self, there: bool) -> (next: (Network, Option<u64>))
        requires
            self != Network::Up,
        ensures
            !there ==> next == (self, Some(POLL_MILLIS)),
            there && self == Network::Link ==> next == (Network::Address, None::<u64>),
            there && self == Network::Address ==> next == (Network::Up, None::<u64>),
    {
        match self {
            Network::Link => {
                if there {
                    (Network::Address, None)
                } else {
                    (Network::Link, Some(POLL_MILLIS))
                }
            },
            _ => {
                if there {
                    (Network::Up, None)
                } else {
                    (Network::Address, Some(POLL_MILLIS))
                }
            },
        }
    }
}

/// Every LED of the strip starts off.
pub proof fn every_led_starts_off(colors: [RGB8; LEDS], led: int)
    requires
        call_ensures(dark_strip, (), colors),
        0 <= led < 102,
    ensures
        colors@[led] == (RGB8 { r: 0, g: 0, b: 0 }),
{
}

/// The seed keeps both words, each in a half of its own.
pub proof fn seed_keeps_both_words(high: u32, low: u32, seed: u64)
    requires
        call_ensures(seed_from_words, (high, low), seed),
    ensures
        seed / 0x1_0000_0000 == high,
        seed % 0x1_0000_0000 == low,
{
}

/// One name alone counts as none: two texts that both name no network are the
/// same, and every other text names one.
pub proof fn one_name_stands_for_none(one: &str, other: &str, named: bool, other_named: bool)
    requires
        call_ensures(network_is_named, (one,), named),
        call_ensures(network_is_named, (other,), other_named),
    ensures
        !named && !other_named ==> one@ == other@,
        !named && one@ != other@ ==> other_named,
        one@ == "PLACEHOLDER"@ ==> !named,
{
}

/// What is awaited is awaited on, with a pause of half a second, until it is
/// there; then the next thing is looked at without a pause, the address after the
/// link.
pub proof fn network_comes_up_in_order(
    network: Network,
    there: bool,
    next: Network,
    pause: Option<u64>,
)
    requires
        network != Network::Up,
        call_ensures(Network::poll, (network, there), (next, pause)),
    ensures
        there <==> next != network,
        there <==> pause is None,
        !there ==> pause == Some(500u64),
        next == Network::Up <==> there && network == Network::Address,
{
}

} // verus!
