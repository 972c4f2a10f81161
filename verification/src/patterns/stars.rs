//! Stars that light up on random LEDs, glow, and fade again.
use core::ops::ControlFlow;

use rand::rngs::SmallRng;
use rand::{Rng, SeedableRng};
use vstd::prelude::*;

use super::Pattern;
use crate::color::{AtomicColor, RGB8};
#[allow(unused_imports)]
use crate::color::{black, unpacked};

verus! {

/// The most stars that shine at one time.
pub const NUM_STARS: usize = 16;

/// `a` scaled by `b` out of 255, rounded to the nearest whole number.
pub open spec fn scaled(a: u8, b: u8) -> u8 {
    ((a * b + 127) / 255) as u8
}

/// Scales a channel `a` by a brightness `b`, where 255 leaves it as it is.
pub fn mul_u8(a: u8, b: u8) -> (product: u8)
    ensures
        product == scaled(a, b),
{
    assert(a * b <= 255 * 255) by (nonlinear_arith)
        requires
            a <= 255,
            b <= 255,
    ;
    let temp: u16 = (a as u16) * (b as u16);
    ((temp + 127) / 255) as u8
}

/// A colour with each of its channels scaled by `value` out of 255.
pub open spec fn shade(color: RGB8, value: u8) -> RGB8 {
    RGB8 { r: scaled(color.r, value), g: scaled(color.g, value), b: scaled(color.b, value) }
}

/// One star: the LED it sits on, how bright it is now, how fast it changes, how
/// bright it gets, whether it is still on its way up, and its colour.
#[derive(Clone, Copy, Debug, PartialEq, Eq, Structural)]
pub struct Star {
    pub index: usize,
    pub value: u8,
    pub speed: i8,
    pub max: u8,
    pub increasing: bool,
    pub color: RGB8,
}

impl Star {
    /// How much the brightness changes in one frame: the speed, read as an
    /// unsigned byte.
    pub open spec fn pace(self) -> int {
        if self.speed >= 0 {
            self.speed as int
        } else {
            self.speed + 256
        }
    }

    /// The star's brightness falls to nothing in the next frame.
    pub open spec fn burnt_out(self) -> bool {
        !self.increasing && self.value <= self.pace()
    }

    /// The star one frame later.
    pub open spec fn after_update(self) -> Star {
        if !self.increasing {
            Star {
                value: if self.burnt_out() {
                    0
                } else {
                    (self.value - self.pace()) as u8
                },
                ..self
            }
        } else if self.value + self.pace() >= self.max {
            Star { value: self.max, increasing: false, ..self }
        } else {
            Star { value: (self.value + self.pace()) as u8, ..self }
        }
    }

    /// What the star's LED shows one frame later: the star's colour at its new
    /// brightness, or nothing once it has burnt out.
    pub open spec fn glow(self) -> RGB8 {
        if self.burnt_out() {
            black()
        } else {
            shade(self.color, self.after_update().value)
        }
    }

    /// Advances the star by one frame, and tells whether it goes on shining.
    pub fn update(&mut self) -> (flow: ControlFlow<(), ()>)
        ensures
            *final(self) == old(self).after_update(),
            flow == (if old(self).burnt_out() {
                ControlFlow::Break(())
            } else {
                ControlFlow::<(), ()>::Continue(())
            }),
    {
        let speed: i8 = self.speed;
        assert(speed >= 0 ==> speed as u8 == speed) by (bit_vector);
        assert(speed < 0 ==> speed as u8 == speed + 256) by (bit_vector);
        if self.increasing {
            self.value = self.value.saturating_add(self.speed as u8);
            if self.value >= self.max {
                self.value = self.max;
                self.increasing = false;
            }
            ControlFlow::Continue(())
        } else {
            self.value = self.value.saturating_sub(self.speed as u8);
            if self.value == 0 {
                ControlFlow::Break(())
            } else {
                ControlFlow::Continue(())
            }
        }
    }
}

impl Star {
    /// Advances the star by one frame and draws it on its LED. Returns whether it
    /// goes on shining.
    pub fn shine(&mut self, colors: &mut [RGB8]) -> (keep: bool)
        requires
            old(self).index < old(colors)@.len(),
        ensures
            *final(self) == old(self).after_update(),
            keep == !old(self).burnt_out(),
            final(colors)@ == old(colors)@.update(old(self).index as int, old(self).glow()),
    {
        match self.update() {
            ControlFlow::Continue(()) => {
                colors[self.index] = RGB8 {
                    r: mul_u8(self.color.r, self.value),
                    g: mul_u8(self.color.g, self.value),
                    b: mul_u8(self.color.b, self.value),
                };
                true
            },
            ControlFlow::Break(()) => {
                colors[self.index] = RGB8::default();
                false
            },
        }
    }
}

/// The declaration of `heapless::Vec`, a vector with room for `N` items.
#[verifier::external_type_specification]
#[verifier::external_body]
#[verifier::reject_recursive_types(T)]
pub struct ExHeaplessVec<T, const N: usize>(heapless::Vec<T, N>);

/// The declaration of `rand::rngs::SmallRng`, a small generator of random numbers.
#[verifier::external_type_specification]
#[verifier::external_body]
pub struct ExSmallRng(SmallRng);

/// The stars that a vector holds, in order.
pub uninterp spec fn stars_held(stars: heapless::Vec<Star, NUM_STARS>) -> Seq<Star>;

/// `heapless::Vec::new`: a vector that holds nothing.
#[verifier::external_body]
fn no_stars() -> (stars: heapless::Vec<Star, NUM_STARS>)
    ensures
        stars_held(stars) == Seq::<Star>::empty(),
{
    heapless::Vec::new()
}

/// `heapless::Vec::is_full`: whether the vector holds as many items as it has
/// room for.
#[verifier::external_body]
fn is_full(stars: &heapless::Vec<Star, NUM_STARS>) -> (full: bool)
    ensures
        full == (stars_held(*stars).len() == NUM_STARS),
{
    stars.is_full()
}

/// `heapless::Vec::as_slice`: the items in order.
#[verifier::external_body]
fn as_slice(stars: &heapless::Vec<Star, NUM_STARS>) -> (slice: &[Star])
    ensures
        slice@ == stars_held(*stars),
{
    stars.as_slice()
}

/// `heapless::Vec::push`: appends the item where there is room for it, and gives
/// it back where there is none.
#[verifier::external_body]
fn push(stars: &mut heapless::Vec<Star, NUM_STARS>, star: Star) -> (result: Result<(), Star>)
    ensures
        result is Ok <==> stars_held(*old(stars)).len() < NUM_STARS,
        result is Ok ==> stars_held(*final(stars)) == stars_held(*old(stars)).push(star),
        result is Err ==> result->Err_0 == star && stars_held(*final(stars)) == stars_held(
            *old(stars),
        ),
{
    stars.push(star)
}

/// `heapless::Vec::retain_mut`, called with `Star::shine`: it hands each star to
/// `shine` once, first to last, and keeps those for which `shine` returned true,
/// as `shine` left them and in their order.
#[verifier::external_body]
fn retain_shining(stars: &mut heapless::Vec<Star, NUM_STARS>, colors: &mut [RGB8])
    requires
        within(stars_held(*old(stars)), old(colors)@.len()),
    ensures
        stars_held(*final(stars)) == survivors(stars_held(*old(stars))),
        final(colors)@ == painted(stars_held(*old(stars)), old(colors)@),
{
    stars.retain_mut(|star| star.shine(colors))
}

/// `SeedableRng::seed_from_u64`: a generator that starts from the seed. What it
/// will draw is left open.
#[verifier::external_body]
fn seeded(seed: u64) -> (rng: SmallRng) {
    SmallRng::seed_from_u64(seed)
}

/// `Rng::random_range` over `usize`: a number from `low` up to, not including,
/// `high`. Which one is left open.
#[verifier::external_body]
fn draw_usize(rng: &mut SmallRng, low: usize, high: usize) -> (drawn: usize)
    requires
        low < high,
    ensures
        low <= drawn < high,
{
    rng.random_range(low..high)
}

/// `Rng::random_range` over `i8`: a number from `low` up to, not including,
/// `high`. Which one is left open.
#[verifier::external_body]
fn draw_i8(rng: &mut SmallRng, low: i8, high: i8) -> (drawn: i8)
    requires
        low < high,
    ensures
        low <= drawn < high,
{
    rng.random_range(low..high)
}

/// `Rng::random_range` over `u8`: a number from `low` up to, not including,
/// `high`. Which one is left open.
#[verifier::external_body]
fn draw_u8(rng: &mut SmallRng, low: u8, high: u8) -> (drawn: u8)
    requires
        low < high,
    ensures
        low <= drawn < high,
{
    rng.random_range(low..high)
}

/// Every star sits on one of the first `len` LEDs.
pub open spec fn within(stars: Seq<Star>, len: nat) -> bool {
    forall|i: int| 0 <= i < stars.len() ==> (#[trigger] stars[i]).index < len
}

/// The stars that shine on for another frame, as they are in that frame and in
/// their order.
pub open spec fn survivors(stars: Seq<Star>) -> Seq<Star>
    decreases stars.len(),
{
    if stars.len() == 0 {
        Seq::empty()
    } else if stars.last().burnt_out() {
        survivors(stars.drop_last())
    } else {
        survivors(stars.drop_last()).push(stars.last().after_update())
    }
}

/// The strip after each star, first to last, has drawn its next frame on it.
pub open spec fn painted(stars: Seq<Star>, colors: Seq<RGB8>) -> Seq<RGB8>
    decreases stars.len(),
{
    if stars.len() == 0 {
        colors
    } else {
        painted(stars.drop_last(), colors).update(stars.last().index as int, stars.last().glow())
    }
}

/// Some star sits on `led`.
pub open spec fn taken(stars: Seq<Star>, led: int) -> bool {
    exists|i: int| 0 <= i < stars.len() && (#[trigger] stars[i]).index == led
}

/// No two stars sit on one LED.
pub open spec fn distinct(stars: Seq<Star>) -> bool {
    forall|i: int, j: int|
        0 <= i < j < stars.len() ==> (#[trigger] stars[i]).index != (#[trigger] stars[j]).index
}

impl Star {
    /// The star is one that can shine: it changes at a speed and up to a
    /// brightness that stars are given, it is below its greatest brightness
    /// while it brightens, and not yet dark while it fades.
    pub open spec fn wf(self) -> bool {
        &&& 2 <= self.speed < 8
        &&& 200 <= self.max < 255
        &&& if self.increasing {
            self.value < self.max
        } else {
            0 < self.value <= self.max
        }
    }

    /// The star has just lit up on a strip of `len` LEDs: it is still dark.
    pub open spec fn fresh(self, len: nat) -> bool {
        &&& self.wf()
        &&& self.index < len
        &&& self.value == 0
        &&& self.increasing
    }
}

/// What stars there can be at one time: few enough, and on different LEDs.
pub open spec fn constellation(stars: Seq<Star>) -> bool {
    &&& stars.len() <= NUM_STARS
    &&& distinct(stars)
}

/// Each of the stars is one that can shine.
pub open spec fn all_wf(stars: Seq<Star>) -> bool {
    forall|i: int| 0 <= i < stars.len() ==> (#[trigger] stars[i]).wf()
}

/// Draws the LED of a new star on a strip of `len` LEDs, by one draw. The second
/// result is the generator after it.
fn draw_led(rng: &mut SmallRng, len: usize) -> (drawn: (usize, Ghost<SmallRng>))
    requires
        0 < len,
    ensures
        drawn.0 < len,
        *final(rng) == drawn.1@,
        exists|own: &mut SmallRng|
            *own == *old(rng) && *final(own) == *final(rng) && #[trigger] call_ensures(
                draw_usize,
                (own, 0usize, len),
                drawn.0,
            ),
{
    let led: usize = draw_usize(rng, 0, len);
    (led, Ghost(*rng))
}

/// Draws the speed of a new star, by one draw. The second result is the generator
/// after it.
fn draw_speed(rng: &mut SmallRng) -> (drawn: (i8, Ghost<SmallRng>))
    ensures
        2 <= drawn.0 < 8,
        *final(rng) == drawn.1@,
        exists|own: &mut SmallRng|
            *own == *old(rng) && *final(own) == *final(rng) && #[trigger] call_ensures(
                draw_i8,
                (own, 2i8, 8i8),
                drawn.0,
            ),
{
    let speed: i8 = draw_i8(rng, 2, 8);
    (speed, Ghost(*rng))
}

/// Draws the greatest brightness of a new star, by one draw. The second result is
/// the generator after it.
fn draw_max(rng: &mut SmallRng) -> (drawn: (u8, Ghost<SmallRng>))
    ensures
        200 <= drawn.0 < 255,
        *final(rng) == drawn.1@,
        exists|own: &mut SmallRng|
            *own == *old(rng) && *final(own) == *final(rng) && #[trigger] call_ensures(
                draw_u8,
                (own, 200u8, 255u8),
                drawn.0,
            ),
{
    let max: u8 = draw_u8(rng, 200, 255);
    (max, Ghost(*rng))
}

/// Drawing an LED out of `len` from the generator `rng` can give `led`, and leave
/// the generator `next`.
pub closed spec fn led_drawn(rng: SmallRng, len: usize, led: usize, next: SmallRng) -> bool {
    exists|own: &mut SmallRng, left: Ghost<SmallRng>|
        *own == rng && left@ == next && #[trigger] call_ensures(draw_led, (own, len), (led, left))
}

/// Drawing a speed from the generator `rng` can give `speed`, and leave the
/// generator `next`.
pub closed spec fn speed_drawn(rng: SmallRng, speed: i8, next: SmallRng) -> bool {
    exists|own: &mut SmallRng, left: Ghost<SmallRng>|
        *own == rng && left@ == next && #[trigger] call_ensures(draw_speed, (own,), (speed, left))
}

/// Drawing a greatest brightness from the generator `rng` can give `max`, and
/// leave the generator `next`.
pub closed spec fn max_drawn(rng: SmallRng, max: u8, next: SmallRng) -> bool {
    exists|own: &mut SmallRng, left: Ghost<SmallRng>|
        *own == rng && left@ == next && #[trigger] call_ensures(draw_max, (own,), (max, left))
}

/// One draw from the generator `rng` over `low` up to, not including, `high` can
/// give `drawn`.
pub closed spec fn usize_drawn(rng: SmallRng, low: usize, high: usize, drawn: usize) -> bool {
    exists|own: &mut SmallRng|
        *own == rng && #[trigger] call_ensures(draw_usize, (own, low, high), drawn)
}

/// One draw from the generator `rng` over `low` up to, not including, `high` can
/// give `drawn`.
pub closed spec fn i8_drawn(rng: SmallRng, low: i8, high: i8, drawn: i8) -> bool {
    exists|own: &mut SmallRng|
        *own == rng && #[trigger] call_ensures(draw_i8, (own, low, high), drawn)
}

/// One draw from the generator `rng` over `low` up to, not including, `high` can
/// give `drawn`.
pub closed spec fn u8_drawn(rng: SmallRng, low: u8, high: u8, drawn: u8) -> bool {
    exists|own: &mut SmallRng|
        *own == rng && #[trigger] call_ensures(draw_u8, (own, low, high), drawn)
}

/// The LED of a star is drawn from the whole strip.
pub proof fn led_comes_from_the_whole_strip(
    rng: SmallRng,
    len: usize,
    led: usize,
    next: SmallRng,
)
    requires
        led_drawn(rng, len, led, next),
    ensures
        usize_drawn(rng, 0, len, led),
{
}

/// The speed of a star is drawn from 2 up to 7.
pub proof fn speed_comes_from_its_range(rng: SmallRng, speed: i8, next: SmallRng)
    requires
        speed_drawn(rng, speed, next),
    ensures
        i8_drawn(rng, 2, 8, speed),
{
}

/// The greatest brightness of a star is drawn from 200 up to 254.
pub proof fn max_comes_from_its_range(rng: SmallRng, max: u8, next: SmallRng)
    requires
        max_drawn(rng, max, next),
    ensures
        u8_drawn(rng, 200, 255, max),
{
}

/// A star that lights up: dark, and about to brighten.
pub open spec fn new_star(index: usize, speed: i8, max: u8, color: RGB8) -> Star {
    Star { index, value: 0, speed, max, increasing: true, color }
}

/// The stars after an attempt to place `star` among `stars`: unchanged where its
/// LED is taken or there is no room, else with `star` behind the others.
pub open spec fn with_star(stars: Seq<Star>, star: Star) -> Seq<Star> {
    if taken(stars, star.index as int) || stars.len() >= NUM_STARS {
        stars
    } else {
        stars.push(star)
    }
}

/// What an attempt to add a star on a strip of `len` LEDs makes of the generator
/// `rng` and the stars `before`. One LED is drawn. If it is taken, that is all;
/// if it is free, a speed and a greatest brightness are drawn, and the star is
/// placed there in a colour that `cell` gives, where there is room for it.
pub open spec fn star_added(
    cell: AtomicColor,
    len: usize,
    rng: SmallRng,
    before: Seq<Star>,
    next_rng: SmallRng,
    after: Seq<Star>,
) -> bool {
    exists|led: usize, led_rng: SmallRng|
        {
            &&& #[trigger] led_drawn(rng, len, led, led_rng)
            &&& led < len
            &&& if taken(before, led as int) {
                next_rng == led_rng && after == before
            } else {
                star_lit(cell, led, led_rng, before, next_rng, after)
            }
        }
}

/// What lighting a star on `led`, which is free, makes of the generator `rng` and
/// the stars `before`.
pub open spec fn star_lit(
    cell: AtomicColor,
    led: usize,
    rng: SmallRng,
    before: Seq<Star>,
    next_rng: SmallRng,
    after: Seq<Star>,
) -> bool {
    exists|speed: i8, speed_rng: SmallRng, max: u8, color: RGB8|
        {
            &&& #[trigger] speed_drawn(rng, speed, speed_rng)
            &&& #[trigger] max_drawn(speed_rng, max, next_rng)
            &&& 2 <= speed < 8
            &&& 200 <= max < 255
            &&& #[trigger] cell.gives(color)
            &&& after == with_star(before, new_star(led, speed, max, color))
        }
}

/// `after` is the strip `before` with the next frame of each star drawn on it.
pub open spec fn drawn(stars: Seq<Star>, before: Seq<RGB8>, after: Seq<RGB8>) -> bool {
    &&& after.len() == before.len()
    &&& forall|i: int|
        0 <= i < stars.len() ==> after[(#[trigger] stars[i]).index as int] == stars[i].glow()
    &&& forall|led: int|
        0 <= led < before.len() && !taken(stars, led) ==> #[trigger] after[led] == before[led]
}

/// What one frame makes of the generator, of the stars and of the strip. Where
/// the stars are as many as there can be, nothing is drawn at random and none is
/// added; else one may be added. Then each star draws its next frame, and the
/// burnt out ones are gone.
pub open spec fn frame_from(
    cell: AtomicColor,
    rng: SmallRng,
    stars: Seq<Star>,
    colors: Seq<RGB8>,
    next_rng: SmallRng,
    next_stars: Seq<Star>,
    next_colors: Seq<RGB8>,
) -> bool {
    exists|lit: Seq<Star>|
        {
            &&& if stars.len() == NUM_STARS {
                next_rng == rng && lit == stars
            } else {
                star_added(cell, colors.len() as usize, rng, stars, next_rng, lit)
            }
            &&& next_stars == #[trigger] survivors(lit)
            &&& drawn(lit, colors, next_colors)
        }
}

/// What one frame makes of the stars and of the strip, whatever the generator.
pub open spec fn frame(
    cell: AtomicColor,
    stars: Seq<Star>,
    colors: Seq<RGB8>,
    next_stars: Seq<Star>,
    next_colors: Seq<RGB8>,
) -> bool {
    exists|rng: SmallRng, next_rng: SmallRng| #[trigger]
        frame_from(cell, rng, stars, colors, next_rng, next_stars, next_colors)
}

/// Where no two stars share an LED, the strip after all have drawn shows each of
/// them, and is unchanged elsewhere.
proof fn lemma_painted_is_drawn(stars: Seq<Star>, colors: Seq<RGB8>)
    requires
        within(stars, colors.len()),
        distinct(stars),
    ensures
        drawn(stars, colors, painted(stars, colors)),
    decreases stars.len(),
{
    if stars.len() > 0 {
        let rest = stars.drop_last();
        assert(forall|i: int| 0 <= i < rest.len() ==> rest[i] == stars[i]);
        lemma_painted_is_drawn(rest, colors);
        let after = painted(stars, colors);
        assert forall|i: int| 0 <= i < stars.len() implies after[(
        #[trigger] stars[i]).index as int] == stars[i].glow() by {
            if i < rest.len() {
                assert(rest[i] == stars[i]);
                assert(stars[i].index != stars[stars.len() - 1].index);
            }
        }
        assert forall|led: int|
            0 <= led < colors.len() && !taken(stars, led) implies #[trigger] after[led]
            == colors[led] by {
            assert(stars[stars.len() - 1].index != led);
            if taken(rest, led) {
                let i = choose|i: int| 0 <= i < rest.len() && (#[trigger] rest[i]).index == led;
                assert(stars[i].index == led);
            }
        }
    }
}

/// Placing a star keeps a constellation one.
pub proof fn lemma_with_star_constellation(stars: Seq<Star>, star: Star)
    requires
        constellation(stars),
    ensures
        constellation(with_star(stars, star)),
{
    let after = with_star(stars, star);
    assert forall|i: int, j: int| 0 <= i < j < after.len() implies (#[trigger] after[i]).index != (
    #[trigger] after[j]).index by {
        assert(after[i] == stars[i]);
    }
}

/// Each survivor is one of the stars, a frame later and not burnt out.
pub proof fn lemma_survivor_has_origin(stars: Seq<Star>, j: int)
    requires
        0 <= j < survivors(stars).len(),
    ensures
        exists|i: int|
            0 <= i < stars.len() && !(#[trigger] stars[i]).burnt_out() && survivors(stars)[j]
                == stars[i].after_update(),
    decreases stars.len(),
{
    let rest = stars.drop_last();
    if j < survivors(rest).len() {
        lemma_survivor_has_origin(rest, j);
        let i = choose|i: int|
            0 <= i < rest.len() && !(#[trigger] rest[i]).burnt_out() && survivors(rest)[j]
                == rest[i].after_update();
        assert(stars[i] == rest[i]);
    } else {
        assert(stars[stars.len() - 1] == stars.last());
    }
}

/// Each star that has not burnt out is among the survivors.
pub proof fn lemma_star_survives(stars: Seq<Star>, i: int)
    requires
        0 <= i < stars.len(),
        !stars[i].burnt_out(),
    ensures
        exists|j: int|
            0 <= j < survivors(stars).len() && #[trigger] survivors(stars)[j]
                == stars[i].after_update(),
    decreases stars.len(),
{
    let rest = stars.drop_last();
    if i < rest.len() {
        assert(rest[i] == stars[i]);
        lemma_star_survives(rest, i);
        let j = choose|j: int|
            0 <= j < survivors(rest).len() && #[trigger] survivors(rest)[j]
                == rest[i].after_update();
        assert(survivors(stars)[j] == stars[i].after_update());
    } else {
        let j = survivors(stars).len() - 1;
        assert(survivors(stars)[j] == stars[i].after_update());
    }
}

/// The survivors of a constellation are one.
pub proof fn lemma_survivors_constellation(stars: Seq<Star>)
    requires
        constellation(stars),
    ensures
        constellation(survivors(stars)),
        all_wf(stars) ==> all_wf(survivors(stars)),
        survivors(stars).len() <= stars.len(),
    decreases stars.len(),
{
    if stars.len() > 0 {
        let rest = stars.drop_last();
        assert(forall|i: int| 0 <= i < rest.len() ==> rest[i] == stars[i]);
        lemma_survivors_constellation(rest);
        let next = survivors(stars);
        assert forall|a: int, b: int| 0 <= a < b < next.len() implies (#[trigger] next[a]).index
            != (#[trigger] next[b]).index by {
            if b < survivors(rest).len() {
                assert(next[a] == survivors(rest)[a] && next[b] == survivors(rest)[b]);
            } else {
                lemma_survivor_has_origin(rest, a);
                let i = choose|i: int|
                    0 <= i < rest.len() && !(#[trigger] rest[i]).burnt_out() && survivors(rest)[a]
                        == rest[i].after_update();
                assert(stars[i].index != stars[stars.len() - 1].index);
            }
        }
        if all_wf(stars) {
            assert forall|a: int| 0 <= a < next.len() implies (#[trigger] next[a]).wf() by {
                if a < survivors(rest).len() {
                    assert(next[a] == survivors(rest)[a]);
                } else {
                    assert(stars[stars.len() - 1].wf());
                }
            }
        }
    }
}

/// Stars on random LEDs, in the colour that a shared cell holds when they light
/// up.
pub struct Stars<'a> {
    rng: SmallRng,
    stars: heapless::Vec<Star, NUM_STARS>,
    color: &'a AtomicColor,
}

impl<'a> View for Stars<'a> {
    type V = Seq<Star>;

    /// The stars that shine, the oldest first.
    closed spec fn view(&self) -> Seq<Star> {
        stars_held(self.stars)
    }
}

impl<'a> Stars<'a> {
    /// The cell that gives new stars their colour.
    pub closed spec fn cell(&self) -> AtomicColor {
        *self.color
    }

    /// The generator that the next random choice comes from.
    pub closed spec fn generator(&self) -> SmallRng {
        self.rng
    }

    /// The generator is one that seeding with `seed` can give.
    pub closed spec fn seeded_with(&self, seed: u64) -> bool {
        call_ensures(seeded, (seed,), self.rng)
    }

    /// No stars yet. `seed` starts the random choices, and `color` is the cell
    /// that gives new stars their colour.
    pub fn new(seed: u64, color: &'a AtomicColor) -> (stars: Stars<'a>)
        ensures
            stars@ == Seq::<Star>::empty(),
            stars.cell() == *color,
            stars.seeded_with(seed),
    {
        Stars { rng: seeded(seed), stars: no_stars(), color }
    }

    /// Whether some star sits on LED `index`.
    pub fn is_taken(&self, index: usize) -> (found: bool)
        ensures
            found == taken(self@, index as int),
    {
        let stars: &[Star] = as_slice(&self.stars);
        let mut i: usize = 0;
        while i < stars.len()
            invariant
                i <= stars@.len(),
                stars@ == self@,
                forall|k: int| 0 <= k < i ==> (#[trigger] stars@[k]).index != index,
            decreases stars@.len() - i,
        {
            if stars[i].index == index {
                return true;
            }
            i += 1;
        }
        false
    }

    /// Lights a star on LED `index`, unless a star sits there already or there is
    /// no room for another.
    pub fn place_star(&mut self, index: usize, speed: i8, max: u8, color: RGB8)
        ensures
            final(self)@ == with_star(old(self)@, new_star(index, speed, max, color)),
            constellation(old(self)@) ==> constellation(final(self)@),
            final(self).cell() == old(self).cell(),
            final(self).generator() == old(self).generator(),
    {
        if self.is_taken(index) {
            return;
        }
        let star = Star { index, value: 0, speed, max, increasing: true, color };
        let _ = push(&mut self.stars, star);
        proof {
            if constellation(old(self)@) {
                lemma_with_star_constellation(old(self)@, star);
            }
        }
    }

    /// Tries to light a star on a random one of `len` LEDs. If that LED is taken,
    /// no other is tried.
    pub fn add_star(&mut self, len: usize)
        requires
            0 < len,
        ensures
            star_added(
                old(self).cell(),
                len,
                old(self).generator(),
                old(self)@,
                final(self).generator(),
                final(self)@,
            ),
            constellation(old(self)@) ==> constellation(final(self)@),
            final(self).cell() == old(self).cell(),
    {
        let index: usize = draw_led(&mut self.rng, len).0;
        assert(led_drawn(old(self).rng, len, index, self.rng));
        if self.is_taken(index) {
            return;
        }
        let ghost led_rng = self.rng;
        let speed: i8 = draw_speed(&mut self.rng).0;
        assert(speed_drawn(led_rng, speed, self.rng));
        let ghost speed_rng = self.rng;
        let max: u8 = draw_max(&mut self.rng).0;
        assert(max_drawn(speed_rng, max, self.rng));
        let color = self.color.get();
        self.place_star(index, speed, max, color);
        assert(star_lit(
            old(self).cell(),
            index,
            led_rng,
            old(self)@,
            self.generator(),
            self@,
        ));
    }

    /// Draws the next frame of each star, and drops the stars that burn out.
    pub fn sweep(&mut self, colors: &mut [RGB8])
        requires
            within(old(self)@, old(colors)@.len()),
        ensures
            final(self)@ == survivors(old(self)@),
            final(colors)@ == painted(old(self)@, old(colors)@),
            constellation(old(self)@) ==> constellation(final(self)@),
            final(self).cell() == old(self).cell(),
            final(self).generator() == old(self).generator(),
    {
        proof {
            if constellation(self@) {
                lemma_survivors_constellation(self@);
            }
        }
        retain_shining(&mut self.stars, colors);
    }
}

impl<'a> Pattern for Stars<'a> {
    open spec fn fits(&self, len: nat) -> bool {
        &&& 0 < len
        &&& constellation(self@)
        &&& within(self@, len)
    }

    fn update_rate(&self) -> (millis: u64)
        ensures
            millis == 40,
    {
        40
    }

    fn update(&mut self, colors: &mut [RGB8])
        ensures
            frame_from(
                old(self).cell(),
                old(self).generator(),
                old(self)@,
                old(colors)@,
                final(self).generator(),
                final(self)@,
                final(colors)@,
            ),
            all_wf(old(self)@) ==> all_wf(final(self)@),
            final(self).cell() == old(self).cell(),
    {
        if !is_full(&self.stars) {
            self.add_star(colors.len());
        }
        let ghost lit = self@;
        proof {
            assert(within(lit, colors@.len()));
            lemma_painted_is_drawn(lit, colors@);
            lemma_survivors_constellation(lit);
            assert forall|j: int| 0 <= j < survivors(lit).len() implies (
            #[trigger] survivors(lit)[j]).index < colors@.len() by {
                lemma_survivor_has_origin(lit, j);
            }
        }
        self.sweep(colors);
    }
}

/// A pattern starts without stars, with the cell that it is given, and with the
/// generator that its seed gives.
proof fn pattern_starts_from_its_seed(seed: u64, color: &AtomicColor, stars: Stars)
    requires
        call_ensures(Stars::new, (seed, color), stars),
    ensures
        stars@.len() == 0,
        stars.cell() == *color,
        call_ensures(seeded, (seed,), stars.generator()),
{
}

/// The LED of a star is one draw over all of the strip.
proof fn led_is_one_draw(rng: SmallRng, len: usize, led: usize, next: SmallRng)
    requires
        led_drawn(rng, len, led, next),
    ensures
        exists|own: &mut SmallRng|
            *own == rng && #[trigger] call_ensures(draw_usize, (own, 0usize, len), led),
{
}

} // verus!
