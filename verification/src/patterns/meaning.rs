//! What the operations on stars come to, in terms of LEDs, channels and numbers.
#[allow(unused_imports)]
use core::ops::ControlFlow;

#[allow(unused_imports)]
use rand::rngs::SmallRng;
use vstd::prelude::*;

#[allow(unused_imports)]
use super::laws::{scaling_rounds_to_nearest, star_keeps_its_nature};
#[allow(unused_imports)]
use super::stars::{
    constellation, drawn, frame_from, led_drawn, lemma_star_survives, lemma_survivor_has_origin,
    max_drawn, mul_u8, new_star, painted, shade, speed_drawn, star_added, star_lit, survivors,
    taken, with_star, Star, Stars, NUM_STARS,
};
#[allow(unused_imports)]
use super::Pattern;
#[allow(unused_imports)]
use crate::color::{AtomicColor, RGB8};

verus! {

/// `part` is the whole number nearest to `whole` times `value` over 255.
pub open spec fn is_share(part: u8, whole: u8, value: u8) -> bool {
    -255 < 2 * (255 * part - whole * value) < 255
}

/// `shown` is `color` at brightness `value`: each channel of it is that same
/// channel of `color`, scaled and rounded to nearest.
pub open spec fn is_dimmed(shown: RGB8, color: RGB8, value: u8) -> bool {
    &&& is_share(shown.r, color.r, value)
    &&& is_share(shown.g, color.g, value)
    &&& is_share(shown.b, color.b, value)
}

/// `led` is one that no star sits on.
pub open spec fn is_free(stars: Seq<Star>, led: int) -> bool {
    forall|i: int| 0 <= i < stars.len() ==> (#[trigger] stars[i]).index != led
}

/// The number that a speed is when it is read as an unsigned byte.
pub open spec fn is_pace(pace: int, speed: i8) -> bool {
    0 <= pace < 256 && (pace - speed) % 256 == 0
}

/// The product of a channel and a brightness is the nearest whole share.
pub proof fn product_is_the_nearest_share(a: u8, b: u8, product: u8)
    requires
        call_ensures(mul_u8, (a, b), product),
    ensures
        is_share(product, a, b),
{
    scaling_rounds_to_nearest(a, b);
}

/// A shade has each channel from that channel of the colour alone; at full
/// brightness it is the colour, and at none it is off.
pub proof fn shade_dims_each_channel(color: RGB8, value: u8)
    ensures
        is_dimmed(shade(color, value), color, value),
        value == 255 ==> shade(color, value) == color,
        value == 0 ==> shade(color, value) == (RGB8 { r: 0, g: 0, b: 0 }),
{
    scaling_rounds_to_nearest(color.r, value);
    scaling_rounds_to_nearest(color.g, value);
    scaling_rounds_to_nearest(color.b, value);
}

/// Only one number is the nearest share, so a dimmed colour is determined.
pub proof fn dimming_is_determined(one: RGB8, other: RGB8, color: RGB8, value: u8)
    requires
        is_dimmed(one, color, value),
        is_dimmed(other, color, value),
    ensures
        one == other,
{
}

/// A star on its way up brightens by its speed, up to its greatest brightness. It
/// goes on up exactly while it stays below that, and it does not burn out.
pub proof fn rising_star_brightens_by_its_speed(star: Star, pace: int)
    requires
        star.increasing,
        is_pace(pace, star.speed),
    ensures
        star.after_update().value <= star.max,
        star.after_update().value <= star.value + pace,
        star.after_update().value == star.max || star.after_update().value == star.value + pace,
        star.after_update().increasing <==> star.value + pace < star.max,
        !star.burnt_out(),
{
}

/// A star on its way down fades by its speed, down to nothing, and burns out
/// exactly when nothing is left. It never turns up again.
pub proof fn falling_star_fades_by_its_speed(star: Star, pace: int)
    requires
        !star.increasing,
        is_pace(pace, star.speed),
    ensures
        star.after_update().value >= star.value - pace,
        star.after_update().value == 0 || star.after_update().value == star.value - pace,
        star.after_update().value == 0 <==> star.value <= pace,
        star.burnt_out() <==> star.after_update().value == 0,
        !star.after_update().increasing,
{
}

/// What `Star::update` does to a star: it stays on its LED with its speed, its
/// greatest brightness and its colour; it brightens or fades by its speed; and
/// it breaks off exactly when it has faded to nothing.
pub proof fn update_moves_a_star_by_its_speed(pace: int)
    ensures
        forall|star: &mut Star, flow: ControlFlow<(), ()>|
            #![trigger call_ensures(Star::update, (star,), flow)]
            call_ensures(Star::update, (star,), flow) && is_pace(pace, (*star).speed) ==> {
                let before = *star;
                let after = *final(star);
                &&& after.index == before.index && after.speed == before.speed
                &&& after.max == before.max && after.color == before.color
                &&& before.increasing ==> {
                    &&& after.value <= before.max && after.value <= before.value + pace
                    &&& after.value == before.max || after.value == before.value + pace
                    &&& after.increasing == (before.value + pace < before.max)
                    &&& flow == ControlFlow::<(), ()>::Continue(())
                }
                &&& !before.increasing ==> {
                    &&& after.value >= before.value - pace
                    &&& after.value == 0 || after.value == before.value - pace
                    &&& !after.increasing
                    &&& flow == ControlFlow::<(), ()>::Break(()) <==> after.value == 0
                }
            },
{
}

/// What a star's LED shows: the star's colour, channel by channel, at the star's
/// new brightness, and nothing once the star has burnt out.
pub proof fn glow_is_the_color_at_the_new_brightness(star: Star)
    ensures
        !star.burnt_out() ==> is_dimmed(star.glow(), star.color, star.after_update().value),
        star.burnt_out() ==> star.glow() == (RGB8 { r: 0, g: 0, b: 0 }),
{
    shade_dims_each_channel(star.color, star.after_update().value);
}

/// What `Star::shine` draws: the star's LED shows the star's colour, channel by
/// channel, at the brightness that the star now has, or nothing if the star is
/// not kept; no other LED changes.
pub proof fn shine_shows_the_star_on_its_led(keep: bool)
    ensures
        forall|star: &mut Star, colors: &mut [RGB8]|
            #![trigger call_ensures(Star::shine, (star, colors), keep)]
            call_ensures(Star::shine, (star, colors), keep) && (*star).index < (*colors)@.len()
                ==> {
                let led = (*star).index as int;
                let before = (*colors)@;
                let after = (*final(colors))@;
                &&& after.len() == before.len()
                &&& keep ==> is_dimmed(after[led], (*star).color, (*final(star)).value)
                &&& !keep ==> after[led] == (RGB8 { r: 0, g: 0, b: 0 }) && (*final(star)).value == 0
                &&& (*star).increasing ==> keep
                &&& !(*star).increasing ==> (keep <==> (*final(star)).value > 0)
                &&& forall|other: int|
                    0 <= other < before.len() && other != led ==> #[trigger] after[other]
                        == before[other]
            },
{
    assert forall|star: &mut Star, colors: &mut [RGB8]|
        #![trigger call_ensures(Star::shine, (star, colors), keep)]
        call_ensures(Star::shine, (star, colors), keep) && (*star).index
            < (*colors)@.len() implies {
        let led = (*star).index as int;
        let before = (*colors)@;
        let after = (*final(colors))@;
        &&& after.len() == before.len()
        &&& keep ==> is_dimmed(after[led], (*star).color, (*final(star)).value)
        &&& !keep ==> after[led] == (RGB8 { r: 0, g: 0, b: 0 }) && (*final(star)).value == 0
        &&& (*star).increasing ==> keep
        &&& !(*star).increasing ==> (keep <==> (*final(star)).value > 0)
        &&& forall|other: int|
            0 <= other < before.len() && other != led ==> #[trigger] after[other]
                == before[other]
    } by {
        glow_is_the_color_at_the_new_brightness(*star);
    }
}

/// A star takes its own LED and no other.
pub proof fn star_takes_its_own_led(stars: Seq<Star>, star: Star, led: int)
    ensures
        taken(stars.push(star), led) <==> taken(stars, led) || star.index == led,
        !taken(Seq::empty(), led),
        taken(stars, led) <==> !is_free(stars, led),
{
    let after = stars.push(star);
    assert(after[stars.len() as int] == star);
    if taken(stars, led) {
        let i = choose|i: int| 0 <= i < stars.len() && (#[trigger] stars[i]).index == led;
        assert(after[i].index == led);
    }
    if taken(after, led) {
        let i = choose|i: int| 0 <= i < after.len() && (#[trigger] after[i]).index == led;
        if i < stars.len() {
            assert(stars[i].index == led);
        }
    }
}

/// `Stars::is_taken` finds a star exactly where one sits on that LED.
pub proof fn led_is_taken_unless_free(stars: Stars, index: usize, found: bool)
    requires
        call_ensures(Stars::is_taken, (&stars, index), found),
    ensures
        found <==> !is_free(stars@, index as int),
{
}

/// Frames come at one pace, whatever the stars.
pub proof fn frames_come_at_one_pace(stars: Stars, millis: u64)
    requires
        call_ensures(<Stars as Pattern>::update_rate, (&stars,), millis),
    ensures
        millis == 40,
{
}

/// A constellation takes another star exactly where there are fewer than sixteen
/// and the star's LED is free; and it starts from nothing.
pub proof fn constellation_takes_a_star_on_a_free_led(stars: Seq<Star>, star: Star)
    ensures
        constellation(Seq::empty()),
        constellation(stars.push(star)) <==> constellation(stars) && stars.len() < 16 && is_free(
            stars,
            star.index as int,
        ),
{
    let after = stars.push(star);
    assert(after[stars.len() as int] == star);
    assert(forall|i: int| 0 <= i < stars.len() ==> stars[i] == after[i]);
    if constellation(after) {
        assert forall|i: int, j: int| 0 <= i < j < stars.len() implies (#[trigger] stars[i]).index
            != (#[trigger] stars[j]).index by {
            assert(after[i].index != after[j].index);
        }
        assert forall|i: int| 0 <= i < stars.len() implies (#[trigger] stars[i]).index
            != star.index by {
            assert(after[i].index != after[stars.len() as int].index);
        }
    }
    if constellation(stars) && stars.len() < 16 && is_free(stars, star.index as int) {
        assert forall|i: int, j: int| 0 <= i < j < after.len() implies (#[trigger] after[i]).index
            != (#[trigger] after[j]).index by {
            assert(after[i] == stars[i]);
            if j < stars.len() {
                assert(after[j] == stars[j]);
            }
        }
    }
}

/// A pattern can be drawn on a longer strip too, and without stars on any strip
/// that has an LED.
pub proof fn longer_strips_fit_too(stars: Stars, len: nat, longer: nat)
    requires
        len <= longer,
    ensures
        stars.fits(len) ==> stars.fits(longer),
        stars@.len() == 0 && 0 < len ==> stars.fits(len),
        stars.fits(len) <==> 0 < len && constellation(stars@) && forall|i: int|
            0 <= i < stars@.len() ==> (#[trigger] stars@[i]).index < len,
{
}

/// A star that is placed sits on the very LED that was asked for, dark and about
/// to brighten, with the speed, the greatest brightness and the colour that were
/// asked for, behind the other stars. It is placed exactly where that LED is
/// free and there are fewer than sixteen stars.
pub proof fn placed_star_is_the_one_asked_for(
    stars: Seq<Star>,
    index: usize,
    speed: i8,
    max: u8,
    color: RGB8,
)
    ensures
        ({
            let after = with_star(stars, new_star(index, speed, max, color));
            if is_free(stars, index as int) && stars.len() < 16 {
                &&& after.len() == stars.len() + 1
                &&& after.drop_last() == stars
                &&& after.last().index == index
                &&& after.last().value == 0
                &&& after.last().speed == speed
                &&& after.last().max == max
                &&& after.last().increasing
                &&& after.last().color == color
                &&& taken(after, index as int)
            } else {
                after == stars
            }
        }),
{
    let star = new_star(index, speed, max, color);
    star_takes_its_own_led(stars, star, index as int);
    if is_free(stars, index as int) && stars.len() < 16 {
        let after = with_star(stars, star);
        assert(after == stars.push(star));
        assert(after.drop_last() =~= stars);
    }
}

/// What `Stars::place_star` does, as `placed_star_is_the_one_asked_for` says.
pub proof fn place_star_places_what_was_asked_for(index: usize, speed: i8, max: u8, color: RGB8)
    ensures
        forall|stars: &mut Stars|
            #![trigger call_ensures(Stars::place_star, (stars, index, speed, max, color), ())]
            call_ensures(Stars::place_star, (stars, index, speed, max, color), ()) ==> {
                let before = (*stars)@;
                let after = (*final(stars))@;
                if is_free(before, index as int) && before.len() < 16 {
                    &&& after == before.push(
                        Star { index, value: 0, speed, max, increasing: true, color },
                    )
                } else {
                    after == before
                }
            },
{
    assert forall|stars: &mut Stars|
        #![trigger call_ensures(Stars::place_star, (stars, index, speed, max, color), ())]
        call_ensures(Stars::place_star, (stars, index, speed, max, color), ()) implies {
        let before = (*stars)@;
        let after = (*final(stars))@;
        if is_free(before, index as int) && before.len() < 16 {
            &&& after == before.push(Star { index, value: 0, speed, max, increasing: true, color })
        } else {
            after == before
        }
    } by {
        let before = (*stars)@;
        placed_star_is_the_one_asked_for(before, index, speed, max, color);
        let after = with_star(before, new_star(index, speed, max, color));
        if is_free(before, index as int) && before.len() < 16 {
            assert(after =~= after.drop_last().push(after.last()));
        }
    }
}

/// What an attempt to add a star comes to. One LED of the strip is drawn. If a
/// star sits there, nothing else happens. If it is free, a speed and a greatest
/// brightness are drawn, in that order, and with fewer than sixteen stars a
/// star with them sits on that LED from now on, dark and about to brighten, in
/// a colour that the cell gives.
pub proof fn added_star_sits_on_the_drawn_led(
    cell: AtomicColor,
    len: usize,
    rng: SmallRng,
    before: Seq<Star>,
    next_rng: SmallRng,
    after: Seq<Star>,
) -> (drawn_led: (usize, SmallRng))
    requires
        star_added(cell, len, rng, before, next_rng, after),
    ensures
        led_drawn(rng, len, drawn_led.0, drawn_led.1),
        drawn_led.0 < len,
        !is_free(before, drawn_led.0 as int) ==> after == before && next_rng == drawn_led.1,
        is_free(before, drawn_led.0 as int) && before.len() >= 16 ==> after == before,
        is_free(before, drawn_led.0 as int) && before.len() < 16 ==> {
            &&& after.len() == before.len() + 1
            &&& after.drop_last() == before
            &&& after.last().index == drawn_led.0
            &&& after.last().value == 0
            &&& after.last().increasing
            &&& 2 <= after.last().speed < 8
            &&& 200 <= after.last().max < 255
            &&& cell.gives(after.last().color)
            &&& exists|speed_rng: SmallRng| #[trigger]
                speed_drawn(drawn_led.1, after.last().speed, speed_rng) && max_drawn(
                    speed_rng,
                    after.last().max,
                    next_rng,
                )
        },
{
    let (led, led_rng) = choose|led: usize, led_rng: SmallRng|
        {
            &&& #[trigger] led_drawn(rng, len, led, led_rng)
            &&& led < len
            &&& if taken(before, led as int) {
                next_rng == led_rng && after == before
            } else {
                star_lit(cell, led, led_rng, before, next_rng, after)
            }
        };
    if before.len() > 0 {
        star_takes_its_own_led(before, before[0], led as int);
    }
    if is_free(before, led as int) {
        assert(!taken(before, led as int));
        let (speed, speed_rng, max, color) = choose|
            speed: i8,
            speed_rng: SmallRng,
            max: u8,
            color: RGB8,
        |
            {
                &&& #[trigger] speed_drawn(led_rng, speed, speed_rng)
                &&& #[trigger] max_drawn(speed_rng, max, next_rng)
                &&& 2 <= speed < 8
                &&& 200 <= max < 255
                &&& #[trigger] cell.gives(color)
                &&& after == with_star(before, new_star(led, speed, max, color))
            };
        placed_star_is_the_one_asked_for(before, led, speed, max, color);
        assert(speed_drawn(led_rng, speed, speed_rng));
    }
    (led, led_rng)
}

/// What one star comes to in a frame: it is gone where it was on its way down and
/// nothing is left of it, and else it is there, one frame on.
pub proof fn lone_star_survives_unless_it_fades_out(star: Star, pace: int)
    requires
        is_pace(pace, star.speed),
    ensures
        !star.increasing && star.value <= pace ==> survivors(seq![star]) == Seq::<Star>::empty(),
        star.increasing || star.value > pace ==> survivors(seq![star]) == seq![
            star.after_update(),
        ],
{
    assert(seq![star].drop_last() =~= Seq::<Star>::empty());
    assert(seq![star].last() == star);
    assert(survivors(Seq::<Star>::empty()) == Seq::<Star>::empty());
    assert(Seq::<Star>::empty().push(star.after_update()) =~= seq![star.after_update()]);
}

/// The stars do not touch one another in a frame: what survives of two groups is
/// what survives of the first, and then what survives of the second.
pub proof fn groups_of_stars_survive_apart(first: Seq<Star>, second: Seq<Star>)
    ensures
        survivors(first + second) == survivors(first) + survivors(second),
    decreases second.len(),
{
    if second.len() == 0 {
        assert(first + second =~= first);
        assert(survivors(first) + survivors(second) =~= survivors(first));
    } else {
        let all = first + second;
        assert(all.drop_last() =~= first + second.drop_last());
        assert(all.last() == second.last());
        groups_of_stars_survive_apart(first, second.drop_last());
        assert(survivors(all) =~= survivors(first) + survivors(second));
    }
}

/// One star changes its own LED alone: that shows the star's colour, channel by
/// channel, at its new brightness, or nothing where the star has faded out.
pub proof fn lone_star_paints_its_own_led(star: Star, pace: int, colors: Seq<RGB8>)
    requires
        is_pace(pace, star.speed),
        star.index < colors.len(),
    ensures
        ({
            let after = painted(seq![star], colors);
            &&& after.len() == colors.len()
            &&& star.increasing || star.value > pace ==> is_dimmed(
                after[star.index as int],
                star.color,
                star.after_update().value,
            )
            &&& !star.increasing && star.value <= pace ==> after[star.index as int] == (RGB8 {
                r: 0,
                g: 0,
                b: 0,
            })
            &&& forall|led: int|
                0 <= led < colors.len() && led != star.index ==> #[trigger] after[led]
                    == colors[led]
        }),
{
    assert(seq![star].drop_last() =~= Seq::<Star>::empty());
    assert(seq![star].last() == star);
    assert(painted(Seq::<Star>::empty(), colors) == colors);
    glow_is_the_color_at_the_new_brightness(star);
}

/// Two groups of stars paint one after the other.
pub proof fn groups_of_stars_paint_in_turn(
    first: Seq<Star>,
    second: Seq<Star>,
    colors: Seq<RGB8>,
)
    ensures
        painted(first + second, colors) == painted(second, painted(first, colors)),
    decreases second.len(),
{
    if second.len() == 0 {
        assert(first + second =~= first);
    } else {
        let all = first + second;
        assert(all.drop_last() =~= first + second.drop_last());
        assert(all.last() == second.last());
        groups_of_stars_paint_in_turn(first, second.drop_last(), colors);
    }
}

/// The stars that draw in a frame, in terms of what `frame_from` relates.
proof fn lemma_lit_stars_from(
    cell: AtomicColor,
    rng: SmallRng,
    stars: Seq<Star>,
    colors: Seq<RGB8>,
    next_rng: SmallRng,
    next_stars: Seq<Star>,
    next_colors: Seq<RGB8>,
) -> (lit: Seq<Star>)
    requires
        frame_from(cell, rng, stars, colors, next_rng, next_stars, next_colors),
    ensures
        stars.len() == 16 ==> next_rng == rng && lit == stars,
        stars.len() != 16 ==> star_added(
            cell,
            colors.len() as usize,
            rng,
            stars,
            next_rng,
            lit,
        ),
        next_stars == survivors(lit),
        drawn(lit, colors, next_colors),
{
    choose|lit: Seq<Star>|
        {
            &&& if stars.len() == NUM_STARS {
                next_rng == rng && lit == stars
            } else {
                star_added(cell, colors.len() as usize, rng, stars, next_rng, lit)
            }
            &&& next_stars == #[trigger] survivors(lit)
            &&& drawn(lit, colors, next_colors)
        }
}

/// With sixteen stars a frame draws nothing at random and adds none: what survives
/// of them is what there is.
pub proof fn frame_of_sixteen_only_advances(
    cell: AtomicColor,
    rng: SmallRng,
    stars: Seq<Star>,
    colors: Seq<RGB8>,
    next_rng: SmallRng,
    next_stars: Seq<Star>,
    next_colors: Seq<RGB8>,
)
    requires
        frame_from(cell, rng, stars, colors, next_rng, next_stars, next_colors),
        stars.len() == 16,
    ensures
        next_rng == rng,
        next_stars == survivors(stars),
{
    let lit = lemma_lit_stars_from(cell, rng, stars, colors, next_rng, next_stars, next_colors);
}

/// With fewer than sixteen stars a frame draws one LED of the strip. If it is
/// taken, what survives of the stars is what there is. If it is free, a new
/// star is there behind them, on that LED and brightened by one step, in a
/// colour that the cell gives.
pub proof fn frame_lights_the_drawn_led(
    cell: AtomicColor,
    rng: SmallRng,
    stars: Seq<Star>,
    colors: Seq<RGB8>,
    next_rng: SmallRng,
    next_stars: Seq<Star>,
    next_colors: Seq<RGB8>,
) -> (drawn_led: (usize, SmallRng))
    requires
        frame_from(cell, rng, stars, colors, next_rng, next_stars, next_colors),
        stars.len() < 16,
    ensures
        led_drawn(rng, colors.len() as usize, drawn_led.0, drawn_led.1),
        drawn_led.0 < colors.len(),
        !is_free(stars, drawn_led.0 as int) ==> next_stars == survivors(stars) && next_rng
            == drawn_led.1,
        is_free(stars, drawn_led.0 as int) ==> {
            &&& next_stars.len() == survivors(stars).len() + 1
            &&& next_stars.drop_last() == survivors(stars)
            &&& next_stars.last().index == drawn_led.0
            &&& next_stars.last().value == next_stars.last().speed
            &&& next_stars.last().increasing
            &&& 2 <= next_stars.last().speed < 8
            &&& 200 <= next_stars.last().max < 255
            &&& cell.gives(next_stars.last().color)
            &&& exists|speed_rng: SmallRng| #[trigger]
                speed_drawn(drawn_led.1, next_stars.last().speed, speed_rng) && max_drawn(
                    speed_rng,
                    next_stars.last().max,
                    next_rng,
                )
        },
{
    let lit = lemma_lit_stars_from(cell, rng, stars, colors, next_rng, next_stars, next_colors);
    let len = colors.len() as usize;
    let drawn_led = added_star_sits_on_the_drawn_led(cell, len, rng, stars, next_rng, lit);
    if is_free(stars, drawn_led.0 as int) {
        let star = lit.last();
        assert(lit =~= stars + seq![star]);
        groups_of_stars_survive_apart(stars, seq![star]);
        lone_star_survives_unless_it_fades_out(star, star.speed as int);
        rising_star_brightens_by_its_speed(star, star.speed as int);
        star_keeps_its_nature(star);
        let next = star.after_update();
        assert(next_stars == survivors(stars) + seq![next]);
        assert(next_stars.len() == survivors(stars).len() + 1);
        assert(next_stars.drop_last() =~= survivors(stars));
        assert(next_stars.last() == next);
        assert(next.increasing && next.value == next.speed);
        let speed_rng = choose|speed_rng: SmallRng| #[trigger]
            speed_drawn(drawn_led.1, star.speed, speed_rng) && max_drawn(
                speed_rng,
                star.max,
                next_rng,
            );
        assert(speed_drawn(drawn_led.1, next_stars.last().speed, speed_rng));
        assert(max_drawn(speed_rng, next_stars.last().max, next_rng));
    }
    drawn_led
}

/// What each LED shows after a frame. Where a star now sits, it is that star's
/// colour, channel by channel, at that star's brightness. Where a star sat and
/// none sits now, it is nothing. Elsewhere it is what it was.
pub proof fn frame_settles_each_led(
    cell: AtomicColor,
    rng: SmallRng,
    stars: Seq<Star>,
    colors: Seq<RGB8>,
    next_rng: SmallRng,
    next_stars: Seq<Star>,
    next_colors: Seq<RGB8>,
    led: int,
)
    requires
        frame_from(cell, rng, stars, colors, next_rng, next_stars, next_colors),
        stars.len() <= 16,
        0 <= led < colors.len(),
    ensures
        next_colors.len() == colors.len(),
        forall|i: int|
            0 <= i < next_stars.len() && (#[trigger] next_stars[i]).index == led ==> is_dimmed(
                next_colors[led],
                next_stars[i].color,
                next_stars[i].value,
            ),
        is_free(next_stars, led) && !is_free(stars, led) ==> next_colors[led] == (RGB8 {
            r: 0,
            g: 0,
            b: 0,
        }),
        is_free(next_stars, led) && is_free(stars, led) ==> next_colors[led] == colors[led],
{
    let lit = lemma_lit_stars_from(cell, rng, stars, colors, next_rng, next_stars, next_colors);
    assert forall|i: int|
        0 <= i < next_stars.len() && (#[trigger] next_stars[i]).index == led implies is_dimmed(
        next_colors[led],
        next_stars[i].color,
        next_stars[i].value,
    ) by {
        lemma_survivor_has_origin(lit, i);
        let k = choose|k: int|
            0 <= k < lit.len() && !(#[trigger] lit[k]).burnt_out() && survivors(lit)[i]
                == lit[k].after_update();
        assert(next_colors[lit[k].index as int] == lit[k].glow());
        glow_is_the_color_at_the_new_brightness(lit[k]);
    }
    if is_free(next_stars, led) {
        if taken(lit, led) {
            let k = choose|k: int| 0 <= k < lit.len() && (#[trigger] lit[k]).index == led;
            if !lit[k].burnt_out() {
                lemma_star_survives(lit, k);
                let j = choose|j: int|
                    0 <= j < survivors(lit).len() && #[trigger] survivors(lit)[j]
                        == lit[k].after_update();
                assert(next_stars[j].index == led);
            }
            assert(next_colors[lit[k].index as int] == lit[k].glow());
            if stars.len() < 16 {
                let len = colors.len() as usize;
                let drawn_led = added_star_sits_on_the_drawn_led(
                    cell,
                    len,
                    rng,
                    stars,
                    next_rng,
                    lit,
                );
                if k < stars.len() {
                    assert(lit[k] == stars[k]) by {
                        if is_free(stars, drawn_led.0 as int) {
                            assert(lit[k] == lit.drop_last()[k]);
                        }
                    }
                }
            }
        } else {
            assert(next_colors[led] == colors[led]);
            if !is_free(stars, led) {
                let k = choose|k: int| 0 <= k < stars.len() && (#[trigger] stars[k]).index == led;
                if stars.len() < 16 {
                    let len = colors.len() as usize;
                    let drawn_led = added_star_sits_on_the_drawn_led(
                        cell,
                        len,
                        rng,
                        stars,
                        next_rng,
                        lit,
                    );
                    if is_free(stars, drawn_led.0 as int) {
                        assert(lit[k] == lit.drop_last()[k]);
                    }
                }
                assert(lit[k].index == led);
            }
        }
    }
}

/// A call of `Stars::update` is a frame, in the sense of the laws above, from the
/// stars, the generator and the strip before it to those after it.
pub proof fn update_is_a_frame()
    ensures
        forall|stars: &mut Stars, colors: &mut [RGB8]|
            #![trigger call_ensures(<Stars as Pattern>::update, (stars, colors), ())]
            call_ensures(<Stars as Pattern>::update, (stars, colors), ()) ==> frame_from(
                (*stars).cell(),
                (*stars).generator(),
                (*stars)@,
                (*colors)@,
                (*final(stars)).generator(),
                (*final(stars))@,
                (*final(colors))@,
            ) && (*final(stars)).cell() == (*stars).cell(),
{
}

} // verus!
