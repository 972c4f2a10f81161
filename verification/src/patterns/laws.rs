//! What holds of the stars over a frame, and over a star's whole life.
use vstd::prelude::*;

#[allow(unused_imports)]
use rand::rngs::SmallRng;

#[allow(unused_imports)]
use super::stars::{
    all_wf, constellation, drawn, frame, frame_from, led_drawn, lemma_star_survives,
    lemma_survivor_has_origin, lemma_survivors_constellation, lemma_with_star_constellation,
    max_drawn, new_star, scaled, shade, speed_drawn, star_added, star_lit, survivors, taken,
    with_star, Star, NUM_STARS,
};
#[allow(unused_imports)]
use crate::color::{black, AtomicColor, RGB8};

verus! {

/// Scaling rounds to the nearest whole number: `255` times the result is off by
/// less than half of `255`.
pub proof fn scaling_rounds_to_nearest(a: u8, b: u8)
    ensures
        2 * (255 * scaled(a, b) - a * b) < 255,
        2 * (a * b - 255 * scaled(a, b)) < 255,
{
    lemma_product_in_range(a, b);
}

/// It does not matter which of the two factors is the brightness.
pub proof fn scaling_commutes(a: u8, b: u8)
    ensures
        scaled(a, b) == scaled(b, a),
{
    assert(a * b == b * a) by (nonlinear_arith);
}

/// Full brightness leaves a channel as it is, and no brightness turns it off.
pub proof fn scaling_extremes(a: u8)
    ensures
        scaled(a, 255) == a,
        scaled(a, 0) == 0,
{
}

/// Scaling never brightens, and a brighter factor never gives a darker result.
pub proof fn scaling_is_monotone(a: u8, b: u8, c: u8)
    requires
        b <= c,
    ensures
        scaled(a, b) <= scaled(a, c) <= a,
{
    lemma_product_in_range(a, b);
    lemma_product_in_range(a, c);
    assert(a * b <= a * c <= a * 255) by (nonlinear_arith)
        requires
            b <= c <= 255,
    ;
}

proof fn lemma_product_in_range(a: u8, b: u8)
    ensures
        0 <= a * b <= 255 * 255,
{
    assert(0 <= a * b <= 255 * 255) by (nonlinear_arith)
        requires
            a <= 255,
            b <= 255,
    ;
}

/// A star keeps its LED, its speed, its greatest brightness and its colour.
pub proof fn star_keeps_its_nature(star: Star)
    ensures
        star.after_update().index == star.index,
        star.after_update().speed == star.speed,
        star.after_update().max == star.max,
        star.after_update().color == star.color,
{
}

/// A star that can shine can shine on, until it burns out.
pub proof fn star_stays_wf(star: Star)
    requires
        star.wf(),
        !star.burnt_out(),
    ensures
        star.after_update().wf(),
{
}

/// A star after `frames` frames.
pub open spec fn after_updates(star: Star, frames: nat) -> Star
    decreases frames,
{
    if frames == 0 {
        star
    } else {
        after_updates(star, (frames - 1) as nat).after_update()
    }
}

/// How many frames a star takes from dark to its greatest brightness.
pub open spec fn rise_time(star: Star) -> int {
    (star.max + star.pace() - 1) / star.pace()
}

proof fn lemma_rise_time(star: Star)
    requires
        star.pace() > 0,
        star.max > 0,
    ensures
        rise_time(star) >= 1,
        (rise_time(star) - 1) * star.pace() < star.max <= rise_time(star) * star.pace(),
{
    let pace = star.pace();
    let sum = star.max + pace - 1;
    vstd::arithmetic::div_mod::lemma_fundamental_div_mod(sum, pace);
    vstd::arithmetic::div_mod::lemma_mod_bound(sum, pace);
    assert((rise_time(star) - 1) * pace == pace * (sum / pace) - pace) by (nonlinear_arith)
        requires
            rise_time(star) == sum / pace,
    ;
    assert(rise_time(star) * pace == pace * (sum / pace)) by (nonlinear_arith)
        requires
            rise_time(star) == sum / pace,
    ;
    assert(rise_time(star) >= 1) by (nonlinear_arith)
        requires
            rise_time(star) * pace > 0,
            pace > 0,
    ;
}

/// A star that starts out dark brightens by its pace in each frame until it
/// reaches its greatest brightness, fades by its pace from there, and burns out
/// when it has faded for as many frames as it brightened, not before.
pub proof fn star_rises_and_fades(star: Star, frames: nat)
    requires
        star.value == 0,
        star.increasing,
        star.pace() > 0,
        star.max > 0,
        frames < 2 * rise_time(star),
    ensures
        frames < rise_time(star) ==> after_updates(star, frames) == (Star {
            value: (frames * star.pace()) as u8,
            ..star
        }) && frames * star.pace() < star.max,
        frames >= rise_time(star) ==> after_updates(star, frames) == (Star {
            value: (star.max - (frames - rise_time(star)) * star.pace()) as u8,
            increasing: false,
            ..star
        }) && 0 < star.max - (frames - rise_time(star)) * star.pace() <= star.max,
        after_updates(star, frames).burnt_out() <==> frames == 2 * rise_time(star) - 1,
    decreases frames,
{
    let t = rise_time(star);
    let pace = star.pace();
    lemma_rise_time(star);
    if frames > 0 {
        star_rises_and_fades(star, (frames - 1) as nat);
    }
    if frames < t {
        assert(frames * pace < star.max) by (nonlinear_arith)
            requires
                frames <= t - 1,
                (t - 1) * pace < star.max,
                pace > 0,
        ;
        assert(0 <= frames * pace) by (nonlinear_arith)
            requires
                pace > 0,
        ;
        if frames > 0 {
            assert(frames * pace == (frames - 1) * pace + pace) by (nonlinear_arith);
        } else {
            assert(frames * pace == 0) by (nonlinear_arith)
                requires
                    frames == 0,
            ;
        }
    } else {
        let faded = frames - t;
        if faded == 0 {
            assert(frames * pace == (frames - 1) * pace + pace) by (nonlinear_arith);
            assert(faded * pace == 0) by (nonlinear_arith)
                requires
                    faded == 0,
            ;
        } else {
            assert(faded * pace == (faded - 1) * pace + pace) by (nonlinear_arith);
        }
        assert(0 <= faded * pace < star.max) by (nonlinear_arith)
            requires
                0 <= faded <= t - 1,
                (t - 1) * pace < star.max,
                pace > 0,
        ;
        assert((faded + 1) * pace == faded * pace + pace) by (nonlinear_arith);
        if faded < t - 1 {
            assert((faded + 1) * pace < star.max) by (nonlinear_arith)
                requires
                    0 <= faded + 1 <= t - 1,
                    (t - 1) * pace < star.max,
                    pace > 0,
            ;
        }
    }
}

/// A star shines for 58 to 254 frames.
pub proof fn lifetime_is_bounded(star: Star, len: nat)
    requires
        star.fresh(len),
    ensures
        58 <= 2 * rise_time(star) <= 254,
{
    let t = rise_time(star);
    let pace = star.pace();
    lemma_rise_time(star);
    assert(29 <= t <= 127) by (nonlinear_arith)
        requires
            (t - 1) * pace < star.max <= t * pace,
            2 <= pace <= 7,
            200 <= star.max <= 254,
    ;
}

/// The strip is the picture of the stars: the LED of each star shows the star's
/// colour at the star's brightness, and every other LED is off.
pub open spec fn mirrors(stars: Seq<Star>, colors: Seq<RGB8>) -> bool {
    &&& forall|i: int|
        0 <= i < stars.len() ==> colors[(#[trigger] stars[i]).index as int] == shade(
            stars[i].color,
            stars[i].value,
        )
    &&& forall|led: int|
        0 <= led < colors.len() && !taken(stars, led) ==> #[trigger] colors[led] == black()
}

/// A dark strip is the picture of no stars.
pub proof fn dark_strip_mirrors_no_stars(colors: Seq<RGB8>)
    requires
        forall|led: int| 0 <= led < colors.len() ==> #[trigger] colors[led] == black(),
    ensures
        mirrors(Seq::empty(), colors),
{
}

/// A strip that is the picture of the stars before a frame is the picture of the
/// stars after it.
pub proof fn frame_keeps_the_picture(
    cell: AtomicColor,
    stars: Seq<Star>,
    colors: Seq<RGB8>,
    next_stars: Seq<Star>,
    next_colors: Seq<RGB8>,
)
    requires
        frame(cell, stars, colors, next_stars, next_colors),
        mirrors(stars, colors),
    ensures
        mirrors(next_stars, next_colors),
{
    let lit = lemma_lit_stars(cell, stars, colors, next_stars, next_colors);
    assert forall|i: int| 0 <= i < next_stars.len() implies next_colors[(
    #[trigger] next_stars[i]).index as int] == shade(next_stars[i].color, next_stars[i].value) by {
        lemma_survivor_has_origin(lit, i);
        let k = choose|k: int|
            0 <= k < lit.len() && !(#[trigger] lit[k]).burnt_out() && survivors(lit)[i]
                == lit[k].after_update();
        assert(next_colors[lit[k].index as int] == lit[k].glow());
    }
    assert forall|led: int|
        0 <= led < next_colors.len() && !taken(next_stars, led) implies #[trigger] next_colors[led]
        == black() by {
        if taken(lit, led) {
            let k = choose|k: int| 0 <= k < lit.len() && (#[trigger] lit[k]).index == led;
            if !lit[k].burnt_out() {
                lemma_star_survives(lit, k);
                let j = choose|j: int|
                    0 <= j < survivors(lit).len() && #[trigger] survivors(lit)[j]
                        == lit[k].after_update();
                assert(next_stars[j].index == led);
            }
            assert(next_colors[lit[k].index as int] == lit[k].glow());
        } else {
            assert(next_colors[led] == colors[led]);
            if taken(stars, led) {
                let k = choose|k: int| 0 <= k < stars.len() && (#[trigger] stars[k]).index == led;
                assert(lit[k] == stars[k]);
            }
        }
    }
}

/// The stars that draw in a frame: those of before, in their places, and
/// perhaps a new one behind them.
proof fn lemma_lit_stars(
    cell: AtomicColor,
    stars: Seq<Star>,
    colors: Seq<RGB8>,
    next_stars: Seq<Star>,
    next_colors: Seq<RGB8>,
) -> (lit: Seq<Star>)
    requires
        frame(cell, stars, colors, next_stars, next_colors),
    ensures
        next_stars == survivors(lit),
        drawn(lit, colors, next_colors),
        stars.len() <= lit.len() <= stars.len() + 1,
        forall|i: int| 0 <= i < stars.len() ==> #[trigger] lit[i] == stars[i],
        lit.len() > stars.len() ==> lit.last().fresh(colors.len()) && cell.gives(lit.last().color),
        stars.len() == 0 ==> lit.len() == 1,
        constellation(stars) ==> constellation(lit),
        all_wf(stars) ==> all_wf(lit),
{
    let (rng, next_rng) = choose|rng: SmallRng, next_rng: SmallRng| #[trigger]
        frame_from(cell, rng, stars, colors, next_rng, next_stars, next_colors);
    let len = colors.len() as usize;
    let lit = choose|lit: Seq<Star>|
        {
            &&& if stars.len() == NUM_STARS {
                next_rng == rng && lit == stars
            } else {
                star_added(cell, len, rng, stars, next_rng, lit)
            }
            &&& next_stars == #[trigger] survivors(lit)
            &&& drawn(lit, colors, next_colors)
        };
    if stars.len() != NUM_STARS {
        let (led, led_rng) = choose|led: usize, led_rng: SmallRng|
            {
                &&& #[trigger] led_drawn(rng, len, led, led_rng)
                &&& led < len
                &&& if taken(stars, led as int) {
                    next_rng == led_rng && lit == stars
                } else {
                    star_lit(cell, led, led_rng, stars, next_rng, lit)
                }
            };
        if !taken(stars, led as int) {
            let (speed, speed_rng, max, color) = choose|
                speed: i8,
                speed_rng: SmallRng,
                max: u8,
                color: RGB8,
            |
                {
                    &&& #[trigger] speed_drawn(led_rng, speed, speed_rng)
                    &&& #[trigger] max_drawn(speed_rng, max, next_rng)
                    &&& 2 <= speed < 8
                    &&& 200 <= max < 255
                    &&& #[trigger] cell.gives(color)
                    &&& lit == with_star(stars, new_star(led, speed, max, color))
                };
            if constellation(stars) {
                lemma_with_star_constellation(stars, new_star(led, speed, max, color));
            }
        }
    }
    lit
}

/// Over a frame each star goes on to its next state, or, if it has burnt out,
/// frees its LED and leaves it dark.
pub proof fn frame_advances_each_star(
    cell: AtomicColor,
    stars: Seq<Star>,
    colors: Seq<RGB8>,
    next_stars: Seq<Star>,
    next_colors: Seq<RGB8>,
    i: int,
)
    requires
        frame(cell, stars, colors, next_stars, next_colors),
        constellation(stars),
        0 <= i < stars.len(),
    ensures
        !stars[i].burnt_out() ==> next_stars.contains(stars[i].after_update()),
        stars[i].burnt_out() ==> !taken(next_stars, stars[i].index as int)
            && next_colors[stars[i].index as int] == black(),
{
    let lit = lemma_lit_stars(cell, stars, colors, next_stars, next_colors);
    assert(lit[i] == stars[i]);
    if stars[i].burnt_out() {
        if taken(next_stars, stars[i].index as int) {
            let j = choose|j: int|
                0 <= j < next_stars.len() && (#[trigger] next_stars[j]).index == stars[i].index;
            lemma_survivor_has_origin(lit, j);
            let k = choose|k: int|
                0 <= k < lit.len() && !(#[trigger] lit[k]).burnt_out() && survivors(lit)[j]
                    == lit[k].after_update();
            assert(lit[k].index == lit[i].index);
        }
        assert(next_colors[lit[i].index as int] == lit[i].glow());
    } else {
        lemma_star_survives(lit, i);
    }
}

/// A frame adds at most one star, and never makes more than there can be or two on
/// one LED.
pub proof fn frame_adds_at_most_one_star(
    cell: AtomicColor,
    stars: Seq<Star>,
    colors: Seq<RGB8>,
    next_stars: Seq<Star>,
    next_colors: Seq<RGB8>,
)
    requires
        frame(cell, stars, colors, next_stars, next_colors),
        constellation(stars),
    ensures
        next_stars.len() <= stars.len() + 1,
        next_stars.len() <= NUM_STARS,
        constellation(next_stars),
        all_wf(stars) ==> all_wf(next_stars),
{
    let lit = lemma_lit_stars(cell, stars, colors, next_stars, next_colors);
    lemma_survivors_constellation(lit);
}

/// Where the stars are as many as there can be, a frame draws nothing at random and
/// adds none, also where some of them burn out in it.
pub proof fn full_frame_draws_and_adds_nothing(
    cell: AtomicColor,
    rng: SmallRng,
    stars: Seq<Star>,
    colors: Seq<RGB8>,
    next_rng: SmallRng,
    next_stars: Seq<Star>,
    next_colors: Seq<RGB8>,
    led: int,
)
    requires
        frame_from(cell, rng, stars, colors, next_rng, next_stars, next_colors),
        stars.len() == NUM_STARS,
    ensures
        next_rng == rng,
        next_stars == survivors(stars),
        taken(next_stars, led) ==> taken(stars, led),
{
    if taken(next_stars, led) {
        let j = choose|j: int| 0 <= j < next_stars.len() && (#[trigger] next_stars[j]).index == led;
        lemma_survivor_has_origin(stars, j);
    }
}

/// An attempt to add a star that changes the stars puts one on an LED that was
/// free, behind the others; where every LED is taken, nothing changes.
pub proof fn star_is_added_only_on_a_free_led(
    cell: AtomicColor,
    len: usize,
    rng: SmallRng,
    before: Seq<Star>,
    next_rng: SmallRng,
    after: Seq<Star>,
)
    requires
        star_added(cell, len, rng, before, next_rng, after),
    ensures
        after == before || {
            &&& after.len() == before.len() + 1
            &&& after.drop_last() == before
            &&& after.last().fresh(len as nat)
            &&& !taken(before, after.last().index as int)
            &&& cell.gives(after.last().color)
        },
        (forall|led: int| 0 <= led < len ==> #[trigger] taken(before, led)) ==> after == before,
{
    if after != before {
        assert(after.drop_last() =~= before);
    }
}

/// The first frame lights one star, in a colour that the cell gave, at the
/// brightness of its first step.
pub proof fn first_frame_lights_a_star(
    cell: AtomicColor,
    colors: Seq<RGB8>,
    next_stars: Seq<Star>,
    next_colors: Seq<RGB8>,
)
    requires
        frame(cell, Seq::empty(), colors, next_stars, next_colors),
    ensures
        next_stars.len() == 1,
        next_stars[0].wf(),
        next_stars[0].index < colors.len(),
        next_stars[0].increasing,
        next_stars[0].value == next_stars[0].speed,
        cell.gives(next_stars[0].color),
{
    let none = Seq::<Star>::empty();
    let lit = lemma_lit_stars(cell, none, colors, next_stars, next_colors);
    assert(lit.drop_last() =~= none);
    assert(survivors(none) =~= none);
}

/// A run of the pattern: the stars and the strip, frame after frame.
pub open spec fn run(
    cell: AtomicColor,
    stars: Seq<Seq<Star>>,
    strips: Seq<Seq<RGB8>>,
) -> bool {
    &&& stars.len() == strips.len()
    &&& forall|k: int|
        0 <= k < stars.len() - 1 ==> frame(
            cell,
            #[trigger] stars[k],
            strips[k],
            stars[k + 1],
            strips[k + 1],
        )
}

/// A run that starts as a picture of its stars stays one.
pub proof fn run_keeps_the_picture(
    cell: AtomicColor,
    stars: Seq<Seq<Star>>,
    strips: Seq<Seq<RGB8>>,
    k: nat,
)
    requires
        run(cell, stars, strips),
        k < stars.len(),
        mirrors(stars[0], strips[0]),
    ensures
        mirrors(stars[k as int], strips[k as int]),
    decreases k,
{
    if k > 0 {
        run_keeps_the_picture(cell, stars, strips, (k - 1) as nat);
        frame_keeps_the_picture(
            cell,
            stars[k - 1],
            strips[k - 1],
            stars[k as int],
            strips[k as int],
        );
    }
}

proof fn lemma_run_keeps_constellation(
    cell: AtomicColor,
    stars: Seq<Seq<Star>>,
    strips: Seq<Seq<RGB8>>,
    k: nat,
)
    requires
        run(cell, stars, strips),
        k < stars.len(),
        constellation(stars[0]),
    ensures
        constellation(stars[k as int]),
    decreases k,
{
    if k > 0 {
        lemma_run_keeps_constellation(cell, stars, strips, (k - 1) as nat);
        frame_adds_at_most_one_star(
            cell,
            stars[k - 1],
            strips[k - 1],
            stars[k as int],
            strips[k as int],
        );
    }
}

/// In a run, a star that has been shining for `age` frames is there, `k` frames
/// on, as it then has to be, until it has shone for twice its rise time; in that
/// frame its LED is free and dark.
pub proof fn run_lets_each_star_live_its_life(
    cell: AtomicColor,
    stars: Seq<Seq<Star>>,
    strips: Seq<Seq<RGB8>>,
    star: Star,
    age: nat,
    k: nat,
)
    requires
        run(cell, stars, strips),
        k < stars.len(),
        constellation(stars[0]),
        star.value == 0,
        star.increasing,
        star.pace() > 0,
        star.max > 0,
        stars[0].contains(after_updates(star, age)),
        age + k <= 2 * rise_time(star),
        age < 2 * rise_time(star),
    ensures
        age + k < 2 * rise_time(star) ==> stars[k as int].contains(after_updates(star, age + k)),
        age + k == 2 * rise_time(star) ==> !taken(stars[k as int], star.index as int)
            && strips[k as int][star.index as int] == black(),
    decreases k,
{
    if k > 0 {
        let last = (k - 1) as nat;
        run_lets_each_star_live_its_life(cell, stars, strips, star, age, last);
        lemma_run_keeps_constellation(cell, stars, strips, last);
        let then = after_updates(star, age + last);
        star_rises_and_fades(star, age + last);
        let i = choose|i: int| 0 <= i < stars[last as int].len() && stars[last as int][i] == then;
        frame_advances_each_star(
            cell,
            stars[last as int],
            strips[last as int],
            stars[k as int],
            strips[k as int],
            i,
        );
        assert(after_updates(star, age + k) == then.after_update());
    }
}

} // verus!
