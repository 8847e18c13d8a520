use word_arcade::color_scheme::{ColorPalette, TweenableColor};
use word_arcade::geom::{cos_mdeg, div_toward_zero, sat_add, sin_mdeg, Vec2};
use word_arcade::tween::{ease, lerp_chan, Easing};
use word_arcade::word::{new_death_animation, ANIMATION_DURATION};

#[test]
fn test_palette_rgba_values() {
    assert_eq!(ColorPalette::Bg.as_rgba(), (40, 40, 40, 255));
    assert_eq!(ColorPalette::Bg1.as_rgba(), (60, 56, 54, 255));
    assert_eq!(ColorPalette::Bg2.as_rgba(), (80, 73, 69, 255));
    assert_eq!(ColorPalette::Fg0.as_rgba(), (251, 241, 199, 255));
    assert_eq!(ColorPalette::Fg.as_rgba(), (235, 219, 178, 255));
    assert_eq!(ColorPalette::Fg4.as_rgba(), (168, 153, 132, 255));
    assert_eq!(ColorPalette::Blue.as_rgba(), (69, 133, 136, 255));
    assert_eq!(ColorPalette::BrightYellow.as_rgba(), (250, 189, 47, 255));
    assert_eq!(ColorPalette::Orange.as_rgba(), (214, 93, 14, 255));
    assert_eq!(ColorPalette::TransparentBg.as_rgba(), (29, 32, 33, 200));

    let t = ColorPalette::Bg.to_tweenable();
    assert_eq!(t, TweenableColor { r: 40_000, g: 40_000, b: 40_000, a: 255_000 });
}

#[test]
fn test_easing_curves() {
    assert_eq!(ease(Easing::Linear, 0), 0);
    assert_eq!(ease(Easing::Linear, 700), 700);
    assert_eq!(ease(Easing::Linear, 1000), 1000);
    assert_eq!(ease(Easing::EaseInOut, 0), 0);
    // 2 * 250^2 / 1000
    assert_eq!(ease(Easing::EaseInOut, 250), 125);
    assert_eq!(ease(Easing::EaseInOut, 500), 500);
    // 1000 - 2 * 250^2 / 1000
    assert_eq!(ease(Easing::EaseInOut, 750), 875);
    assert_eq!(ease(Easing::EaseInOut, 1000), 1000);
}

#[test]
fn test_lerp_endpoints_and_midpoint() {
    assert_eq!(lerp_chan(40_000, 250_000, 0), 40_000);
    assert_eq!(lerp_chan(40_000, 250_000, 1000), 250_000);
    assert_eq!(lerp_chan(40_000, 250_000, 500), 145_000);
    // Descending channels interpolate downward.
    assert_eq!(lerp_chan(250_000, 40_000, 500), 145_000);
}

// The raw query at time zero yields the start color; from the total
// duration onward it yields nothing and the caller must fall back.
#[test]
fn test_animation_endpoints() {
    let mut anim = new_death_animation();
    assert_eq!(anim.now_strict(), Some(ColorPalette::BrightYellow.to_tweenable()));
    assert!(!anim.finished());

    anim.advance_by(ANIMATION_DURATION);
    assert!(anim.finished());
    assert_eq!(anim.now_strict(), None);

    // Advancing past the end keeps the clock clamped.
    anim.advance_by(500);
    assert_eq!(anim.elapsed, ANIMATION_DURATION);
    assert_eq!(anim.now_strict(), None);

    // The caller's fallback is the background color.
    let shown = anim.now_strict().unwrap_or(ColorPalette::Bg.to_tweenable());
    assert_eq!(shown, ColorPalette::Bg.to_tweenable());
}

// Halfway through the first (linear) segment every channel sits
// exactly halfway between the first two stops.
#[test]
fn test_animation_midpoint_exact() {
    let mut anim = new_death_animation();
    anim.advance_by(25);
    let c = anim.now_strict().unwrap();
    assert_eq!(c, TweenableColor { r: 250_500, g: 215_000, b: 123_000, a: 255_000 });
}

// At an eased intermediate time each channel lies between the two
// bounding keyframes' channels.
#[test]
fn test_animation_channels_between_bounds() {
    let mut anim = new_death_animation();
    anim.advance_by(100);
    let c = anim.now_strict().unwrap();
    let near_white = ColorPalette::Fg0.to_tweenable();
    let blue = ColorPalette::Blue.to_tweenable();
    let lo = |a: u32, b: u32| a.min(b);
    let hi = |a: u32, b: u32| a.max(b);
    assert!(lo(near_white.r, blue.r) <= c.r && c.r <= hi(near_white.r, blue.r));
    assert!(lo(near_white.g, blue.g) <= c.g && c.g <= hi(near_white.g, blue.g));
    assert!(lo(near_white.b, blue.b) <= c.b && c.b <= hi(near_white.b, blue.b));
    assert!(lo(near_white.a, blue.a) <= c.a && c.a <= hi(near_white.a, blue.a));
}

#[test]
fn test_trigonometry_anchors() {
    assert_eq!(sin_mdeg(0), 0);
    assert_eq!(sin_mdeg(30_000), 500);
    assert_eq!(sin_mdeg(90_000), 1000);
    assert_eq!(sin_mdeg(180_000), 0);
    assert_eq!(cos_mdeg(0), 1000);
    assert_eq!(cos_mdeg(60_000), 500);
    assert_eq!(cos_mdeg(90_000), 0);
    assert_eq!(cos_mdeg(180_000), -1000);
}

#[test]
fn test_saturating_and_division_helpers() {
    assert_eq!(sat_add(1, 2), 3);
    assert_eq!(sat_add(i64::MAX, 1), i64::MAX);
    assert_eq!(sat_add(i64::MIN, -1), i64::MIN);
    assert_eq!(div_toward_zero(7, 2), 3);
    assert_eq!(div_toward_zero(-7, 2), -3);
    let v = Vec2 { x: 10, y: -10 };
    assert_eq!(v.add(Vec2 { x: -3, y: 3 }), Vec2 { x: 7, y: -7 });
}
