use led_controller::colour::Colour;

#[test]
fn rgb_of_white_is_full_on() {
    let c = Colour::new(0, 0, 1000);
    assert_eq!(Colour::to_rgb(&c), (255, 255, 255));
}

#[test]
fn rgb_of_pure_red() {
    let c = Colour::new(0, 1000, 1000);
    assert_eq!(Colour::to_rgb(&c), (255, 0, 0));
}

#[test]
fn rgb_of_pure_green() {
    let c = Colour::new(120000, 1000, 1000);
    assert_eq!(Colour::to_rgb(&c), (0, 255, 0));
}

#[test]
fn rgb_of_pure_blue() {
    let c = Colour::new(240000, 1000, 1000);
    assert_eq!(Colour::to_rgb(&c), (0, 0, 255));
}

#[test]
fn rgb_of_yellow() {
    let c = Colour::new(60000, 1000, 1000);
    assert_eq!(Colour::to_rgb(&c), (255, 255, 0));
}

#[test]
fn desaturated_colours_are_grey_for_any_hue() {
    for h in [0i64, 57000, 123000, 240000, 359999] {
        let c = Colour::new(h, 0, 500);
        let (r, g, b) = Colour::to_rgb(&c);
        assert_eq!(r, g);
        assert_eq!(g, b);
        assert_eq!(r, 128);
    }
}

#[test]
fn lerp_at_zero_returns_first_colour() {
    let c1 = Colour::new(33000, 400, 700);
    let c2 = Colour::new(200000, 1000, 100);
    let r = Colour::lerp(c1, c2, 0);
    assert_eq!((r.h, r.s, r.v), (c1.h, c1.s, c1.v));
}

#[test]
fn lerp_at_one_returns_second_colour() {
    let c1 = Colour::new(33000, 400, 700);
    let c2 = Colour::new(200000, 1000, 100);
    let r = Colour::lerp(c1, c2, 1000);
    assert_eq!((r.h, r.s, r.v), (c2.h, c2.s, c2.v));
}

#[test]
fn lerp_midpoint_of_black_and_white_is_mid_grey() {
    let r = Colour::lerp(Colour::black(), Colour::white(), 500);
    assert_eq!((r.h, r.s, r.v), (0, 0, 500));
    assert_eq!(Colour::to_rgb(&r), (128, 128, 128));
}

#[test]
fn new_wraps_hue_and_clamps_channels() {
    let c = Colour::new(400000, 1500, -5);
    assert_eq!((c.h, c.s, c.v), (40000, 1000, 0));
    let d = Colour::new(-10000, -1, 2000);
    assert_eq!((d.h, d.s, d.v), (350000, 0, 1000));
}

#[test]
fn named_colours_carry_their_hues() {
    assert_eq!(Colour::cyan().h, 180000);
    assert_eq!(Colour::pink().h, 300000);
    assert_eq!(Colour::to_rgb(&Colour::black()), (0, 0, 0));
}
