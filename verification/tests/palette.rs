use poline::flatten::flatten;
use poline::nearest::closest_index;
use poline::{
    distance, hsl_to_point, optional_vector3, point_to_hsl, vectors_on_line, Arithmetic,
    ColorPoint, ColorPointCollection, PartialVector3, Poline, PolineErrors, PolineOptions,
    PositionScale, Scalar, Vector3,
};
use std::cell::Cell;

/// IEEE-754 single precision as the machine computes it, with draws taken
/// in turn from a fixed list.
struct Native {
    draws: Vec<f32>,
    next: Cell<usize>,
}

impl Native {
    fn new() -> Native {
        Native::with_draws(vec![0.5])
    }

    fn with_draws(draws: Vec<f32>) -> Native {
        Native { draws, next: Cell::new(0) }
    }
}

fn s(x: f32) -> Scalar {
    Scalar::from_bits(x.to_bits())
}

fn f(x: Scalar) -> f32 {
    f32::from_bits(x.to_bits())
}

fn v3(a: f32, b: f32, c: f32) -> Vector3 {
    Vector3(s(a), s(b), s(c))
}

impl Arithmetic for Native {
    fn sum(&self, a: Scalar, b: Scalar) -> Scalar {
        s(f(a) + f(b))
    }

    fn difference(&self, a: Scalar, b: Scalar) -> Scalar {
        s(f(a) - f(b))
    }

    fn product(&self, a: Scalar, b: Scalar) -> Scalar {
        s(f(a) * f(b))
    }

    fn quotient(&self, a: Scalar, b: Scalar) -> Scalar {
        s(f(a) / f(b))
    }

    fn remainder(&self, a: Scalar, b: Scalar) -> Scalar {
        s(f(a) % f(b))
    }

    fn power(&self, base: Scalar, exponent: Scalar) -> Scalar {
        s(f(base).powf(f(exponent)))
    }

    fn square_root(&self, a: Scalar) -> Scalar {
        s(f(a).sqrt())
    }

    fn sine(&self, a: Scalar) -> Scalar {
        s(f(a).sin())
    }

    fn cosine(&self, a: Scalar) -> Scalar {
        s(f(a).cos())
    }

    fn arcsine(&self, a: Scalar) -> Scalar {
        s(f(a).asin())
    }

    fn arctangent(&self, y: Scalar, x: Scalar) -> Scalar {
        s(f(y).atan2(f(x)))
    }

    fn absolute(&self, a: Scalar) -> Scalar {
        s(f(a).abs())
    }

    fn minimum(&self, a: Scalar, b: Scalar) -> Scalar {
        s(f(a).min(f(b)))
    }

    fn random(&self) -> Scalar {
        let at = self.next.get();
        self.next.set(at + 1);
        s(self.draws[at % self.draws.len()])
    }

    fn display(&self, a: Scalar) -> String {
        format!("{}", f(a))
    }
}

fn bits(v: Vector3) -> (u32, u32, u32) {
    (v.0.to_bits(), v.1.to_bits(), v.2.to_bits())
}

fn options(colours: Vec<Vector3>, num_points: usize, closed_loop: bool) -> PolineOptions {
    PolineOptions {
        anchor_colors: Some(colours),
        num_points,
        position_function: PositionScale::Linear,
        position_function_x: None,
        position_function_y: None,
        position_function_z: None,
        inverted_lightness: false,
        closed_loop,
    }
}

fn palette(colours: Vec<Vector3>, num_points: usize, closed_loop: bool) -> Poline<Native> {
    Poline::new(Native::new(), options(colours, num_points, closed_loop))
}

fn hues(n: usize) -> Vec<Vector3> {
    (0..n).map(|i| v3(30.0 * i as f32, 1.0, 0.5)).collect()
}

fn positions(points: &[ColorPoint]) -> Vec<(u32, u32, u32)> {
    points.iter().map(|point| bits(point.position())).collect()
}

fn from_colour(colour: Vector3) -> ColorPointCollection {
    ColorPointCollection { xyz: None, color: Some(colour), inverted_lightness: false }
}

fn from_position(xyz: Vector3) -> ColorPointCollection {
    ColorPointCollection { xyz: Some(xyz), color: None, inverted_lightness: false }
}

#[test]
fn two_anchors_and_four_points_give_six_colours() {
    let first = v3(0.0, 1.0, 0.8);
    let second = v3(120.0, 1.0, 0.3);
    let poline = palette(vec![first, second], 4, false);
    let colours = poline.colors();
    assert_eq!(colours.len(), 6);
    assert_eq!(f(colours[0].0), f(first.0));
    assert_eq!(poline.flattened_points().len(), 6);
    assert_eq!(poline.anchor_points().len(), 2);
    assert_eq!(f(poline.anchor_points()[1].hsl().0), f(second.0));
}

#[test]
fn the_one_segment_of_two_anchors_ends_where_it_begins() {
    let k = Native::new();
    let first = v3(0.0, 1.0, 0.8);
    let second = v3(120.0, 1.0, 0.3);
    let poline = palette(vec![first, second], 4, false);
    let start = hsl_to_point(&k, first, false);
    for point in poline.flattened_points() {
        assert_eq!(bits(point.position()), bits(start));
        assert_eq!(bits(point.hsl()), bits(point_to_hsl(&k, start, false)));
    }
    let colours = poline.colors();
    assert_eq!(f(colours[5].0), f(first.0));
    assert_eq!(bits(colours[5]), bits(v3(0.0, 1.0, 1.0)));
}

#[test]
fn an_open_palette_has_one_segment_fewer_than_anchors() {
    for anchors in 2usize..7 {
        for num_points in [0usize, 1, 4, 9] {
            let poline = palette(hues(anchors), num_points, false);
            let pairs = anchors - 1;
            let expected = pairs * (num_points + 2) - (pairs - 1);
            assert_eq!(poline.flattened_points().len(), expected);
            assert_eq!(poline.colors().len(), expected);
            assert_eq!(poline.colors_css().len(), expected);
        }
    }
}

#[test]
fn a_loop_has_as_many_segments_as_anchors() {
    for anchors in 2usize..7 {
        for num_points in [0usize, 1, 4, 9] {
            let poline = palette(hues(anchors), num_points, true);
            let pairs = anchors;
            let expected = pairs * (num_points + 2) - (pairs - 1);
            assert_eq!(poline.flattened_points().len(), expected);
            assert_eq!(poline.colors().len(), expected - 1);
            assert_eq!(poline.colors_css().len(), expected - 1);
        }
    }
}

#[test]
fn three_anchors_four_points_open() {
    let poline = palette(hues(3), 4, false);
    assert_eq!(poline.flattened_points().len(), 11);
    assert_eq!(poline.colors().len(), 11);
}

#[test]
fn three_anchors_four_points_in_a_loop() {
    let poline = palette(hues(3), 4, true);
    assert_eq!(poline.flattened_points().len(), 16);
    assert_eq!(poline.colors().len(), 15);
}

#[test]
fn segments_join_each_anchor_to_the_next_modulo_their_number() {
    let k = Native::new();
    let colours = hues(3);
    let at: Vec<(u32, u32, u32)> =
        colours.iter().map(|colour| bits(hsl_to_point(&k, *colour, false))).collect();
    let (a, b, c) = (at[0], at[1], at[2]);

    let open = palette(colours.clone(), 1, false);
    assert_eq!(positions(&open.flattened_points()), vec![a, a, b, b, a]);

    let closed = palette(colours, 1, true);
    assert_eq!(positions(&closed.flattened_points()), vec![a, a, b, b, c, c, a]);
    let kept: Vec<(u32, u32, u32)> =
        [a, a, b, b, c, c].iter().map(|p| bits(point_to_hsl(&k, v3b(*p), false))).collect();
    let colours: Vec<(u32, u32, u32)> = closed.colors().iter().map(|c| bits(*c)).collect();
    assert_eq!(colours, kept);
}

fn v3b(p: (u32, u32, u32)) -> Vector3 {
    Vector3(Scalar::from_bits(p.0), Scalar::from_bits(p.1), Scalar::from_bits(p.2))
}

#[test]
fn every_other_segment_runs_the_other_way() {
    let k = Native::new();
    let colours = hues(4);
    let at: Vec<Vector3> = colours.iter().map(|colour| hsl_to_point(&k, *colour, false)).collect();
    let options = PolineOptions {
        anchor_colors: Some(colours),
        num_points: 0,
        position_function: PositionScale::Linear,
        position_function_x: Some(PositionScale::Quartic),
        position_function_y: Some(PositionScale::Sinusoidal),
        position_function_z: Some(PositionScale::Arc),
        inverted_lightness: false,
        closed_loop: true,
    };
    let poline = Poline::new(Native::new(), options);
    let (fx, fy, fz) =
        (Some(PositionScale::Quartic), Some(PositionScale::Sinusoidal), Some(PositionScale::Arc));
    let mut expected = Vec::new();
    for i in 0..4 {
        let (from, to) = (at[i], at[(i + 1) % 4]);
        let samples = vectors_on_line(&k, from, to, Some(2), i % 2 == 0, fx, fy, fz);
        for (j, sample) in samples.iter().enumerate() {
            if i == 0 || j != 0 {
                expected.push(bits(*sample));
            }
        }
    }
    assert_eq!(expected.len(), 5);
    assert_eq!(positions(&poline.flattened_points()), expected);
}

#[test]
fn samples_have_the_colours_of_their_positions() {
    let k = Native::new();
    let options = PolineOptions {
        anchor_colors: Some(vec![v3(10.0, 0.2, 0.3), v3(200.0, 0.9, 0.7), v3(300.0, 0.5, 0.5)]),
        num_points: 2,
        position_function: PositionScale::Sinusoidal,
        position_function_x: None,
        position_function_y: None,
        position_function_z: None,
        inverted_lightness: true,
        closed_loop: true,
    };
    let poline = Poline::new(Native::new(), options);
    let flat = poline.flattened_points();
    assert_eq!(flat.len(), 3 * 4 - 2);
    for point in &flat {
        assert_eq!(bits(point.hsl()), bits(point_to_hsl(&k, point.position(), true)));
    }
    let colours = poline.colors();
    assert_eq!(colours.len(), flat.len() - 1);
    for (colour, point) in colours.iter().zip(&flat) {
        assert_eq!(bits(*colour), bits(point.hsl()));
    }
}

#[test]
fn with_inverted_lightness_anchors_keep_their_lightness() {
    let poline = Poline::new(
        Native::new(),
        PolineOptions {
            anchor_colors: Some(vec![v3(0.0, 1.0, 0.5), v3(90.0, 0.5, 0.0)]),
            num_points: 0,
            position_function: PositionScale::Linear,
            position_function_x: None,
            position_function_y: None,
            position_function_z: None,
            inverted_lightness: true,
            closed_loop: true,
        },
    );
    let anchors = poline.anchor_points();
    assert_eq!(anchors[0].position(), v3(0.75, 0.5, 1.0));
    assert_eq!(f(anchors[1].position().1), 1.0);
    let colours = poline.colors();
    assert_eq!(colours.len(), 2);
    assert_eq!(colours[0], v3(0.0, 1.0, 0.5));
}

#[test]
fn anchors_are_made_from_the_colours_in_order() {
    let k = Native::new();
    let colours = vec![v3(10.0, 0.2, 0.3), v3(200.0, 0.9, 0.7), v3(300.0, 0.5, 0.5)];
    let poline = palette(colours.clone(), 3, false);
    let anchors = poline.anchor_points();
    assert_eq!(anchors.len(), 3);
    for (anchor, colour) in anchors.iter().zip(&colours) {
        assert_eq!(bits(anchor.hsl()), bits(*colour));
        assert_eq!(bits(anchor.position()), bits(hsl_to_point(&k, *colour, false)));
    }
}

#[test]
fn without_anchor_colours_a_random_pair_is_drawn() {
    let draws = vec![0.5f32, 0.25, 0.75, 0.1, 0.9, 0.3];
    let options = PolineOptions {
        anchor_colors: None,
        num_points: 4,
        position_function: PositionScale::Sinusoidal,
        position_function_x: None,
        position_function_y: None,
        position_function_z: None,
        inverted_lightness: false,
        closed_loop: false,
    };
    let poline = Poline::new(Native::with_draws(draws), options);
    let anchors = poline.anchor_points();
    assert_eq!(anchors.len(), 2);
    assert_eq!(bits(anchors[0].hsl()), bits(v3(180.0, 0.25, 0.75 + 0.1 * 0.2)));
    assert_eq!(bits(anchors[1].hsl()), bits(v3(294.0, 0.75, 0.3 + 0.9 * 0.2)));
    assert_eq!(poline.colors().len(), 6);
}

#[test]
fn an_anchor_is_added_behind_the_last() {
    let mut poline = palette(hues(2), 4, false);
    let added = poline.add_anchor_point(from_colour(v3(200.0, 0.5, 0.5)), None).unwrap();
    let anchors = poline.anchor_points();
    assert_eq!(anchors.len(), 3);
    assert_eq!(anchors[2], added);
    assert_eq!(bits(added.hsl()), bits(v3(200.0, 0.5, 0.5)));
    assert_eq!(bits(anchors[0].hsl()), bits(v3(0.0, 1.0, 0.5)));
    assert_eq!(poline.flattened_points().len(), 11);
}

#[test]
fn an_anchor_is_added_at_an_index() {
    let mut poline = palette(hues(3), 4, false);
    let added = poline.add_anchor_point(from_position(v3(0.5, 1.0, 0.3)), Some(1)).unwrap();
    let anchors = poline.anchor_points();
    assert_eq!(anchors.len(), 4);
    assert_eq!(anchors[1], added);
    assert_eq!(added.hsl(), v3(90.0, 0.3, 1.0));
    assert_eq!(f(anchors[0].hsl().0), 0.0);
    assert_eq!(f(anchors[2].hsl().0), 30.0);
    assert_eq!(f(anchors[3].hsl().0), 60.0);
    assert_eq!(poline.flattened_points().len(), 3 * 6 - 2);

    let first = poline.add_anchor_point(from_colour(v3(5.0, 0.5, 0.5)), Some(0)).unwrap();
    assert_eq!(poline.anchor_points()[0], first);
    let last = poline.add_anchor_point(from_colour(v3(6.0, 0.5, 0.5)), Some(5)).unwrap();
    assert_eq!(poline.anchor_points()[5], last);
}

#[test]
fn an_anchor_from_nothing_is_not_added() {
    let mut poline = palette(hues(3), 4, false);
    let before = positions(&poline.flattened_points());
    let nothing = ColorPointCollection { xyz: None, color: None, inverted_lightness: false };
    assert_eq!(poline.add_anchor_point(nothing, None), Err(PolineErrors::MissingArgument));
    assert_eq!(poline.add_anchor_point(nothing, Some(1)), Err(PolineErrors::MissingArgument));
    assert_eq!(poline.anchor_points().len(), 3);
    assert_eq!(positions(&poline.flattened_points()), before);
}

#[test]
fn an_anchor_is_removed_at_an_index() {
    let mut poline = palette(hues(4), 4, false);
    poline.remove_anchor_point_at_index(1);
    let left: Vec<f32> = poline.anchor_points().iter().map(|p| f(p.hsl().0)).collect();
    assert_eq!(left, vec![0.0, 60.0, 90.0]);
    assert_eq!(poline.flattened_points().len(), 11);
    poline.remove_anchor_point_at_index(2);
    poline.remove_anchor_point_at_index(0);
    let left: Vec<f32> = poline.anchor_points().iter().map(|p| f(p.hsl().0)).collect();
    assert_eq!(left, vec![60.0]);
    assert!(poline.flattened_points().is_empty());
    assert!(poline.colors().is_empty());
}

#[test]
fn a_loop_can_lose_every_anchor() {
    let mut poline = palette(hues(2), 1, true);
    poline.remove_anchor_point_at_index(0);
    assert_eq!(poline.flattened_points().len(), 3);
    assert_eq!(poline.colors().len(), 2);
    poline.remove_anchor_point_at_index(0);
    assert!(poline.anchor_points().is_empty());
    assert!(poline.flattened_points().is_empty());
    assert!(poline.colors().is_empty());
    assert!(poline.colors_css().is_empty());
    let anywhere = PartialVector3::new(Some(s(0.0)), Some(s(0.0)), Some(s(0.0)));
    assert_eq!(poline.get_closest_anchor_point(anywhere, s(1000.0)), None);
}

#[test]
fn the_first_equal_anchor_is_removed() {
    let twice = v3(60.0, 1.0, 0.5);
    let mut poline = palette(vec![v3(0.0, 1.0, 0.5), twice, v3(90.0, 1.0, 0.5), twice], 4, false);
    let point = poline.anchor_points()[3];
    assert_eq!(poline.remove_anchor_point(point), Ok(()));
    let left: Vec<f32> = poline.anchor_points().iter().map(|p| f(p.hsl().0)).collect();
    assert_eq!(left, vec![0.0, 90.0, 60.0]);
}

#[test]
fn removing_a_point_that_is_no_anchor_changes_nothing() {
    let k = Native::new();
    let mut poline = palette(hues(3), 4, false);
    let anchors = poline.anchor_points();
    let flat = positions(&poline.flattened_points());
    let colours: Vec<(u32, u32, u32)> = poline.colors().iter().map(|c| bits(*c)).collect();

    let stranger = ColorPoint::of_colour(&k, v3(45.0, 1.0, 0.5), false);
    assert_eq!(poline.remove_anchor_point(stranger), Err(PolineErrors::PointNotFound));
    let other_reading = ColorPoint::of_colour(&k, v3(0.0, 1.0, 0.5), true);
    assert_eq!(poline.remove_anchor_point(other_reading), Err(PolineErrors::PointNotFound));

    assert_eq!(poline.anchor_points(), anchors);
    assert_eq!(positions(&poline.flattened_points()), flat);
    let after: Vec<(u32, u32, u32)> = poline.colors().iter().map(|c| bits(*c)).collect();
    assert_eq!(after, colours);
}

#[test]
fn an_anchor_is_updated_at_an_index() {
    let k = Native::new();
    let mut poline = palette(hues(3), 4, false);

    let updated = poline.update_anchor_point_at_index(1, from_colour(v3(200.0, 0.3, 0.4)));
    assert_eq!(bits(updated.hsl()), bits(v3(200.0, 0.3, 0.4)));
    assert_eq!(bits(updated.position()), bits(hsl_to_point(&k, v3(200.0, 0.3, 0.4), false)));
    assert_eq!(poline.anchor_points()[1], updated);
    assert_eq!(f(poline.anchor_points()[0].hsl().0), 0.0);
    assert_eq!(f(poline.anchor_points()[2].hsl().0), 60.0);

    let moved = poline.update_anchor_point_at_index(2, from_position(v3(0.5, 0.0, 0.1)));
    assert_eq!(moved.position(), v3(0.5, 0.0, 0.1));
    assert_eq!(moved.hsl(), v3(270.0, 0.1, 1.0));
    assert_eq!(poline.anchor_points()[2], moved);

    let both = ColorPointCollection {
        xyz: Some(v3(0.5, 0.0, 0.1)),
        color: Some(v3(100.0, 0.6, 0.7)),
        inverted_lightness: true,
    };
    let recoloured = poline.update_anchor_point_at_index(0, both);
    assert_eq!(bits(recoloured.hsl()), bits(v3(100.0, 0.6, 0.7)));
    assert_eq!(recoloured, ColorPoint::of_colour(&k, v3(100.0, 0.6, 0.7), false));

    let nothing = ColorPointCollection { xyz: None, color: None, inverted_lightness: false };
    let same = poline.update_anchor_point_at_index(0, nothing);
    assert_eq!(same, recoloured);
    assert_eq!(poline.anchor_points().len(), 3);
    assert_eq!(poline.flattened_points().len(), 11);
}

#[test]
fn the_samples_follow_an_updated_anchor() {
    let k = Native::new();
    let mut poline = palette(hues(2), 0, true);
    poline.update_anchor_point_at_index(0, from_colour(v3(180.0, 0.3, 0.4)));
    let a = bits(hsl_to_point(&k, v3(180.0, 0.3, 0.4), false));
    let b = bits(hsl_to_point(&k, v3(30.0, 1.0, 0.5), false));
    assert_eq!(positions(&poline.flattened_points()), vec![a, b, a]);
}

#[test]
fn the_first_equal_anchor_is_updated() {
    let twice = v3(60.0, 1.0, 0.5);
    let mut poline = palette(vec![v3(0.0, 1.0, 0.5), twice, twice], 4, false);
    let point = poline.anchor_points()[2];
    assert_eq!(poline.update_anchor_point(point, from_colour(v3(10.0, 0.1, 0.1))), Ok(()));
    let hues: Vec<f32> = poline.anchor_points().iter().map(|p| f(p.hsl().0)).collect();
    assert_eq!(hues, vec![0.0, 10.0, 60.0]);
}

#[test]
fn updating_a_point_that_is_no_anchor_changes_nothing() {
    let k = Native::new();
    let mut poline = palette(hues(3), 4, true);
    let anchors = poline.anchor_points();
    let flat = positions(&poline.flattened_points());
    let stranger = ColorPoint::of_colour(&k, v3(45.0, 1.0, 0.5), false);
    assert_eq!(
        poline.update_anchor_point(stranger, from_colour(v3(10.0, 0.1, 0.1))),
        Err(PolineErrors::PointNotFound)
    );
    assert_eq!(poline.anchor_points(), anchors);
    assert_eq!(positions(&poline.flattened_points()), flat);
}

#[test]
fn the_closest_anchor_is_the_first_of_the_nearest() {
    let k = Native::new();
    let colours = vec![v3(0.0, 0.2, 0.5), v3(90.0, 0.4, 0.5), v3(180.0, 0.6, 0.5), v3(90.0, 0.4, 0.5)];
    let poline = palette(colours, 4, false);
    let anchors = poline.anchor_points();

    let at = anchors[2].position();
    let found = poline.get_closest_anchor_point(optional_vector3(at), s(0.0)).unwrap();
    assert_eq!(found, anchors[2]);

    let tied = anchors[1].position();
    let found = poline.get_closest_anchor_point(optional_vector3(tied), s(0.5)).unwrap();
    assert_eq!(found, anchors[1]);
    assert_eq!(bits(found.position()), bits(anchors[3].position()));

    let saturation_only = PartialVector3::new(None, None, Some(s(0.55)));
    let found = poline.get_closest_anchor_point(saturation_only, s(1.0)).unwrap();
    assert_eq!(found, anchors[2]);
    let expected = distance(&k, optional_vector3(anchors[2].position()), saturation_only, false);
    assert!((f(expected) - 0.05).abs() < 1.0e-6);
    assert_eq!(poline.get_closest_anchor_point(saturation_only, s(0.04)), None);
    assert_eq!(poline.get_closest_anchor_point(saturation_only, expected), Some(anchors[2]));
}

#[test]
fn no_anchor_is_close_when_all_exceed_the_greatest_distance() {
    let poline = palette(vec![v3(0.0, 1.0, 0.5), v3(90.0, 1.0, 0.5), v3(180.0, 1.0, 0.5)], 4, false);
    let xs: Vec<f32> = poline.anchor_points().iter().map(|p| f(p.position().0)).collect();
    assert_eq!(xs[0], 1.0);
    assert_eq!(xs[2], 0.0);
    let first_axis_only = PartialVector3::new(Some(s(3.0)), None, None);
    assert_eq!(poline.get_closest_anchor_point(first_axis_only, s(1.9)), None);
    assert_eq!(poline.get_closest_anchor_point(first_axis_only, s(0.0)), None);
    assert_eq!(poline.get_closest_anchor_point(first_axis_only, s(-1.0)), None);
    let found = poline.get_closest_anchor_point(first_axis_only, s(2.0)).unwrap();
    assert_eq!(found, poline.anchor_points()[0]);
}

#[test]
fn a_mask_without_axes_is_at_distance_zero_from_every_anchor() {
    let poline = palette(hues(3), 4, false);
    let none = PartialVector3::new(None, None, None);
    assert_eq!(poline.get_closest_anchor_point(none, s(0.0)), Some(poline.anchor_points()[0]));
    assert_eq!(poline.get_closest_anchor_point(none, s(-0.5)), None);
}

#[test]
fn nothing_is_close_where_a_distance_is_no_number() {
    let poline = palette(hues(3), 4, false);
    let nowhere = PartialVector3::new(Some(s(f32::NAN)), None, None);
    assert_eq!(poline.get_closest_anchor_point(nowhere, s(1000.0)), None);
    let far = PartialVector3::new(Some(s(f32::INFINITY)), None, None);
    assert_eq!(poline.get_closest_anchor_point(far, s(1000.0)), None);
    let near = PartialVector3::new(Some(s(1.0)), None, None);
    assert_eq!(poline.get_closest_anchor_point(near, s(f32::NAN)), None);
    assert_eq!(poline.get_closest_anchor_point(near, s(f32::INFINITY)), None);
    assert!(poline.get_closest_anchor_point(near, s(f32::MAX)).is_some());
}

#[test]
fn the_closest_index_is_the_first_of_the_least() {
    let distances: Vec<Scalar> = [3.0f32, 1.0, 2.0, 1.0, 5.0].iter().map(|d| s(*d)).collect();
    assert_eq!(closest_index(&distances, s(1.0)), Some(1));
    assert_eq!(closest_index(&distances, s(10.0)), Some(1));
    assert_eq!(closest_index(&distances, s(0.99)), None);
    let distances: Vec<Scalar> = [0.0f32, -0.0, 0.0].iter().map(|d| s(*d)).collect();
    assert_eq!(closest_index(&distances, s(-0.0)), Some(0));
    let distances: Vec<Scalar> = [2.0f32, -3.0, -1.0].iter().map(|d| s(*d)).collect();
    assert_eq!(closest_index(&distances, s(-3.0)), Some(1));
    assert_eq!(closest_index(&distances, s(-3.5)), None);
    assert_eq!(closest_index(&[s(7.0)].to_vec(), s(7.0)), Some(0));
    assert_eq!(closest_index(&Vec::new(), s(7.0)), None);
}

#[test]
fn segments_are_flattened_without_their_seams() {
    let segments = vec![vec![1, 2, 3], vec![4, 5, 6], vec![7, 8, 9]];
    assert_eq!(flatten(&segments, 3), vec![1, 2, 3, 5, 6, 8, 9]);
    let segments = vec![vec![1, 2], vec![2, 3], vec![3, 4], vec![4, 5]];
    assert_eq!(flatten(&segments, 2), vec![1, 2, 3, 4, 5]);
    let segments = vec![vec![1], vec![2], vec![3]];
    assert_eq!(flatten(&segments, 1), vec![1]);
    let segments = vec![vec![1, 2, 3, 4]];
    assert_eq!(flatten(&segments, 4), vec![1, 2, 3, 4]);
    let segments: Vec<Vec<u8>> = Vec::new();
    assert!(flatten(&segments, 4).is_empty());
}

#[test]
fn shifting_turns_the_hue_of_every_anchor() {
    let k = Native::new();
    let mut poline = palette(hues(3), 4, false);
    poline.shift_hue(s(45.0));
    let anchors = poline.anchor_points();
    let turned: Vec<f32> = anchors.iter().map(|p| f(p.hsl().0)).collect();
    assert_eq!(turned, vec![45.0, 75.0, 105.0]);
    for anchor in &anchors {
        assert_eq!(f(anchor.hsl().1), 1.0);
        assert_eq!(f(anchor.hsl().2), 0.5);
        assert_eq!(bits(anchor.position()), bits(hsl_to_point(&k, anchor.hsl(), false)));
    }
    let a = bits(anchors[0].position());
    let b = bits(anchors[1].position());
    assert_eq!(positions(&poline.flattened_points()), vec![a, a, a, a, a, b, b, b, b, b, a]);
    poline.shift_hue(s(-105.0));
    let turned: Vec<f32> = poline.anchor_points().iter().map(|p| f(p.hsl().0)).collect();
    assert_eq!(turned, vec![300.0, 330.0, 0.0]);
}

#[test]
fn a_full_turn_keeps_whole_hues() {
    let mut poline = palette(vec![v3(0.0, 1.0, 0.8), v3(120.0, 1.0, 0.3), v3(359.0, 0.5, 0.5)], 4, true);
    let anchors = poline.anchor_points();
    let colours: Vec<(u32, u32, u32)> = poline.colors().iter().map(|c| bits(*c)).collect();
    poline.shift_hue(s(360.0));
    assert_eq!(poline.anchor_points(), anchors);
    let hues: Vec<f32> = poline.anchor_points().iter().map(|p| f(p.hsl().0)).collect();
    assert_eq!(hues, vec![0.0, 120.0, 359.0]);
    let after: Vec<(u32, u32, u32)> = poline.colors().iter().map(|c| bits(*c)).collect();
    assert_eq!(after, colours);
}

#[test]
fn colours_come_as_style_sheet_texts() {
    let poline = palette(vec![v3(0.0, 0.5, 0.8), v3(120.0, 1.0, 0.3)], 1, false);
    let texts = poline.colors_css();
    assert_eq!(texts, vec!["hsl(0,50%,100%", "hsl(0,50%,100%", "hsl(0,50%,100%"]);
    let poline = palette(vec![v3(0.0, 0.5, 0.8), v3(120.0, 1.0, 0.3)], 1, true);
    let texts = poline.colors_css();
    assert_eq!(texts.len(), 4);
    for (text, colour) in texts.iter().zip(poline.colors()) {
        let expected = format!("hsl({},{}%,{}%", f(colour.0), f(colour.1) * 100.0, f(colour.2) * 100.0);
        assert_eq!(*text, expected);
        assert!(!text.ends_with(')'));
    }
}

#[test]
fn setting_a_scale_derives_the_samples_anew() {
    let k = Native::new();
    let colours = vec![v3(10.0, 0.2, 0.3), v3(200.0, 0.9, 0.7), v3(300.0, 0.5, 0.5)];
    let at: Vec<Vector3> = colours.iter().map(|colour| hsl_to_point(&k, *colour, false)).collect();
    let mut poline = palette(colours, 1, false);
    let anchors = poline.anchor_points();

    let expect = |fx: PositionScale, fy: PositionScale, fz: PositionScale| {
        let mut expected = Vec::new();
        for i in 0..2 {
            let (from, to) = (at[i], at[(i + 1) % 2]);
            let samples =
                vectors_on_line(&k, from, to, Some(3), i % 2 == 0, Some(fx), Some(fy), Some(fz));
            for (j, sample) in samples.iter().enumerate() {
                if i == 0 || j != 0 {
                    expected.push(bits(*sample));
                }
            }
        }
        expected
    };
    let (linear, arc, asinusoidal, cubic, smooth_step) = (
        PositionScale::Linear,
        PositionScale::Arc,
        PositionScale::Asinusoidal,
        PositionScale::Cubic,
        PositionScale::SmoothStep,
    );
    assert_eq!(positions(&poline.flattened_points()), expect(linear, linear, linear));
    poline.set_position_fn_x(7);
    assert_eq!(positions(&poline.flattened_points()), expect(arc, linear, linear));
    poline.set_position_fn_y(6);
    assert_eq!(positions(&poline.flattened_points()), expect(arc, asinusoidal, linear));
    poline.set_position_fn_z(2);
    assert_eq!(positions(&poline.flattened_points()), expect(arc, asinusoidal, cubic));
    poline.set_position_fn(8);
    assert_eq!(positions(&poline.flattened_points()), expect(smooth_step, smooth_step, smooth_step));
    assert_eq!(poline.anchor_points(), anchors);
    assert_eq!(poline.flattened_points().len(), 5);
}

#[test]
fn deriving_again_changes_nothing() {
    let mut poline = palette(hues(4), 3, true);
    let anchors = poline.anchor_points();
    let flat = positions(&poline.flattened_points());
    poline.update_anchor_pairs();
    assert_eq!(poline.anchor_points(), anchors);
    assert_eq!(positions(&poline.flattened_points()), flat);
}
