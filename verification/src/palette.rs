//! The palette: anchors, the segments between them, and the samples on each
//! segment.

use crate::arithmetic::{yields, Arithmetic};
use crate::color_point::{css_of, turned_hue, ColorPoint, ColorPointCollection};
use crate::distance::{distance, distance_between};
use crate::errors::PolineErrors;
use crate::flatten::{even, flatten, flattened, lemma_flattened_len, segment_views};
use crate::line::{point_on_line, sample_parameter, vectors_on_line};
use crate::nearest::{all_real, closest, closest_index};
use crate::options::{random_pair, PolineOptions};
use crate::positions::{number_as_enum, PositionScale};
use crate::random::random_hsl_pair;
use crate::scalar::Scalar;
use crate::types::{optional_vector3, PartialVector3, Vector3};
use vstd::prelude::*;

verus! {

/// The number of segments between `anchors` anchors: one from each anchor
/// to the next, and in a loop one more from the last to the first.
pub open spec fn pair_count(anchors: int, closed_loop: bool) -> int {
    if closed_loop {
        anchors
    } else {
        anchors - 1
    }
}

/// The pairs of anchors that the segments join: pair `i` leads from anchor
/// `i` to the anchor at `i + 1` modulo the number of pairs.
pub open spec fn pairs_of(anchors: Seq<ColorPoint>, closed_loop: bool) -> Seq<
    (ColorPoint, ColorPoint),
> {
    let count = pair_count(anchors.len() as int, closed_loop);
    Seq::new(count as nat, |i: int| (anchors[i], anchors[(i + 1) % count]))
}

/// Whether `point` may be sample `sample` of `samples` on segment `segment`,
/// which joins `pair`: a point on the line between the pair's positions,
/// with its colour. Segments with an even index run inverted, the others
/// do not, so that the easing continues across an anchor.
pub open spec fn sampled<K: Arithmetic>(
    k: &K,
    pair: (ColorPoint, ColorPoint),
    segment: int,
    sample: int,
    samples: int,
    fx: PositionScale,
    fy: PositionScale,
    fz: PositionScale,
    inverted_lightness: bool,
    point: ColorPoint,
) -> bool {
    &&& point_on_line(
        k,
        sample_parameter(sample, samples),
        pair.0.xyz(),
        pair.1.xyz(),
        segment % 2 == 0,
        Some(fx),
        Some(fy),
        Some(fz),
        point.xyz(),
    )
    &&& point.from_position(k, point.xyz(), inverted_lightness)
}

/// Whether `segment` may be the samples of segment `index`.
pub open spec fn segment_of<K: Arithmetic>(
    k: &K,
    pair: (ColorPoint, ColorPoint),
    index: int,
    samples: int,
    fx: PositionScale,
    fy: PositionScale,
    fz: PositionScale,
    inverted_lightness: bool,
    segment: Seq<ColorPoint>,
) -> bool {
    &&& segment.len() == samples
    &&& forall|j: int|
        0 <= j < samples ==> sampled(
            k,
            pair,
            index,
            j,
            samples,
            fx,
            fy,
            fz,
            inverted_lightness,
            #[trigger] segment[j],
        )
}

/// Whether `grid` may be the samples of all segments.
pub open spec fn grid_of<K: Arithmetic>(
    k: &K,
    pairs: Seq<(ColorPoint, ColorPoint)>,
    samples: int,
    fx: PositionScale,
    fy: PositionScale,
    fz: PositionScale,
    inverted_lightness: bool,
    grid: Seq<Seq<ColorPoint>>,
) -> bool {
    &&& grid.len() == pairs.len()
    &&& forall|i: int|
        0 <= i < grid.len() ==> segment_of(
            k,
            pairs[i],
            i,
            samples,
            fx,
            fy,
            fz,
            inverted_lightness,
            #[trigger] grid[i],
        )
}

/// Every anchor has a position and a colour that belong together.
pub open spec fn all_consistent<K: Arithmetic>(k: &K, anchors: Seq<ColorPoint>) -> bool {
    forall|i: int| 0 <= i < anchors.len() ==> (#[trigger] anchors[i]).consistent(k)
}

fn derive_pairs(anchor_points: &Vec<ColorPoint>, closed_loop: bool) -> (pairs: Vec<
    (ColorPoint, ColorPoint),
>)
    requires
        closed_loop || anchor_points@.len() >= 1,
    ensures
        pairs@ == pairs_of(anchor_points@, closed_loop),
{
    let count: usize = if closed_loop {
        anchor_points.len()
    } else {
        anchor_points.len() - 1
    };
    let mut pairs: Vec<(ColorPoint, ColorPoint)> = Vec::new();
    let mut i: usize = 0;
    while i < count
        invariant
            count == pair_count(anchor_points@.len() as int, closed_loop),
            i <= count,
            pairs@.len() == i,
            forall|j: int|
                0 <= j < i ==> #[trigger] pairs@[j] == (
                    anchor_points@[j],
                    anchor_points@[(j + 1) % (count as int)],
                ),
        decreases count - i,
    {
        pairs.push((anchor_points[i], anchor_points[(i + 1) % count]));
        i += 1;
    }
    proof {
        assert(pairs@ =~= pairs_of(anchor_points@, closed_loop));
    }
    pairs
}

fn derive_segment<K: Arithmetic>(
    k: &K,
    pair: (ColorPoint, ColorPoint),
    index: usize,
    samples: usize,
    fx: PositionScale,
    fy: PositionScale,
    fz: PositionScale,
    inverted_lightness: bool,
) -> (segment: Vec<ColorPoint>)
    requires
        samples >= 2,
    ensures
        segment_of(k, pair, index as int, samples as int, fx, fy, fz, inverted_lightness, segment@),
{
    let line = vectors_on_line(
        k,
        pair.0.position(),
        pair.1.position(),
        Some(samples),
        index % 2 == 0,
        Some(fx),
        Some(fy),
        Some(fz),
    );
    let mut segment: Vec<ColorPoint> = Vec::new();
    let mut j: usize = 0;
    while j < line.len()
        invariant
            line@.len() == samples,
            j <= line@.len(),
            segment@.len() == j,
            forall|n: int|
                0 <= n < line@.len() ==> point_on_line(
                    k,
                    sample_parameter(n, samples as int),
                    pair.0.xyz(),
                    pair.1.xyz(),
                    index % 2 == 0,
                    Some(fx),
                    Some(fy),
                    Some(fz),
                    #[trigger] line@[n],
                ),
            forall|n: int|
                0 <= n < j ==> sampled(
                    k,
                    pair,
                    index as int,
                    n,
                    samples as int,
                    fx,
                    fy,
                    fz,
                    inverted_lightness,
                    #[trigger] segment@[n],
                ),
        decreases line@.len() - j,
    {
        let point = ColorPoint::at_position(k, line[j], inverted_lightness);
        segment.push(point);
        j += 1;
    }
    segment
}

fn derive_grid<K: Arithmetic>(
    k: &K,
    pairs: &Vec<(ColorPoint, ColorPoint)>,
    samples: usize,
    fx: PositionScale,
    fy: PositionScale,
    fz: PositionScale,
    inverted_lightness: bool,
) -> (points: Vec<Vec<ColorPoint>>)
    requires
        samples >= 2,
    ensures
        grid_of(k, pairs@, samples as int, fx, fy, fz, inverted_lightness, segment_views(points@)),
{
    let mut points: Vec<Vec<ColorPoint>> = Vec::new();
    let mut i: usize = 0;
    while i < pairs.len()
        invariant
            samples >= 2,
            i <= pairs@.len(),
            points@.len() == i,
            forall|n: int|
                0 <= n < i ==> segment_of(
                    k,
                    pairs@[n],
                    n,
                    samples as int,
                    fx,
                    fy,
                    fz,
                    inverted_lightness,
                    (#[trigger] points@[n])@,
                ),
        decreases pairs@.len() - i,
    {
        let segment = derive_segment(k, pairs[i], i, samples, fx, fy, fz, inverted_lightness);
        points.push(segment);
        i += 1;
    }
    proof {
        let grid = segment_views(points@);
        assert forall|n: int| 0 <= n < grid.len() implies segment_of(
            k,
            pairs@[n],
            n,
            samples as int,
            fx,
            fy,
            fz,
            inverted_lightness,
            #[trigger] grid[n],
        ) by {
            assert(grid[n] == points@[n]@);
        }
    }
    points
}

/// The scale of an axis: its own where it has one, else the general one.
pub open spec fn scale_or(own: Option<PositionScale>, general: PositionScale) -> PositionScale {
    match own {
        Some(scale) => scale,
        None => general,
    }
}

/// The colours of points.
pub open spec fn colours_of(points: Seq<ColorPoint>) -> Seq<Vector3> {
    points.map_values(|point: ColorPoint| point.colour())
}

/// Whether `anchors` may be the anchors made from `colours`, one for each.
pub open spec fn anchors_from<K: Arithmetic>(
    k: &K,
    colours: Seq<Vector3>,
    inverted_lightness: bool,
    anchors: Seq<ColorPoint>,
) -> bool {
    &&& anchors.len() == colours.len()
    &&& forall|i: int|
        0 <= i < anchors.len() ==> (#[trigger] anchors[i]).from_colour(
            k,
            colours[i],
            inverted_lightness,
        )
}

/// Whether `after` may be the point `before` changed as `initial` says: set
/// to the colour where one is given; else moved to the position where one is
/// given; else left as it is. The point reads lightness as before.
pub open spec fn updated<K: Arithmetic>(
    k: &K,
    before: ColorPoint,
    initial: ColorPointCollection,
    after: ColorPoint,
) -> bool {
    match (initial.xyz, initial.color) {
        (_, Some(hsl)) => after.from_colour(k, hsl, before.inverted_lightness()),
        (Some(xyz), None) => after.from_position(k, xyz, before.inverted_lightness()),
        (None, None) => after == before,
    }
}

/// Whether `after` may be `before` with its hue turned by `shift` degrees.
pub open spec fn turned<K: Arithmetic>(k: &K, before: ColorPoint, shift: Scalar, after: ColorPoint) -> bool {
    &&& yields(k, turned_hue(before.colour().0, shift), after.colour().0)
    &&& after.colour().1 == before.colour().1
    &&& after.colour().2 == before.colour().2
    &&& after.from_colour(k, after.colour(), before.inverted_lightness())
}

/// The index of the first anchor that equals `point` is `index`.
pub open spec fn first_match(anchors: Seq<ColorPoint>, point: ColorPoint, index: int) -> bool {
    &&& 0 <= index < anchors.len()
    &&& anchors[index].same_point(point)
    &&& forall|j: int| 0 <= j < index ==> !(#[trigger] anchors[j]).same_point(point)
}

/// No anchor equals `point`.
pub open spec fn no_match(anchors: Seq<ColorPoint>, point: ColorPoint) -> bool {
    forall|j: int| 0 <= j < anchors.len() ==> !(#[trigger] anchors[j]).same_point(point)
}

/// The mask in which every component of `v` is present.
pub open spec fn whole(v: Vector3) -> PartialVector3 {
    PartialVector3(Some(v.0), Some(v.1), Some(v.2))
}

/// Whether `distances` may be the distances of the anchors from `xyz`, one
/// for each anchor.
pub open spec fn measured<K: Arithmetic>(
    k: &K,
    anchors: Seq<ColorPoint>,
    xyz: PartialVector3,
    distances: Seq<Scalar>,
) -> bool {
    &&& distances.len() == anchors.len()
    &&& forall|i: int|
        0 <= i < anchors.len() ==> yields(
            k,
            distance_between(whole(anchors[i].xyz()), xyz, false),
            #[trigger] distances[i],
        )
}

/// The anchor at the first of the least distances, unless that distance
/// exceeds `max_distance`. There is none where a distance or `max_distance`
/// is not a real number.
pub open spec fn nearest(anchors: Seq<ColorPoint>, distances: Seq<Scalar>, max_distance: Scalar) -> Option<
    ColorPoint,
> {
    if all_real(distances) && max_distance.spec_is_real() {
        match closest(distances, max_distance) {
            Some(i) => Some(anchors[i]),
            None => None,
        }
    } else {
        None
    }
}

/// The samples that make the palette: the flattened grid, in a loop without
/// its last sample, which repeats the first anchor.
pub open spec fn palette_points(grid: Seq<Seq<ColorPoint>>, samples: int, closed_loop: bool) -> Seq<
    ColorPoint,
> {
    let flat = flattened(grid, samples);
    if closed_loop && flat.len() > 0 {
        flat.drop_last()
    } else {
        flat
    }
}

/// A palette: colours along the segments between anchor colours.
#[derive(Clone, Debug)]
pub struct Poline<K: Arithmetic> {
    arithmetic: K,
    anchor_points: Vec<ColorPoint>,
    num_points: usize,
    points: Vec<Vec<ColorPoint>>,
    position_function_x: PositionScale,
    position_function_y: PositionScale,
    position_function_z: PositionScale,
    anchor_pairs: Vec<(ColorPoint, ColorPoint)>,
    connect_last_and_first_anchor: bool,
    inverted_lightness: bool,
}

impl<K: Arithmetic> Poline<K> {
    /// The arithmetic that the palette computes with.
    pub closed spec fn arithmetic(&self) -> &K {
        &self.arithmetic
    }

    /// The anchors, in order.
    pub closed spec fn anchors(&self) -> Seq<ColorPoint> {
        self.anchor_points@
    }

    /// The pairs of anchors that the segments join.
    pub closed spec fn pairs(&self) -> Seq<(ColorPoint, ColorPoint)> {
        self.anchor_pairs@
    }

    /// The samples of each segment.
    pub closed spec fn grid(&self) -> Seq<Seq<ColorPoint>> {
        segment_views(self.points@)
    }

    /// The number of samples on a segment, its two ends included.
    pub closed spec fn samples(&self) -> int {
        self.num_points as int
    }

    pub closed spec fn scale_x(&self) -> PositionScale {
        self.position_function_x
    }

    pub closed spec fn scale_y(&self) -> PositionScale {
        self.position_function_y
    }

    pub closed spec fn scale_z(&self) -> PositionScale {
        self.position_function_z
    }

    /// Whether the last anchor is joined to the first.
    pub closed spec fn closed_loop(&self) -> bool {
        self.connect_last_and_first_anchor
    }

    /// How the palette's samples read lightness.
    pub closed spec fn inverted_lightness(&self) -> bool {
        self.inverted_lightness
    }

    /// The palette can derive its segments: a segment has two samples or
    /// more, an open palette has an anchor, and every anchor's position and
    /// colour belong together.
    pub open spec fn ready(&self) -> bool {
        &&& self.samples() >= 2
        &&& self.closed_loop() || self.anchors().len() >= 1
        &&& all_consistent(self.arithmetic(), self.anchors())
    }

    /// The palette is whole: pairs and samples are those of its anchors
    /// and settings.
    pub open spec fn wf(&self) -> bool {
        &&& self.ready()
        &&& self.pairs() == pairs_of(self.anchors(), self.closed_loop())
        &&& grid_of(
            self.arithmetic(),
            self.pairs(),
            self.samples(),
            self.scale_x(),
            self.scale_y(),
            self.scale_z(),
            self.inverted_lightness(),
            self.grid(),
        )
    }

    /// Both have the same arithmetic, number of samples, topology and
    /// reading of lightness.
    pub open spec fn same_frame(&self, other: &Poline<K>) -> bool {
        &&& self.arithmetic() == other.arithmetic()
        &&& self.samples() == other.samples()
        &&& self.closed_loop() == other.closed_loop()
        &&& self.inverted_lightness() == other.inverted_lightness()
    }

    /// Both have the same frame and the same scales.
    pub open spec fn same_settings(&self, other: &Poline<K>) -> bool {
        &&& self.same_frame(other)
        &&& self.scale_x() == other.scale_x()
        &&& self.scale_y() == other.scale_y()
        &&& self.scale_z() == other.scale_z()
    }

    /// A palette with the given settings. Its anchors are made from the
    /// anchor colours, of which there must be two or more; without anchor
    /// colours, from a random pair. A segment has two samples more than the
    /// settings ask for: its ends.
    pub fn new(arithmetic: K, options: PolineOptions) -> (palette: Poline<K>)
        requires
            options.num_points <= usize::MAX - 2,
            options.anchor_colors matches Some(colours) ==> colours@.len() >= 2,
        ensures
            palette.wf(),
            *palette.arithmetic() == arithmetic,
            palette.samples() == options.num_points + 2,
            palette.scale_x() == scale_or(options.position_function_x, options.position_function),
            palette.scale_y() == scale_or(options.position_function_y, options.position_function),
            palette.scale_z() == scale_or(options.position_function_z, options.position_function),
            palette.closed_loop() == options.closed_loop,
            palette.inverted_lightness() == options.inverted_lightness,
            match options.anchor_colors {
                Some(colours) => anchors_from(
                    &arithmetic,
                    colours@,
                    options.inverted_lightness,
                    palette.anchors(),
                ),
                None => random_pair(&arithmetic, colours_of(palette.anchors())) && anchors_from(
                    &arithmetic,
                    colours_of(palette.anchors()),
                    options.inverted_lightness,
                    palette.anchors(),
                ),
            },
    {
        let anchor_colors = match options.anchor_colors {
            Some(colours) => colours,
            None => random_hsl_pair(&arithmetic, None, None, None),
        };
        let mut anchor_points: Vec<ColorPoint> = Vec::new();
        let mut i: usize = 0;
        while i < anchor_colors.len()
            invariant
                i <= anchor_colors@.len(),
                anchor_points@.len() == i,
                forall|j: int|
                    0 <= j < i ==> (#[trigger] anchor_points@[j]).from_colour(
                        &arithmetic,
                        anchor_colors@[j],
                        options.inverted_lightness,
                    ),
                forall|j: int| 0 <= j < i ==> (#[trigger] anchor_points@[j]).consistent(&arithmetic),
            decreases anchor_colors@.len() - i,
        {
            let anchor = ColorPoint::of_colour(
                &arithmetic,
                anchor_colors[i],
                options.inverted_lightness,
            );
            anchor_points.push(anchor);
            i += 1;
        }
        let num_points: usize = options.num_points + 2;
        let position_function_x = match options.position_function_x {
            Some(scale) => scale,
            None => options.position_function,
        };
        let position_function_y = match options.position_function_y {
            Some(scale) => scale,
            None => options.position_function,
        };
        let position_function_z = match options.position_function_z {
            Some(scale) => scale,
            None => options.position_function,
        };
        let anchor_pairs = derive_pairs(&anchor_points, options.closed_loop);
        let points = derive_grid(
            &arithmetic,
            &anchor_pairs,
            num_points,
            position_function_x,
            position_function_y,
            position_function_z,
            options.inverted_lightness,
        );
        proof {
            assert(colours_of(anchor_points@) =~= anchor_colors@);
        }
        Poline {
            arithmetic,
            anchor_points,
            num_points,
            points,
            position_function_x,
            position_function_y,
            position_function_z,
            anchor_pairs,
            connect_last_and_first_anchor: options.closed_loop,
            inverted_lightness: options.inverted_lightness,
        }
    }

    /// Whether the last anchor is joined to the first.
    pub fn is_closed_loop(&self) -> (closed: bool)
        ensures
            closed == self.closed_loop(),
    {
        self.connect_last_and_first_anchor
    }

    /// Derives the pairs and the samples anew from the anchors and settings.
    pub fn update_anchor_pairs(&mut self)
        requires
            old(self).ready(),
        ensures
            final(self).wf(),
            final(self).anchors() == old(self).anchors(),
            final(self).same_settings(old(self)),
    {
        let anchor_pairs = derive_pairs(&self.anchor_points, self.connect_last_and_first_anchor);
        let points = derive_grid(
            &self.arithmetic,
            &anchor_pairs,
            self.num_points,
            self.position_function_x,
            self.position_function_y,
            self.position_function_z,
            self.inverted_lightness,
        );
        self.anchor_pairs = anchor_pairs;
        self.points = points;
    }

    /// Adds an anchor made from `initial`, at `insert_at_index` or, without
    /// an index, behind the last anchor; and returns it. Where `initial`
    /// holds neither a position nor a colour, nothing changes.
    pub fn add_anchor_point(
        &mut self,
        initial: ColorPointCollection,
        insert_at_index: Option<usize>,
    ) -> (added: Result<ColorPoint, PolineErrors>)
        requires
            old(self).wf(),
            insert_at_index matches Some(index) ==> index <= old(self).anchors().len(),
        ensures
            final(self).wf(),
            final(self).same_settings(old(self)),
            match added {
                Ok(anchor) => {
                    &&& match (initial.xyz, initial.color) {
                        (Some(xyz), _) => anchor.from_position(
                            old(self).arithmetic(),
                            xyz,
                            initial.inverted_lightness,
                        ),
                        (None, Some(hsl)) => anchor.from_colour(
                            old(self).arithmetic(),
                            hsl,
                            initial.inverted_lightness,
                        ),
                        (None, None) => false,
                    }
                    &&& final(self).anchors() == match insert_at_index {
                        Some(index) => old(self).anchors().insert(index as int, anchor),
                        None => old(self).anchors().push(anchor),
                    }
                },
                Err(error) => {
                    &&& error == PolineErrors::MissingArgument
                    &&& initial.xyz.is_none() && initial.color.is_none()
                    &&& *final(self) == *old(self)
                },
            },
    {
        let new_anchor = match ColorPoint::new(&self.arithmetic, initial) {
            Ok(anchor) => anchor,
            Err(error) => {
                return Err(error);
            },
        };
        match insert_at_index {
            Some(index) => {
                self.anchor_points.insert(index, new_anchor);
            },
            None => {
                self.anchor_points.push(new_anchor);
            },
        }
        self.update_anchor_pairs();
        Ok(new_anchor)
    }

    /// Removes the anchor at `index`. An open palette keeps at least one
    /// anchor.
    pub fn remove_anchor_point_at_index(&mut self, index: usize)
        requires
            old(self).wf(),
            index < old(self).anchors().len(),
            old(self).closed_loop() || old(self).anchors().len() >= 2,
        ensures
            final(self).wf(),
            final(self).same_settings(old(self)),
            final(self).anchors() == old(self).anchors().remove(index as int),
    {
        self.anchor_points.remove(index);
        self.update_anchor_pairs();
    }

    fn find(&self, point: ColorPoint) -> (found: Option<usize>)
        ensures
            match found {
                Some(index) => first_match(self.anchors(), point, index as int),
                None => no_match(self.anchors(), point),
            },
    {
        let mut i: usize = 0;
        while i < self.anchor_points.len()
            invariant
                i <= self.anchor_points@.len(),
                forall|j: int| 0 <= j < i ==> !(#[trigger] self.anchor_points@[j]).same_point(point),
            decreases self.anchor_points@.len() - i,
        {
            if self.anchor_points[i] == point {
                return Some(i);
            }
            i += 1;
        }
        None
    }

    /// Removes the first anchor that equals `point`. Where none does,
    /// nothing changes.
    pub fn remove_anchor_point(&mut self, point: ColorPoint) -> (removed: Result<(), PolineErrors>)
        requires
            old(self).wf(),
            old(self).closed_loop() || old(self).anchors().len() >= 2 || no_match(
                old(self).anchors(),
                point,
            ),
        ensures
            final(self).wf(),
            final(self).same_settings(old(self)),
            match removed {
                Ok(_) => exists|index: int|
                    first_match(old(self).anchors(), point, index) && final(self).anchors() == old(
                        self,
                    ).anchors().remove(index),
                Err(error) => {
                    &&& error == PolineErrors::PointNotFound
                    &&& no_match(old(self).anchors(), point)
                    &&& *final(self) == *old(self)
                },
            },
    {
        match self.find(point) {
            Some(index) => {
                self.remove_anchor_point_at_index(index);
                Ok(())
            },
            None => Err(PolineErrors::PointNotFound),
        }
    }

    /// Changes the anchor at `index` as `initial` says, and returns it as
    /// it is then: with the colour of `initial` where it has one, else at
    /// the position of `initial` where it has one, else unchanged.
    pub fn update_anchor_point_at_index(&mut self, index: usize, initial: ColorPointCollection) -> (point:
        ColorPoint)
        requires
            old(self).wf(),
            index < old(self).anchors().len(),
        ensures
            final(self).wf(),
            final(self).same_settings(old(self)),
            updated(old(self).arithmetic(), old(self).anchors()[index as int], initial, point),
            final(self).anchors() == old(self).anchors().update(index as int, point),
    {
        let mut point = self.anchor_points[index];
        if let Some(xyz) = initial.xyz {
            point.set_position(&self.arithmetic, xyz);
        }
        if let Some(color) = initial.color {
            point.set_hsl(&self.arithmetic, color);
        }
        self.anchor_points.set(index, point);
        self.update_anchor_pairs();
        point
    }

    /// Changes the first anchor that equals `point` as `initial` says.
    /// Where none does, nothing changes.
    pub fn update_anchor_point(&mut self, point: ColorPoint, initial: ColorPointCollection) -> (changed:
        Result<(), PolineErrors>)
        requires
            old(self).wf(),
        ensures
            final(self).wf(),
            final(self).same_settings(old(self)),
            match changed {
                Ok(_) => exists|index: int, after: ColorPoint|
                    {
                        &&& first_match(old(self).anchors(), point, index)
                        &&& updated(
                            old(self).arithmetic(),
                            old(self).anchors()[index],
                            initial,
                            after,
                        )
                        &&& final(self).anchors() == old(self).anchors().update(index, after)
                    },
                Err(error) => {
                    &&& error == PolineErrors::PointNotFound
                    &&& no_match(old(self).anchors(), point)
                    &&& *final(self) == *old(self)
                },
            },
    {
        match self.find(point) {
            Some(index) => {
                self.update_anchor_point_at_index(index, initial);
                Ok(())
            },
            None => Err(PolineErrors::PointNotFound),
        }
    }
    /// The anchor closest to `xyz`: the first of those at the least distance,
    /// unless that distance exceeds `max_distance`. Axes that `xyz` lacks do
    /// not count, and the first axis counts as a number, not as an angle.
    /// There is no closest anchor where there is no anchor, nor where a
    /// distance or `max_distance` is not a real number.
    pub fn get_closest_anchor_point(&self, xyz: PartialVector3, max_distance: Scalar) -> (found:
        Option<ColorPoint>)
        ensures
            exists|distances: Seq<Scalar>|
                #![trigger measured(self.arithmetic(), self.anchors(), xyz, distances)]
                measured(self.arithmetic(), self.anchors(), xyz, distances) && found == nearest(
                    self.anchors(),
                    distances,
                    max_distance,
                ),
            (forall|i: int, d: Scalar|
                0 <= i < self.anchors().len() && #[trigger] yields(
                    self.arithmetic(),
                    distance_between(whole(self.anchors()[i].xyz()), xyz, false),
                    d,
                ) ==> max_distance.below(d)) ==> found.is_none(),
    {
        let mut distances: Vec<Scalar> = Vec::new();
        let mut reals: bool = max_distance.is_real();
        let mut i: usize = 0;
        while i < self.anchor_points.len()
            invariant
                i <= self.anchor_points@.len(),
                distances@.len() == i,
                forall|j: int|
                    0 <= j < i ==> yields(
                        self.arithmetic(),
                        distance_between(whole(self.anchor_points@[j].xyz()), xyz, false),
                        #[trigger] distances@[j],
                    ),
                reals == (max_distance.spec_is_real() && all_real(distances@)),
            decreases self.anchor_points@.len() - i,
        {
            let d = distance(
                &self.arithmetic,
                optional_vector3(self.anchor_points[i].position()),
                xyz,
                false,
            );
            proof {
                let longer = distances@.push(d);
                if all_real(longer) {
                    assert forall|j: int| 0 <= j < distances@.len() implies (
                    #[trigger] distances@[j]).spec_is_real() by {
                        assert(longer[j] == distances@[j]);
                    }
                }
                if !d.spec_is_real() {
                    assert(longer[i as int] == d);
                }
            }
            if !d.is_real() {
                reals = false;
            }
            distances.push(d);
            i += 1;
        }
        proof {
            assert(measured(self.arithmetic(), self.anchors(), xyz, distances@));
        }
        if !reals {
            return None;
        }
        match closest_index(&distances, max_distance) {
            Some(index) => Some(self.anchor_points[index]),
            None => None,
        }
    }

    /// Turns the hue of every anchor by `shift` degrees.
    pub fn shift_hue(&mut self, shift: Scalar)
        requires
            old(self).wf(),
        ensures
            final(self).wf(),
            final(self).same_settings(old(self)),
            final(self).anchors().len() == old(self).anchors().len(),
            forall|i: int|
                0 <= i < old(self).anchors().len() ==> turned(
                    old(self).arithmetic(),
                    old(self).anchors()[i],
                    shift,
                    #[trigger] final(self).anchors()[i],
                ),
    {
        let mut i: usize = 0;
        while i < self.anchor_points.len()
            invariant
                self.same_settings(old(self)),
                self.samples() >= 2,
                self.anchors().len() == old(self).anchors().len(),
                i <= self.anchors().len(),
                all_consistent(self.arithmetic(), self.anchors()),
                forall|j: int|
                    0 <= j < i ==> turned(
                        old(self).arithmetic(),
                        old(self).anchors()[j],
                        shift,
                        #[trigger] self.anchors()[j],
                    ),
                forall|j: int|
                    i <= j < self.anchors().len() ==> #[trigger] self.anchors()[j] == old(
                        self,
                    ).anchors()[j],
            decreases self.anchors().len() - i,
        {
            let mut point = self.anchor_points[i];
            point.shift_hue(&self.arithmetic, shift);
            self.anchor_points.set(i, point);
            i += 1;
        }
        self.update_anchor_pairs();
    }

    /// The samples of all segments in order, each segment after the first
    /// without its first sample, which is the last of the segment before.
    /// Of `n` segments of `s` samples that leaves `n * s - (n - 1)`.
    pub fn flattened_points(&self) -> (flat: Vec<ColorPoint>)
        requires
            self.wf(),
        ensures
            flat@ == flattened(self.grid(), self.samples()),
            flat@.len() == (if self.pairs().len() == 0 {
                0
            } else {
                self.pairs().len() * self.samples() - (self.pairs().len() - 1)
            }),
    {
        proof {
            lemma_grid_even(self);
            lemma_flattened_len(self.grid(), self.samples());
        }
        flatten(&self.points, self.num_points)
    }

    fn palette(&self) -> (kept: Vec<ColorPoint>)
        requires
            self.wf(),
        ensures
            kept@ == palette_points(self.grid(), self.samples(), self.closed_loop()),
    {
        let mut flat = self.flattened_points();
        if self.connect_last_and_first_anchor && flat.len() > 0 {
            flat.pop();
            proof {
                let all = flattened(self.grid(), self.samples());
                assert(flat@ =~= all.drop_last());
            }
        }
        flat
    }

    /// The colours of the palette: those of the flattened samples, in a loop
    /// without the last, which repeats the first anchor.
    pub fn colors(&self) -> (colours: Vec<Vector3>)
        requires
            self.wf(),
        ensures
            colours@ == colours_of(palette_points(self.grid(), self.samples(), self.closed_loop())),
    {
        let kept = self.palette();
        let mut colours: Vec<Vector3> = Vec::new();
        let mut i: usize = 0;
        while i < kept.len()
            invariant
                i <= kept@.len(),
                colours@.len() == i,
                forall|j: int| 0 <= j < i ==> #[trigger] colours@[j] == kept@[j].colour(),
            decreases kept@.len() - i,
        {
            colours.push(kept[i].hsl());
            i += 1;
        }
        proof {
            assert(colours@ =~= colours_of(kept@));
        }
        colours
    }

    /// The anchors, in order.
    pub fn anchor_points(&self) -> (anchors: Vec<ColorPoint>)
        ensures
            anchors@ == self.anchors(),
    {
        let mut anchors: Vec<ColorPoint> = Vec::new();
        let mut i: usize = 0;
        while i < self.anchor_points.len()
            invariant
                i <= self.anchor_points@.len(),
                anchors@.len() == i,
                forall|j: int| 0 <= j < i ==> #[trigger] anchors@[j] == self.anchor_points@[j],
            decreases self.anchor_points@.len() - i,
        {
            anchors.push(self.anchor_points[i]);
            i += 1;
        }
        proof {
            assert(anchors@ =~= self.anchors());
        }
        anchors
    }

    /// The colours of the palette as texts for a style sheet, one for each
    /// colour that `colors` gives.
    pub fn colors_css(&self) -> (texts: Vec<String>)
        requires
            self.wf(),
        ensures
            texts@.len() == palette_points(self.grid(), self.samples(), self.closed_loop()).len(),
            forall|i: int|
                0 <= i < texts@.len() ==> css_of(
                    self.arithmetic(),
                    palette_points(self.grid(), self.samples(), self.closed_loop())[i].colour(),
                    (#[trigger] texts@[i])@,
                ),
    {
        let kept = self.palette();
        let mut texts: Vec<String> = Vec::new();
        let mut i: usize = 0;
        while i < kept.len()
            invariant
                i <= kept@.len(),
                texts@.len() == i,
                forall|j: int|
                    0 <= j < i ==> css_of(
                        self.arithmetic(),
                        kept@[j].colour(),
                        (#[trigger] texts@[j])@,
                    ),
            decreases kept@.len() - i,
        {
            texts.push(kept[i].hsl_css(&self.arithmetic));
            i += 1;
        }
        texts
    }

    /// Gives the first axis the scale with the ordinal `scale_num`.
    pub fn set_position_fn_x(&mut self, scale_num: usize)
        requires
            old(self).wf(),
            scale_num <= 8,
        ensures
            final(self).wf(),
            final(self).same_frame(old(self)),
            final(self).anchors() == old(self).anchors(),
            final(self).scale_x().ordinal() == scale_num,
            final(self).scale_y() == old(self).scale_y(),
            final(self).scale_z() == old(self).scale_z(),
    {
        self.position_function_x = number_as_enum(scale_num);
        self.update_anchor_pairs();
    }

    /// Gives the second axis the scale with the ordinal `scale_num`.
    pub fn set_position_fn_y(&mut self, scale_num: usize)
        requires
            old(self).wf(),
            scale_num <= 8,
        ensures
            final(self).wf(),
            final(self).same_frame(old(self)),
            final(self).anchors() == old(self).anchors(),
            final(self).scale_x() == old(self).scale_x(),
            final(self).scale_y().ordinal() == scale_num,
            final(self).scale_z() == old(self).scale_z(),
    {
        self.position_function_y = number_as_enum(scale_num);
        self.update_anchor_pairs();
    }

    /// Gives the third axis the scale with the ordinal `scale_num`.
    pub fn set_position_fn_z(&mut self, scale_num: usize)
        requires
            old(self).wf(),
            scale_num <= 8,
        ensures
            final(self).wf(),
            final(self).same_frame(old(self)),
            final(self).anchors() == old(self).anchors(),
            final(self).scale_x() == old(self).scale_x(),
            final(self).scale_y() == old(self).scale_y(),
            final(self).scale_z().ordinal() == scale_num,
    {
        self.position_function_z = number_as_enum(scale_num);
        self.update_anchor_pairs();
    }

    /// Gives every axis the scale with the ordinal `scale_num`.
    pub fn set_position_fn(&mut self, scale_num: usize)
        requires
            old(self).wf(),
            scale_num <= 8,
        ensures
            final(self).wf(),
            final(self).same_frame(old(self)),
            final(self).anchors() == old(self).anchors(),
            final(self).scale_x().ordinal() == scale_num,
            final(self).scale_y().ordinal() == scale_num,
            final(self).scale_z().ordinal() == scale_num,
    {
        let scale = number_as_enum(scale_num);
        self.position_function_x = scale;
        self.position_function_y = scale;
        self.position_function_z = scale;
        self.update_anchor_pairs();
    }
}

/// Every segment of a whole palette has as many samples as the palette
/// says.
pub proof fn lemma_grid_even<K: Arithmetic>(palette: &Poline<K>)
    requires
        palette.wf(),
    ensures
        even(palette.grid(), palette.samples()),
        palette.grid().len() == palette.pairs().len(),
{
    let grid = palette.grid();
    assert forall|i: int| 0 <= i < grid.len() implies (#[trigger] grid[i]).len()
        == palette.samples() by {
        assert(segment_of(
            palette.arithmetic(),
            palette.pairs()[i],
            i,
            palette.samples(),
            palette.scale_x(),
            palette.scale_y(),
            palette.scale_z(),
            palette.inverted_lightness(),
            grid[i],
        ));
    }
}

/// An open palette has one segment fewer than anchors, a loop as many
/// segments as anchors.
pub proof fn lemma_pair_count<K: Arithmetic>(palette: &Poline<K>)
    requires
        palette.wf(),
    ensures
        palette.pairs().len() == (if palette.closed_loop() {
            palette.anchors().len() as int
        } else {
            palette.anchors().len() - 1
        }),
        palette.grid().len() == palette.pairs().len(),
{
}

/// The palette has all samples of its segments but one for each segment
/// after the first, and in a loop one fewer still.
pub proof fn lemma_palette_len<K: Arithmetic>(palette: &Poline<K>)
    requires
        palette.wf(),
        palette.pairs().len() > 0,
    ensures
        flattened(palette.grid(), palette.samples()).len() == palette.pairs().len()
            * palette.samples() - (palette.pairs().len() - 1),
        palette_points(palette.grid(), palette.samples(), palette.closed_loop()).len()
            == palette.pairs().len() * palette.samples() - (palette.pairs().len() - 1) - (
        if palette.closed_loop() {
            1int
        } else {
            0int
        }),
{
    lemma_grid_even(palette);
    lemma_flattened_len(palette.grid(), palette.samples());
    let pairs = palette.pairs().len() as int;
    let samples = palette.samples();
    assert(pairs * samples - (pairs - 1) >= 2) by (nonlinear_arith)
        requires
            pairs >= 1,
            samples >= 2,
    ;
}

} // verus!
