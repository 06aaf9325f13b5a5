//! What a palette is built from.

use crate::arithmetic::Arithmetic;
use crate::positions::{number_as_enum, PositionScale};
use crate::random::{companion_colour, random_hsl_pair, start_colour};
use crate::scalar::THREE_TENTHS;
use crate::types::Vector3;
use vstd::prelude::*;

verus! {

/// The settings of a palette.
#[derive(Clone, Debug)]
pub struct PolineOptions {
    /// The colours to interpolate between, two or more. Without them the
    /// palette draws a random pair.
    pub anchor_colors: Option<Vec<Vector3>>,
    /// How many samples lie strictly between two anchors.
    pub num_points: usize,
    /// The scale of every axis that has none of its own.
    pub position_function: PositionScale,
    pub position_function_x: Option<PositionScale>,
    pub position_function_y: Option<PositionScale>,
    pub position_function_z: Option<PositionScale>,
    pub inverted_lightness: bool,
    /// Whether the last anchor is joined to the first.
    pub closed_loop: bool,
}

/// The settings as they arrive from outside, with scales given by ordinal.
#[derive(Clone, Copy, Debug)]
pub struct PolineJsOptions {
    pub num_points: usize,
    pub position_function: usize,
    pub position_function_x: Option<usize>,
    pub position_function_y: Option<usize>,
    pub position_function_z: Option<usize>,
    pub inverted_lightness: bool,
    pub closed_loop: bool,
}

/// Whether `colours` is a random pair that `k` may draw.
pub open spec fn random_pair<K: Arithmetic>(k: &K, colours: Seq<Vector3>) -> bool {
    &&& colours.len() == 2
    &&& start_colour(k, None, None, None, colours[0])
    &&& companion_colour(k, colours[0].0, None, None, THREE_TENTHS, colours[1])
}

/// An ordinal that selects a scale.
pub open spec fn selects(ordinal: Option<usize>) -> bool {
    match ordinal {
        Some(n) => n <= 8,
        None => true,
    }
}

/// The scale that an ordinal selects, where there is an ordinal.
pub open spec fn selected(ordinal: Option<usize>, scale: Option<PositionScale>) -> bool {
    match (ordinal, scale) {
        (Some(n), Some(scale)) => scale.ordinal() == n,
        (None, None) => true,
        _ => false,
    }
}

fn select(ordinal: Option<usize>) -> (scale: Option<PositionScale>)
    requires
        selects(ordinal),
    ensures
        selected(ordinal, scale),
{
    match ordinal {
        Some(n) => Some(number_as_enum(n)),
        None => None,
    }
}

impl PolineOptions {
    /// The default settings: a random pair of anchor colours, four samples
    /// between them, the sinusoidal scale on every axis, lightness not
    /// inverted, and no loop.
    pub fn default<K: Arithmetic>(k: &K) -> (options: PolineOptions)
        ensures
            options.anchor_colors matches Some(colours) && random_pair(k, colours@),
            options.num_points == 4,
            options.position_function == PositionScale::Sinusoidal,
            options.position_function_x.is_none(),
            options.position_function_y.is_none(),
            options.position_function_z.is_none(),
            !options.inverted_lightness,
            !options.closed_loop,
    {
        PolineOptions {
            anchor_colors: Some(random_hsl_pair(k, None, None, None)),
            num_points: 4,
            position_function: PositionScale::Sinusoidal,
            position_function_x: None,
            position_function_y: None,
            position_function_z: None,
            inverted_lightness: false,
            closed_loop: false,
        }
    }
}

impl PolineJsOptions {
    /// The settings of a palette: the defaults, with the number of samples
    /// and the scales from here. The two flags are not taken over, nor are
    /// anchor colours: the palette starts from a random pair, open and with
    /// lightness not inverted.
    pub fn as_rs_options<K: Arithmetic>(self, k: &K) -> (options: PolineOptions)
        requires
            self.position_function <= 8,
            selects(self.position_function_x),
            selects(self.position_function_y),
            selects(self.position_function_z),
        ensures
            options.anchor_colors matches Some(colours) && random_pair(k, colours@),
            options.num_points == self.num_points,
            options.position_function.ordinal() == self.position_function,
            selected(self.position_function_x, options.position_function_x),
            selected(self.position_function_y, options.position_function_y),
            selected(self.position_function_z, options.position_function_z),
            !options.inverted_lightness,
            !options.closed_loop,
    {
        let mut options = PolineOptions::default(k);
        options.num_points = self.num_points;
        options.position_function = number_as_enum(self.position_function);
        options.position_function_x = select(self.position_function_x);
        options.position_function_y = select(self.position_function_y);
        options.position_function_z = select(self.position_function_z);
        options
    }
}

} // verus!
