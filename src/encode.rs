//! Conversion of velocity grids and layer settings into the plugin's records.
use vstd::prelude::*;

use crate::grid::{VelocityData, VelocityDataHeader, VelocityLayerOptions};
use crate::number::{is_nan_bits, missing_as_zero, sanitize, ZERO_BITS};

verus! {

/// Grid header in the plugin's layout; the fields mean what those of
/// [`VelocityDataHeader`] mean.
#[derive(Clone, Copy, Debug, PartialEq, Eq, Structural)]
pub struct NativeHeader {
    pub parameter_number: usize,
    pub parameter_category: usize,
    pub dx: u64,
    pub dy: u64,
    pub nx: usize,
    pub ny: usize,
    pub la1: u64,
    pub la2: u64,
    pub lo1: u64,
    pub lo2: u64,
}

/// One velocity component in the plugin's layout: magnitudes in row-major
/// order as binary64 bit patterns, none of them not-a-number once encoded.
#[derive(Clone, Debug)]
pub struct NativeComponent {
    pub header: NativeHeader,
    pub data: Vec<u64>,
}

/// Layer settings in the plugin's layout; the fields mean what those of
/// [`VelocityLayerOptions`] mean.
#[derive(Clone, Debug)]
pub struct NativeOptions {
    pub display_values: bool,
    pub max_velocity: u64,
    pub frame_rate: u64,
    pub color_scale: Vec<String>,
    pub line_width: u64,
    pub particle_multiplier: u64,
    pub particle_age: u64,
    pub velocity_scale: u64,
    pub keyboard: bool,
    pub data: [NativeComponent; 2],
}

/// The plugin header that carries the same values as `h`.
pub open spec fn header_encoding(h: VelocityDataHeader) -> NativeHeader {
    NativeHeader {
        parameter_number: h.parameter_number,
        parameter_category: h.parameter_category,
        dx: h.dx,
        dy: h.dy,
        nx: h.nx,
        ny: h.ny,
        la1: h.la1,
        la2: h.la2,
        lo1: h.lo1,
        lo2: h.lo2,
    }
}

/// The magnitudes handed to the plugin: same order, missing values as zero.
pub open spec fn values_encoding(values: Seq<u64>) -> Seq<u64> {
    values.map_values(|b: u64| missing_as_zero(b))
}

/// `n` is the encoding of the component `c`.
pub open spec fn encodes_component(c: VelocityData, n: NativeComponent) -> bool {
    &&& n.header == header_encoding(c.header)
    &&& n.data@ == values_encoding(c.data@)
}

/// `n` is the encoding of the settings `o`: scalars copied, color stops in
/// order, and each component encoded at its own position.
pub open spec fn encodes_options(o: VelocityLayerOptions, n: NativeOptions) -> bool {
    &&& n.display_values == o.display_values
    &&& n.max_velocity == o.max_velocity
    &&& n.frame_rate == o.frame_rate
    &&& n.color_scale@ == o.color_scale@
    &&& n.line_width == o.line_width
    &&& n.particle_multiplier == o.particle_multiplier
    &&& n.particle_age == o.particle_age
    &&& n.velocity_scale == o.velocity_scale
    &&& n.keyboard == o.keyboard
    &&& encodes_component(o.data@[0], n.data@[0])
    &&& encodes_component(o.data@[1], n.data@[1])
}

/// Copies a grid header field for field.
pub fn encode_header(h: &VelocityDataHeader) -> (r: NativeHeader)
    ensures
        r == header_encoding(*h),
{
    NativeHeader {
        parameter_number: h.parameter_number,
        parameter_category: h.parameter_category,
        dx: h.dx,
        dy: h.dy,
        nx: h.nx,
        ny: h.ny,
        la1: h.la1,
        la2: h.la2,
        lo1: h.lo1,
        lo2: h.lo2,
    }
}

/// Encodes one component: the header is copied and the magnitudes keep their
/// order, with each not-a-number replaced by zero.
pub fn encode_component(c: &VelocityData) -> (r: NativeComponent)
    ensures
        encodes_component(*c, r),
{
    let header = encode_header(&c.header);
    let mut data: Vec<u64> = Vec::with_capacity(c.data.len());
    let mut i: usize = 0;
    while i < c.data.len()
        invariant
            i <= c.data@.len(),
            data@ == values_encoding(c.data@.take(i as int)),
        decreases c.data@.len() - i,
    {
        data.push(sanitize(c.data[i]));
        i += 1;
        assert(c.data@.take(i as int) == c.data@.take(i - 1).push(c.data@[i - 1]));
    }
    assert(c.data@.take(i as int) == c.data@);
    NativeComponent { header, data }
}

/// Copies the color stops in order.
fn copy_color_scale(colors: &Vec<String>) -> (r: Vec<String>)
    ensures
        r@ == colors@,
{
    let mut out: Vec<String> = Vec::with_capacity(colors.len());
    let mut i: usize = 0;
    while i < colors.len()
        invariant
            i <= colors@.len(),
            out@ == colors@.take(i as int),
        decreases colors@.len() - i,
    {
        out.push(colors[i].clone());
        i += 1;
        assert(colors@.take(i as int) == colors@.take(i - 1).push(colors@[i - 1]));
    }
    assert(colors@.take(i as int) == colors@);
    out
}

/// Encodes layer settings for the plugin. The first component of the result
/// is the encoding of the first component of `o`, and likewise the second.
pub fn encode_options(o: &VelocityLayerOptions) -> (r: NativeOptions)
    ensures
        encodes_options(*o, r),
{
    let first = encode_component(&o.data[0]);
    let second = encode_component(&o.data[1]);
    NativeOptions {
        display_values: o.display_values,
        max_velocity: o.max_velocity,
        frame_rate: o.frame_rate,
        color_scale: copy_color_scale(&o.color_scale),
        line_width: o.line_width,
        particle_multiplier: o.particle_multiplier,
        particle_age: o.particle_age,
        velocity_scale: o.velocity_scale,
        keyboard: o.keyboard,
        data: [first, second],
    }
}

/// Encoding a component is a function of the component alone: two encodings
/// of components with the same header and the same magnitudes agree in header
/// and magnitudes.
pub proof fn lemma_encode_component_deterministic(
    a: VelocityData,
    b: VelocityData,
    ra: NativeComponent,
    rb: NativeComponent,
)
    requires
        a.header == b.header,
        a.data@ == b.data@,
        encodes_component(a, ra),
        encodes_component(b, rb),
    ensures
        ra.header == rb.header,
        ra.data@ == rb.data@,
{
}

/// A not-a-number magnitude at position `i` is encoded as zero at position `i`;
/// the encoding has the same length and keeps every other magnitude.
pub proof fn lemma_missing_value_becomes_zero(values: Seq<u64>, i: int)
    requires
        0 <= i < values.len(),
        is_nan_bits(values[i]),
    ensures
        values_encoding(values).len() == values.len(),
        values_encoding(values)[i] == ZERO_BITS,
        forall|j: int|
            0 <= j < values.len() && j != i && !is_nan_bits(values[j])
                ==> values_encoding(values)[j] == values[j],
{
}

} // verus!
