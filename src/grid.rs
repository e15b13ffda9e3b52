//! The velocity data and layer settings supplied by the embedding application.
use vstd::prelude::*;

verus! {

/// Spatial metadata of one velocity component grid, in GRIB2 conventions.
///
/// Coordinates and spacings are binary64 bit patterns. `nx` and `ny` count grid
/// points; the value sequence that goes with the header holds `nx * ny` of them.
#[derive(Clone, Copy, Debug, PartialEq, Eq, Structural)]
pub struct VelocityDataHeader {
    /// GRIB2 parameter number (2 for the eastward component, 3 for the northward one).
    pub parameter_number: usize,
    /// GRIB2 parameter category (2 for momentum).
    pub parameter_category: usize,
    /// Grid spacing along longitude, in degrees.
    pub dx: u64,
    /// Grid spacing along latitude, in degrees.
    pub dy: u64,
    /// Number of grid points along longitude.
    pub nx: usize,
    /// Number of grid points along latitude.
    pub ny: usize,
    /// Latitude of the first grid point.
    pub la1: u64,
    /// Latitude of the last grid point.
    pub la2: u64,
    /// Longitude of the first grid point.
    pub lo1: u64,
    /// Longitude of the last grid point.
    pub lo2: u64,
}

/// One velocity component (eastward or northward) sampled over a grid.
#[derive(Clone, Debug)]
pub struct VelocityData {
    /// Grid metadata.
    pub header: VelocityDataHeader,
    /// Magnitudes in row-major order, as binary64 bit patterns; not-a-number
    /// marks missing data.
    pub data: Vec<u64>,
}

/// Rendering and animation settings of a velocity layer, with its two components.
#[derive(Clone, Debug)]
pub struct VelocityLayerOptions {
    /// Whether velocity values are shown on hover.
    pub display_values: bool,
    /// Largest velocity of the color scale (bit pattern).
    pub max_velocity: u64,
    /// Animation frames per second (bit pattern).
    pub frame_rate: u64,
    /// Color stops as CSS color strings.
    pub color_scale: Vec<String>,
    /// Width of particle trails in pixels (bit pattern).
    pub line_width: u64,
    /// Particle density multiplier (bit pattern).
    pub particle_multiplier: u64,
    /// Frames a particle lives before it respawns (bit pattern).
    pub particle_age: u64,
    /// Velocity-to-pixel scale factor (bit pattern).
    pub velocity_scale: u64,
    /// Whether keyboard controls are enabled.
    pub keyboard: bool,
    /// The eastward component, then the northward one.
    pub data: [VelocityData; 2],
}

impl VelocityData {
    /// Whether the grid has points along both axes and exactly `nx * ny`
    /// magnitudes. The encoder does not require it: supplying a consistent
    /// grid is the caller's part.
    pub fn has_consistent_shape(&self) -> (r: bool)
        ensures
            r == (self.header.nx > 0 && self.header.ny > 0
                && self.header.nx * self.header.ny == self.data@.len()),
    {
        let nx = self.header.nx as u128;
        let ny = self.header.ny as u128;
        proof {
            assert(nx * ny <= 0xffff_ffff_ffff_ffff * 0xffff_ffff_ffff_ffff) by (nonlinear_arith)
                requires
                    nx <= 0xffff_ffff_ffff_ffff,
                    ny <= 0xffff_ffff_ffff_ffff,
            ;
        }
        nx > 0 && ny > 0 && nx * ny == self.data.len() as u128
    }
}

} // verus!
