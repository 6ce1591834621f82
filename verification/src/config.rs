use vstd::prelude::*;

use crate::image::Resolution;

verus! {

/// A render configuration: the sample budget per pixel and the pixel
/// grid. One accepted configuration fully determines one render
/// invocation's output distribution (modulo the random draws).
///
/// The scene itself — geometry, materials, camera — is floating-point
/// data owned by the application layer; it travels beside this value,
/// not inside it.
#[derive(Clone, Copy, PartialEq, Eq, Structural, Debug)]
pub struct RenderConfig {
    pub samples_per_pixel: usize,
    pub resolution: Resolution,
}

/// Why a configuration was rejected before the render driver ever ran.
#[derive(Clone, Copy, PartialEq, Eq, Structural, Debug)]
pub enum ConfigError {
    /// The sample budget was zero: no pixel could be estimated.
    ZeroSamples,
    /// The grid had a zero side: there is no pixel to render.
    ZeroResolution,
    /// The pixel count overflows the machine word, so no buffer of
    /// that many pixels could even be indexed.
    ResolutionTooLarge,
}

impl RenderConfig {
    pub open spec fn is_valid(self) -> bool {
        &&& self.samples_per_pixel >= 1
        &&& self.resolution.is_valid()
    }

    /// Validates a configuration at the construction boundary, so the
    /// parallel render loop never sees an invalid one. Exactly the
    /// invalid inputs are rejected: a zero sample budget first, then a
    /// zero-sided grid, then a grid whose pixel count cannot be indexed.
    pub fn new(samples_per_pixel: usize, resolution: Resolution) -> (r: Result<
        RenderConfig,
        ConfigError,
    >)
        ensures
            match r {
                Ok(c) => {
                    &&& c == (RenderConfig { samples_per_pixel, resolution })
                    &&& c.is_valid()
                },
                Err(e) => match e {
                    ConfigError::ZeroSamples => samples_per_pixel == 0,
                    ConfigError::ZeroResolution => samples_per_pixel >= 1 && (resolution.width
                        == 0 || resolution.height == 0),
                    ConfigError::ResolutionTooLarge => samples_per_pixel >= 1
                        && resolution.width >= 1 && resolution.height >= 1
                        && resolution.spec_grid_size() > usize::MAX,
                },
            },
            r is Ok <==> samples_per_pixel >= 1 && resolution.is_valid(),
    {
        if samples_per_pixel == 0 {
            return Err(ConfigError::ZeroSamples);
        }
        if resolution.width == 0 || resolution.height == 0 {
            return Err(ConfigError::ZeroResolution);
        }
        if resolution.width > usize::MAX / resolution.height {
            proof {
                assert(resolution.width * resolution.height > usize::MAX) by (nonlinear_arith)
                    requires
                        resolution.height >= 1,
                        resolution.width > usize::MAX as int / resolution.height as int,
                ;
            }
            return Err(ConfigError::ResolutionTooLarge);
        }
        proof {
            assert(resolution.width * resolution.height <= usize::MAX) by (nonlinear_arith)
                requires
                    resolution.height >= 1,
                    resolution.width <= usize::MAX as int / resolution.height as int,
            ;
        }
        Ok(RenderConfig { samples_per_pixel, resolution })
    }
}

} // verus!
