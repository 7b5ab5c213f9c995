//! Render configuration resolution.
//!
//! A render is configured before any work begins, and bad configurations
//! are rejected up front: a stratified (uniform-grid) sampler must be given
//! a perfect-square sample count, and an image specification must leave
//! exactly one of width and height to be derived from the aspect ratio, or
//! give both and no aspect ratio.

use vstd::prelude::*;

verus! {

/// Whether `n` is a perfect square.
pub open spec fn is_perfect_square(n: int) -> bool {
    exists|r: int| 0 <= r && #[trigger] (r * r) == n
}

/// A configuration rejected before any rendering work begins.
#[derive(Clone, Copy, Debug, PartialEq, Eq, Structural)]
pub enum ConfigError {
    /// The stratified sampler was given a sample count that is not a
    /// perfect square; the count is carried along.
    NonSquareSampleCount(usize),
    /// Width, height and aspect ratio were either all given or fewer than
    /// two of them were.
    InvalidImageSpec,
}

/// How the samples of one rendered pixel's estimate are drawn.
#[derive(Clone, Copy, Debug, PartialEq, Eq, Structural)]
pub enum PixelSampler {
    /// A stratified grid of sub-pixel positions. Before resolution the
    /// payload is the total sample count; after, its square root, the grid
    /// side length.
    Uniform(usize),
    /// Independently jittered sub-pixel positions; the payload is the
    /// sample count.
    Random(usize),
}

impl PixelSampler {
    /// Normalizes the sampler for use by the render loop: a uniform grid's
    /// total sample count becomes the grid side length, and a count with no
    /// integer square root is rejected.
    pub fn resolved(self) -> (r: Result<PixelSampler, ConfigError>)
        ensures
            match self {
                PixelSampler::Uniform(n) => if is_perfect_square(n as int) {
                    r matches Ok(PixelSampler::Uniform(s)) && s * s == n
                } else {
                    r == Err::<PixelSampler, ConfigError>(ConfigError::NonSquareSampleCount(n))
                },
                PixelSampler::Random(n) => r == Ok::<PixelSampler, ConfigError>(
                    PixelSampler::Random(n),
                ),
            },
    {
        match self {
            PixelSampler::Uniform(samples_per_pixel) => {
                let samples_sqrt = integer_sqrt(samples_per_pixel);
                if samples_sqrt * samples_sqrt != samples_per_pixel {
                    proof {
                        lemma_between_squares_not_square(
                            samples_per_pixel as int,
                            samples_sqrt as int,
                        );
                    }
                    Err(ConfigError::NonSquareSampleCount(samples_per_pixel))
                } else {
                    Ok(PixelSampler::Uniform(samples_sqrt))
                }
            },
            PixelSampler::Random(samples_per_pixel) => Ok(PixelSampler::Random(samples_per_pixel)),
        }
    }
}

/// The integer square root: the greatest `r` with `r * r <= n`.
pub fn integer_sqrt(n: usize) -> (r: usize)
    ensures
        r * r <= n,
        n < (r + 1) * (r + 1),
{
    let mut r: usize = 0;
    loop
        invariant_except_break
            r <= n,
        invariant
            r * r <= n,
        ensures
            r * r <= n < (r + 1) * (r + 1),
        decreases n - r,
    {
        proof {
            assert(r < usize::MAX) by (nonlinear_arith)
                requires
                    r * r <= n <= usize::MAX,
                    usize::MAX >= 2,
            ;
        }
        let next = r + 1;
        let square = next.checked_mul(next);
        match square {
            Some(s) => {
                if s <= n {
                    proof {
                        assert(next <= n) by (nonlinear_arith)
                            requires
                                next * next <= n,
                                next >= 1,
                        ;
                    }
                    r = next;
                } else {
                    break ;
                }
            },
            None => {
                proof {
                    assert(n < next * next);
                }
                break ;
            },
        }
    }
    r
}

/// A number strictly between consecutive squares is no square.
proof fn lemma_between_squares_not_square(n: int, s: int)
    requires
        0 <= s,
        s * s <= n,
        n < (s + 1) * (s + 1),
        s * s != n,
    ensures
        !is_perfect_square(n),
{
    assert forall|r: int| 0 <= r implies #[trigger] (r * r) != n by {
        if r <= s {
            assert(r * r <= s * s) by (nonlinear_arith)
                requires
                    0 <= r <= s,
            ;
        } else {
            assert(r * r >= (s + 1) * (s + 1)) by (nonlinear_arith)
                requires
                    r >= s + 1 >= 0,
            ;
        }
    }
}

/// How the image's pixel dimensions are to be obtained from a
/// specification in which one of them may be left out.
#[derive(Clone, Copy, Debug, PartialEq, Eq, Structural)]
pub enum DimensionPlan {
    /// Width and height were both given, and no aspect ratio.
    Exact { width: usize, height: usize },
    /// Width was given; height is to be derived from the aspect ratio.
    HeightFromAspect { width: usize },
    /// Height was given; width is to be derived from the aspect ratio.
    WidthFromAspect { height: usize },
}

/// Decides how an image specification's dimensions are to be resolved:
/// exactly one of the three fields must be missing, and the aspect ratio
/// can stand in for either missing dimension but not for both.
pub fn plan_dimensions(width: Option<usize>, height: Option<usize>, aspect_ratio_given: bool) -> (r:
    Result<DimensionPlan, ConfigError>)
    ensures
        match (width, height, aspect_ratio_given) {
            (Some(w), Some(h), false) => r == Ok::<DimensionPlan, ConfigError>(
                DimensionPlan::Exact { width: w, height: h },
            ),
            (Some(w), None, true) => r == Ok::<DimensionPlan, ConfigError>(
                DimensionPlan::HeightFromAspect { width: w },
            ),
            (None, Some(h), true) => r == Ok::<DimensionPlan, ConfigError>(
                DimensionPlan::WidthFromAspect { height: h },
            ),
            _ => r == Err::<DimensionPlan, ConfigError>(ConfigError::InvalidImageSpec),
        },
{
    match (width, height, aspect_ratio_given) {
        (Some(w), Some(h), false) => Ok(DimensionPlan::Exact { width: w, height: h }),
        (Some(w), None, true) => Ok(DimensionPlan::HeightFromAspect { width: w }),
        (None, Some(h), true) => Ok(DimensionPlan::WidthFromAspect { height: h }),
        _ => Err(ConfigError::InvalidImageSpec),
    }
}

} // verus!
