use raytracer::config::{
    integer_sqrt, plan_dimensions, ConfigError, DimensionPlan, PixelSampler,
};

#[test]
fn uniform_sampler_square_count_resolves_to_grid_side() {
    assert_eq!(
        PixelSampler::Uniform(36).resolved(),
        Ok(PixelSampler::Uniform(6))
    );
    assert_eq!(
        PixelSampler::Uniform(100).resolved(),
        Ok(PixelSampler::Uniform(10))
    );
    assert_eq!(
        PixelSampler::Uniform(1).resolved(),
        Ok(PixelSampler::Uniform(1))
    );
    assert_eq!(
        PixelSampler::Uniform(0).resolved(),
        Ok(PixelSampler::Uniform(0))
    );
}

#[test]
fn uniform_sampler_non_square_count_is_rejected() {
    assert_eq!(
        PixelSampler::Uniform(10).resolved(),
        Err(ConfigError::NonSquareSampleCount(10))
    );
    assert_eq!(
        PixelSampler::Uniform(2).resolved(),
        Err(ConfigError::NonSquareSampleCount(2))
    );
    assert_eq!(
        PixelSampler::Uniform(35).resolved(),
        Err(ConfigError::NonSquareSampleCount(35))
    );
}

#[test]
fn random_sampler_keeps_its_count() {
    assert_eq!(
        PixelSampler::Random(7).resolved(),
        Ok(PixelSampler::Random(7))
    );
    assert_eq!(
        PixelSampler::Random(0).resolved(),
        Ok(PixelSampler::Random(0))
    );
}

#[test]
fn integer_sqrt_known_values() {
    assert_eq!(integer_sqrt(0), 0);
    assert_eq!(integer_sqrt(1), 1);
    assert_eq!(integer_sqrt(2), 1);
    assert_eq!(integer_sqrt(3), 1);
    assert_eq!(integer_sqrt(4), 2);
    assert_eq!(integer_sqrt(8), 2);
    assert_eq!(integer_sqrt(9), 3);
    assert_eq!(integer_sqrt(99), 9);
    assert_eq!(integer_sqrt(100), 10);
    assert_eq!(integer_sqrt(usize::MAX), 4294967295);
}

#[test]
fn dimensions_need_exactly_one_field_missing() {
    assert_eq!(
        plan_dimensions(Some(1920), Some(1080), false),
        Ok(DimensionPlan::Exact {
            width: 1920,
            height: 1080
        })
    );
    assert_eq!(
        plan_dimensions(Some(1280), None, true),
        Ok(DimensionPlan::HeightFromAspect { width: 1280 })
    );
    assert_eq!(
        plan_dimensions(None, Some(720), true),
        Ok(DimensionPlan::WidthFromAspect { height: 720 })
    );
}

#[test]
fn over_or_under_constrained_dimensions_are_rejected() {
    assert_eq!(
        plan_dimensions(Some(1920), Some(1080), true),
        Err(ConfigError::InvalidImageSpec)
    );
    assert_eq!(
        plan_dimensions(Some(1920), None, false),
        Err(ConfigError::InvalidImageSpec)
    );
    assert_eq!(
        plan_dimensions(None, Some(720), false),
        Err(ConfigError::InvalidImageSpec)
    );
    assert_eq!(
        plan_dimensions(None, None, true),
        Err(ConfigError::InvalidImageSpec)
    );
    assert_eq!(
        plan_dimensions(None, None, false),
        Err(ConfigError::InvalidImageSpec)
    );
}
