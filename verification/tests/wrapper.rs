//! Tests of the feature lifecycle, the capability protocol and the
//! evaluation-parameter assembly, driven by an in-memory test backend.

use nvngx::decimal::u32_to_string;
use nvngx::error::Error;
use nvngx::feature::{Feature, FeatureHandleOps, FeatureOps, FeatureType};
use nvngx::params::{FeatureParameterOps, FeatureParameters, ParameterKey, ParameterValue};
use nvngx::ray_reconstruction::{
    DenoiseMode, DepthType, RayReconstructionCreateParameters,
    RayReconstructionEvaluationParameters, RoughnessMode,
};
use nvngx::resource::{
    VkImageResourceDescription, VkImageSubresourceRange, VkNativeResource, VkResourceInfo,
    VkResourceMode,
};
use nvngx::super_sampling::{
    PerfQualityValue, SuperSamplingCreateParameters, SuperSamplingEvaluationParameters,
    SuperSamplingFeature, SuperSamplingOptimalSettings, UNIT_SCALE_BITS,
};
use nvngx::system::System;

/// A test backend that answers every call successfully.  Its handle
/// release panics when handed a null handle, so a second native release
/// of an already-released handle would abort the test.
#[derive(Debug)]
struct TestPlatform;

impl FeatureHandleOps for TestPlatform {
    fn release_handle(handle: u64) -> Result<(), Error> {
        if handle == 0 {
            panic!("native release reached with a null handle");
        }
        Ok(())
    }
}

impl FeatureParameterOps for TestPlatform {
    fn create_parameters() -> Result<FeatureParameters<Self>, Error> {
        Ok(FeatureParameters::empty())
    }

    fn get_capability_parameters() -> Result<FeatureParameters<Self>, Error> {
        let mut parameters = FeatureParameters::empty();
        parameters.set_bool(ParameterKey::SuperSamplingNeedsUpdatedDriver, false);
        parameters.set_bool(ParameterKey::SuperSamplingAvailable, true);
        parameters.set_bool(ParameterKey::SuperSamplingDenoisingNeedsUpdatedDriver, false);
        parameters.set_bool(ParameterKey::SuperSamplingDenoisingAvailable, true);
        Ok(parameters)
    }

    fn release_parameters(_parameters: &mut FeatureParameters<Self>) -> Result<(), Error> {
        Ok(())
    }
}

impl FeatureOps for TestPlatform {
    type Device = u64;
    type CommandBuffer = u64;

    fn create_feature(
        _device: u64,
        _command_buffer: u64,
        _feature_type: FeatureType,
        _parameters: &mut FeatureParameters<Self>,
    ) -> Result<u64, Error> {
        Ok(41)
    }

    fn create_super_sampling_feature(
        _device: u64,
        _command_buffer: u64,
        parameters: &mut FeatureParameters<Self>,
        _create_parameters: &SuperSamplingCreateParameters,
    ) -> Result<u64, Error> {
        parameters.set_bool(ParameterKey::SuperSamplingFeatureInitResult, true);
        Ok(42)
    }

    fn create_ray_reconstruction_feature(
        _device: u64,
        _command_buffer: u64,
        parameters: &mut FeatureParameters<Self>,
        _create_parameters: &RayReconstructionCreateParameters,
    ) -> Result<u64, Error> {
        parameters.set_bool(ParameterKey::SuperSamplingFeatureInitResult, true);
        Ok(43)
    }

    fn get_scratch_buffer_size(
        _feature_type: FeatureType,
        _parameters: &FeatureParameters<Self>,
    ) -> Result<usize, Error> {
        Ok(4096)
    }

    fn evaluate_feature(
        _command_buffer: u64,
        handle: u64,
        _parameters: &mut FeatureParameters<Self>,
    ) -> Result<(), Error> {
        assert_ne!(handle, 0);
        Ok(())
    }

    fn evaluate_super_sampling(
        _command_buffer: u64,
        handle: u64,
        _parameters: &mut FeatureParameters<Self>,
        evaluation_parameters: &SuperSamplingEvaluationParameters,
    ) -> Result<(), Error> {
        assert_ne!(handle, 0);
        assert!(evaluation_parameters.fully_bound());
        Ok(())
    }

    fn evaluate_ray_reconstruction(
        _command_buffer: u64,
        handle: u64,
        _parameters: &mut FeatureParameters<Self>,
        evaluation_parameters: &RayReconstructionEvaluationParameters,
    ) -> Result<(), Error> {
        assert_ne!(handle, 0);
        assert!(evaluation_parameters.fully_bound());
        Ok(())
    }
}

/// A backend whose handle release always fails with a native code.
#[derive(Debug)]
struct FailingReleasePlatform;

impl FeatureHandleOps for FailingReleasePlatform {
    fn release_handle(_handle: u64) -> Result<(), Error> {
        Err(Error::NativeResult(5))
    }
}

impl FeatureParameterOps for FailingReleasePlatform {
    fn create_parameters() -> Result<FeatureParameters<Self>, Error> {
        Ok(FeatureParameters::empty())
    }

    fn get_capability_parameters() -> Result<FeatureParameters<Self>, Error> {
        Ok(FeatureParameters::empty())
    }

    fn release_parameters(_parameters: &mut FeatureParameters<Self>) -> Result<(), Error> {
        Ok(())
    }
}

impl FeatureOps for FailingReleasePlatform {
    type Device = u64;
    type CommandBuffer = u64;

    fn create_feature(
        _device: u64,
        _command_buffer: u64,
        _feature_type: FeatureType,
        _parameters: &mut FeatureParameters<Self>,
    ) -> Result<u64, Error> {
        Ok(17)
    }

    fn create_super_sampling_feature(
        _device: u64,
        _command_buffer: u64,
        _parameters: &mut FeatureParameters<Self>,
        _create_parameters: &SuperSamplingCreateParameters,
    ) -> Result<u64, Error> {
        Ok(18)
    }

    fn create_ray_reconstruction_feature(
        _device: u64,
        _command_buffer: u64,
        _parameters: &mut FeatureParameters<Self>,
        _create_parameters: &RayReconstructionCreateParameters,
    ) -> Result<u64, Error> {
        Ok(19)
    }

    fn get_scratch_buffer_size(
        _feature_type: FeatureType,
        _parameters: &FeatureParameters<Self>,
    ) -> Result<usize, Error> {
        Ok(0)
    }

    fn evaluate_feature(
        _command_buffer: u64,
        _handle: u64,
        _parameters: &mut FeatureParameters<Self>,
    ) -> Result<(), Error> {
        Ok(())
    }

    fn evaluate_super_sampling(
        _command_buffer: u64,
        _handle: u64,
        _parameters: &mut FeatureParameters<Self>,
        _evaluation_parameters: &SuperSamplingEvaluationParameters,
    ) -> Result<(), Error> {
        Ok(())
    }

    fn evaluate_ray_reconstruction(
        _command_buffer: u64,
        _handle: u64,
        _parameters: &mut FeatureParameters<Self>,
        _evaluation_parameters: &RayReconstructionEvaluationParameters,
    ) -> Result<(), Error> {
        Ok(())
    }
}

fn sample_description(mode: VkResourceMode) -> VkImageResourceDescription {
    VkImageResourceDescription {
        image_view: 0x1111,
        image: 0x2222,
        subresource_range: VkImageSubresourceRange {
            aspect_mask: 1,
            base_mip_level: 2,
            level_count: 3,
            base_array_layer: 4,
            layer_count: 5,
        },
        format: 44,
        width: 1920,
        height: 1080,
        mode,
    }
}

#[test]
fn features() {}

#[test]
fn bare_parameter_map_is_empty() {
    let parameters = FeatureParameters::<TestPlatform>::create().unwrap();
    assert!(matches!(
        parameters.get_bool(ParameterKey::SuperSamplingAvailable),
        Err(Error::NativeResult(_))
    ));
    assert!(matches!(
        parameters.get_u32(ParameterKey::NumFrames),
        Err(Error::NativeResult(_))
    ));
}

#[test]
fn parameter_map_set_and_get() {
    let mut parameters = FeatureParameters::<TestPlatform>::create().unwrap();
    parameters.set_u32(ParameterKey::NumFrames, 7);
    assert_eq!(parameters.get_u32(ParameterKey::NumFrames).unwrap(), 7);

    parameters.set_bool(ParameterKey::SuperSamplingAvailable, true);
    assert!(parameters.get_bool(ParameterKey::SuperSamplingAvailable).unwrap());
    parameters.set_bool(ParameterKey::SuperSamplingAvailable, false);
    assert!(!parameters.get_bool(ParameterKey::SuperSamplingAvailable).unwrap());

    parameters.set_i32(ParameterKey::OptLevel, -3);
    assert_eq!(parameters.get_i32(ParameterKey::OptLevel).unwrap(), -3);

    parameters.set_u64(ParameterKey::Scale, 1 << 40);
    assert_eq!(parameters.get_u64(ParameterKey::Scale).unwrap(), 1 << 40);

    parameters.set_f32_bits(ParameterKey::Scale, 2.5f32.to_bits());
    assert_eq!(
        f32::from_bits(parameters.get_f32_bits(ParameterKey::Scale).unwrap()),
        2.5f32
    );

    parameters.set_f64_bits(ParameterKey::Scale, 0.125f64.to_bits());
    assert_eq!(
        f64::from_bits(parameters.get_f64_bits(ParameterKey::Scale).unwrap()),
        0.125f64
    );

    parameters.set_ptr(ParameterKey::Scale, 0xDEAD_0000);
    assert_eq!(parameters.get_ptr(ParameterKey::Scale).unwrap(), 0xDEAD_0000);

    // The latest write for a key wins, and a read at another type fails.
    parameters.set_u32(ParameterKey::NumFrames, 9);
    assert_eq!(parameters.get_u32(ParameterKey::NumFrames).unwrap(), 9);
    assert!(matches!(
        parameters.get_u64(ParameterKey::NumFrames),
        Err(Error::NativeResult(_))
    ));
}

#[test]
fn parameter_value_is_typed() {
    let mut parameters = FeatureParameters::<TestPlatform>::create().unwrap();
    parameters.set_i32(ParameterKey::NumFrames, 1);
    assert!(parameters.get_bool(ParameterKey::NumFrames).unwrap());
    let raw = parameters.get_params();
    assert_eq!(
        raw.last().copied(),
        Some((ParameterKey::NumFrames, ParameterValue::I32(1)))
    );
}

#[test]
fn supports_super_sampling_requires_driver_update() {
    let mut parameters = FeatureParameters::<TestPlatform>::create().unwrap();
    parameters.set_bool(ParameterKey::SuperSamplingNeedsUpdatedDriver, true);
    parameters.set_u32(ParameterKey::SuperSamplingMinDriverVersionMajor, 3);
    parameters.set_u32(ParameterKey::SuperSamplingMinDriverVersionMinor, 2);
    // Even an explicit "not available" must not be consulted: the driver
    // gate takes precedence.
    parameters.set_bool(ParameterKey::SuperSamplingAvailable, false);
    match parameters.supports_super_sampling() {
        Err(Error::Other(message)) => {
            assert!(message.contains("3.2"));
            assert_eq!(
                message,
                "The SuperSampling feature requires a driver update. \
                 The driver version required should be higher or equal to 3.2"
            );
        }
        other => panic!("expected a driver-update error, got {other:?}"),
    }
}

#[test]
fn supports_super_sampling_not_supported() {
    let mut parameters = FeatureParameters::<TestPlatform>::create().unwrap();
    parameters.set_bool(ParameterKey::SuperSamplingNeedsUpdatedDriver, false);
    parameters.set_bool(ParameterKey::SuperSamplingAvailable, false);
    match parameters.supports_super_sampling() {
        Err(Error::Other(message)) => {
            assert_eq!(
                message,
                "The SuperSampling feature isn't supported on this platform."
            );
        }
        other => panic!("expected a not-supported error, got {other:?}"),
    }
}

#[test]
fn supports_super_sampling_available() {
    let mut parameters = FeatureParameters::<TestPlatform>::create().unwrap();
    parameters.set_bool(ParameterKey::SuperSamplingNeedsUpdatedDriver, false);
    parameters.set_bool(ParameterKey::SuperSamplingAvailable, true);
    assert!(parameters.supports_super_sampling().is_ok());
}

#[test]
fn supports_super_sampling_propagates_read_failures() {
    let parameters = FeatureParameters::<TestPlatform>::create().unwrap();
    assert!(matches!(
        parameters.supports_super_sampling(),
        Err(Error::NativeResult(_))
    ));

    // The driver gate trips but the version numbers cannot be read.
    let mut partial = FeatureParameters::<TestPlatform>::create().unwrap();
    partial.set_bool(ParameterKey::SuperSamplingNeedsUpdatedDriver, true);
    assert!(matches!(
        partial.supports_super_sampling(),
        Err(Error::NativeResult(_))
    ));
}

#[test]
fn supports_ray_reconstruction_requires_driver_update() {
    let mut parameters = FeatureParameters::<TestPlatform>::create().unwrap();
    parameters.set_bool(ParameterKey::SuperSamplingDenoisingNeedsUpdatedDriver, true);
    parameters.set_u32(ParameterKey::SuperSamplingDenoisingMinDriverVersionMajor, 4);
    parameters.set_u32(ParameterKey::SuperSamplingDenoisingMinDriverVersionMinor, 11);
    match parameters.supports_ray_reconstruction() {
        Err(Error::Other(message)) => {
            assert!(message.contains("4.11"));
            assert_eq!(
                message,
                "The Ray Reconstruction feature requires a driver update. \
                 The driver version required should be higher or equal to 4.11"
            );
        }
        other => panic!("expected a driver-update error, got {other:?}"),
    }
}

#[test]
fn supports_ray_reconstruction_not_supported() {
    let mut parameters = FeatureParameters::<TestPlatform>::create().unwrap();
    parameters.set_bool(ParameterKey::SuperSamplingDenoisingNeedsUpdatedDriver, false);
    parameters.set_bool(ParameterKey::SuperSamplingDenoisingAvailable, false);
    match parameters.supports_ray_reconstruction() {
        Err(Error::Other(message)) => {
            assert_eq!(
                message,
                "The Ray Reconstruction feature isn't supported on this platform."
            );
        }
        other => panic!("expected a not-supported error, got {other:?}"),
    }
}

#[test]
fn supports_ray_reconstruction_available() {
    let mut parameters = FeatureParameters::<TestPlatform>::create().unwrap();
    parameters.set_bool(ParameterKey::SuperSamplingDenoisingNeedsUpdatedDriver, false);
    parameters.set_bool(ParameterKey::SuperSamplingDenoisingAvailable, true);
    assert!(parameters.supports_ray_reconstruction().is_ok());
}

#[test]
fn decimal_rendering_is_exact() {
    assert_eq!(u32_to_string(0), "0");
    assert_eq!(u32_to_string(7), "7");
    assert_eq!(u32_to_string(32), "32");
    assert_eq!(u32_to_string(305), "305");
    assert_eq!(u32_to_string(u32::MAX), "4294967295");
}

#[test]
fn release_twice_is_noop() {
    let mut feature = Feature::<TestPlatform>::new(
        1,
        2,
        FeatureType::SuperSampling,
        FeatureParameters::empty(),
    )
    .unwrap();
    // The first release reaches the backend and succeeds; the second
    // returns Ok without reaching it (TestPlatform would panic on a
    // released handle).
    assert!(feature.release().is_ok());
    assert!(feature.release().is_ok());
}

#[test]
fn release_failure_keeps_the_handle() {
    let mut feature = Feature::<FailingReleasePlatform>::new(
        1,
        2,
        FeatureType::SuperSampling,
        FeatureParameters::empty(),
    )
    .unwrap();
    assert!(matches!(feature.release(), Err(Error::NativeResult(5))));
    // The handle is kept on failure, so the release is retried (and
    // fails the same way), rather than being swallowed.
    assert!(matches!(feature.release(), Err(Error::NativeResult(5))));
}

#[test]
fn resource_description_conversion_is_exact() {
    let description = sample_description(VkResourceMode::Writable);
    let native = VkNativeResource::from(description);
    assert!(native.read_write);
    match native.resource {
        VkResourceInfo::ImageView(info) => {
            assert_eq!(info.image_view, 0x1111);
            assert_eq!(info.image, 0x2222);
            assert_eq!(info.subresource_range.aspect_mask, 1);
            assert_eq!(info.subresource_range.base_mip_level, 2);
            assert_eq!(info.subresource_range.level_count, 3);
            assert_eq!(info.subresource_range.base_array_layer, 4);
            assert_eq!(info.subresource_range.layer_count, 5);
            assert_eq!(info.format, 44);
            assert_eq!(info.width, 1920);
            assert_eq!(info.height, 1080);
        }
        other => panic!("expected an image-view resource, got {other:?}"),
    }

    let readable = VkNativeResource::from(sample_description(VkResourceMode::Readable));
    assert!(!readable.read_write);
}

#[test]
fn set_writable_flips_only_the_mode() {
    let mut description = sample_description(VkResourceMode::Readable);
    description.set_writable();
    assert!(matches!(description.mode, VkResourceMode::Writable));
    assert_eq!(description.image_view, 0x1111);
    assert_eq!(description.width, 1920);
}

#[test]
fn rendering_dimensions_fan_out() {
    let mut parameters = SuperSamplingEvaluationParameters::new();
    parameters.set_rendering_dimensions([12, 34], [56, 78]);
    assert_eq!(parameters.color_subrect_base.x, 12);
    assert_eq!(parameters.color_subrect_base.y, 34);
    assert_eq!(parameters.depth_subrect_base.x, 12);
    assert_eq!(parameters.depth_subrect_base.y, 34);
    assert_eq!(parameters.translucency_subrect_base.x, 12);
    assert_eq!(parameters.translucency_subrect_base.y, 34);
    assert_eq!(parameters.mv_subrect_base.x, 12);
    assert_eq!(parameters.mv_subrect_base.y, 34);
    assert_eq!(parameters.render_subrect_dimensions.width, 56);
    assert_eq!(parameters.render_subrect_dimensions.height, 78);
}

#[test]
fn rendering_dimensions_fan_out_for_ray_reconstruction() {
    let mut parameters = RayReconstructionEvaluationParameters::new();
    parameters.set_rendering_dimensions([5, 6], [7, 8]);
    assert_eq!(parameters.color_subrect_base.x, 5);
    assert_eq!(parameters.depth_subrect_base.x, 5);
    assert_eq!(parameters.translucency_subrect_base.y, 6);
    assert_eq!(parameters.mv_subrect_base.y, 6);
    assert_eq!(parameters.render_subrect_dimensions.width, 7);
    assert_eq!(parameters.render_subrect_dimensions.height, 8);
}

#[test]
fn motion_vector_scale_defaults_to_unit() {
    assert_eq!(UNIT_SCALE_BITS, 1.0f32.to_bits());

    let description = sample_description(VkResourceMode::Readable);
    let mut defaulted = SuperSamplingEvaluationParameters::new();
    defaulted.set_motion_vectors(description, None);
    let mut explicit = SuperSamplingEvaluationParameters::new();
    explicit.set_motion_vectors(description, Some([1.0f32.to_bits(), 1.0f32.to_bits()]));
    assert_eq!(defaulted, explicit);
    assert_eq!(f32::from_bits(defaulted.mv_scale_x_bits), 1.0f32);
    assert_eq!(f32::from_bits(defaulted.mv_scale_y_bits), 1.0f32);

    let mut scaled = RayReconstructionEvaluationParameters::new();
    scaled.set_motions_vectors(description, None);
    assert_eq!(scaled.mv_scale_x_bits, UNIT_SCALE_BITS);
    assert_eq!(scaled.mv_scale_y_bits, UNIT_SCALE_BITS);
}

#[test]
fn jitter_and_reset_are_written_verbatim() {
    let mut parameters = SuperSamplingEvaluationParameters::new();
    parameters.set_jitter_offsets(0.25f32.to_bits(), (-0.5f32).to_bits());
    assert_eq!(f32::from_bits(parameters.jitter_offset_x_bits), 0.25f32);
    assert_eq!(f32::from_bits(parameters.jitter_offset_y_bits), -0.5f32);

    parameters.set_reset(true);
    assert_eq!(parameters.reset, 1);
    parameters.set_reset(false);
    assert_eq!(parameters.reset, 0);
}

#[test]
fn super_sampling_rejects_other_feature_types() {
    let feature = Feature::<TestPlatform>::new(
        1,
        2,
        FeatureType::FrameGeneration,
        FeatureParameters::empty(),
    )
    .unwrap();
    match SuperSamplingFeature::new(feature, [960, 540], [1920, 1080]) {
        Err(Error::Other(message)) => {
            assert_eq!(
                message,
                "Attempt to create a super sampling feature with another feature."
            );
        }
        other => panic!("expected a type-mismatch error, got {other:?}"),
    }
}

#[test]
fn ray_reconstruction_rejects_other_feature_types() {
    let feature = Feature::<TestPlatform>::new(
        1,
        2,
        FeatureType::SuperSampling,
        FeatureParameters::empty(),
    )
    .unwrap();
    match nvngx::ray_reconstruction::RayReconstructionFeature::new(feature, [960, 540], [1920, 1080])
    {
        Err(Error::Other(message)) => {
            assert_eq!(
                message,
                "Attempt to create a ray reconstruction feature with another feature."
            );
        }
        other => panic!("expected a type-mismatch error, got {other:?}"),
    }
}

#[test]
fn feature_type_predicates() {
    let feature = Feature::<TestPlatform>::new(
        1,
        2,
        FeatureType::FrameGeneration,
        FeatureParameters::empty(),
    )
    .unwrap();
    assert_eq!(feature.get_feature_type(), FeatureType::FrameGeneration);
    assert!(feature.is_frame_generation());
    assert!(!feature.is_super_sampling());
    assert!(!feature.is_ray_reconstruction());
}

#[test]
fn scratch_buffer_size_query() {
    let feature = Feature::<TestPlatform>::new(
        1,
        2,
        FeatureType::SuperSampling,
        FeatureParameters::empty(),
    )
    .unwrap();
    assert_eq!(feature.get_scratch_buffer_size().unwrap(), 4096);
}

#[test]
fn super_sampling_create_parameters_defaults() {
    let parameters = SuperSamplingCreateParameters::new(960, 540, 1920, 1080, None, None);
    assert_eq!(parameters.width, 960);
    assert_eq!(parameters.height, 540);
    assert_eq!(parameters.target_width, 1920);
    assert_eq!(parameters.target_height, 1080);
    assert_eq!(parameters.perf_quality_value, PerfQualityValue::MaxPerf);
    assert_eq!(parameters.feature_create_flags, 0);
    assert!(!parameters.enable_output_subrects);

    let tuned = SuperSamplingCreateParameters::new(
        960,
        540,
        1920,
        1080,
        Some(PerfQualityValue::UltraQuality),
        Some(3),
    );
    assert_eq!(tuned.perf_quality_value, PerfQualityValue::UltraQuality);
    assert_eq!(tuned.feature_create_flags, 3);
}

#[test]
fn ray_reconstruction_create_parameters_defaults() {
    let parameters =
        RayReconstructionCreateParameters::new(960, 540, 1920, 1080, None, None, None, None);
    assert_eq!(parameters.perf_quality_value, PerfQualityValue::MaxPerf);
    assert_eq!(parameters.denoise_mode, DenoiseMode::DLUnified);
    assert_eq!(parameters.roughness_mode, RoughnessMode::Unpacked);
    assert_eq!(parameters.depth_type, DepthType::Linear);
    assert_eq!(parameters.feature_create_flags, 0);
    assert!(!parameters.enable_output_subrects);

    let tuned = RayReconstructionCreateParameters::new(
        960,
        540,
        1920,
        1080,
        Some(PerfQualityValue::Balanced),
        Some(DenoiseMode::Off),
        Some(RoughnessMode::Packed),
        Some(DepthType::HW),
    );
    assert_eq!(tuned.perf_quality_value, PerfQualityValue::Balanced);
    assert_eq!(tuned.denoise_mode, DenoiseMode::Off);
    assert_eq!(tuned.roughness_mode, RoughnessMode::Packed);
    assert_eq!(tuned.depth_type, DepthType::HW);
}

#[test]
fn optimal_settings_check() {
    let mut settings = SuperSamplingOptimalSettings {
        render_width: 960,
        render_height: 540,
        desired_quality_level: PerfQualityValue::MaxQuality,
        dynamic_min_render_width: 480,
        dynamic_max_render_width: 1920,
        dynamic_min_render_height: 270,
        dynamic_max_render_height: 1080,
    };
    assert!(settings.check_supported().is_ok());

    settings.render_width = 0;
    match settings.check_supported() {
        Err(Error::Other(message)) => {
            assert_eq!(
                message,
                "The requested quality level isn't supported: MaxQuality"
            );
        }
        other => panic!("expected a quality error, got {other:?}"),
    }
}

#[test]
fn super_sampling_feature_end_to_end() {
    let system = System::<TestPlatform>::new(1);
    let create_parameters = SuperSamplingCreateParameters::new(960, 540, 1920, 1080, None, None);
    let mut feature = system
        .create_super_sampling_feature(2, FeatureParameters::empty(), &create_parameters)
        .unwrap();
    assert_eq!(feature.get_rendering_resolution(), [960, 540]);
    assert_eq!(feature.get_target_resolution(), [1920, 1080]);
    // The test backend records a successful initialisation at creation.
    assert!(feature.is_initialised());
    assert!(feature.get_inner().is_super_sampling());

    let evaluation = feature.get_evaluation_parameters_mut();
    assert!(!evaluation.fully_bound());
    evaluation.set_color_input(sample_description(VkResourceMode::Readable));
    evaluation.set_color_output(sample_description(VkResourceMode::Writable));
    evaluation.set_depth_buffer(sample_description(VkResourceMode::Readable));
    evaluation.set_motion_vectors(sample_description(VkResourceMode::Readable), None);
    evaluation.set_jitter_offsets(0, 0);
    evaluation.set_rendering_dimensions([0, 0], [960, 540]);
    assert!(evaluation.fully_bound());
    assert!(feature.evaluate(2).is_ok());

    assert!(feature.get_inner_mut().release().is_ok());
}

#[test]
fn ray_reconstruction_feature_end_to_end() {
    let system = System::<TestPlatform>::new(1);
    let create_parameters =
        RayReconstructionCreateParameters::new(960, 540, 1920, 1080, None, None, None, None);
    let mut feature = system
        .create_ray_reconstruction_feature(2, FeatureParameters::empty(), &create_parameters)
        .unwrap();
    assert_eq!(feature.get_rendering_resolution(), [960, 540]);
    assert_eq!(feature.get_target_resolution(), [1920, 1080]);
    assert!(feature.get_inner().is_ray_reconstruction());

    let evaluation = feature.get_evaluation_parameters_mut();
    evaluation.set_color_input(sample_description(VkResourceMode::Readable));
    evaluation.set_color_output(sample_description(VkResourceMode::Writable));
    evaluation.set_depth_buffer(sample_description(VkResourceMode::Readable));
    evaluation.set_motions_vectors(sample_description(VkResourceMode::Readable), Some([
        2.0f32.to_bits(),
        2.0f32.to_bits(),
    ]));
    assert!(evaluation.fully_bound());
    assert_eq!(f32::from_bits(evaluation.mv_scale_x_bits), 2.0f32);
    assert!(feature.evaluate(2).is_ok());
}

#[test]
fn system_uses_capability_parameters_by_default() {
    let system = System::<TestPlatform>::new(1);
    let feature = system
        .create_feature(2, FeatureType::FrameGeneration, None)
        .unwrap();
    // The capability map supplied by the backend reports super sampling
    // as available on a fresh driver.
    assert!(feature.get_parameters().supports_super_sampling().is_ok());
    assert!(feature.get_parameters().supports_ray_reconstruction().is_ok());
}

#[test]
fn initialisation_flags_default_to_false() {
    let mut parameters = FeatureParameters::<TestPlatform>::create().unwrap();
    assert!(!parameters.is_super_sampling_initialised());
    assert!(!parameters.is_ray_reconstruction_initialised());
    parameters.set_bool(ParameterKey::SuperSamplingFeatureInitResult, true);
    assert!(parameters.is_super_sampling_initialised());
    parameters.set_bool(ParameterKey::SuperSamplingDenoisingFeatureInitResult, true);
    assert!(parameters.is_ray_reconstruction_initialised());
    parameters.set_bool(ParameterKey::SuperSamplingFeatureInitResult, false);
    assert!(!parameters.is_super_sampling_initialised());
}

#[test]
fn parameter_map_release_reaches_the_backend() {
    let mut parameters = FeatureParameters::<TestPlatform>::create().unwrap();
    assert!(parameters.release().is_ok());
}

#[test]
fn error_messages() {
    let native = Error::NativeResult(nvngx::error::RESULT_FAIL);
    assert!(!native.message().is_empty());
    let other = Error::Other(String::from("boom"));
    assert_eq!(other.message(), "boom");
}
