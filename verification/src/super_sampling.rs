//! The super-sampling feature: creation parameters, optimal settings,
//! and the per-frame evaluation-parameter assembly.

use vstd::prelude::*;

use crate::error::Error;
use crate::feature::{Feature, FeatureType};
use crate::params::{ParameterKey, ParameterValue};
use crate::resource::{spec_native_resource_of, VkImageResourceDescription, VkNativeResource};

verus! {

/// The bit pattern of the 32-bit floating-point value one, the scale that
/// leaves motion vectors in destination-pixel units.
pub const UNIT_SCALE_BITS: u32 = 0x3F80_0000;

/// The quality level requested of the super-sampling algorithm.
#[derive(Debug, Clone, Copy, PartialEq, Eq, Hash, Structural)]
pub enum PerfQualityValue {
    /// Maximum performance.
    MaxPerf,
    /// Balanced quality and performance.
    Balanced,
    /// Maximum quality.
    MaxQuality,
    /// Ultra performance.
    UltraPerformance,
    /// Ultra quality.
    UltraQuality,
    /// Deep learning anti-aliasing (no upscaling).
    DLAA,
}

/// Create parameters for the super-sampling feature: the resolution pair,
/// the quality preset and the feature flags, laid out as the native layer
/// captures them.
#[derive(Debug, Clone, Copy, PartialEq, Eq, Structural)]
pub struct SuperSamplingCreateParameters {
    /// The width the renderer renders to before upscaling.
    pub width: u32,
    /// The height the renderer renders to before upscaling.
    pub height: u32,
    /// The width to upscale to.
    pub target_width: u32,
    /// The height to upscale to.
    pub target_height: u32,
    /// The requested quality level.
    pub perf_quality_value: PerfQualityValue,
    /// The feature creation flags.
    pub feature_create_flags: i32,
    /// Whether evaluation may use output sub-rects.
    pub enable_output_subrects: bool,
}

impl SuperSamplingCreateParameters {
    /// Creates a new set of create parameters for the super-sampling
    /// feature.  An omitted quality level defaults to maximum
    /// performance and omitted flags to none.
    pub fn new(
        render_width: u32,
        render_height: u32,
        target_width: u32,
        target_height: u32,
        quality_value: Option<PerfQualityValue>,
        flags: Option<i32>,
    ) -> (r: Self)
        ensures
            r.width == render_width,
            r.height == render_height,
            r.target_width == target_width,
            r.target_height == target_height,
            r.perf_quality_value == (match quality_value {
                Some(q) => q,
                None => PerfQualityValue::MaxPerf,
            }),
            r.feature_create_flags == (match flags {
                Some(f) => f,
                None => 0i32,
            }),
            !r.enable_output_subrects,
    {
        SuperSamplingCreateParameters {
            width: render_width,
            height: render_height,
            target_width,
            target_height,
            perf_quality_value: match quality_value {
                Some(q) => q,
                None => PerfQualityValue::MaxPerf,
            },
            feature_create_flags: match flags {
                Some(f) => f,
                None => 0,
            },
            enable_output_subrects: false,
        }
    }
}

/// The display name of a quality level, as it appears in error messages.
pub open spec fn spec_quality_level_name(quality: PerfQualityValue) -> Seq<char> {
    match quality {
        PerfQualityValue::MaxPerf => "MaxPerf"@,
        PerfQualityValue::Balanced => "Balanced"@,
        PerfQualityValue::MaxQuality => "MaxQuality"@,
        PerfQualityValue::UltraPerformance => "UltraPerformance"@,
        PerfQualityValue::UltraQuality => "UltraQuality"@,
        PerfQualityValue::DLAA => "DLAA"@,
    }
}

/// Returns the display name of a quality level.
fn quality_level_name(quality: PerfQualityValue) -> (r: &'static str)
    ensures
        r@ == spec_quality_level_name(quality),
{
    match quality {
        PerfQualityValue::MaxPerf => "MaxPerf",
        PerfQualityValue::Balanced => "Balanced",
        PerfQualityValue::MaxQuality => "MaxQuality",
        PerfQualityValue::UltraPerformance => "UltraPerformance",
        PerfQualityValue::UltraQuality => "UltraQuality",
        PerfQualityValue::DLAA => "DLAA",
    }
}

/// The message reported when the native layer answers an optimal-settings
/// query for a quality level it does not support.
pub open spec fn spec_quality_not_supported_message(quality: PerfQualityValue) -> Seq<char> {
    "The requested quality level isn't supported: "@ + spec_quality_level_name(quality)
}

/// Optimal settings for super sampling, as answered by the native layer
/// for a desired quality level and target resolution.
#[derive(Debug, Clone, Copy, PartialEq, Eq, Hash, Structural)]
pub struct SuperSamplingOptimalSettings {
    /// The render width which the renderer must render to before
    /// upscaling.
    pub render_width: u32,
    /// The render height which the renderer must render to before
    /// upscaling.
    pub render_height: u32,
    /// The requested quality level.
    pub desired_quality_level: PerfQualityValue,
    /// The smallest render width supported for dynamic resolution.
    pub dynamic_min_render_width: u32,
    /// The largest render width supported for dynamic resolution.
    pub dynamic_max_render_width: u32,
    /// The smallest render height supported for dynamic resolution.
    pub dynamic_min_render_height: u32,
    /// The largest render height supported for dynamic resolution.
    pub dynamic_max_render_height: u32,
}

impl SuperSamplingOptimalSettings {
    /// Checks the answer of an optimal-settings query: the native layer
    /// reports an unsupported quality level by answering a zero render
    /// width or height.
    pub fn check_supported(&self) -> (r: Result<(), Error>)
        ensures
            r is Ok <==> self.render_width != 0 && self.render_height != 0,
            r matches Err(e) ==> {
                &&& e matches Error::Other(m)
                &&& m@ == spec_quality_not_supported_message(self.desired_quality_level)
            },
    {
        if self.render_width == 0 || self.render_height == 0 {
            let mut message = String::from_str("The requested quality level isn't supported: ");
            message.append(quality_level_name(self.desired_quality_level));
            Err(Error::Other(message))
        } else {
            Ok(())
        }
    }
}

/// A point in pixel coordinates, as the native layer lays it out.
#[derive(Debug, Clone, Copy, PartialEq, Eq, Structural)]
pub struct Coordinates {
    /// The horizontal coordinate.
    pub x: u32,
    /// The vertical coordinate.
    pub y: u32,
}

/// A size in pixels, as the native layer lays it out.
#[derive(Debug, Clone, Copy, PartialEq, Eq, Structural)]
pub struct Dimensions {
    /// The width in pixels.
    pub width: u32,
    /// The height in pixels.
    pub height: u32,
}

/// The coordinates holding an offset pair.
pub open spec fn spec_coordinates(offset: [u32; 2]) -> Coordinates {
    Coordinates { x: offset[0], y: offset[1] }
}

/// The dimensions holding a size pair.
pub open spec fn spec_dimensions(size: [u32; 2]) -> Dimensions {
    Dimensions { width: size[0], height: size[1] }
}

/// The horizontal motion-vector scale chosen by an optional scale pair:
/// an omitted pair defaults to one, meaning the motion vectors are
/// already expressed in destination-pixel units.
pub open spec fn spec_scale_x_bits(scale: Option<[u32; 2]>) -> u32 {
    match scale {
        Some(s) => s[0],
        None => UNIT_SCALE_BITS,
    }
}

/// The vertical motion-vector scale chosen by an optional scale pair.
pub open spec fn spec_scale_y_bits(scale: Option<[u32; 2]>) -> u32 {
    match scale {
        Some(s) => s[1],
        None => UNIT_SCALE_BITS,
    }
}

/// Passing no motion-vector scale is the same as passing the unit scale
/// explicitly: both leave the same scale components in the assembled
/// parameters.
pub proof fn lemma_motion_vector_scale_default(scale: [u32; 2])
    requires
        scale[0] == UNIT_SCALE_BITS,
        scale[1] == UNIT_SCALE_BITS,
    ensures
        spec_scale_x_bits(Some(scale)) == spec_scale_x_bits(None),
        spec_scale_y_bits(Some(scale)) == spec_scale_y_bits(None),
{
}

/// The per-frame evaluation parameters of a super-sampling feature,
/// incrementally assembled by setter calls into the exact layout the
/// native evaluation entry point expects.
///
/// Floating-point inputs (motion-vector scales and jitter offsets) are
/// carried as their IEEE-754 bit patterns.
#[derive(Debug, Clone, Copy, PartialEq, Eq, Structural)]
pub struct SuperSamplingEvaluationParameters {
    /// The resource to upscale.
    pub color_input: Option<VkNativeResource>,
    /// The resource receiving the upscaled image.
    pub color_output: Option<VkNativeResource>,
    /// The depth buffer.
    pub depth: Option<VkNativeResource>,
    /// The motion vectors.
    pub motion_vectors: Option<VkNativeResource>,
    /// The horizontal motion-vector scale, as a bit pattern.
    pub mv_scale_x_bits: u32,
    /// The vertical motion-vector scale, as a bit pattern.
    pub mv_scale_y_bits: u32,
    /// The horizontal sub-pixel camera jitter, as a bit pattern.
    pub jitter_offset_x_bits: u32,
    /// The vertical sub-pixel camera jitter, as a bit pattern.
    pub jitter_offset_y_bits: u32,
    /// One to invalidate the history buffers (camera cut), zero
    /// otherwise.
    pub reset: i32,
    /// The sub-rect base of the colour input plane.
    pub color_subrect_base: Coordinates,
    /// The sub-rect base of the depth plane.
    pub depth_subrect_base: Coordinates,
    /// The sub-rect base of the translucency plane.
    pub translucency_subrect_base: Coordinates,
    /// The sub-rect base of the motion-vector plane.
    pub mv_subrect_base: Coordinates,
    /// The dimensions of the rendering sub-rect.
    pub render_subrect_dimensions: Dimensions,
}

impl SuperSamplingEvaluationParameters {
    /// True once the colour input, colour output, depth buffer and
    /// motion vectors have each been set at least once; evaluation must
    /// not be invoked before then.
    pub open spec fn is_fully_bound(&self) -> bool {
        &&& self.color_input is Some
        &&& self.color_output is Some
        &&& self.depth is Some
        &&& self.motion_vectors is Some
    }

    /// The fresh value of the evaluation parameters: no resources bound
    /// and every scalar zeroed.
    pub open spec fn spec_initial() -> Self {
        SuperSamplingEvaluationParameters {
            color_input: None,
            color_output: None,
            depth: None,
            motion_vectors: None,
            mv_scale_x_bits: 0,
            mv_scale_y_bits: 0,
            jitter_offset_x_bits: 0,
            jitter_offset_y_bits: 0,
            reset: 0,
            color_subrect_base: Coordinates { x: 0, y: 0 },
            depth_subrect_base: Coordinates { x: 0, y: 0 },
            translucency_subrect_base: Coordinates { x: 0, y: 0 },
            mv_subrect_base: Coordinates { x: 0, y: 0 },
            render_subrect_dimensions: Dimensions { width: 0, height: 0 },
        }
    }

    /// Creates a fresh set of evaluation parameters with no resources
    /// bound and every scalar zeroed.
    pub fn new() -> (r: Self)
        ensures
            r == Self::spec_initial(),
    {
        SuperSamplingEvaluationParameters {
            color_input: None,
            color_output: None,
            depth: None,
            motion_vectors: None,
            mv_scale_x_bits: 0,
            mv_scale_y_bits: 0,
            jitter_offset_x_bits: 0,
            jitter_offset_y_bits: 0,
            reset: 0,
            color_subrect_base: Coordinates { x: 0, y: 0 },
            depth_subrect_base: Coordinates { x: 0, y: 0 },
            translucency_subrect_base: Coordinates { x: 0, y: 0 },
            mv_subrect_base: Coordinates { x: 0, y: 0 },
            render_subrect_dimensions: Dimensions { width: 0, height: 0 },
        }
    }

    /// True once the colour input, colour output, depth buffer and
    /// motion vectors have each been set at least once.
    pub fn fully_bound(&self) -> (r: bool)
        ensures
            r == self.is_fully_bound(),
    {
        self.color_input.is_some() && self.color_output.is_some() && self.depth.is_some()
            && self.motion_vectors.is_some()
    }

    /// Sets the colour input parameter (the image to upscale).
    pub fn set_color_input(&mut self, description: VkImageResourceDescription)
        ensures
            *final(self) == (SuperSamplingEvaluationParameters {
                color_input: Some(spec_native_resource_of(description)),
                ..*old(self)
            }),
    {
        self.color_input = Some(VkNativeResource::from(description));
    }

    /// Sets the colour output (the upscaled image) information.
    pub fn set_color_output(&mut self, description: VkImageResourceDescription)
        ensures
            *final(self) == (SuperSamplingEvaluationParameters {
                color_output: Some(spec_native_resource_of(description)),
                ..*old(self)
            }),
    {
        self.color_output = Some(VkNativeResource::from(description));
    }

    /// Sets the motion vectors.  An omitted `scale` means the motion
    /// vectors are already in destination-pixel units and defaults both
    /// components to one (as bit patterns).
    pub fn set_motion_vectors(
        &mut self,
        description: VkImageResourceDescription,
        scale: Option<[u32; 2]>,
    )
        ensures
            *final(self) == (SuperSamplingEvaluationParameters {
                motion_vectors: Some(spec_native_resource_of(description)),
                mv_scale_x_bits: spec_scale_x_bits(scale),
                mv_scale_y_bits: spec_scale_y_bits(scale),
                ..*old(self)
            }),
    {
        self.motion_vectors = Some(VkNativeResource::from(description));
        match scale {
            Some(s) => {
                self.mv_scale_x_bits = s[0];
                self.mv_scale_y_bits = s[1];
            },
            None => {
                self.mv_scale_x_bits = UNIT_SCALE_BITS;
                self.mv_scale_y_bits = UNIT_SCALE_BITS;
            },
        }
    }

    /// Sets the depth buffer.
    pub fn set_depth_buffer(&mut self, description: VkImageResourceDescription)
        ensures
            *final(self) == (SuperSamplingEvaluationParameters {
                depth: Some(spec_native_resource_of(description)),
                ..*old(self)
            }),
    {
        self.depth = Some(VkNativeResource::from(description));
    }

    /// Sets the sub-pixel camera jitter offsets, as bit patterns,
    /// written verbatim.
    pub fn set_jitter_offsets(&mut self, x_bits: u32, y_bits: u32)
        ensures
            *final(self) == (SuperSamplingEvaluationParameters {
                jitter_offset_x_bits: x_bits,
                jitter_offset_y_bits: y_bits,
                ..*old(self)
            }),
    {
        self.jitter_offset_x_bits = x_bits;
        self.jitter_offset_y_bits = y_bits;
    }

    /// Sets or clears the reset flag, which signals history-buffer
    /// invalidation (for example a camera cut) to the native algorithm.
    pub fn set_reset(&mut self, should_reset: bool)
        ensures
            *final(self) == (SuperSamplingEvaluationParameters {
                reset: if should_reset {
                    1i32
                } else {
                    0i32
                },
                ..*old(self)
            }),
    {
        self.reset = if should_reset {
            1
        } else {
            0
        };
    }

    /// Sets the rendering dimensions.  The same offset is written into
    /// the four sub-rect base fields (colour, depth, translucency and
    /// motion vectors) and the size into the single dimensions field:
    /// the native layer models four independently-offsettable input
    /// planes which this interface keeps in lock-step.
    pub fn set_rendering_dimensions(&mut self, rendering_offset: [u32; 2], rendering_size: [u32; 2])
        ensures
            *final(self) == (SuperSamplingEvaluationParameters {
                color_subrect_base: spec_coordinates(rendering_offset),
                depth_subrect_base: spec_coordinates(rendering_offset),
                translucency_subrect_base: spec_coordinates(rendering_offset),
                mv_subrect_base: spec_coordinates(rendering_offset),
                render_subrect_dimensions: spec_dimensions(rendering_size),
                ..*old(self)
            }),
    {
        self.color_subrect_base = Coordinates { x: rendering_offset[0], y: rendering_offset[1] };
        self.depth_subrect_base = Coordinates { x: rendering_offset[0], y: rendering_offset[1] };
        self.translucency_subrect_base = Coordinates {
            x: rendering_offset[0],
            y: rendering_offset[1],
        };
        self.mv_subrect_base = Coordinates { x: rendering_offset[0], y: rendering_offset[1] };
        self.render_subrect_dimensions = Dimensions {
            width: rendering_size[0],
            height: rendering_size[1],
        };
    }
}

impl Default for SuperSamplingEvaluationParameters {
    /// A fresh set of evaluation parameters.
    fn default() -> (r: Self)
        ensures
            r == Self::spec_initial(),
    {
        SuperSamplingEvaluationParameters::new()
    }
}

/// A super-sampling feature: the underlying generic feature, its
/// per-frame evaluation parameters, and the two resolution pairs
/// captured at creation time.
#[derive(Debug)]
pub struct SuperSamplingFeature<T> {
    feature: Feature<T>,
    parameters: SuperSamplingEvaluationParameters,
    rendering_resolution: [u32; 2],
    target_resolution: [u32; 2],
}

impl<T> SuperSamplingFeature<T> where
    T: crate::feature::FeatureHandleOps + crate::params::FeatureParameterOps + crate::feature::FeatureOps
 {
    /// The underlying generic feature.
    pub closed spec fn spec_feature(&self) -> Feature<T> {
        self.feature
    }

    /// The assembled evaluation parameters.
    pub closed spec fn spec_evaluation_parameters(&self) -> SuperSamplingEvaluationParameters {
        self.parameters
    }

    /// The resolution rendered to before upscaling.
    pub closed spec fn spec_rendering_resolution(&self) -> [u32; 2] {
        self.rendering_resolution
    }

    /// The resolution upscaled to.
    pub closed spec fn spec_target_resolution(&self) -> [u32; 2] {
        self.target_resolution
    }

    /// A well-formed super-sampling feature wraps a live feature whose
    /// type tag is super sampling.
    pub open spec fn wf(&self) -> bool {
        &&& self.spec_feature().wf()
        &&& self.spec_feature().spec_feature_type() == FeatureType::SuperSampling
    }

    /// Creates a new super-sampling feature around an existing feature.
    ///
    /// A feature whose type tag is not super sampling is rejected with a
    /// descriptive error before any native evaluation could be reached.
    pub fn new(
        feature: Feature<T>,
        rendering_resolution: [u32; 2],
        target_resolution: [u32; 2],
    ) -> (r: Result<Self, Error>)
        ensures
            r is Ok <==> feature.spec_feature_type() == FeatureType::SuperSampling,
            r matches Ok(f) ==> {
                &&& f.spec_feature() == feature
                &&& f.spec_rendering_resolution() == rendering_resolution
                &&& f.spec_target_resolution() == target_resolution
                &&& !f.spec_evaluation_parameters().is_fully_bound()
                &&& feature.wf() ==> f.wf()
            },
            r matches Err(e) ==> {
                &&& e matches Error::Other(m)
                &&& m@ == "Attempt to create a super sampling feature with another feature."@
            },
    {
        if !feature.is_super_sampling() {
            return Err(
                Error::Other(
                    String::from_str(
                        "Attempt to create a super sampling feature with another feature.",
                    ),
                ),
            );
        }
        Ok(
            SuperSamplingFeature {
                feature,
                parameters: SuperSamplingEvaluationParameters::new(),
                rendering_resolution,
                target_resolution,
            },
        )
    }

    /// Returns the inner feature object.
    pub fn get_inner(&self) -> (r: &Feature<T>)
        ensures
            *r == self.spec_feature(),
    {
        &self.feature
    }

    /// Returns the inner feature object, mutably.
    pub fn get_inner_mut(&mut self) -> (r: &mut Feature<T>)
        ensures
            *r == old(self).spec_feature(),
            final(self).spec_feature() == *final(r),
            final(self).spec_evaluation_parameters() == old(self).spec_evaluation_parameters(),
            final(self).spec_rendering_resolution() == old(self).spec_rendering_resolution(),
            final(self).spec_target_resolution() == old(self).spec_target_resolution(),
    {
        &mut self.feature
    }

    /// Returns the rendering resolution (input resolution) of the image
    /// that needs to be upscaled to the target resolution.
    pub fn get_rendering_resolution(&self) -> (r: [u32; 2])
        ensures
            r == self.spec_rendering_resolution(),
    {
        self.rendering_resolution
    }

    /// Returns the target resolution (output resolution) of the image
    /// that the original image should be upscaled to.
    pub fn get_target_resolution(&self) -> (r: [u32; 2])
        ensures
            r == self.spec_target_resolution(),
    {
        self.target_resolution
    }

    /// Returns `true` if the super-sampling feature reported a
    /// successful initialisation in its parameter map.
    pub fn is_initialised(&self) -> (r: bool)
        ensures
            r == (self.spec_feature().spec_parameters().value_of(
                ParameterKey::SuperSamplingFeatureInitResult,
            ) == Some(ParameterValue::I32(1))),
    {
        self.feature.get_parameters().is_super_sampling_initialised()
    }

    /// Returns the evaluation parameters, mutably, for per-frame setter
    /// calls.
    pub fn get_evaluation_parameters_mut(&mut self) -> (r: &mut SuperSamplingEvaluationParameters)
        ensures
            *r == old(self).spec_evaluation_parameters(),
            final(self).spec_evaluation_parameters() == *final(r),
            final(self).spec_feature() == old(self).spec_feature(),
            final(self).spec_rendering_resolution() == old(self).spec_rendering_resolution(),
            final(self).spec_target_resolution() == old(self).spec_target_resolution(),
    {
        &mut self.parameters
    }

    /// Submits the evaluation of this feature into the command context,
    /// forwarding the assembled evaluation parameters, the feature
    /// handle and the parameter map.
    ///
    /// Evaluation must not be invoked before the colour input, colour
    /// output, depth buffer and motion vectors have all been set.
    pub fn evaluate(&mut self, command_buffer: T::CommandBuffer) -> (r: Result<(), Error>)
        requires
            old(self).wf(),
            old(self).spec_evaluation_parameters().is_fully_bound(),
        ensures
            final(self).wf(),
            final(self).spec_evaluation_parameters() == old(self).spec_evaluation_parameters(),
            final(self).spec_rendering_resolution() == old(self).spec_rendering_resolution(),
            final(self).spec_target_resolution() == old(self).spec_target_resolution(),
    {
        let evaluation_parameters = self.parameters;
        self.feature.evaluate_super_sampling_with(command_buffer, &evaluation_parameters)
    }
}

} // verus!
