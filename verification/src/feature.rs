//! Generic features: native handles, the feature lifecycle, and the
//! backend operations they are built on.

use vstd::prelude::*;

use crate::error::Error;
use crate::params::{FeatureParameterOps, FeatureParameters};
use crate::ray_reconstruction::{
    RayReconstructionCreateParameters, RayReconstructionEvaluationParameters,
    RayReconstructionFeature,
};
use crate::super_sampling::{
    SuperSamplingCreateParameters, SuperSamplingEvaluationParameters, SuperSamplingFeature,
};

verus! {

/// The graphics API that the application is using.
#[derive(Debug, Clone, Copy, PartialEq, Eq, Structural)]
pub enum GraphicsAPI {
    /// The Vulkan API.
    Vulkan,
    /// The Direct3D 12 API.
    Directx,
}

/// The type tag of an instantiated feature.
#[derive(Debug, Clone, Copy, PartialEq, Eq, Hash, Structural)]
pub enum FeatureType {
    /// AI super sampling (upscaling).
    SuperSampling,
    /// In-painting.
    InPainting,
    /// Image super resolution.
    ImageSuperResolution,
    /// Slow motion.
    SlowMotion,
    /// Video super resolution.
    VideoSuperResolution,
    /// Image signal processing.
    ImageSignalProcessing,
    /// Deep resolve.
    DeepResolve,
    /// Frame generation.
    FrameGeneration,
    /// Ray reconstruction (super-sampling denoising).
    RayReconstruction,
}

/// Backend release of feature handles, implemented once per graphics
/// backend by the native bindings.
///
/// Implementations live outside this crate and are not verified; verified
/// code relies only on the contract below.
pub trait FeatureHandleOps {
    /// Releases a live feature handle through the backend.  The wrapper
    /// never passes a null handle.
    fn release_handle(handle: u64) -> (r: Result<(), Error>)
        requires
            handle != 0,
    ;
}

/// Backend feature operations, implemented once per graphics backend by
/// the native bindings.
///
/// Implementations live outside this crate and are not verified; verified
/// code relies only on the contracts below.
pub trait FeatureOps: FeatureHandleOps + FeatureParameterOps {
    /// The native device type of the backend.
    type Device: Copy;

    /// The native command recording context of the backend.
    type CommandBuffer;

    /// Creates a feature of the given type.  A successful creation hands
    /// back a non-null handle; on failure no handle is produced.  The
    /// native layer may record facts (such as initialisation results)
    /// into the parameter map.
    fn create_feature(
        device: Self::Device,
        command_buffer: Self::CommandBuffer,
        feature_type: FeatureType,
        parameters: &mut FeatureParameters<Self>,
    ) -> (r: Result<u64, Error>)
        ensures
            r matches Ok(handle) ==> handle != 0,
    ;

    /// Creates a super-sampling feature from its creation parameters.
    /// A successful creation hands back a non-null handle.
    fn create_super_sampling_feature(
        device: Self::Device,
        command_buffer: Self::CommandBuffer,
        parameters: &mut FeatureParameters<Self>,
        create_parameters: &SuperSamplingCreateParameters,
    ) -> (r: Result<u64, Error>)
        ensures
            r matches Ok(handle) ==> handle != 0,
    ;

    /// Creates a ray-reconstruction feature from its creation parameters.
    /// A successful creation hands back a non-null handle.
    fn create_ray_reconstruction_feature(
        device: Self::Device,
        command_buffer: Self::CommandBuffer,
        parameters: &mut FeatureParameters<Self>,
        create_parameters: &RayReconstructionCreateParameters,
    ) -> (r: Result<u64, Error>)
        ensures
            r matches Ok(handle) ==> handle != 0,
    ;

    /// Queries the scratch-buffer size needed by a feature of the given
    /// type with the given parameters.  The query is pure from the
    /// wrapper's point of view and may be repeated freely.
    fn get_scratch_buffer_size(
        feature_type: FeatureType,
        parameters: &FeatureParameters<Self>,
    ) -> (r: Result<usize, Error>);

    /// Submits the evaluation of a feature into the command context.
    /// The wrapper never passes a null handle.
    fn evaluate_feature(
        command_buffer: Self::CommandBuffer,
        handle: u64,
        parameters: &mut FeatureParameters<Self>,
    ) -> (r: Result<(), Error>)
        requires
            handle != 0,
    ;

    /// Submits the evaluation of a super-sampling feature with its
    /// assembled per-frame parameters.  The wrapper never passes a null
    /// handle, and only fully-bound evaluation parameters (colour input
    /// and output, depth and motion vectors all set).
    fn evaluate_super_sampling(
        command_buffer: Self::CommandBuffer,
        handle: u64,
        parameters: &mut FeatureParameters<Self>,
        evaluation_parameters: &SuperSamplingEvaluationParameters,
    ) -> (r: Result<(), Error>)
        requires
            handle != 0,
            evaluation_parameters.is_fully_bound(),
    ;

    /// Submits the evaluation of a ray-reconstruction feature with its
    /// assembled per-frame parameters, under the same obligations as the
    /// super-sampling evaluation.
    fn evaluate_ray_reconstruction(
        command_buffer: Self::CommandBuffer,
        handle: u64,
        parameters: &mut FeatureParameters<Self>,
        evaluation_parameters: &RayReconstructionEvaluationParameters,
    ) -> (r: Result<(), Error>)
        requires
            handle != 0,
            evaluation_parameters.is_fully_bound(),
    ;
}

/// An opaque native handle identifying one instantiated feature.
///
/// The handle is null until a successful create call and is released at
/// most once: releasing a null handle is a no-op, and a successful
/// release nulls the handle, so a second release never reaches the
/// native layer.  The owner is expected to call [`FeatureHandle::release`]
/// during teardown.
#[derive(Debug)]
pub struct FeatureHandle<T> {
    handle: u64,
    _platform: std::marker::PhantomData<T>,
}

impl<T: FeatureHandleOps> FeatureHandle<T> {
    /// The raw native handle value, null encoded as zero.
    pub closed spec fn spec_handle(&self) -> u64 {
        self.handle
    }

    /// True if no live native handle is held.
    pub open spec fn is_null_spec(&self) -> bool {
        self.spec_handle() == 0
    }

    /// Creates a null handle, owning no native resource yet.
    pub fn new() -> (r: Self)
        ensures
            r.is_null_spec(),
    {
        FeatureHandle { handle: 0, _platform: std::marker::PhantomData }
    }

    /// Returns the raw handle value.
    pub(crate) fn get_handle(&self) -> (r: u64)
        ensures
            r == self.spec_handle(),
    {
        self.handle
    }

    /// Releases the handle through the backend.
    ///
    /// Releasing a null handle returns [`Ok`] immediately without calling
    /// the native release; a successful release nulls the handle, so the
    /// second of two releases is always such a no-op.  On failure the
    /// handle is left as it was.
    pub fn release(&mut self) -> (r: Result<(), Error>)
        ensures
            old(self).is_null_spec() ==> r is Ok && *final(self) == *old(self),
            r is Ok ==> final(self).is_null_spec(),
            r is Err ==> *final(self) == *old(self),
    {
        if self.handle == 0 {
            return Ok(());
        }
        let result = T::release_handle(self.handle);
        if result.is_ok() {
            self.handle = 0;
        }
        result
    }
}

impl<T: FeatureHandleOps> Default for FeatureHandle<T> {
    /// A null handle.
    fn default() -> (r: Self)
        ensures
            r.is_null_spec(),
    {
        FeatureHandle::new()
    }
}

/// A generic feature: a live native handle, the immutable feature-type
/// tag, and the parameter map the feature was created with.
#[derive(Debug)]
pub struct Feature<T> {
    /// The feature handle.
    pub(crate) handle: FeatureHandle<T>,
    /// The type of the feature.
    pub(crate) feature_type: FeatureType,
    /// The parameters of the feature.
    pub(crate) parameters: FeatureParameters<T>,
}

impl<T> Feature<T> where T: FeatureHandleOps + FeatureParameterOps + FeatureOps {
    /// The raw native handle value of this feature.
    pub closed spec fn spec_handle(&self) -> u64 {
        self.handle.spec_handle()
    }

    /// The type tag of this feature.
    pub closed spec fn spec_feature_type(&self) -> FeatureType {
        self.feature_type
    }

    /// The parameter map of this feature.
    pub closed spec fn spec_parameters(&self) -> FeatureParameters<T> {
        self.parameters
    }

    /// A created feature always holds a live native handle.
    pub open spec fn wf(&self) -> bool {
        self.spec_handle() != 0
    }

    /// Creates a new feature of the given type.  On native failure the
    /// error is returned and no feature is exposed.
    pub fn new(
        device: T::Device,
        command_buffer: T::CommandBuffer,
        feature_type: FeatureType,
        parameters: FeatureParameters<T>,
    ) -> (r: Result<Self, Error>)
        ensures
            r matches Ok(f) ==> f.wf() && f.spec_feature_type() == feature_type,
    {
        let mut parameters = parameters;
        match T::create_feature(device, command_buffer, feature_type, &mut parameters) {
            Ok(handle) => Ok(
                Feature {
                    handle: FeatureHandle { handle, _platform: std::marker::PhantomData },
                    feature_type,
                    parameters,
                },
            ),
            Err(e) => Err(e),
        }
    }

    /// Creates a new super-sampling feature.  The rendering and target
    /// resolutions of the returned feature are the ones captured in the
    /// creation parameters.
    pub fn new_super_sampling(
        device: T::Device,
        command_buffer: T::CommandBuffer,
        parameters: FeatureParameters<T>,
        create_parameters: &SuperSamplingCreateParameters,
    ) -> (r: Result<SuperSamplingFeature<T>, Error>)
        ensures
            r matches Ok(f) ==> {
                &&& f.wf()
                &&& f.spec_feature().spec_feature_type() == FeatureType::SuperSampling
                &&& f.spec_rendering_resolution()[0] == create_parameters.width
                &&& f.spec_rendering_resolution()[1] == create_parameters.height
                &&& f.spec_target_resolution()[0] == create_parameters.target_width
                &&& f.spec_target_resolution()[1] == create_parameters.target_height
            },
    {
        let mut parameters = parameters;
        match T::create_super_sampling_feature(
            device,
            command_buffer,
            &mut parameters,
            create_parameters,
        ) {
            Ok(handle) => {
                let rendering_resolution = extract_rendering_resolution(create_parameters);
                let target_resolution = extract_target_resolution(create_parameters);
                SuperSamplingFeature::new(
                    Feature {
                        handle: FeatureHandle { handle, _platform: std::marker::PhantomData },
                        feature_type: FeatureType::SuperSampling,
                        parameters,
                    },
                    rendering_resolution,
                    target_resolution,
                )
            },
            Err(e) => Err(e),
        }
    }

    /// Creates a new ray-reconstruction feature.  The rendering and
    /// target resolutions of the returned feature are the ones captured
    /// in the creation parameters.
    pub fn new_ray_reconstruction(
        device: T::Device,
        command_buffer: T::CommandBuffer,
        parameters: FeatureParameters<T>,
        create_parameters: &RayReconstructionCreateParameters,
    ) -> (r: Result<RayReconstructionFeature<T>, Error>)
        ensures
            r matches Ok(f) ==> {
                &&& f.wf()
                &&& f.spec_feature().spec_feature_type() == FeatureType::RayReconstruction
                &&& f.spec_rendering_resolution()[0] == create_parameters.width
                &&& f.spec_rendering_resolution()[1] == create_parameters.height
                &&& f.spec_target_resolution()[0] == create_parameters.target_width
                &&& f.spec_target_resolution()[1] == create_parameters.target_height
            },
    {
        let mut parameters = parameters;
        match T::create_ray_reconstruction_feature(
            device,
            command_buffer,
            &mut parameters,
            create_parameters,
        ) {
            Ok(handle) => {
                let rendering_resolution = [create_parameters.width, create_parameters.height];
                let target_resolution = [
                    create_parameters.target_width,
                    create_parameters.target_height,
                ];
                RayReconstructionFeature::new(
                    Feature {
                        handle: FeatureHandle { handle, _platform: std::marker::PhantomData },
                        feature_type: FeatureType::RayReconstruction,
                        parameters,
                    },
                    rendering_resolution,
                    target_resolution,
                )
            },
            Err(e) => Err(e),
        }
    }

    /// Creates the frame-generation feature.
    pub fn new_frame_generation(
        device: T::Device,
        command_buffer: T::CommandBuffer,
        parameters: FeatureParameters<T>,
    ) -> (r: Result<Self, Error>)
        ensures
            r matches Ok(f) ==> f.wf() && f.spec_feature_type() == FeatureType::FrameGeneration,
    {
        Self::new(device, command_buffer, FeatureType::FrameGeneration, parameters)
    }

    /// Returns the parameters associated with this feature.
    pub fn get_parameters(&self) -> (r: &FeatureParameters<T>)
        ensures
            *r == self.spec_parameters(),
    {
        &self.parameters
    }

    /// Returns the parameters associated with this feature, mutably.
    pub fn get_parameters_mut(&mut self) -> (r: &mut FeatureParameters<T>)
        ensures
            *r == old(self).spec_parameters(),
            final(self).spec_parameters() == *final(r),
            final(self).spec_feature_type() == old(self).spec_feature_type(),
            final(self).spec_handle() == old(self).spec_handle(),
    {
        &mut self.parameters
    }

    /// Returns the type of this feature.
    pub fn get_feature_type(&self) -> (r: FeatureType)
        ensures
            r == self.spec_feature_type(),
    {
        self.feature_type
    }

    /// Returns `true` if this feature is the super-sampling one.
    pub fn is_super_sampling(&self) -> (r: bool)
        ensures
            r == (self.spec_feature_type() == FeatureType::SuperSampling),
    {
        self.feature_type == FeatureType::SuperSampling
    }

    /// Returns `true` if this feature is the frame-generation one.
    pub fn is_frame_generation(&self) -> (r: bool)
        ensures
            r == (self.spec_feature_type() == FeatureType::FrameGeneration),
    {
        self.feature_type == FeatureType::FrameGeneration
    }

    /// Returns `true` if this feature is the ray-reconstruction one.
    pub fn is_ray_reconstruction(&self) -> (r: bool)
        ensures
            r == (self.spec_feature_type() == FeatureType::RayReconstruction),
    {
        self.feature_type == FeatureType::RayReconstruction
    }

    /// Returns the number of bytes needed for the scratch buffer.  This
    /// is a pure query against the feature type and parameters.
    pub fn get_scratch_buffer_size(&self) -> (r: Result<usize, Error>) {
        T::get_scratch_buffer_size(self.feature_type, &self.parameters)
    }

    /// Releases the underlying feature handle through the backend; the
    /// owner calls this once during teardown.
    ///
    /// The release is idempotent: once the handle has been released (or
    /// if it was never live), further calls return [`Ok`] immediately
    /// without reaching the native layer.  On failure the handle is kept
    /// so that the release may be retried.
    pub fn release(&mut self) -> (r: Result<(), Error>)
        ensures
            old(self).spec_handle() == 0 ==> r is Ok && final(self).spec_handle() == 0,
            r is Ok ==> final(self).spec_handle() == 0,
            r is Err ==> final(self).spec_handle() == old(self).spec_handle(),
            final(self).spec_feature_type() == old(self).spec_feature_type(),
            final(self).spec_parameters() == old(self).spec_parameters(),
    {
        self.handle.release()
    }

    /// Submits the evaluation of this feature into the command context.
    pub fn evaluate(&mut self, command_buffer: T::CommandBuffer) -> (r: Result<(), Error>)
        requires
            old(self).wf(),
        ensures
            final(self).wf(),
            final(self).spec_handle() == old(self).spec_handle(),
            final(self).spec_feature_type() == old(self).spec_feature_type(),
    {
        let handle = self.handle.get_handle();
        T::evaluate_feature(command_buffer, handle, &mut self.parameters)
    }

    /// Submits the evaluation of a super-sampling feature, forwarding the
    /// assembled evaluation parameters alongside the handle and the
    /// parameter map.
    pub(crate) fn evaluate_super_sampling_with(
        &mut self,
        command_buffer: T::CommandBuffer,
        evaluation_parameters: &SuperSamplingEvaluationParameters,
    ) -> (r: Result<(), Error>)
        requires
            old(self).wf(),
            evaluation_parameters.is_fully_bound(),
        ensures
            final(self).wf(),
            final(self).spec_handle() == old(self).spec_handle(),
            final(self).spec_feature_type() == old(self).spec_feature_type(),
    {
        let handle = self.handle.get_handle();
        T::evaluate_super_sampling(command_buffer, handle, &mut self.parameters,
            evaluation_parameters)
    }

    /// Submits the evaluation of a ray-reconstruction feature, forwarding
    /// the assembled evaluation parameters alongside the handle and the
    /// parameter map.
    pub(crate) fn evaluate_ray_reconstruction_with(
        &mut self,
        command_buffer: T::CommandBuffer,
        evaluation_parameters: &RayReconstructionEvaluationParameters,
    ) -> (r: Result<(), Error>)
        requires
            old(self).wf(),
            evaluation_parameters.is_fully_bound(),
        ensures
            final(self).wf(),
            final(self).spec_handle() == old(self).spec_handle(),
            final(self).spec_feature_type() == old(self).spec_feature_type(),
    {
        let handle = self.handle.get_handle();
        T::evaluate_ray_reconstruction(command_buffer, handle, &mut self.parameters,
            evaluation_parameters)
    }
}

/// Reads the rendering resolution captured in super-sampling creation
/// parameters.
fn extract_rendering_resolution(create_parameters: &SuperSamplingCreateParameters) -> (r: [u32; 2])
    ensures
        r[0] == create_parameters.width,
        r[1] == create_parameters.height,
{
    [create_parameters.width, create_parameters.height]
}

/// Reads the target resolution captured in super-sampling creation
/// parameters.
fn extract_target_resolution(create_parameters: &SuperSamplingCreateParameters) -> (r: [u32; 2])
    ensures
        r[0] == create_parameters.target_width,
        r[1] == create_parameters.target_height,
{
    [create_parameters.target_width, create_parameters.target_height]
}

/// Describes a set of feature requirements reported by the native layer.
#[derive(Debug)]
pub struct FeatureRequirement {
    /// The support verdict for the queried feature, as a native result
    /// value.
    pub feature_supported: u32,
    /// The minimum hardware architecture required.
    pub min_hw_architecture: u32,
    /// The minimum operating-system version required.
    pub min_os_version: String,
}

} // verus!
