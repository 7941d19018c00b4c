//! The per-process system object that feature creation goes through.

use vstd::prelude::*;

use crate::error::Error;
use crate::feature::{Feature, FeatureOps, FeatureType};
use crate::params::FeatureParameters;
use crate::ray_reconstruction::{RayReconstructionCreateParameters, RayReconstructionFeature};
use crate::super_sampling::{SuperSamplingCreateParameters, SuperSamplingFeature};

verus! {

/// The graphics-API extensions required for the native layer to operate.
#[derive(Debug, Clone)]
pub struct RequiredExtensions {
    /// The device extensions required by the native layer.
    pub device: Vec<String>,
    /// The instance extensions required by the native layer.
    pub instance: Vec<String>,
}

/// The system object: the logical device that the native layer was
/// initialised for, through which features are created.
///
/// The process-wide native initialisation and shutdown calls are backend
/// glue performed by the bindings that implement the backend traits; a
/// `System` wraps the device they hand back and is passed explicitly to
/// every feature-creation call, keeping the wrapper free of ambient
/// global state.
#[derive(Debug)]
pub struct System<T: FeatureOps> {
    device: T::Device,
}

impl<T: FeatureOps> System<T> {
    /// The logical device of this system.
    pub closed spec fn spec_device(&self) -> T::Device {
        self.device
    }

    /// Wraps the logical device that the native layer was initialised
    /// for.
    pub fn new(device: T::Device) -> (r: Self)
        ensures
            r.spec_device() == device,
    {
        System { device }
    }

    /// Creates a new [`Feature`] with the logical device used to create
    /// this [`System`].  When no parameter map is supplied, a capability
    /// map is obtained from the backend.
    pub fn create_feature(
        &self,
        command_buffer: T::CommandBuffer,
        feature_type: FeatureType,
        parameters: Option<FeatureParameters<T>>,
    ) -> (r: Result<Feature<T>, Error>)
        ensures
            r matches Ok(f) ==> f.wf() && f.spec_feature_type() == feature_type,
    {
        let parameters = match parameters {
            Some(p) => p,
            None => match FeatureParameters::<T>::get_capability_parameters() {
                Ok(p) => p,
                Err(e) => {
                    return Err(e);
                },
            },
        };
        Feature::new(self.device, command_buffer, feature_type, parameters)
    }

    /// Creates a super-sampling feature.
    pub fn create_super_sampling_feature(
        &self,
        command_buffer: T::CommandBuffer,
        feature_parameters: FeatureParameters<T>,
        create_parameters: &SuperSamplingCreateParameters,
    ) -> (r: Result<SuperSamplingFeature<T>, Error>)
        ensures
            r matches Ok(f) ==> {
                &&& f.wf()
                &&& f.spec_rendering_resolution()[0] == create_parameters.width
                &&& f.spec_rendering_resolution()[1] == create_parameters.height
                &&& f.spec_target_resolution()[0] == create_parameters.target_width
                &&& f.spec_target_resolution()[1] == create_parameters.target_height
            },
    {
        Feature::new_super_sampling(
            self.device,
            command_buffer,
            feature_parameters,
            create_parameters,
        )
    }

    /// Creates a frame-generation feature.
    pub fn create_frame_generation_feature(
        &self,
        command_buffer: T::CommandBuffer,
        feature_parameters: FeatureParameters<T>,
    ) -> (r: Result<Feature<T>, Error>)
        ensures
            r matches Ok(f) ==> f.wf() && f.spec_feature_type() == FeatureType::FrameGeneration,
    {
        Feature::new_frame_generation(self.device, command_buffer, feature_parameters)
    }

    /// Creates a ray-reconstruction feature.
    pub fn create_ray_reconstruction_feature(
        &self,
        command_buffer: T::CommandBuffer,
        feature_parameters: FeatureParameters<T>,
        create_parameters: &RayReconstructionCreateParameters,
    ) -> (r: Result<RayReconstructionFeature<T>, Error>)
        ensures
            r matches Ok(f) ==> {
                &&& f.wf()
                &&& f.spec_rendering_resolution()[0] == create_parameters.width
                &&& f.spec_rendering_resolution()[1] == create_parameters.height
                &&& f.spec_target_resolution()[0] == create_parameters.target_width
                &&& f.spec_target_resolution()[1] == create_parameters.target_height
            },
    {
        Feature::new_ray_reconstruction(
            self.device,
            command_buffer,
            feature_parameters,
            create_parameters,
        )
    }
}

} // verus!
