//! Backend-neutral resource descriptions and their native counterparts.
//!
//! An image resource handed to the evaluation step is described by a
//! [`VkImageResourceDescription`]; it is converted on demand into the
//! exact layout the native layer expects, modelled by [`VkNativeResource`].
//! The conversion is a pure mapping and preserves every field.

use vstd::prelude::*;

verus! {

/// A mode that a resource might have.
#[derive(Debug, Clone, Copy, PartialEq, Eq, Structural)]
pub enum VkResourceMode {
    /// Indicates that the resource can only be read.
    Readable,
    /// Indicates that the resource can be written to.
    Writable,
}

impl Default for VkResourceMode {
    /// Resources are read-only unless stated otherwise.
    fn default() -> (r: Self)
        ensures
            r == VkResourceMode::Readable,
    {
        VkResourceMode::Readable
    }
}

/// The subresource range of an image view: which aspects, mip levels and
/// array layers the view covers.
#[derive(Debug, Clone, Copy, PartialEq, Eq, Structural)]
pub struct VkImageSubresourceRange {
    /// The aspects of the image included in the view.
    pub aspect_mask: u32,
    /// The first mip level visible to the view.
    pub base_mip_level: u32,
    /// The number of mip levels, starting from `base_mip_level`.
    pub level_count: u32,
    /// The first array layer visible to the view.
    pub base_array_layer: u32,
    /// The number of array layers, starting from `base_array_layer`.
    pub layer_count: u32,
}

impl Default for VkImageSubresourceRange {
    /// An all-zero range.
    fn default() -> (r: Self)
        ensures
            r == (VkImageSubresourceRange {
                aspect_mask: 0,
                base_mip_level: 0,
                level_count: 0,
                base_array_layer: 0,
                layer_count: 0,
            }),
    {
        VkImageSubresourceRange {
            aspect_mask: 0,
            base_mip_level: 0,
            level_count: 0,
            base_array_layer: 0,
            layer_count: 0,
        }
    }
}

/// A description of a buffer resource to be bound for feature evaluation.
#[derive(Debug, Clone, Copy, PartialEq, Eq, Structural)]
pub struct VkBufferResourceDescription {
    /// The buffer handle.
    pub buffer: u64,
    /// The size of the buffer in bytes.
    pub size_in_bytes: usize,
    /// The mode this resource has.
    pub mode: VkResourceMode,
}

/// A description of an image resource to be bound for feature evaluation.
#[derive(Debug, Clone, Copy, PartialEq, Eq, Structural)]
pub struct VkImageResourceDescription {
    /// The image view handle.
    pub image_view: u64,
    /// The image handle.
    pub image: u64,
    /// The subresource range of the view.
    pub subresource_range: VkImageSubresourceRange,
    /// The pixel format of the image.
    pub format: i32,
    /// The width of the image.
    pub width: u32,
    /// The height of the image.
    pub height: u32,
    /// The mode this resource has.
    pub mode: VkResourceMode,
}

impl VkImageResourceDescription {
    /// Sets the writable bit.
    pub fn set_writable(&mut self)
        ensures
            final(self).mode == VkResourceMode::Writable,
            final(self).image_view == old(self).image_view,
            final(self).image == old(self).image,
            final(self).subresource_range == old(self).subresource_range,
            final(self).format == old(self).format,
            final(self).width == old(self).width,
            final(self).height == old(self).height,
    {
        self.mode = VkResourceMode::Writable;
    }
}

/// The image-view description inside a native resource, field for field.
#[derive(Debug, Clone, Copy, PartialEq, Eq, Structural)]
pub struct VkImageViewInfo {
    /// The image view handle.
    pub image_view: u64,
    /// The image handle.
    pub image: u64,
    /// The subresource range of the view.
    pub subresource_range: VkImageSubresourceRange,
    /// The pixel format of the image.
    pub format: i32,
    /// The width of the image.
    pub width: u32,
    /// The height of the image.
    pub height: u32,
}

/// The buffer description inside a native resource.
#[derive(Debug, Clone, Copy, PartialEq, Eq, Structural)]
pub struct VkBufferInfo {
    /// The buffer handle.
    pub buffer: u64,
    /// The size of the buffer in bytes.
    pub size_in_bytes: usize,
}

/// The kind tag and payload of a native resource: the native layer models
/// a resource as a tagged union of an image view and a buffer.
#[derive(Debug, Clone, Copy, PartialEq, Eq, Structural)]
pub enum VkResourceInfo {
    /// An image view resource.
    ImageView(VkImageViewInfo),
    /// A buffer resource.
    Buffer(VkBufferInfo),
}

/// The native resource layout consumed by the evaluation entry points.
#[derive(Debug, Clone, Copy, PartialEq, Eq, Structural)]
pub struct VkNativeResource {
    /// The kind tag and the per-kind description.
    pub resource: VkResourceInfo,
    /// Whether the native layer may write to the resource.
    pub read_write: bool,
}

/// The native resource that a description converts to: the kind tag is
/// fixed to the image-view variant, every description field is carried
/// over unchanged, and the writable mode becomes the read-write flag.
pub open spec fn spec_native_resource_of(value: VkImageResourceDescription) -> VkNativeResource {
    VkNativeResource {
        resource: VkResourceInfo::ImageView(
            VkImageViewInfo {
                image_view: value.image_view,
                image: value.image,
                subresource_range: value.subresource_range,
                format: value.format,
                width: value.width,
                height: value.height,
            },
        ),
        read_write: value.mode is Writable,
    }
}

impl From<VkImageResourceDescription> for VkNativeResource {
    /// Converts a description into the native resource layout.
    fn from(value: VkImageResourceDescription) -> (r: Self) {
        VkNativeResource {
            resource: VkResourceInfo::ImageView(
                VkImageViewInfo {
                    image_view: value.image_view,
                    image: value.image,
                    subresource_range: value.subresource_range,
                    format: value.format,
                    width: value.width,
                    height: value.height,
                },
            ),
            read_write: match value.mode {
                VkResourceMode::Writable => true,
                VkResourceMode::Readable => false,
            },
        }
    }
}

impl vstd::std_specs::convert::FromSpecImpl<VkImageResourceDescription> for VkNativeResource {
    open spec fn obeys_from_spec() -> bool {
        true
    }

    open spec fn from_spec(value: VkImageResourceDescription) -> Self {
        spec_native_resource_of(value)
    }
}

/// The conversion of a resource description is exact: the native struct
/// carries the view, image, range, format and dimensions unchanged, its
/// kind tag is the image-view variant, and its read-write flag is set if
/// and only if the description is writable.
pub proof fn lemma_resource_description_conversion_exact(value: VkImageResourceDescription)
    ensures
        spec_native_resource_of(value).resource == VkResourceInfo::ImageView(
            VkImageViewInfo {
                image_view: value.image_view,
                image: value.image,
                subresource_range: value.subresource_range,
                format: value.format,
                width: value.width,
                height: value.height,
            },
        ),
        spec_native_resource_of(value).read_write <==> value.mode == VkResourceMode::Writable,
{
}

} // verus!
