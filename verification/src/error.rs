use vstd::prelude::*;

verus! {

/// Errors that the renderer's decision logic reports.
#[derive(Debug)]
pub enum HobbyError {
    /// No physical device passed the suitability test.
    NoSuitablePhysicalDevice,
    /// No queue family supports graphics operations.
    NoGraphicsQueueFamily,
    /// No queue family can present to the surface.
    NoPresentQueueFamily,
    /// No memory type matches the filter and the required properties.
    NoSuitableMemoryType { type_filter: u32, required_properties: u32 },
    /// Validation layers were requested and the check on them failed.
    ValidationLayersUnavailable,
    /// A shader file has an extension that names no known shader stage.
    UnknownShaderType { shader_type: String, file_name: String },
    /// Shader code is not a well formed SPIR-V word stream.
    InvalidSpirv,
    /// The bytes of a texture are not a JPEG image that can be decoded.
    InvalidTextureImage,
    /// A vertex lacks the color a basic vertex needs.
    MissingVertexColor,
    /// A vertex lacks the texture coordinate a textured vertex needs.
    MissingVertexTexCoord,
    /// A glTF primitive has no POSITION attribute.
    MissingPositions { mesh_index: usize, primitive_index: usize },
    /// A glTF primitive has no indices.
    MissingIndices { mesh_index: usize, primitive_index: usize },
    /// The next swapchain image could not be acquired.
    AcquireImageFailed,
    /// The rendered image could not be presented.
    QueuePresentFailed,
}

} // verus!
