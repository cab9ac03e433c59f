use vstd::prelude::*;

verus! {

/// Why an image could not be acquired from the swapchain.
#[derive(Clone, Copy, Debug, PartialEq, Eq, Structural)]
pub enum AcquireError {
    /// Not enough memory.
    OomError,
    /// The connection to the device has been lost.
    DeviceLost,
    /// No image became available in time.
    Timeout,
    /// The surface is no longer accessible.
    SurfaceLost,
    /// The surface changed so that the swapchain no longer fits it.
    OutOfDate,
}

/// Why submitted work could not be flushed to the device.
#[derive(Clone, Copy, Debug, PartialEq, Eq, Structural)]
pub enum FlushError {
    /// Access to a resource has been denied.
    AccessError,
    /// Not enough memory.
    OomError,
    /// The connection to the device has been lost.
    DeviceLost,
    /// The surface is no longer accessible.
    SurfaceLost,
    /// The surface changed so that the swapchain no longer fits it.
    OutOfDate,
    /// The flush had to wait and the wait ran out.
    Timeout,
}

/// Why the renderer could not be set up. None of these is recovered from.
#[derive(Clone, Copy, Debug, PartialEq, Eq, Structural)]
pub enum RendererCreationError {
    InstanceCreationError,
    WindowCreationError,
    DeviceCreationError,
    CapabilitiesError,
    SwapchainCreationError,
    GraphicsPipelineCreationError,
    FramebufferCreationError,
    RenderPassCreationError,
    /// Couldn't find usable physical device.
    NoPhysicalDeviceError,
    /// The chosen device has no queue family that both draws and presents
    /// to the surface.
    NoGraphicsQueueError,
}

/// Why a frame was dropped. The renderer stays usable after each of these.
#[derive(Clone, Copy, Debug, PartialEq, Eq, Structural)]
pub enum RenderError {
    SwapchainCreationError,
    GraphicsPipelineCreationError,
    FramebufferCreationError,
    AcquireError(AcquireError),
    OomError,
    BeginRenderPassError,
    DeviceMemoryAllocError,
    PersistentDescriptorSetError,
    PersistentDescriptorSetBuildError,
    DrawIndexedError,
    AutoCommandBufferBuilderContextError,
    CommandBufferBuildError,
    CommandBufferExecError,
    FlushError(FlushError),
    ExecuteCommandsError,
}

} // verus!
