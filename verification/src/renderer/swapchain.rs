use vstd::prelude::*;
use crate::settings::PhysicalSize;
use crate::renderer::renderer_error::RendererCreationError;

verus! {

/// A pixel format, by its number in the graphics API.
#[derive(Clone, Copy, Debug, PartialEq, Eq, Structural)]
pub struct Format {
    pub code: u32,
}

/// The way presenting a swapchain is accomplished.
#[derive(Clone, Copy, Debug, PartialEq, Eq, Structural)]
pub enum PresentMode {
    Immediate,
    Mailbox,
    Fifo,
    Relaxed,
}

/// How the images are turned before they are shown.
#[derive(Clone, Copy, Debug, PartialEq, Eq, Structural)]
pub enum SurfaceTransform {
    Identity,
    Rotate90,
    Rotate180,
    Rotate270,
    HorizontalMirror,
    HorizontalMirrorRotate90,
    HorizontalMirrorRotate180,
    HorizontalMirrorRotate270,
    Inherit,
}

/// How the alpha of the images is laid over what is behind the window.
#[derive(Clone, Copy, Debug, PartialEq, Eq, Structural)]
pub enum CompositeAlpha {
    Opaque,
    PreMultiplied,
    PostMultiplied,
    Inherit,
}

/// List of `PresentMode`s that are supported.
#[derive(Clone, Copy, Debug, PartialEq, Eq, Structural)]
pub struct SupportedPresentModes {
    pub immediate: bool,
    pub mailbox: bool,
    pub fifo: bool,
    pub relaxed: bool,
}

/// What a surface can do with a given physical device.
#[derive(Clone, Debug, PartialEq, Eq)]
pub struct Capabilities {
    /// Minimum number of images that must be present in the swapchain.
    pub min_image_count: u32,
    /// The image usages that are supported, as a set of bits.
    pub supported_usage_flags: u32,
    /// The formats that are supported, the preferred one first.
    pub supported_formats: Vec<Format>,
    pub present_modes: SupportedPresentModes,
}

/// One of the images of a swapchain.
#[derive(Clone, Copy, Debug, PartialEq, Eq, Structural)]
pub struct SwapchainImage {
    /// Generation of the swapchain that the image belongs to.
    pub generation: u64,
    /// Position of the image in its swapchain.
    pub index: u32,
    pub dimensions: PhysicalSize,
    pub format: Format,
}

/// The ring of images that are presented to the screen. A swapchain is
/// never changed: a new one of the next generation takes its place.
#[derive(Clone, Copy, Debug, PartialEq, Eq, Structural)]
pub struct Swapchain {
    pub generation: u64,
    pub num_images: u32,
    pub format: Format,
    pub dimensions: PhysicalSize,
    /// Number of layers of each image.
    pub layers: u32,
    pub usage: u32,
    pub transform: SurfaceTransform,
    pub alpha: CompositeAlpha,
    pub present_mode: PresentMode,
    /// Whether pixels that cannot be seen may be left out.
    pub clipped: bool,
}

/// The present mode to ask for: mailbox for its low latency where the
/// surface has it, else the mode that every surface has.
pub open spec fn spec_choose_present_mode(modes: SupportedPresentModes) -> PresentMode {
    if modes.mailbox {
        PresentMode::Mailbox
    } else {
        PresentMode::Fifo
    }
}

/// The generation after `generation`. After the last one comes the first.
pub open spec fn spec_next_generation(generation: u64) -> u64 {
    if generation == u64::MAX {
        0
    } else {
        (generation + 1) as u64
    }
}

impl Swapchain {
    /// The images of this swapchain.
    pub open spec fn spec_images(&self) -> Seq<SwapchainImage> {
        Seq::new(
            self.num_images as nat,
            |i: int|
                SwapchainImage {
                    generation: self.generation,
                    index: i as u32,
                    dimensions: self.dimensions,
                    format: self.format,
                },
        )
    }

    /// The swapchain that takes the place of this one for a surface of the
    /// given size: the next generation, all else as before.
    pub open spec fn spec_recreate_with_dimension(&self, dimensions: PhysicalSize) -> Swapchain {
        Swapchain { generation: spec_next_generation(self.generation), dimensions, ..*self }
    }

    /// Returns the images of this swapchain, in their order.
    pub fn images(&self) -> (images: Vec<SwapchainImage>)
        ensures
            images@ == self.spec_images(),
    {
        let mut images: Vec<SwapchainImage> = Vec::new();
        let mut i: u32 = 0;
        while i < self.num_images
            invariant
                0 <= i <= self.num_images,
                images@.len() == i,
                forall|j: int| 0 <= j < i ==> images@[j] == self.spec_images()[j],
            decreases self.num_images - i,
        {
            images.push(
                SwapchainImage {
                    generation: self.generation,
                    index: i,
                    dimensions: self.dimensions,
                    format: self.format,
                },
            );
            i += 1;
        }
        assert(images@ =~= self.spec_images());
        images
    }

    /// Describes the swapchain that replaces this one when the surface has
    /// the given size, and its images.
    pub fn recreate_with_dimension(&self, dimensions: PhysicalSize) -> (recreated: (
        Swapchain,
        Vec<SwapchainImage>,
    ))
        ensures
            recreated.0 == self.spec_recreate_with_dimension(dimensions),
            recreated.1@ == recreated.0.spec_images(),
    {
        let generation = if self.generation == u64::MAX {
            0
        } else {
            self.generation + 1
        };
        let swapchain = Swapchain {
            generation,
            num_images: self.num_images,
            format: self.format,
            dimensions,
            layers: self.layers,
            usage: self.usage,
            transform: self.transform,
            alpha: self.alpha,
            present_mode: self.present_mode,
            clipped: self.clipped,
        };
        let images = swapchain.images();
        (swapchain, images)
    }

    /// Returns the format of the images.
    pub fn format(&self) -> (format: Format)
        ensures
            format == self.format,
    {
        self.format
    }

    /// Returns the size of the images.
    pub fn dimensions(&self) -> (dimensions: PhysicalSize)
        ensures
            dimensions == self.dimensions,
    {
        self.dimensions
    }

    /// Returns the number of images.
    pub fn num_images(&self) -> (num_images: u32)
        ensures
            num_images == self.num_images,
    {
        self.num_images
    }
}

/// The first swapchain for a surface with these capabilities and this
/// size, where the surface supports a format at all.
pub open spec fn spec_create_swapchain(
    capabilities: Capabilities,
    dimensions: PhysicalSize,
) -> Option<Swapchain> {
    if capabilities.supported_formats@.len() == 0 {
        None
    } else {
        Some(
            Swapchain {
                generation: 0,
                num_images: capabilities.min_image_count,
                format: capabilities.supported_formats@[0],
                dimensions,
                layers: 1,
                usage: capabilities.supported_usage_flags,
                transform: SurfaceTransform::Identity,
                alpha: CompositeAlpha::Opaque,
                present_mode: spec_choose_present_mode(capabilities.present_modes),
                clipped: true,
            },
        )
    }
}

/// Creates a swapchain, which is a collection of images that are presented
/// to the screen: as few images as the surface allows, in the first format
/// that it supports, as large as the window, of one layer, for every use
/// that the surface supports, shown as they are and opaque. Fails where
/// the surface supports no format.
pub fn create_swapchain(capabilities: &Capabilities, dimensions: PhysicalSize) -> (created: Result<
    (Swapchain, Vec<SwapchainImage>),
    RendererCreationError,
>)
    ensures
        match created {
            Ok((swapchain, images)) => spec_create_swapchain(*capabilities, dimensions) == Some(
                swapchain,
            ) && images@ == swapchain.spec_images(),
            Err(e) => spec_create_swapchain(*capabilities, dimensions) is None && e
                == RendererCreationError::SwapchainCreationError,
        },
{
    if capabilities.supported_formats.len() == 0 {
        return Err(RendererCreationError::SwapchainCreationError);
    }
    let format = capabilities.supported_formats[0];
    let present_mode = if capabilities.present_modes.mailbox {
        PresentMode::Mailbox
    } else {
        PresentMode::Fifo
    };
    let swapchain = Swapchain {
        generation: 0,
        num_images: capabilities.min_image_count,
        format,
        dimensions,
        layers: 1,
        usage: capabilities.supported_usage_flags,
        transform: SurfaceTransform::Identity,
        alpha: CompositeAlpha::Opaque,
        present_mode,
        clipped: true,
    };
    let images = swapchain.images();
    Ok((swapchain, images))
}

/// A swapchain recreated for a surface of unchanged size has as many
/// images as the one before it, in the same format and of the same size,
/// and none of its images is an image of the one before it.
pub proof fn lemma_recreation_keeps_swapchain(swapchain: Swapchain)
    ensures
        ({
            let recreated = swapchain.spec_recreate_with_dimension(swapchain.dimensions);
            &&& recreated.num_images == swapchain.num_images
            &&& recreated.format == swapchain.format
            &&& recreated.dimensions == swapchain.dimensions
            &&& recreated.present_mode == swapchain.present_mode
            &&& recreated == (Swapchain { generation: recreated.generation, ..swapchain })
            &&& recreated.spec_images().len() == swapchain.spec_images().len()
            &&& forall|i: int, j: int|
                0 <= i < recreated.spec_images().len() && 0 <= j < swapchain.spec_images().len()
                    ==> recreated.spec_images()[i] != swapchain.spec_images()[j]
        }),
{
}

} // verus!
