pub mod renderer_error;
pub mod queues;
pub mod uniform_manager;
pub mod shader;
pub mod swapchain;
pub mod pipeline;
pub mod command_buffer;
pub mod frame;

use vstd::prelude::*;
use crate::renderer::command_buffer::{
    AutoCommandBuffer,
    record,
    spec_after_record,
    spec_commands,
    spec_has_room,
};
use crate::renderer::frame::{
    FrameAction,
    FrameEvent,
    FrameScheduler,
    FrameState,
    spec_is_resting,
};
use crate::renderer::pipeline::{
    Framebuffer,
    Pipeline,
    RenderPass,
    create_framebuffers,
    create_pipeline,
    create_renderpass,
    spec_framebuffers,
    spec_is_pipeline,
    spec_renderpass,
};
use crate::renderer::queues::{
    QueueFamily,
    QueueRequest,
    Queues,
    find_queues,
    first_queues,
    spec_find_queues,
    spec_families_of,
    spec_first_queues,
    spec_graphics_family,
};
use crate::renderer::renderer_error::{AcquireError, RenderError, RendererCreationError};
use crate::renderer::shader::ShaderSet;
use crate::renderer::swapchain::{
    Capabilities,
    Swapchain,
    SwapchainImage,
    create_swapchain,
    spec_create_swapchain,
};
use crate::renderer::uniform_manager::{BufferPool, UniformManager};
use crate::resource::AssetManager;
use crate::settings::{PhysicalSize, Settings};

verus! {

/// Type of a physical device.
#[derive(Clone, Copy, Debug, PartialEq, Eq, Structural)]
pub enum PhysicalDeviceType {
    /// The device is an integrated GPU.
    IntegratedGpu,
    /// The device is a discrete GPU.
    DiscreteGpu,
    /// The device is a virtual GPU.
    VirtualGpu,
    /// The device is a CPU.
    Cpu,
    /// The device is something else.
    Other,
}

/// A graphics device of the machine, with what was read from it: its
/// kind, its queue families with what they can do for the surface, and
/// what the surface can do with it.
#[derive(Clone, Debug, PartialEq, Eq)]
pub struct PhysicalDevice {
    pub name: String,
    pub ty: PhysicalDeviceType,
    pub queue_families: Vec<QueueFamily>,
    pub capabilities: Capabilities,
}

/// How much a kind of device is wanted: a discrete GPU before a virtual
/// GPU before an integrated GPU before a CPU before anything else.
pub open spec fn spec_device_rank(ty: PhysicalDeviceType) -> int {
    match ty {
        PhysicalDeviceType::DiscreteGpu => 4,
        PhysicalDeviceType::VirtualGpu => 3,
        PhysicalDeviceType::IntegratedGpu => 2,
        PhysicalDeviceType::Cpu => 1,
        PhysicalDeviceType::Other => 0,
    }
}

/// Returns how much a kind of device is wanted.
pub fn device_rank(ty: PhysicalDeviceType) -> (rank: u8)
    ensures
        rank == spec_device_rank(ty),
{
    match ty {
        PhysicalDeviceType::DiscreteGpu => 4,
        PhysicalDeviceType::VirtualGpu => 3,
        PhysicalDeviceType::IntegratedGpu => 2,
        PhysicalDeviceType::Cpu => 1,
        PhysicalDeviceType::Other => 0,
    }
}

/// Whether the device at `chosen` is the one to use: no device is wanted
/// more, and of those wanted as much it is the first.
pub open spec fn spec_is_best_device(devices: Seq<PhysicalDevice>, chosen: int) -> bool {
    &&& 0 <= chosen < devices.len()
    &&& forall|j: int|
        0 <= j < devices.len() ==> spec_device_rank(#[trigger] devices[j].ty) <= spec_device_rank(
            devices[chosen].ty,
        )
    &&& forall|j: int|
        0 <= j < chosen ==> spec_device_rank(#[trigger] devices[j].ty) < spec_device_rank(
            devices[chosen].ty,
        )
}

/// The position of the device to use, where there is a device: a later
/// device takes the place of an earlier one only where it is wanted more.
pub open spec fn spec_rank_devices(devices: Seq<PhysicalDevice>) -> Option<int>
    decreases devices.len(),
{
    if devices.len() == 0 {
        None
    } else {
        match spec_rank_devices(devices.drop_last()) {
            Some(before) if spec_device_rank(devices[before].ty) >= spec_device_rank(
                devices.last().ty,
            ) => Some(before),
            _ => Some(devices.len() - 1),
        }
    }
}

/// `spec_rank_devices` finds the best device, and finds none only where
/// there is no device.
pub proof fn lemma_rank_devices(devices: Seq<PhysicalDevice>)
    ensures
        match spec_rank_devices(devices) {
            Some(chosen) => spec_is_best_device(devices, chosen),
            None => devices.len() == 0,
        },
    decreases devices.len(),
{
    if devices.len() > 0 {
        let front = devices.drop_last();
        lemma_rank_devices(front);
        assert forall|j: int| 0 <= j < front.len() implies front[j] == devices[j] by {}
        let chosen = spec_rank_devices(devices)->0;
        assert forall|j: int| 0 <= j < devices.len() implies spec_device_rank(
            #[trigger] devices[j].ty,
        ) <= spec_device_rank(devices[chosen].ty) by {
            if j < front.len() {
                assert(front[j] == devices[j]);
                if let Some(before) = spec_rank_devices(front) {
                    assert(spec_device_rank(front[j].ty) <= spec_device_rank(front[before].ty));
                }
            }
        }
        assert forall|j: int| 0 <= j < chosen implies spec_device_rank(
            #[trigger] devices[j].ty,
        ) < spec_device_rank(devices[chosen].ty) by {
            assert(front[j] == devices[j]);
            if let Some(before) = spec_rank_devices(front) {
                if j < before {
                    assert(spec_device_rank(front[j].ty) < spec_device_rank(front[before].ty));
                } else {
                    assert(spec_device_rank(front[j].ty) <= spec_device_rank(front[before].ty));
                }
            }
        }
    }
}

/// Where one of the devices is a discrete GPU, the device to use is a
/// discrete GPU.
pub proof fn lemma_discrete_gpu_is_chosen(devices: Seq<PhysicalDevice>, discrete: int)
    requires
        0 <= discrete < devices.len(),
        devices[discrete].ty == PhysicalDeviceType::DiscreteGpu,
    ensures
        spec_rank_devices(devices) matches Some(chosen) && 0 <= chosen < devices.len()
            && devices[chosen].ty == PhysicalDeviceType::DiscreteGpu,
{
    lemma_rank_devices(devices);
    let chosen = spec_rank_devices(devices)->0;
    assert(spec_device_rank(devices[discrete].ty) <= spec_device_rank(devices[chosen].ty));
}

/// Finds the best graphical device to render to: of the devices that are
/// wanted most, the one that comes first. Fails with
/// `NoPhysicalDeviceError` where there is no device.
pub fn rank_devices(devices: &Vec<PhysicalDevice>) -> (chosen: Result<usize, RendererCreationError>)
    ensures
        match chosen {
            Ok(i) => spec_rank_devices(devices@) == Some(i as int) && spec_is_best_device(
                devices@,
                i as int,
            ),
            Err(e) => spec_rank_devices(devices@) is None && devices@.len() == 0 && e
                == RendererCreationError::NoPhysicalDeviceError,
        },
{
    if devices.len() == 0 {
        return Err(RendererCreationError::NoPhysicalDeviceError);
    }
    proof {
        lemma_rank_devices(devices@);
    }
    let mut best: usize = 0;
    let mut k: usize = 1;
    proof {
        let first = devices@.subrange(0, 1);
        assert(first.drop_last() =~= Seq::<PhysicalDevice>::empty());
        assert(spec_rank_devices(first.drop_last()) is None);
        assert(spec_rank_devices(first) == Some(0int));
    }
    while k < devices.len()
        invariant
            1 <= k <= devices.len(),
            best < k,
            spec_rank_devices(devices@.subrange(0, k as int)) == Some(best as int),
        decreases devices.len() - k,
    {
        assert(devices@.subrange(0, k + 1).drop_last() =~= devices@.subrange(0, k as int));
        if device_rank(devices[k].ty) > device_rank(devices[best].ty) {
            best = k;
        }
        k += 1;
    }
    assert(devices@.subrange(0, k as int) =~= devices@);
    Ok(best)
}

/// Returns and updates current window dimensions: takes note of the inner
/// size that the window was found to have.
pub fn get_window_dimensions(settings: &mut Settings, inner_size: PhysicalSize) -> (dimensions:
    PhysicalSize)
    ensures
        dimensions == inner_size,
        *final(settings) == (Settings { window_size: inner_size, ..*old(settings) }),
{
    settings.set_window_size(inner_size);
    inner_size
}

/// The logical device to open: what it has to be able to do, and the
/// queues to open on it.
#[derive(Clone, Debug, PartialEq, Eq)]
pub struct DeviceRequest {
    /// Depth clamping, which shadow mapping needs.
    pub depth_clamp: bool,
    /// Swapchains, to show images with.
    pub khr_swapchain: bool,
    pub queues: Vec<QueueRequest>,
}

/// Describes the logical device to open on a physical device with these
/// queue families: one that clamps depths and has swapchains, with a
/// queue of each family that `find_queues` asks for.
pub fn create_logical_device(families: &Vec<QueueFamily>) -> (request: DeviceRequest)
    ensures
        request.depth_clamp,
        request.khr_swapchain,
        request.queues@ == spec_find_queues(families@),
{
    DeviceRequest { depth_clamp: true, khr_swapchain: true, queues: find_queues(families) }
}

/// Top level struct of the renderer: what it has decided about the
/// device, and where it stands from frame to frame.
#[derive(Clone, Debug, PartialEq, Eq)]
pub struct Renderer {
    /// Position of the physical device in use among those offered.
    pub device: usize,
    pub queues: Queues,
    pub swapchain: Swapchain,
    pub images: Vec<SwapchainImage>,
    pub uniform_manager: UniformManager,
    pub shader_set: ShaderSet,
    pub render_pass: RenderPass,
    pub pipeline: Pipeline,
    pub framebuffers: Vec<Framebuffer>,
    pub frame: FrameScheduler,
}

impl Renderer {
    /// The parts fit each other: the images are those of the swapchain,
    /// the render pass is made for their format, the pipeline for their
    /// size, and each image has its framebuffer.
    pub open spec fn wf(&self) -> bool {
        &&& self.frame.wf()
        &&& self.uniform_manager.wf()
        &&& self.shader_set.wf()
        &&& self.images@ == self.swapchain.spec_images()
        &&& self.render_pass == spec_renderpass(self.swapchain.format)
        &&& spec_is_pipeline(
            self.pipeline,
            self.shader_set,
            self.swapchain.dimensions,
            self.render_pass,
        )
        &&& self.framebuffers@ == spec_framebuffers(self.images@, self.render_pass)
    }

    /// Why no renderer can be made for these devices, if none can: there
    /// is no device, or the best device has no queue family that draws
    /// and presents, or the surface supports no format.
    pub open spec fn spec_new_error(devices: Seq<PhysicalDevice>) -> Option<RendererCreationError> {
        match spec_rank_devices(devices) {
            None => Some(RendererCreationError::NoPhysicalDeviceError),
            Some(chosen) => {
                let device = devices[chosen];
                if spec_graphics_family(device.queue_families@) is None {
                    Some(RendererCreationError::NoGraphicsQueueError)
                } else if device.capabilities.supported_formats@.len() == 0 {
                    Some(RendererCreationError::SwapchainCreationError)
                } else {
                    None
                }
            },
        }
    }

    /// Whether this is the new renderer for these settings and devices:
    /// it works on the best device with the first queues of that device's
    /// queue families, its swapchain is the first for the surface and a
    /// window as large as the settings say, the uniform manager is new
    /// with pools of the size that the settings say, and no frame is under
    /// way or in flight.
    pub open spec fn spec_is_new(&self, settings: Settings, devices: Seq<PhysicalDevice>) -> bool {
        let device = devices[self.device as int];
        &&& self.wf()
        &&& spec_rank_devices(devices) == Some(self.device as int)
        &&& Some(self.queues) == Queues::spec_new(spec_first_queues(device.queue_families@))
        &&& Some(self.swapchain) == spec_create_swapchain(device.capabilities, settings.window_size)
        &&& self.uniform_manager.spec_is_new(settings.uniform_pool_size)
        &&& self.frame == (FrameScheduler {
            state: FrameState::Idle,
            recreate_swapchain: false,
            previous_frame: None,
            image_num: 0,
            next_serial: 0,
        })
    }

    /// Creates new renderer for the best of `devices` and a window as
    /// large as the settings say. The roles go to the first queues of the
    /// device's queue families.
    pub fn new(settings: &Settings, devices: &Vec<PhysicalDevice>) -> (created: Result<
        Renderer,
        RendererCreationError,
    >)
        ensures
            match created {
                Ok(renderer) => Self::spec_new_error(devices@) is None && renderer.spec_is_new(
                    *settings,
                    devices@,
                ),
                Err(e) => Self::spec_new_error(devices@) == Some(e),
            },
    {
        let device = rank_devices(devices)?;
        let physical_device = &devices[device];
        let candidates = first_queues(&physical_device.queue_families);
        assert(spec_families_of(candidates@) =~= physical_device.queue_families@);
        let queues = match Queues::new(&candidates) {
            Some(queues) => queues,
            None => {
                return Err(RendererCreationError::NoGraphicsQueueError);
            },
        };
        let (swapchain, images) = create_swapchain(
            &physical_device.capabilities,
            settings.window_size(),
        )?;
        let uniform_manager = UniformManager::new(settings.uniform_pool_size());
        let shader_set = ShaderSet::load();
        let render_pass = create_renderpass(swapchain.format());
        let pipeline = create_pipeline(&shader_set, swapchain.dimensions(), &render_pass);
        let framebuffers = create_framebuffers(&images, &render_pass);
        Ok(
            Renderer {
                device,
                queues,
                swapchain,
                images,
                uniform_manager,
                shader_set,
                render_pass,
                pipeline,
                framebuffers,
                frame: FrameScheduler::new(),
            },
        )
    }

    /// Takes note of the number of images that the surface has made for
    /// the swapchain, which may be more than were asked for. The images
    /// and their framebuffers follow; all else stays.
    pub fn set_image_count(&mut self, num_images: u32)
        requires
            old(self).wf(),
        ensures
            final(self).wf(),
            final(self).swapchain == (Swapchain { num_images, ..old(self).swapchain }),
            *final(self) == (Renderer {
                swapchain: final(self).swapchain,
                images: final(self).images,
                framebuffers: final(self).framebuffers,
                ..*old(self)
            }),
    {
        self.swapchain.num_images = num_images;
        self.images = self.swapchain.images();
        self.framebuffers = create_framebuffers(&self.images, &self.render_pass);
    }

    /// Begins a frame. `previous_finished` says whether the device was
    /// found to be done with the frame before.
    ///
    /// Answers `RecreateSwapchain` where the swapchain is stale, else
    /// `AcquireImage`. Where no submitted frame is left in flight, the
    /// uniform chunks are free again. A frame that is under way is not
    /// begun again: the answer is `Unexpected`, and nothing changes.
    pub fn begin_frame(&mut self, previous_finished: bool) -> (action: FrameAction)
        requires
            old(self).wf(),
        ensures
            final(self).wf(),
            (final(self).frame, action) == old(self).frame.spec_step(
                FrameEvent::Begin { previous_finished },
            ),
            final(self).uniform_manager == if spec_is_resting(old(self).frame.state)
                && final(self).frame.previous_frame is None {
                old(self).uniform_manager.spec_release_all()
            } else {
                old(self).uniform_manager
            },
            *final(self) == (Renderer {
                frame: final(self).frame,
                uniform_manager: final(self).uniform_manager,
                ..*old(self)
            }),
    {
        let action = self.frame.step(FrameEvent::Begin { previous_finished });
        match action {
            FrameAction::Unexpected => {},
            _ => {
                if self.frame.previous_frame.is_none() {
                    self.uniform_manager.release_all();
                }
            },
        }
        action
    }

    /// Takes note of the outcome of a recreation of the swapchain, for a
    /// window of the size given by a good outcome.
    ///
    /// A good outcome puts the next generation of the swapchain in place,
    /// of the given size and else as before, with the pipeline and the
    /// framebuffers for its images; the answer is `AcquireImage`. A bad
    /// outcome costs the frame, and the swapchain stays stale. Where no
    /// recreation was asked for, the answer is `Unexpected`, and nothing
    /// changes.
    pub fn swapchain_recreated(&mut self, outcome: Result<PhysicalSize, RenderError>) -> (action:
        FrameAction)
        requires
            old(self).wf(),
        ensures
            final(self).wf(),
            (final(self).frame, action) == old(self).frame.spec_step(
                FrameEvent::SwapchainRecreated(
                    match outcome {
                        Ok(_) => Ok(()),
                        Err(e) => Err(e),
                    },
                ),
            ),
            final(self).device == old(self).device,
            final(self).queues == old(self).queues,
            final(self).uniform_manager == old(self).uniform_manager,
            final(self).shader_set == old(self).shader_set,
            final(self).render_pass == old(self).render_pass,
            match outcome {
                Ok(dimensions) if old(self).frame.state is Idle
                    && old(self).frame.recreate_swapchain => final(self).swapchain
                        == old(self).swapchain.spec_recreate_with_dimension(dimensions),
                _ => {
                    &&& final(self).swapchain == old(self).swapchain
                    &&& final(self).images == old(self).images
                    &&& final(self).pipeline == old(self).pipeline
                    &&& final(self).framebuffers == old(self).framebuffers
                },
            },
    {
        match self.frame.state {
            FrameState::Idle => {},
            _ => {
                return FrameAction::Unexpected;
            },
        }
        if !self.frame.recreate_swapchain {
            return FrameAction::Unexpected;
        }
        match outcome {
            Ok(dimensions) => {
                let (new_swapchain, new_images) = self.swapchain.recreate_with_dimension(
                    dimensions,
                );
                self.swapchain = new_swapchain;
                self.images = new_images;
                self.pipeline = create_pipeline(
                    &self.shader_set,
                    self.swapchain.dimensions(),
                    &self.render_pass,
                );
                self.framebuffers = create_framebuffers(&self.images, &self.render_pass);
                self.frame.step(FrameEvent::SwapchainRecreated(Ok(())))
            },
            Err(e) => self.frame.step(FrameEvent::SwapchainRecreated(Err(e))),
        }
    }

    /// Takes note of the outcome of the acquisition of an image.
    ///
    /// With an image the answer is `Record`. Without one the frame is
    /// dropped, and a swapchain that is out of date is marked as stale.
    pub fn image_acquired(&mut self, outcome: Result<usize, AcquireError>) -> (action: FrameAction)
        requires
            old(self).wf(),
        ensures
            final(self).wf(),
            (final(self).frame, action) == old(self).frame.spec_step(
                FrameEvent::ImageAcquired(outcome),
            ),
            *final(self) == (Renderer { frame: final(self).frame, ..*old(self) }),
    {
        self.frame.step(FrameEvent::ImageAcquired(outcome))
    }

    /// Creates command buffer using active scene in asset manager, for
    /// the framebuffer of the image at `image_num`.
    pub fn create_command_buffer(
        &mut self,
        image_num: usize,
        asset_manager: &AssetManager,
    ) -> (recorded: Result<AutoCommandBuffer, RenderError>)
        requires
            old(self).wf(),
            asset_manager.wf(),
        ensures
            final(self).wf(),
            *final(self) == (Renderer {
                uniform_manager: final(self).uniform_manager,
                ..*old(self)
            }),
            match recorded {
                Ok(command_buffer) => {
                    &&& image_num < old(self).framebuffers@.len()
                    &&& spec_has_room(old(self).uniform_manager, *asset_manager)
                    &&& command_buffer.one_time_submit
                    &&& command_buffer.commands@ == spec_commands(
                        old(self).framebuffers@[image_num as int],
                        old(self).uniform_manager,
                        *asset_manager,
                    )
                    &&& final(self).uniform_manager == spec_after_record(
                        old(self).uniform_manager,
                        *asset_manager,
                    )
                },
                Err(e) => {
                    &&& final(self).uniform_manager == old(self).uniform_manager
                    &&& e == if image_num >= old(self).framebuffers@.len() {
                        RenderError::BeginRenderPassError
                    } else {
                        RenderError::DeviceMemoryAllocError
                    }
                    &&& image_num < old(self).framebuffers@.len() ==> !spec_has_room(
                        old(self).uniform_manager,
                        *asset_manager,
                    )
                },
            },
    {
        record(image_num, &self.framebuffers, &mut self.uniform_manager, asset_manager)
    }

    /// Takes note of the outcome of the recording of the commands, where
    /// the caller has had them recorded with `create_command_buffer` and
    /// has made of them what the device takes.
    ///
    /// A good outcome is answered with `Submit`; a bad one drops the
    /// frame. Where no commands were to be recorded, the answer is
    /// `Unexpected`, and nothing changes.
    pub fn frame_recorded(&mut self, outcome: Result<(), RenderError>) -> (action: FrameAction)
        requires
            old(self).wf(),
        ensures
            final(self).wf(),
            (final(self).frame, action) == old(self).frame.spec_step(FrameEvent::Recorded(outcome)),
            *final(self) == (Renderer { frame: final(self).frame, ..*old(self) }),
    {
        self.frame.step(FrameEvent::Recorded(outcome))
    }

    /// Records the commands of the frame under way, for the image that
    /// was acquired.
    ///
    /// With the commands comes the answer `Submit`. Where they cannot be
    /// recorded the frame is dropped. Where no image was acquired the
    /// answer is `Unexpected`, and nothing changes.
    pub fn record_frame(&mut self, asset_manager: &AssetManager) -> (recorded: (
        FrameAction,
        Option<AutoCommandBuffer>,
    ))
        requires
            old(self).wf(),
            asset_manager.wf(),
        ensures
            final(self).wf(),
            *final(self) == (Renderer {
                uniform_manager: final(self).uniform_manager,
                frame: final(self).frame,
                ..*old(self)
            }),
            if !(old(self).frame.state is Recording) {
                &&& recorded.0 == FrameAction::Unexpected
                &&& recorded.1 is None
                &&& *final(self) == *old(self)
            } else if old(self).frame.image_num >= old(self).framebuffers@.len() {
                &&& (final(self).frame, recorded.0) == old(self).frame.spec_step(
                    FrameEvent::Recorded(Err(RenderError::BeginRenderPassError)),
                )
                &&& recorded.1 is None
                &&& final(self).uniform_manager == old(self).uniform_manager
            } else if !spec_has_room(old(self).uniform_manager, *asset_manager) {
                &&& (final(self).frame, recorded.0) == old(self).frame.spec_step(
                    FrameEvent::Recorded(Err(RenderError::DeviceMemoryAllocError)),
                )
                &&& recorded.1 is None
                &&& final(self).uniform_manager == old(self).uniform_manager
            } else {
                &&& (final(self).frame, recorded.0) == old(self).frame.spec_step(
                    FrameEvent::Recorded(Ok(())),
                )
                &&& recorded.1 matches Some(command_buffer) && command_buffer.one_time_submit
                    && command_buffer.commands@
                    == spec_commands(
                    old(self).framebuffers@[old(self).frame.image_num as int],
                    old(self).uniform_manager,
                    *asset_manager,
                )
                &&& final(self).uniform_manager == spec_after_record(
                    old(self).uniform_manager,
                    *asset_manager,
                )
            },
    {
        match self.frame.state {
            FrameState::Recording => {},
            _ => {
                return (FrameAction::Unexpected, None);
            },
        }
        let image_num = self.frame.image_num;
        match self.create_command_buffer(image_num, asset_manager) {
            Ok(command_buffer) => {
                let action = self.frame_recorded(Ok(()));
                (action, Some(command_buffer))
            },
            Err(e) => {
                let action = self.frame_recorded(Err(e));
                (action, None)
            },
        }
    }

    /// Takes note of the outcome of the submission: of the execution of
    /// the commands, the presentation of the image and the signal behind
    /// them.
    ///
    /// A good outcome ends the frame, which is now the one in flight. A
    /// bad one drops the frame, and a swapchain that is out of date is
    /// marked as stale.
    pub fn frame_flushed(&mut self, outcome: Result<(), RenderError>) -> (action: FrameAction)
        requires
            old(self).wf(),
        ensures
            final(self).wf(),
            (final(self).frame, action) == old(self).frame.spec_step(FrameEvent::Flushed(outcome)),
            *final(self) == (Renderer { frame: final(self).frame, ..*old(self) }),
    {
        self.frame.step(FrameEvent::Flushed(outcome))
    }

    /// Marks the swapchain as stale, as after a change of the window's
    /// size: it is recreated when the next frame begins.
    pub fn force_recreate_swapchain(&mut self)
        requires
            old(self).wf(),
        ensures
            final(self).wf(),
            *final(self) == (Renderer {
                frame: FrameScheduler { recreate_swapchain: true, ..old(self).frame },
                ..*old(self)
            }),
    {
        self.frame.force_recreate_swapchain();
    }

    /// Returns the queues that the renderer works with.
    pub fn queues(&self) -> (queues: Queues)
        ensures
            queues == self.queues,
    {
        self.queues
    }

    /// Returns the position of the physical device in use.
    pub fn device(&self) -> (device: usize)
        ensures
            device == self.device,
    {
        self.device
    }
}

/// After a recreation of the swapchain the framebuffers are those of the
/// new images, none of which is an image of the swapchain before, and
/// the pipeline draws over the whole of the new size. For a window of
/// unchanged size there are as many images as before, in the same format.
pub proof fn lemma_recreation_leaves_nothing_stale(
    before: Renderer,
    after: Renderer,
    dimensions: PhysicalSize,
)
    requires
        before.wf(),
        after.wf(),
        after.swapchain == before.swapchain.spec_recreate_with_dimension(dimensions),
    ensures
        after.framebuffers@.len() == after.images@.len(),
        forall|i: int|
            0 <= i < after.framebuffers@.len() ==> (#[trigger] after.framebuffers@[i]).image
                == after.swapchain.spec_images()[i],
        forall|i: int, j: int|
            0 <= i < after.framebuffers@.len() && 0 <= j < before.images@.len() ==> (
            #[trigger] after.framebuffers@[i]).image != #[trigger] before.images@[j],
        after.pipeline.viewport.dimensions == dimensions,
        after.swapchain.format == before.swapchain.format,
        after.swapchain.num_images == before.swapchain.num_images,
        dimensions == before.swapchain.dimensions ==> after.images@.len() == before.images@.len()
            && after.swapchain.dimensions == before.swapchain.dimensions,
{
    assert forall|i: int, j: int|
        0 <= i < after.framebuffers@.len() && 0 <= j < before.images@.len() implies (
    #[trigger] after.framebuffers@[i]).image != #[trigger] before.images@[j] by {
        assert(after.framebuffers@[i].image.generation == after.swapchain.generation);
        assert(before.images@[j].generation == before.swapchain.generation);
    }
}

} // verus!
