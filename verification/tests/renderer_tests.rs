use ketch::renderer::command_buffer::{record, ClearColor, Command};
use ketch::renderer::frame::{FrameAction, FrameEvent, FrameScheduler, FrameState, FrameToken};
use ketch::renderer::pipeline::{
    create_framebuffers, create_pipeline, create_renderpass, LoadOp, PrimitiveTopology, StoreOp,
};
use ketch::renderer::queues::{
    assign_queue_roles, find_queues, first_queues, Queue, QueueFamily, QueueRequest, QueueRoles,
    Queues,
};
use ketch::renderer::renderer_error::{AcquireError, FlushError, RenderError, RendererCreationError};
use ketch::renderer::shader::{ShaderSet, ShaderStage, VertexAttributeKind};
use ketch::renderer::swapchain::{
    create_swapchain, Capabilities, CompositeAlpha, Format, PresentMode, SupportedPresentModes,
    SurfaceTransform,
};
use ketch::renderer::uniform_manager::{BufferPool, LightData, TransformationData, UniformManager};
use ketch::renderer::{
    create_logical_device, device_rank, get_window_dimensions, rank_devices, PhysicalDevice,
    PhysicalDeviceType, Renderer,
};
use ketch::resource::camera::Camera;
use ketch::resource::mesh::MeshHandle;
use ketch::resource::object::{IdGenerator, ObjectBuilder};
use ketch::resource::scene::Scene;
use ketch::resource::texture::GpuHandle;
use ketch::resource::AssetManager;
use ketch::scalar::{Mat4, Vec3, HALF_BITS, ONE_BITS, THREE_QUARTERS_BITS, ZERO_BITS};
use ketch::settings::{PhysicalSize, Settings};

fn capabilities(mailbox: bool) -> Capabilities {
    Capabilities {
        min_image_count: 2,
        supported_usage_flags: 0x10,
        supported_formats: vec![Format { code: 50 }, Format { code: 44 }],
        present_modes: SupportedPresentModes { immediate: true, mailbox, fifo: true, relaxed: false },
    }
}

fn family(id: u32, graphics: bool, compute: bool, transfers: bool, present: bool) -> QueueFamily {
    QueueFamily {
        id,
        queues_count: 1,
        supports_graphics: graphics,
        supports_compute: compute,
        supports_transfers: transfers,
        supports_present: present,
    }
}

fn device(ty: PhysicalDeviceType) -> PhysicalDevice {
    PhysicalDevice {
        name: "gpu".to_string(),
        ty,
        queue_families: vec![family(0, true, true, true, true)],
        capabilities: capabilities(true),
    }
}

fn renderer() -> Renderer {
    let settings = Settings::new("test".to_string(), 600, 400);
    Renderer::new(&settings, &vec![device(PhysicalDeviceType::DiscreteGpu)]).unwrap()
}

fn asset_manager() -> AssetManager {
    AssetManager::new(GpuHandle { id: 1 }, GpuHandle { id: 2 })
}

fn matrix(cells: [f32; 16]) -> Mat4 {
    let mut bits = [0u32; 16];
    for i in 0..16 {
        bits[i] = cells[i].to_bits();
    }
    Mat4::from_cells(bits)
}

fn translation(x: f32, y: f32, z: f32) -> Mat4 {
    matrix([1.0, 0.0, 0.0, 0.0, 0.0, 1.0, 0.0, 0.0, 0.0, 0.0, 1.0, 0.0, x, y, z, 1.0])
}

fn draws(commands: &[Command]) -> usize {
    commands.iter().filter(|c| matches!(c, Command::DrawIndexed { .. })).count()
}

#[test]
fn scalar_constants_are_the_bits_of_their_numbers() {
    assert_eq!(ZERO_BITS, 0.0f32.to_bits());
    assert_eq!(ONE_BITS, 1.0f32.to_bits());
    assert_eq!(THREE_QUARTERS_BITS, 0.75f32.to_bits());
    assert_eq!(HALF_BITS, 0.5f32.to_bits());
}

#[test]
fn identity_matrix_has_ones_on_the_diagonal() {
    let identity = Mat4::identity();
    assert_eq!(identity, translation(0.0, 0.0, 0.0));
}

#[test]
fn device_ranks_follow_the_order_of_preference() {
    assert_eq!(device_rank(PhysicalDeviceType::DiscreteGpu), 4);
    assert_eq!(device_rank(PhysicalDeviceType::VirtualGpu), 3);
    assert_eq!(device_rank(PhysicalDeviceType::IntegratedGpu), 2);
    assert_eq!(device_rank(PhysicalDeviceType::Cpu), 1);
    assert_eq!(device_rank(PhysicalDeviceType::Other), 0);
}

#[test]
fn rank_devices_prefers_discrete_gpu() {
    let devices = vec![
        device(PhysicalDeviceType::IntegratedGpu),
        device(PhysicalDeviceType::DiscreteGpu),
        device(PhysicalDeviceType::Cpu),
        device(PhysicalDeviceType::VirtualGpu),
        device(PhysicalDeviceType::Other),
    ];
    assert_eq!(rank_devices(&devices), Ok(1));
}

#[test]
fn rank_devices_prefers_virtual_gpu_to_integrated_gpu() {
    let devices = vec![
        device(PhysicalDeviceType::Cpu),
        device(PhysicalDeviceType::IntegratedGpu),
        device(PhysicalDeviceType::VirtualGpu),
        device(PhysicalDeviceType::Other),
    ];
    assert_eq!(rank_devices(&devices), Ok(2));
}

#[test]
fn rank_devices_takes_the_first_of_equals() {
    let devices = vec![
        device(PhysicalDeviceType::DiscreteGpu),
        device(PhysicalDeviceType::IntegratedGpu),
        device(PhysicalDeviceType::DiscreteGpu),
        device(PhysicalDeviceType::Cpu),
    ];
    assert_eq!(rank_devices(&devices), Ok(0));

    let devices = vec![
        device(PhysicalDeviceType::Other),
        device(PhysicalDeviceType::Cpu),
        device(PhysicalDeviceType::IntegratedGpu),
        device(PhysicalDeviceType::Cpu),
        device(PhysicalDeviceType::IntegratedGpu),
    ];
    assert_eq!(rank_devices(&devices), Ok(2));
}

#[test]
fn rank_devices_fails_without_devices() {
    let devices: Vec<PhysicalDevice> = vec![];
    assert_eq!(rank_devices(&devices), Err(RendererCreationError::NoPhysicalDeviceError));
}

#[test]
fn queue_roles_go_to_the_first_fitting_families() {
    let families = vec![
        family(0, false, true, true, false),
        family(1, true, true, true, false),
        family(2, true, true, true, true),
        family(3, false, false, true, false),
        family(4, true, true, true, true),
    ];
    assert_eq!(
        assign_queue_roles(&families),
        QueueRoles { graphics: Some(2), compute: Some(0), transfer: Some(1) }
    );
}

#[test]
fn find_queues_asks_for_each_chosen_family_in_order() {
    let families = vec![
        family(0, true, true, true, true),
        family(1, false, true, true, false),
        family(2, false, false, true, false),
        family(3, false, false, true, false),
    ];
    assert_eq!(
        find_queues(&families),
        vec![
            QueueRequest { family: families[0], priority: 1.0f32.to_bits() },
            QueueRequest { family: families[1], priority: 0.75f32.to_bits() },
            QueueRequest { family: families[2], priority: 0.5f32.to_bits() },
        ]
    );
}

#[test]
fn find_queues_asks_for_nothing_without_families() {
    assert_eq!(find_queues(&vec![]), vec![]);
    assert_eq!(find_queues(&vec![family(0, false, false, false, true)]), vec![]);
}

#[test]
fn graphics_needs_a_family_that_presents() {
    let families = vec![family(0, true, true, true, false)];
    let roles = assign_queue_roles(&families);
    assert_eq!(roles.graphics, None);
    assert_eq!(roles.compute, Some(0));
    let queues = vec![Queue { family: families[0], id_within_family: 0 }];
    assert_eq!(Queues::new(&queues), None);
}

#[test]
fn compute_falls_back_to_graphics_and_transfer_to_compute() {
    let only = Queue { family: family(0, true, true, true, true), id_within_family: 0 };
    let queues = Queues::new(&vec![only]).unwrap();
    assert_eq!(queues.graphics_queue(), only);
    assert_eq!(queues.compute_queue(), only);
    assert_eq!(queues.transfer_queue(), only);
}

#[test]
fn transfer_falls_back_to_a_dedicated_compute_queue() {
    let graphics = Queue { family: family(0, true, true, true, true), id_within_family: 0 };
    let compute = Queue { family: family(1, false, true, false, false), id_within_family: 0 };
    let queues = Queues::new(&vec![graphics, compute]).unwrap();
    assert_eq!(queues.graphics_queue(), graphics);
    assert_eq!(queues.compute_queue(), compute);
    assert_eq!(queues.transfer_queue(), compute);
}

#[test]
fn dedicated_queues_take_their_roles() {
    let transfer = Queue { family: family(2, false, false, true, false), id_within_family: 0 };
    let compute = Queue { family: family(1, false, true, true, false), id_within_family: 0 };
    let graphics = Queue { family: family(0, true, true, true, true), id_within_family: 0 };
    let queues = Queues::new(&vec![transfer, compute, graphics]).unwrap();
    assert_eq!(queues.graphics_queue(), graphics);
    assert_eq!(queues.compute_queue(), compute);
    assert_eq!(queues.transfer_queue(), transfer);
}

#[test]
fn roles_go_to_the_first_queues_of_the_families() {
    let families = vec![family(3, false, true, true, false), family(5, true, true, true, true)];
    let queues = first_queues(&families);
    assert_eq!(
        queues,
        vec![
            Queue { family: families[0], id_within_family: 0 },
            Queue { family: families[1], id_within_family: 0 },
        ]
    );
    let mut device = device(PhysicalDeviceType::DiscreteGpu);
    device.queue_families = families;
    let settings = Settings::new("test".to_string(), 600, 400);
    let renderer = Renderer::new(&settings, &vec![device]).unwrap();
    assert_eq!(
        renderer.queues(),
        Queues { graphics_queue: queues[1], compute_queue: queues[0], transfer_queue: queues[0] }
    );
}

#[test]
fn logical_device_clamps_depths_and_has_swapchains() {
    let families = vec![family(0, true, true, true, true), family(1, false, true, true, false)];
    let request = create_logical_device(&families);
    assert!(request.depth_clamp);
    assert!(request.khr_swapchain);
    assert_eq!(request.queues, find_queues(&families));
    assert_eq!(request.queues.len(), 2);
}

#[test]
fn swapchain_prefers_mailbox() {
    let size = PhysicalSize { width: 600, height: 400 };
    let (swapchain, images) = create_swapchain(&capabilities(true), size).unwrap();
    assert_eq!(swapchain.present_mode, PresentMode::Mailbox);
    assert_eq!(swapchain.format(), Format { code: 50 });
    assert_eq!(swapchain.num_images(), 2);
    assert_eq!(swapchain.dimensions(), size);
    assert_eq!(swapchain.usage, 0x10);
    assert_eq!(swapchain.generation, 0);
    assert_eq!(swapchain.layers, 1);
    assert_eq!(swapchain.transform, SurfaceTransform::Identity);
    assert_eq!(swapchain.alpha, CompositeAlpha::Opaque);
    assert!(swapchain.clipped);
    assert_eq!(images.len(), 2);
    assert_eq!(images[1].index, 1);
    assert_eq!(images[1].dimensions, size);
    assert_eq!(images[1].format, Format { code: 50 });
    assert_eq!(images, swapchain.images());
}

#[test]
fn swapchain_falls_back_to_fifo() {
    let size = PhysicalSize { width: 600, height: 400 };
    let (swapchain, _) = create_swapchain(&capabilities(false), size).unwrap();
    assert_eq!(swapchain.present_mode, PresentMode::Fifo);
}

#[test]
fn swapchain_needs_a_format() {
    let mut capabilities = capabilities(true);
    capabilities.supported_formats.clear();
    let size = PhysicalSize { width: 600, height: 400 };
    assert_eq!(
        create_swapchain(&capabilities, size),
        Err(RendererCreationError::SwapchainCreationError)
    );
}

#[test]
fn recreation_with_unchanged_size_keeps_count_and_format() {
    let size = PhysicalSize { width: 600, height: 400 };
    let (swapchain, images) = create_swapchain(&capabilities(true), size).unwrap();
    let (recreated, new_images) = swapchain.recreate_with_dimension(size);
    assert_eq!(recreated.num_images(), swapchain.num_images());
    assert_eq!(recreated.format(), swapchain.format());
    assert_eq!(recreated.dimensions(), swapchain.dimensions());
    assert_eq!(recreated.present_mode, swapchain.present_mode);
    assert_eq!(recreated.generation, 1);
    assert_eq!(recreated, ketch::renderer::swapchain::Swapchain { generation: 1, ..swapchain });
    assert_eq!(new_images.len(), images.len());
    for new_image in &new_images {
        assert!(!images.contains(new_image));
    }
}

#[test]
fn generation_wraps_around() {
    let size = PhysicalSize { width: 1, height: 1 };
    let (mut swapchain, _) = create_swapchain(&capabilities(true), size).unwrap();
    swapchain.generation = u64::MAX;
    assert_eq!(swapchain.recreate_with_dimension(size).0.generation, 0);
}

#[test]
fn render_pass_clears_and_stores_one_color_attachment() {
    let render_pass = create_renderpass(Format { code: 50 });
    assert_eq!(render_pass.color.format, Format { code: 50 });
    assert_eq!(render_pass.color.samples, 1);
    assert_eq!(render_pass.color.load, LoadOp::Clear);
    assert_eq!(render_pass.color.store, StoreOp::Store);
    assert_eq!(render_pass.depth_stencil, None);
}

#[test]
fn pipeline_draws_triangle_lists_over_the_whole_image() {
    let shader_set = ShaderSet::load();
    let render_pass = create_renderpass(Format { code: 50 });
    let size = PhysicalSize { width: 800, height: 600 };
    let pipeline = create_pipeline(&shader_set, size, &render_pass);
    assert_eq!(pipeline.topology, PrimitiveTopology::TriangleList);
    assert_eq!(pipeline.viewport.dimensions, size);
    assert_eq!(pipeline.viewport.origin_x, 0.0f32.to_bits());
    assert_eq!(pipeline.viewport.origin_y, 0.0f32.to_bits());
    assert_eq!(pipeline.viewport.depth_near, 0.0f32.to_bits());
    assert_eq!(pipeline.viewport.depth_far, 1.0f32.to_bits());
    assert_eq!(pipeline.render_pass, render_pass);
    assert_eq!(pipeline.subpass, 0);
    assert_eq!(pipeline.shader_set, shader_set);
    assert_eq!(pipeline.vertex_layout, ShaderSet::vertex_layout());
}

#[test]
fn vertex_layout_is_position_normal_texture_coordinate() {
    let layout = ShaderSet::vertex_layout();
    assert_eq!(layout.stride, 32);
    assert_eq!(layout.attributes.len(), 3);
    assert_eq!(layout.attributes[0].kind, VertexAttributeKind::Position);
    assert_eq!((layout.attributes[0].components, layout.attributes[0].offset), (3, 0));
    assert_eq!(layout.attributes[1].kind, VertexAttributeKind::Normal);
    assert_eq!((layout.attributes[1].components, layout.attributes[1].offset), (3, 12));
    assert_eq!(layout.attributes[2].kind, VertexAttributeKind::TexCoord);
    assert_eq!((layout.attributes[2].components, layout.attributes[2].offset), (2, 24));
}

#[test]
fn shader_set_has_a_shader_for_each_stage() {
    let shader_set = ShaderSet::load();
    assert_eq!(shader_set.vertex_shader().stage, ShaderStage::Vertex);
    assert_eq!(shader_set.fragment_shader().stage, ShaderStage::Fragment);
}

#[test]
fn each_image_gets_its_framebuffer() {
    let size = PhysicalSize { width: 600, height: 400 };
    let (_, images) = create_swapchain(&capabilities(true), size).unwrap();
    let render_pass = create_renderpass(Format { code: 50 });
    let framebuffers = create_framebuffers(&images, &render_pass);
    assert_eq!(framebuffers.len(), 2);
    assert_eq!(framebuffers[0].image, images[0]);
    assert_eq!(framebuffers[1].image, images[1]);
    assert_eq!(framebuffers[1].render_pass, render_pass);
    assert_eq!(create_framebuffers(&vec![], &render_pass), vec![]);
}

#[test]
fn window_dimensions_are_taken_over_into_the_settings() {
    let mut settings = Settings::new("test".to_string(), 600, 400);
    let size = PhysicalSize { width: 1024, height: 768 };
    assert_eq!(get_window_dimensions(&mut settings, size), size);
    assert_eq!(settings.window_size(), size);
}

#[test]
fn buffer_pool_hands_out_the_chunks_of_the_ring_in_turn() {
    let mut pool = BufferPool::new(3);
    assert_eq!(pool.free(), 3);
    assert_eq!(pool.next(), Ok(0));
    assert_eq!(pool.next(), Ok(1));
    pool.release_all();
    assert_eq!(pool.next(), Ok(2));
    assert_eq!(pool.next(), Ok(0));
    assert_eq!(pool.next(), Ok(1));
    assert_eq!(pool.free(), 0);
    assert_eq!(pool, BufferPool { buffer: 0, capacity: 3, head: 2, in_use: 3 });
    pool.release_all();
    assert_eq!(pool, BufferPool { buffer: 0, capacity: 3, head: 2, in_use: 0 });
}

#[test]
fn buffer_pool_goes_on_in_a_buffer_twice_as_large() {
    let mut pool = BufferPool::new(3);
    for _ in 0..3 {
        pool.next().unwrap();
    }
    assert_eq!(pool.next(), Ok(0));
    assert_eq!(pool, BufferPool { buffer: 1, capacity: 6, head: 0, in_use: 1 });
    assert_eq!(pool.next(), Ok(1));

    let mut pool = BufferPool::new(0);
    assert_eq!(pool.next(), Ok(0));
    assert_eq!(pool, BufferPool { buffer: 1, capacity: 2, head: 0, in_use: 1 });
    pool.release_all();
    assert_eq!(pool, BufferPool { buffer: 1, capacity: 2, head: 1, in_use: 0 });

    let mut pool = BufferPool { buffer: u64::MAX, capacity: 1, head: 0, in_use: 1 };
    assert_eq!(pool.next(), Ok(0));
    assert_eq!(pool, BufferPool { buffer: 0, capacity: 2, head: 0, in_use: 1 });
}

#[test]
fn buffer_pool_is_given_room_where_it_lacks_it() {
    let mut pool = BufferPool { buffer: 4, capacity: 8, head: 5, in_use: 6 };
    assert_eq!(pool.reserve(2), Ok(()));
    assert_eq!(pool, BufferPool { buffer: 4, capacity: 8, head: 5, in_use: 6 });
    assert_eq!(pool.reserve(0), Ok(()));
    assert_eq!(pool.reserve(3), Ok(()));
    assert_eq!(pool, BufferPool { buffer: 5, capacity: 16, head: 0, in_use: 0 });
    assert_eq!(pool.reserve(16), Ok(()));
    assert_eq!(pool.buffer, 5);
    assert_eq!(pool.reserve(17), Ok(()));
    assert_eq!(pool, BufferPool { buffer: 6, capacity: 34, head: 0, in_use: 0 });
}

#[test]
fn buffer_pool_fails_only_where_the_machine_cannot_count_the_chunks() {
    let full = BufferPool { buffer: 0, capacity: usize::MAX, head: 0, in_use: usize::MAX };
    let mut pool = full;
    assert_eq!(pool.next(), Err(RenderError::DeviceMemoryAllocError));
    assert_eq!(pool, full);
    assert_eq!(pool.reserve(1), Err(RenderError::DeviceMemoryAllocError));
    assert_eq!(pool, full);

    let mut pool = BufferPool::new(2);
    assert_eq!(pool.reserve(usize::MAX / 2 + 1), Err(RenderError::DeviceMemoryAllocError));
    assert_eq!(pool, BufferPool::new(2));
    assert_eq!(pool.reserve(usize::MAX / 2), Ok(()));
    assert_eq!(pool.capacity, usize::MAX - 1);
}

#[test]
fn uniform_manager_starts_with_identity_and_white_light() {
    let manager = UniformManager::new(4);
    assert_eq!(manager.transformation_data.model, Mat4::identity());
    assert_eq!(manager.transformation_data.view, Mat4::identity());
    assert_eq!(manager.transformation_data.proj, Mat4::identity());
    assert_eq!(manager.light_data.light_position, Vec3::new(0, 0, 0));
    assert_eq!(manager.light_data.light_color, Vec3::new(ONE_BITS, ONE_BITS, ONE_BITS));
}

#[test]
fn uniform_manager_hands_out_the_last_written_data() {
    let mut manager = UniformManager::new(2);
    let first = TransformationData {
        model: translation(1.0, 0.0, 0.0),
        view: Mat4::identity(),
        proj: Mat4::identity(),
    };
    let second = TransformationData { model: translation(2.0, 0.0, 0.0), ..first };
    manager.update_transformation_data(first);
    manager.update_transformation_data(second);
    let a = manager.get_transformation_subbuffer_data().unwrap();
    assert_eq!(a.data, second);
    manager.update_transformation_data(first);
    let b = manager.get_transformation_subbuffer_data().unwrap();
    assert_eq!(b.data, first);
    assert_eq!(a.data, second);
    assert_eq!((a.buffer, a.slot), (0, 0));
    assert_eq!((b.buffer, b.slot), (0, 1));
    let third = manager.get_transformation_subbuffer_data().unwrap();
    assert_eq!((third.buffer, third.slot), (1, 0));
    assert_eq!(third.data, first);
    assert_eq!(manager.transformation_data_buffer_pool.capacity, 4);

    let light = LightData {
        light_position: Vec3::new(1, 2, 3),
        light_color: Vec3::new(4, 5, 6),
    };
    manager.update_light_data(light);
    let c = manager.get_light_subbuffer_data().unwrap();
    assert_eq!(c.data, light);
    assert_eq!((c.buffer, c.slot), (0, 0));
    manager.release_all();
    assert!(manager.get_transformation_subbuffer_data().is_ok());
    assert_eq!(manager.light_data, light);
}

#[test]
fn renderer_is_created_for_the_best_device() {
    let settings = Settings::new("test".to_string(), 600, 400);
    let devices = vec![
        device(PhysicalDeviceType::Cpu),
        device(PhysicalDeviceType::DiscreteGpu),
        device(PhysicalDeviceType::IntegratedGpu),
    ];
    let renderer = Renderer::new(&settings, &devices).unwrap();
    assert_eq!(renderer.device(), 1);
    assert_eq!(renderer.swapchain.dimensions(), PhysicalSize { width: 600, height: 400 });
    assert_eq!(renderer.swapchain.present_mode, PresentMode::Mailbox);
    assert_eq!(renderer.images.len(), 2);
    assert_eq!(renderer.framebuffers.len(), 2);
    assert_eq!(renderer.render_pass, create_renderpass(Format { code: 50 }));
    assert_eq!(renderer.pipeline.viewport.dimensions, PhysicalSize { width: 600, height: 400 });
    assert_eq!(renderer.frame, FrameScheduler::new());
    assert_eq!(renderer.uniform_manager.transformation_data_buffer_pool, BufferPool::new(1024));
    let queue = Queue { family: family(0, true, true, true, true), id_within_family: 0 };
    assert_eq!(
        renderer.queues(),
        Queues { graphics_queue: queue, compute_queue: queue, transfer_queue: queue }
    );
}

#[test]
fn renderer_creation_fails_as_it_should() {
    let settings = Settings::new("test".to_string(), 600, 400);
    assert_eq!(
        Renderer::new(&settings, &vec![]),
        Err(RendererCreationError::NoPhysicalDeviceError)
    );
    let mut no_graphics = device(PhysicalDeviceType::DiscreteGpu);
    no_graphics.queue_families = vec![family(0, false, true, true, true)];
    assert_eq!(
        Renderer::new(&settings, &vec![no_graphics]),
        Err(RendererCreationError::NoGraphicsQueueError)
    );
    let mut no_format = device(PhysicalDeviceType::DiscreteGpu);
    no_format.capabilities.supported_formats.clear();
    assert_eq!(
        Renderer::new(&settings, &vec![no_format]),
        Err(RendererCreationError::SwapchainCreationError)
    );
}

// Runs one frame against a device that does all that is asked of it.
fn render(renderer: &mut Renderer, asset_manager: &AssetManager, image_num: usize) -> Vec<Command> {
    let mut action = renderer.begin_frame(false);
    if action == FrameAction::RecreateSwapchain {
        action = renderer.swapchain_recreated(Ok(renderer.swapchain.dimensions()));
    }
    assert_eq!(action, FrameAction::AcquireImage);
    assert_eq!(renderer.image_acquired(Ok(image_num)), FrameAction::Record { image_num });
    let (action, command_buffer) = renderer.record_frame(asset_manager);
    assert!(matches!(action, FrameAction::Submit { .. }));
    assert_eq!(renderer.frame_flushed(Ok(())), FrameAction::Finished(Ok(())));
    command_buffer.unwrap().commands
}

#[test]
fn render_renders_empty_frame_without_error() {
    let mut renderer = renderer();
    let asset_manager = asset_manager();
    let commands = render(&mut renderer, &asset_manager, 1);
    assert_eq!(
        commands,
        vec![
            Command::BeginRenderPass {
                framebuffer: renderer.framebuffers[1],
                clear_color: ClearColor { r: ONE_BITS, g: ONE_BITS, b: ONE_BITS, a: ONE_BITS },
            },
            Command::EndRenderPass,
        ]
    );
    assert_eq!(draws(&commands), 0);
    assert_eq!(renderer.frame.state, FrameState::Presented);
    assert_eq!(renderer.frame.previous_frame, Some(FrameToken { serial: 0 }));
}

#[test]
fn scene_without_objects_gives_an_empty_frame() {
    let mut renderer = renderer();
    let mut asset_manager = asset_manager();
    let camera = Camera::new(Mat4::identity(), Mat4::identity());
    asset_manager.set_active_scene(Scene::new("test_scene".to_string(), camera));
    let commands = render(&mut renderer, &asset_manager, 0);
    assert_eq!(commands.len(), 2);
    assert_eq!(renderer.uniform_manager.light_data_buffer_pool.in_use, 1);
    assert_eq!(renderer.uniform_manager.transformation_data_buffer_pool.in_use, 0);
}

#[test]
fn object_without_mesh_is_skipped() {
    let mut renderer = renderer();
    let mut asset_manager = asset_manager();
    let mut ids = IdGenerator::new();
    let mesh = asset_manager.create_mesh(
        "test_mesh".to_string(),
        GpuHandle { id: 10 },
        GpuHandle { id: 11 },
    );
    let handle = asset_manager.add_mesh(mesh);
    let camera = Camera::new(Mat4::identity(), Mat4::identity());
    let mut scene = Scene::new("test_scene".to_string(), camera);
    scene.add_object(ObjectBuilder::new("bare".to_string()).build(&mut ids));
    scene.add_object(ObjectBuilder::new("cube".to_string()).with_mesh(handle).build(&mut ids));
    scene.add_object(
        ObjectBuilder::new("lost".to_string())
            .with_mesh(MeshHandle { index: 99 })
            .build(&mut ids),
    );
    asset_manager.set_active_scene(scene);
    let commands = render(&mut renderer, &asset_manager, 0);
    assert_eq!(commands.len(), 3);
    assert_eq!(draws(&commands), 1);
    match commands[1] {
        Command::DrawIndexed { vertex_buffer, index_buffer, .. } => {
            assert_eq!(vertex_buffer, GpuHandle { id: 10 });
            assert_eq!(index_buffer, GpuHandle { id: 11 });
        }
        _ => panic!("the second command is a draw call"),
    }
}

#[test]
fn render_simple_cube_without_texture() {
    let mut renderer = renderer();
    let mut asset_manager = asset_manager();
    let mut ids = IdGenerator::new();
    let mesh = asset_manager.create_mesh(
        "test_mesh".to_string(),
        GpuHandle { id: 10 },
        GpuHandle { id: 11 },
    );
    asset_manager.add_mesh(mesh);
    let view = translation(0.0, 0.0, -3.0);
    let projection = matrix([
        1.5, 0.0, 0.0, 0.0, 0.0, -2.0, 0.0, 0.0, 0.0, 0.0, -1.0, -1.0, 0.0, 0.0, -0.1, 0.0,
    ]);
    asset_manager.set_active_scene(Scene::new("test_scene".to_string(), Camera::new(view, projection)));
    let object = ObjectBuilder::new("test_object".to_string())
        .with_mesh(asset_manager.mesh(&"test_mesh".to_string()).unwrap())
        .with_model_matrix(translation(1.0, 0.0, 0.0))
        .build(&mut ids);
    asset_manager.active_scene_mut().unwrap().add_object(object);

    let commands = render(&mut renderer, &asset_manager, 0);
    assert_eq!(draws(&commands), 1);
    match commands[1] {
        Command::DrawIndexed { vertex_buffer, index_buffer, descriptor_set } => {
            assert_eq!(vertex_buffer, GpuHandle { id: 10 });
            assert_eq!(index_buffer, GpuHandle { id: 11 });
            assert_eq!(descriptor_set.transformation.data.model, translation(1.0, 0.0, 0.0));
            assert_eq!(descriptor_set.transformation.data.view, view);
            assert_eq!(descriptor_set.transformation.data.proj, projection);
            assert_eq!(descriptor_set.transformation.slot, 0);
            assert_eq!(descriptor_set.light.data.light_position, Vec3::new(0, 0, 0));
            assert_eq!(
                descriptor_set.light.data.light_color,
                Vec3::new(ONE_BITS, ONE_BITS, ONE_BITS)
            );
            assert_eq!(descriptor_set.image, GpuHandle { id: 1 });
            assert_eq!(descriptor_set.sampler, GpuHandle { id: 2 });
        }
        _ => panic!("the second command is a draw call"),
    }
    assert_eq!(commands[2], Command::EndRenderPass);
}

#[test]
fn render_simple_cube_with_texture() {
    let mut renderer = renderer();
    let mut asset_manager = asset_manager();
    let mut ids = IdGenerator::new();
    let mesh = asset_manager.create_mesh(
        "test_mesh".to_string(),
        GpuHandle { id: 10 },
        GpuHandle { id: 11 },
    );
    let texture = asset_manager.create_texture(
        "test_texture".to_string(),
        GpuHandle { id: 20 },
        GpuHandle { id: 21 },
    );
    let texture = asset_manager.add_texture(texture);
    let mesh = asset_manager.add_mesh(mesh);
    assert!(asset_manager.set_mesh_texture(mesh, texture));
    let camera = Camera::new(Mat4::identity(), Mat4::identity());
    asset_manager.set_active_scene(Scene::new("test_scene".to_string(), camera));
    let object = ObjectBuilder::new("test_object".to_string())
        .with_mesh(asset_manager.mesh(&"test_mesh".to_string()).unwrap())
        .build(&mut ids);
    asset_manager.active_scene_mut().unwrap().add_object(object);

    let commands = render(&mut renderer, &asset_manager, 0);
    match commands[1] {
        Command::DrawIndexed { descriptor_set, .. } => {
            assert_eq!(descriptor_set.image, GpuHandle { id: 20 });
            assert_eq!(descriptor_set.sampler, GpuHandle { id: 21 });
        }
        _ => panic!("the second command is a draw call"),
    }
}

#[test]
fn objects_are_drawn_in_scene_order_each_with_its_own_chunk() {
    let mut renderer = renderer();
    let mut asset_manager = asset_manager();
    let mut ids = IdGenerator::new();
    let mesh = asset_manager.create_mesh("m".to_string(), GpuHandle { id: 10 }, GpuHandle { id: 11 });
    let handle = asset_manager.add_mesh(mesh);
    let camera = Camera::new(Mat4::identity(), Mat4::identity());
    let mut scene = Scene::new("s".to_string(), camera);
    scene.set_light_position(7, 8, 9);
    for x in [1.0f32, 3.0, 5.0] {
        scene.add_object(
            ObjectBuilder::new("o".to_string())
                .with_mesh(handle)
                .with_model_matrix(translation(x, 0.0, 0.0))
                .build(&mut ids),
        );
    }
    asset_manager.set_active_scene(scene);
    let commands = render(&mut renderer, &asset_manager, 0);
    assert_eq!(draws(&commands), 3);
    let mut slots = vec![];
    for (k, x) in [1.0f32, 3.0, 5.0].iter().enumerate() {
        match commands[k + 1] {
            Command::DrawIndexed { descriptor_set, .. } => {
                assert_eq!(descriptor_set.transformation.data.model, translation(*x, 0.0, 0.0));
                assert_eq!(descriptor_set.light.data.light_position, Vec3::new(7, 8, 9));
                slots.push(descriptor_set.transformation.slot);
            }
            _ => panic!("a draw call for each object"),
        }
    }
    assert_eq!(slots, vec![0, 1, 2]);
    assert_eq!(renderer.uniform_manager.transformation_data.model, translation(5.0, 0.0, 0.0));
    assert_eq!(renderer.uniform_manager.transformation_data_buffer_pool.in_use, 3);
}

#[test]
fn record_fails_without_the_framebuffer() {
    let renderer = renderer();
    let mut manager = UniformManager::new(4);
    assert_eq!(
        record(2, &renderer.framebuffers, &mut manager, &asset_manager()),
        Err(RenderError::BeginRenderPassError)
    );
}

fn scene_of_cubes(asset_manager: &mut AssetManager, cubes: usize) {
    let mut ids = IdGenerator::new();
    let mesh = asset_manager.create_mesh("m".to_string(), GpuHandle { id: 10 }, GpuHandle { id: 11 });
    let handle = asset_manager.add_mesh(mesh);
    let camera = Camera::new(Mat4::identity(), Mat4::identity());
    let mut scene = Scene::new("s".to_string(), camera);
    for _ in 0..cubes {
        scene.add_object(ObjectBuilder::new("o".to_string()).with_mesh(handle).build(&mut ids));
    }
    asset_manager.set_active_scene(scene);
}

fn transformation_chunks(commands: &[Command]) -> Vec<(u64, usize)> {
    let mut chunks = vec![];
    for command in commands {
        if let Command::DrawIndexed { descriptor_set, .. } = command {
            chunks.push((descriptor_set.transformation.buffer, descriptor_set.transformation.slot));
        }
    }
    chunks
}

#[test]
fn record_gives_a_pool_that_is_too_small_a_larger_buffer() {
    let renderer = renderer();
    let mut asset_manager = asset_manager();
    scene_of_cubes(&mut asset_manager, 3);

    let mut manager = UniformManager::new(2);
    let recorded = record(0, &renderer.framebuffers, &mut manager, &asset_manager).unwrap();
    assert!(recorded.one_time_submit);
    assert_eq!(transformation_chunks(&recorded.commands), vec![(1, 0), (1, 1), (1, 2)]);
    assert_eq!(
        manager.transformation_data_buffer_pool,
        BufferPool { buffer: 1, capacity: 6, head: 0, in_use: 3 }
    );
    assert_eq!(
        manager.light_data_buffer_pool,
        BufferPool { buffer: 0, capacity: 2, head: 0, in_use: 1 }
    );

    let mut manager = UniformManager::new(3);
    let recorded = record(0, &renderer.framebuffers, &mut manager, &asset_manager).unwrap();
    assert_eq!(transformation_chunks(&recorded.commands), vec![(0, 0), (0, 1), (0, 2)]);
    assert_eq!(manager.transformation_data_buffer_pool.free(), 0);
}

#[test]
fn a_scene_larger_than_the_pool_is_drawn_whole() {
    let mut renderer = renderer();
    let mut asset_manager = asset_manager();
    scene_of_cubes(&mut asset_manager, 1500);
    for frame in 0..3 {
        let commands = render(&mut renderer, &asset_manager, frame % 2);
        assert_eq!(draws(&commands), 1500);
        let mut chunks = transformation_chunks(&commands);
        chunks.sort();
        chunks.dedup();
        assert_eq!(chunks.len(), 1500);
    }
}

#[test]
fn record_fails_where_no_larger_buffer_can_be_had_and_leaves_the_pools_alone() {
    let mut renderer = renderer();
    let mut asset_manager = asset_manager();
    scene_of_cubes(&mut asset_manager, 3);

    let mut manager = UniformManager::new(2);
    manager.transformation_data_buffer_pool =
        BufferPool { buffer: 0, capacity: usize::MAX, head: 0, in_use: usize::MAX - 2 };
    let before = manager;
    assert_eq!(
        record(0, &renderer.framebuffers, &mut manager, &asset_manager),
        Err(RenderError::DeviceMemoryAllocError)
    );
    assert_eq!(manager, before);

    renderer.begin_frame(false);
    renderer.frame.previous_frame = Some(FrameToken { serial: 7 });
    renderer.uniform_manager.light_data_buffer_pool =
        BufferPool { buffer: 0, capacity: usize::MAX, head: 0, in_use: usize::MAX };
    renderer.image_acquired(Ok(1));
    let (action, command_buffer) = renderer.record_frame(&asset_manager);
    assert_eq!(action, FrameAction::Finished(Err(RenderError::DeviceMemoryAllocError)));
    assert_eq!(command_buffer, None);
    assert_eq!(renderer.frame.state, FrameState::Failed);
    assert_eq!(renderer.frame.previous_frame, Some(FrameToken { serial: 7 }));
}

#[test]
fn a_frame_that_finds_the_pool_busy_goes_on_in_a_larger_buffer() {
    let settings = {
        let mut settings = Settings::new("test".to_string(), 600, 400);
        settings.set_uniform_pool_size(1);
        settings
    };
    let mut renderer =
        Renderer::new(&settings, &vec![device(PhysicalDeviceType::DiscreteGpu)]).unwrap();
    let mut asset_manager = asset_manager();
    scene_of_cubes(&mut asset_manager, 1);

    let first = render(&mut renderer, &asset_manager, 0);
    assert_eq!(transformation_chunks(&first), vec![(0, 0)]);

    // The device is still busy with the first frame: its chunk stays taken.
    assert_eq!(renderer.begin_frame(false), FrameAction::AcquireImage);
    assert_eq!(renderer.image_acquired(Ok(1)), FrameAction::Record { image_num: 1 });
    let (action, command_buffer) = renderer.record_frame(&asset_manager);
    assert_eq!(
        action,
        FrameAction::Submit { image_num: 1, wait_for: Some(FrameToken { serial: 0 }) }
    );
    assert_eq!(transformation_chunks(&command_buffer.unwrap().commands), vec![(1, 0)]);
    assert_eq!(renderer.frame_flushed(Ok(())), FrameAction::Finished(Ok(())));

    // The device is done: the chunks are free again.
    assert_eq!(renderer.begin_frame(true), FrameAction::AcquireImage);
    assert_eq!(renderer.frame.previous_frame, None);
    assert_eq!(renderer.uniform_manager.transformation_data_buffer_pool.in_use, 0);
    assert_eq!(renderer.image_acquired(Ok(1)), FrameAction::Record { image_num: 1 });
    let (action, command_buffer) = renderer.record_frame(&asset_manager);
    assert_eq!(action, FrameAction::Submit { image_num: 1, wait_for: None });
    assert_eq!(transformation_chunks(&command_buffer.unwrap().commands), vec![(1, 1)]);
}

#[test]
fn at_most_one_frame_is_in_flight() {
    let mut renderer = renderer();
    let asset_manager = asset_manager();
    let mut previous = None;
    for n in 0..5u64 {
        assert_eq!(renderer.begin_frame(false), FrameAction::AcquireImage);
        assert_eq!(renderer.frame.previous_frame, previous);
        renderer.image_acquired(Ok((n % 2) as usize));
        let (action, _) = renderer.record_frame(&asset_manager);
        assert_eq!(
            action,
            FrameAction::Submit { image_num: (n % 2) as usize, wait_for: previous }
        );
        assert_eq!(renderer.frame.previous_frame, None);
        assert_eq!(renderer.frame_flushed(Ok(())), FrameAction::Finished(Ok(())));
        previous = Some(FrameToken { serial: n });
        assert_eq!(renderer.frame.previous_frame, previous);
    }
}

#[test]
fn out_of_date_at_acquire_drops_the_frame_and_recreates_the_swapchain() {
    let mut renderer = renderer();
    let asset_manager = asset_manager();
    render(&mut renderer, &asset_manager, 0);
    let old_images = renderer.images.clone();
    let old_swapchain = renderer.swapchain;

    assert_eq!(renderer.begin_frame(false), FrameAction::AcquireImage);
    assert_eq!(
        renderer.image_acquired(Err(AcquireError::OutOfDate)),
        FrameAction::Finished(Err(RenderError::AcquireError(AcquireError::OutOfDate)))
    );
    assert!(renderer.frame.recreate_swapchain);
    assert_eq!(renderer.frame.state, FrameState::Failed);
    assert_eq!(renderer.frame.previous_frame, Some(FrameToken { serial: 0 }));
    assert_eq!(renderer.record_frame(&asset_manager), (FrameAction::Unexpected, None));
    assert_eq!(renderer.frame_flushed(Ok(())), FrameAction::Unexpected);
    assert_eq!(renderer.swapchain, old_swapchain);

    let new_size = PhysicalSize { width: 1024, height: 768 };
    assert_eq!(renderer.begin_frame(false), FrameAction::RecreateSwapchain);
    assert_eq!(renderer.swapchain_recreated(Ok(new_size)), FrameAction::AcquireImage);
    assert!(!renderer.frame.recreate_swapchain);
    assert_eq!(renderer.swapchain.dimensions(), new_size);
    assert_eq!(renderer.swapchain.generation, old_swapchain.generation + 1);
    assert_eq!(renderer.swapchain.format(), old_swapchain.format());
    assert_eq!(renderer.swapchain.num_images(), old_swapchain.num_images());
    assert_eq!(renderer.pipeline.viewport.dimensions, new_size);
    assert_eq!(renderer.images, renderer.swapchain.images());
    assert_eq!(renderer.framebuffers.len(), renderer.images.len());
    for (framebuffer, image) in renderer.framebuffers.iter().zip(renderer.images.iter()) {
        assert_eq!(framebuffer.image, *image);
        assert!(!old_images.contains(&framebuffer.image));
    }
    assert_eq!(renderer.image_acquired(Ok(0)), FrameAction::Record { image_num: 0 });
    let (action, command_buffer) = renderer.record_frame(&asset_manager);
    assert_eq!(
        action,
        FrameAction::Submit { image_num: 0, wait_for: Some(FrameToken { serial: 0 }) }
    );
    assert_eq!(
        command_buffer.unwrap().commands[0],
        Command::BeginRenderPass {
            framebuffer: renderer.framebuffers[0],
            clear_color: ClearColor { r: ONE_BITS, g: ONE_BITS, b: ONE_BITS, a: ONE_BITS },
        }
    );
    assert_eq!(renderer.frame_flushed(Ok(())), FrameAction::Finished(Ok(())));
    assert_eq!(renderer.frame.state, FrameState::Presented);
}

#[test]
fn other_acquire_errors_drop_the_frame_only() {
    let mut renderer = renderer();
    renderer.begin_frame(false);
    assert_eq!(
        renderer.image_acquired(Err(AcquireError::Timeout)),
        FrameAction::Finished(Err(RenderError::AcquireError(AcquireError::Timeout)))
    );
    assert!(!renderer.frame.recreate_swapchain);
    assert_eq!(renderer.frame.state, FrameState::Failed);
    assert_eq!(renderer.begin_frame(false), FrameAction::AcquireImage);
}

#[test]
fn out_of_date_at_flush_marks_the_swapchain_as_stale() {
    let mut renderer = renderer();
    let asset_manager = asset_manager();
    render(&mut renderer, &asset_manager, 0);
    renderer.begin_frame(false);
    renderer.image_acquired(Ok(0));
    renderer.record_frame(&asset_manager);
    let out_of_date = RenderError::FlushError(FlushError::OutOfDate);
    assert_eq!(renderer.frame_flushed(Err(out_of_date)), FrameAction::Finished(Err(out_of_date)));
    assert!(renderer.frame.recreate_swapchain);
    assert_eq!(renderer.frame.previous_frame, None);
    assert_eq!(renderer.begin_frame(false), FrameAction::RecreateSwapchain);
}

#[test]
fn other_submit_errors_drop_the_frame_only() {
    let mut renderer = renderer();
    let asset_manager = asset_manager();
    renderer.begin_frame(false);
    renderer.image_acquired(Ok(0));
    renderer.record_frame(&asset_manager);
    let error = RenderError::CommandBufferExecError;
    assert_eq!(renderer.frame_flushed(Err(error)), FrameAction::Finished(Err(error)));
    assert!(!renderer.frame.recreate_swapchain);
    assert_eq!(renderer.frame.state, FrameState::Failed);
}

#[test]
fn failed_recreation_is_tried_again_with_the_next_frame() {
    let mut renderer = renderer();
    renderer.force_recreate_swapchain();
    let before = renderer.swapchain;
    assert_eq!(renderer.begin_frame(false), FrameAction::RecreateSwapchain);
    assert_eq!(
        renderer.swapchain_recreated(Err(RenderError::SwapchainCreationError)),
        FrameAction::Finished(Err(RenderError::SwapchainCreationError))
    );
    assert_eq!(renderer.swapchain, before);
    assert!(renderer.frame.recreate_swapchain);
    assert_eq!(renderer.begin_frame(false), FrameAction::RecreateSwapchain);
    assert_eq!(
        renderer.swapchain_recreated(Ok(PhysicalSize { width: 10, height: 20 })),
        FrameAction::AcquireImage
    );
}

#[test]
fn events_that_do_not_fit_change_nothing() {
    let mut renderer = renderer();
    let before = renderer.clone();
    assert_eq!(renderer.image_acquired(Ok(0)), FrameAction::Unexpected);
    assert_eq!(renderer.frame_flushed(Ok(())), FrameAction::Unexpected);
    assert_eq!(
        renderer.swapchain_recreated(Ok(PhysicalSize { width: 1, height: 1 })),
        FrameAction::Unexpected
    );
    assert_eq!(renderer, before);
    renderer.begin_frame(false);
    let acquiring = renderer.clone();
    assert_eq!(renderer.begin_frame(true), FrameAction::Unexpected);
    assert_eq!(renderer, acquiring);

    let mut scheduler = FrameScheduler::new();
    assert_eq!(scheduler.step(FrameEvent::Recorded(Ok(()))), FrameAction::Unexpected);
    assert_eq!(scheduler, FrameScheduler::new());
}

#[test]
fn an_image_that_the_swapchain_does_not_have_costs_the_frame() {
    let mut renderer = renderer();
    renderer.begin_frame(false);
    assert_eq!(renderer.image_acquired(Ok(7)), FrameAction::Record { image_num: 7 });
    assert_eq!(
        renderer.record_frame(&asset_manager()),
        (FrameAction::Finished(Err(RenderError::BeginRenderPassError)), None)
    );
}

#[test]
fn token_serials_wrap_around() {
    let mut scheduler = FrameScheduler::new();
    scheduler.next_serial = u64::MAX;
    scheduler.step(FrameEvent::Begin { previous_finished: false });
    scheduler.step(FrameEvent::ImageAcquired(Ok(0)));
    scheduler.step(FrameEvent::Recorded(Ok(())));
    scheduler.step(FrameEvent::Flushed(Ok(())));
    assert_eq!(scheduler.previous_frame, Some(FrameToken { serial: u64::MAX }));
    assert_eq!(scheduler.next_serial, 0);
}

#[test]
fn image_count_follows_what_the_surface_has_made() {
    let mut renderer = renderer();
    let before = renderer.clone();
    renderer.set_image_count(3);
    assert_eq!(renderer.swapchain.num_images(), 3);
    assert_eq!(renderer.images.len(), 3);
    assert_eq!(renderer.framebuffers.len(), 3);
    assert_eq!(renderer.framebuffers[2].image, renderer.images[2]);
    assert_eq!(renderer.images[2].index, 2);
    assert_eq!(renderer.swapchain.generation, before.swapchain.generation);
    assert_eq!(renderer.pipeline, before.pipeline);
    assert_eq!(renderer.frame, before.frame);

    renderer.begin_frame(false);
    assert_eq!(renderer.image_acquired(Ok(2)), FrameAction::Record { image_num: 2 });
    let (action, _) = renderer.record_frame(&asset_manager());
    assert_eq!(action, FrameAction::Submit { image_num: 2, wait_for: None });
}

#[test]
fn recording_can_be_reported_by_the_caller() {
    let mut renderer = renderer();
    let asset_manager = asset_manager();
    assert_eq!(renderer.frame_recorded(Ok(())), FrameAction::Unexpected);
    renderer.begin_frame(false);
    renderer.image_acquired(Ok(1));
    let commands = renderer.create_command_buffer(1, &asset_manager).unwrap();
    assert_eq!(commands.commands.len(), 2);
    assert_eq!(renderer.frame.state, FrameState::Recording);
    let error = RenderError::PersistentDescriptorSetBuildError;
    assert_eq!(renderer.frame_recorded(Err(error)), FrameAction::Finished(Err(error)));
    assert_eq!(renderer.frame.state, FrameState::Failed);

    renderer.begin_frame(false);
    renderer.image_acquired(Ok(1));
    assert_eq!(
        renderer.frame_recorded(Ok(())),
        FrameAction::Submit { image_num: 1, wait_for: None }
    );
    assert_eq!(renderer.frame.state, FrameState::Submitted);
}

#[test]
fn a_finished_frame_is_no_longer_waited_for() {
    let mut renderer = renderer();
    let asset_manager = asset_manager();
    render(&mut renderer, &asset_manager, 0);
    assert_eq!(renderer.begin_frame(true), FrameAction::AcquireImage);
    renderer.image_acquired(Ok(1));
    let (action, _) = renderer.record_frame(&asset_manager);
    assert_eq!(action, FrameAction::Submit { image_num: 1, wait_for: None });
}

#[test]
fn one_cube_at_one_zero_zero_is_drawn_once_with_its_translation() {
    let mut renderer = renderer();
    let mut asset_manager = asset_manager();
    let mut ids = IdGenerator::new();
    let cube = asset_manager.create_mesh(
        "unit_cube".to_string(),
        GpuHandle { id: 100 },
        GpuHandle { id: 101 },
    );
    let cube = asset_manager.add_mesh(cube);
    let camera = Camera::new(Mat4::identity(), Mat4::identity());
    let mut scene = Scene::new("scene".to_string(), camera);
    scene.add_object(
        ObjectBuilder::new("cube".to_string())
            .with_mesh(cube)
            .with_model_matrix(translation(1.0, 0.0, 0.0))
            .build(&mut ids),
    );
    asset_manager.set_active_scene(scene);

    assert_eq!(renderer.begin_frame(false), FrameAction::AcquireImage);
    assert_eq!(renderer.image_acquired(Ok(0)), FrameAction::Record { image_num: 0 });
    let (action, command_buffer) = renderer.record_frame(&asset_manager);
    assert_eq!(action, FrameAction::Submit { image_num: 0, wait_for: None });
    assert_eq!(renderer.frame_flushed(Ok(())), FrameAction::Finished(Ok(())));

    let commands = command_buffer.unwrap().commands;
    assert_eq!(draws(&commands), 1);
    match commands[1] {
        Command::DrawIndexed { vertex_buffer, index_buffer, descriptor_set } => {
            assert_eq!(vertex_buffer, GpuHandle { id: 100 });
            assert_eq!(index_buffer, GpuHandle { id: 101 });
            let model = descriptor_set.transformation.data.model;
            let cell = |column: usize, row: usize| f32::from_bits(model.cells[4 * column + row]);
            assert_eq!((cell(3, 0), cell(3, 1), cell(3, 2), cell(3, 3)), (1.0, 0.0, 0.0, 1.0));
            for i in 0..3 {
                for j in 0..3 {
                    assert_eq!(cell(i, j), if i == j { 1.0 } else { 0.0 });
                }
            }
            assert_eq!(descriptor_set.transformation.data.view, Mat4::identity());
            assert_eq!(descriptor_set.transformation.data.proj, Mat4::identity());
        }
        _ => panic!("the second command is a draw call"),
    }
}
