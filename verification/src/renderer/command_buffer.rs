use vstd::prelude::*;
use crate::scalar::ONE_BITS;
use crate::renderer::pipeline::Framebuffer;
use crate::renderer::renderer_error::RenderError;
use crate::renderer::uniform_manager::{
    BufferPool,
    LightData,
    Subbuffer,
    TransformationData,
    UniformManager,
};
use crate::resource::AssetManager;
use crate::resource::camera::Camera;
use crate::resource::mesh::Mesh;
use crate::resource::object::Object;
use crate::resource::scene::Scene;
use crate::resource::texture::{GpuHandle, Texture};

verus! {

/// The color that an image is cleared with, each part the bit pattern of
/// a single-precision number.
#[derive(Clone, Copy, Debug, PartialEq, Eq, Structural)]
pub struct ClearColor {
    pub r: u32,
    pub g: u32,
    pub b: u32,
    pub a: u32,
}

/// The resources that one draw call reads: its two uniform blocks and the
/// texture of its mesh.
#[derive(Clone, Copy, Debug, PartialEq, Eq)]
pub struct DescriptorSet {
    pub transformation: Subbuffer<TransformationData>,
    pub light: Subbuffer<LightData>,
    pub image: GpuHandle,
    pub sampler: GpuHandle,
}

/// One step of a command sequence.
#[derive(Clone, Copy, Debug, PartialEq, Eq)]
pub enum Command {
    BeginRenderPass { framebuffer: Framebuffer, clear_color: ClearColor },
    DrawIndexed {
        vertex_buffer: GpuHandle,
        index_buffer: GpuHandle,
        descriptor_set: DescriptorSet,
    },
    EndRenderPass,
}

/// The commands of one frame.
#[derive(Clone, Debug, PartialEq, Eq)]
pub struct AutoCommandBuffer {
    /// Whether the commands are submitted once and then thrown away.
    pub one_time_submit: bool,
    pub commands: Vec<Command>,
}

/// The color that every frame starts from: opaque white.
pub open spec fn spec_clear_color() -> ClearColor {
    ClearColor { r: ONE_BITS, g: ONE_BITS, b: ONE_BITS, a: ONE_BITS }
}

/// The mesh of an object: the one that its handle stands for with this
/// asset manager, if it has a handle and the handle stands for one.
pub open spec fn spec_mesh_of(asset_manager: AssetManager, object: Object) -> Option<Mesh> {
    match object.mesh {
        Some(handle) => asset_manager.spec_mesh_at(handle),
        None => None,
    }
}

/// The texture of a mesh: the one that its handle stands for, else the
/// default texture.
pub open spec fn spec_texture_of(asset_manager: AssetManager, mesh: Mesh) -> Texture {
    asset_manager.spec_texture_or_default(mesh.texture)
}

/// The objects that are drawn, in their order: those with a mesh.
pub open spec fn spec_drawn(asset_manager: AssetManager, objects: Seq<Object>) -> Seq<Object> {
    objects.filter(|object: Object| spec_mesh_of(asset_manager, object) is Some)
}

/// The transformation block of an object seen through a camera.
pub open spec fn spec_transformation(camera: Camera, object: Object) -> TransformationData {
    TransformationData { model: object.model_matrix, view: camera.view, proj: camera.projection }
}

/// The draw call for the `j`th of the objects `drawn`. Its transformation
/// block lies in the chunk of `pool`, the pool with room for the frame,
/// that is free after `j` more chunks were taken.
pub open spec fn spec_draw_at(
    asset_manager: AssetManager,
    camera: Camera,
    drawn: Seq<Object>,
    pool: BufferPool,
    light: Subbuffer<LightData>,
    j: int,
) -> Command {
    let mesh = spec_mesh_of(asset_manager, drawn[j])->0;
    let texture = spec_texture_of(asset_manager, mesh);
    Command::DrawIndexed {
        vertex_buffer: mesh.vertex_buffer,
        index_buffer: mesh.index_buffer,
        descriptor_set: DescriptorSet {
            transformation: Subbuffer {
                buffer: pool.buffer,
                slot: pool.spec_slot_at(pool.in_use + j) as usize,
                data: spec_transformation(camera, drawn[j]),
            },
            light,
            image: texture.image_buffer,
            sampler: texture.sampler,
        },
    }
}

/// The draw calls for the objects `drawn`, one for each, in their order.
pub open spec fn spec_draws(
    asset_manager: AssetManager,
    camera: Camera,
    drawn: Seq<Object>,
    pool: BufferPool,
    light: Subbuffer<LightData>,
) -> Seq<Command> {
    Seq::new(drawn.len(), |j: int| spec_draw_at(asset_manager, camera, drawn, pool, light, j))
}

/// The light block of a frame that shows `scene`: it lies in the next
/// free chunk of the light pool.
pub open spec fn spec_light_subbuffer(
    uniform_manager: UniformManager,
    scene: Scene,
) -> Subbuffer<LightData> {
    let pool = uniform_manager.light_data_buffer_pool.spec_reserved(1);
    Subbuffer {
        buffer: pool.buffer,
        slot: pool.spec_slot_at(pool.in_use as int) as usize,
        data: LightData { light_position: scene.light_position, light_color: scene.light_color },
    }
}

/// The transformation pool with room for a frame that shows `scene`: one
/// free chunk for each object that is drawn.
pub open spec fn spec_transformation_pool(
    uniform_manager: UniformManager,
    asset_manager: AssetManager,
    scene: Scene,
) -> BufferPool {
    uniform_manager.transformation_data_buffer_pool.spec_reserved(
        spec_drawn(asset_manager, scene.objects@).len() as int,
    )
}

/// Whether the pools can be given the chunks that a frame needs: none
/// where no scene is active, else one light block and one transformation
/// block for each object that is drawn. A pool that lacks them goes on in
/// a larger buffer, so that room is wanting only where a buffer would
/// have more chunks than the machine can count.
pub open spec fn spec_has_room(
    uniform_manager: UniformManager,
    asset_manager: AssetManager,
) -> bool {
    match asset_manager.active_scene {
        None => true,
        Some(scene) => {
            &&& uniform_manager.light_data_buffer_pool.spec_can_reserve(1)
            &&& uniform_manager.transformation_data_buffer_pool.spec_can_reserve(
                spec_drawn(asset_manager, scene.objects@).len() as int,
            )
        },
    }
}

/// The commands of a frame: the render pass begins on the framebuffer
/// with the clear color, each drawn object of the active scene is drawn,
/// and the render pass ends.
pub open spec fn spec_commands(
    framebuffer: Framebuffer,
    uniform_manager: UniformManager,
    asset_manager: AssetManager,
) -> Seq<Command> {
    let begin = Command::BeginRenderPass { framebuffer, clear_color: spec_clear_color() };
    match asset_manager.active_scene {
        None => seq![begin, Command::EndRenderPass],
        Some(scene) => seq![begin] + spec_draws(
            asset_manager,
            scene.camera,
            spec_drawn(asset_manager, scene.objects@),
            spec_transformation_pool(uniform_manager, asset_manager, scene),
            spec_light_subbuffer(uniform_manager, scene),
        ) + seq![Command::EndRenderPass],
    }
}

/// The uniform manager after a frame was recorded: the chunks of the
/// frame are taken, and the data is what was written last.
pub open spec fn spec_after_record(
    uniform_manager: UniformManager,
    asset_manager: AssetManager,
) -> UniformManager {
    match asset_manager.active_scene {
        None => uniform_manager,
        Some(scene) => {
            let drawn = spec_drawn(asset_manager, scene.objects@);
            let pool = spec_transformation_pool(uniform_manager, asset_manager, scene);
            UniformManager {
                transformation_data: if drawn.len() > 0 {
                    spec_transformation(scene.camera, drawn.last())
                } else {
                    uniform_manager.transformation_data
                },
                transformation_data_buffer_pool: BufferPool {
                    in_use: (pool.in_use + drawn.len()) as usize,
                    ..pool
                },
                light_data: LightData {
                    light_position: scene.light_position,
                    light_color: scene.light_color,
                },
                light_data_buffer_pool: uniform_manager.light_data_buffer_pool.spec_after_next(),
            }
        },
    }
}

/// Among the first `k` objects no more are drawn than among all.
pub proof fn lemma_drawn_grows(asset_manager: AssetManager, objects: Seq<Object>, k: int)
    requires
        0 <= k <= objects.len(),
    ensures
        spec_drawn(asset_manager, objects.subrange(0, k)).len() <= spec_drawn(
            asset_manager,
            objects,
        ).len(),
    decreases objects.len() - k,
{
    if k == objects.len() {
        assert(objects.subrange(0, k) =~= objects);
    } else {
        lemma_drawn_grows(asset_manager, objects, k + 1);
        reveal(Seq::filter);
        assert(objects.subrange(0, k + 1).drop_last() =~= objects.subrange(0, k));
    }
}

/// Builds the command sequence of one frame, for the framebuffer at
/// `frame_index`, to be submitted once.
///
/// Fails with `BeginRenderPassError` where there is no such framebuffer,
/// and with `DeviceMemoryAllocError` where the pools cannot be given the
/// chunks that the frame needs; the uniform manager is then as it was.
pub fn record(
    frame_index: usize,
    framebuffers: &Vec<Framebuffer>,
    uniform_manager: &mut UniformManager,
    asset_manager: &AssetManager,
) -> (recorded: Result<AutoCommandBuffer, RenderError>)
    requires
        old(uniform_manager).wf(),
        asset_manager.wf(),
    ensures
        final(uniform_manager).wf(),
        match recorded {
            Ok(command_buffer) => {
                &&& frame_index < framebuffers@.len()
                &&& spec_has_room(*old(uniform_manager), *asset_manager)
                &&& command_buffer.one_time_submit
                &&& command_buffer.commands@ == spec_commands(
                    framebuffers@[frame_index as int],
                    *old(uniform_manager),
                    *asset_manager,
                )
                &&& *final(uniform_manager) == spec_after_record(
                    *old(uniform_manager),
                    *asset_manager,
                )
            },
            Err(e) => {
                &&& *final(uniform_manager) == *old(uniform_manager)
                &&& e == if frame_index >= framebuffers@.len() {
                    RenderError::BeginRenderPassError
                } else {
                    RenderError::DeviceMemoryAllocError
                }
                &&& frame_index < framebuffers@.len() ==> !spec_has_room(
                    *old(uniform_manager),
                    *asset_manager,
                )
            },
        },
{
    if frame_index >= framebuffers.len() {
        return Err(RenderError::BeginRenderPassError);
    }
    let begin = Command::BeginRenderPass {
        framebuffer: framebuffers[frame_index],
        clear_color: ClearColor { r: ONE_BITS, g: ONE_BITS, b: ONE_BITS, a: ONE_BITS },
    };
    let mut commands: Vec<Command> = Vec::new();
    commands.push(begin);
    let scene = match asset_manager.active_scene() {
        None => {
            commands.push(Command::EndRenderPass);
            assert(commands@ =~= spec_commands(
                framebuffers@[frame_index as int],
                *old(uniform_manager),
                *asset_manager,
            ));
            return Ok(AutoCommandBuffer { one_time_submit: true, commands });
        },
        Some(scene) => scene,
    };
    let objects = scene.objects();
    let ghost all = objects@;
    let ghost before = *uniform_manager;

    // How many chunks the frame needs.
    let mut needed: usize = 0;
    let mut k: usize = 0;
    proof {
        reveal(Seq::filter);
        assert(all.subrange(0, 0) =~= Seq::<Object>::empty());
    }
    while k < objects.len()
        invariant
            0 <= k <= objects.len(),
            all == objects@,
            needed <= k,
            needed == spec_drawn(*asset_manager, all.subrange(0, k as int)).len(),
        decreases objects.len() - k,
    {
        proof {
            reveal(Seq::filter);
            assert(all.subrange(0, k + 1).drop_last() =~= all.subrange(0, k as int));
        }
        let drawable = match objects[k].mesh {
            Some(handle) => asset_manager.mesh_at(handle).is_some(),
            None => false,
        };
        if drawable {
            needed += 1;
        }
        k += 1;
    }
    assert(all.subrange(0, k as int) =~= all);
    // Room for them, before anything is changed.
    let mut light_pool = uniform_manager.light_data_buffer_pool;
    let mut transformation_pool = uniform_manager.transformation_data_buffer_pool;
    if light_pool.reserve(1).is_err() || transformation_pool.reserve(needed).is_err() {
        return Err(RenderError::DeviceMemoryAllocError);
    }
    uniform_manager.transformation_data_buffer_pool = transformation_pool;
    uniform_manager.update_light_data(scene.light_data());
    let light = uniform_manager.get_light_subbuffer_data().unwrap();
    let camera_data = scene.camera().as_uniform_data();
    let ghost camera = scene.camera;
    let ghost pool = transformation_pool;
    let ghost drawn_all = spec_drawn(*asset_manager, all);

    let mut i: usize = 0;
    let ghost mut drawn: Seq<Object> = Seq::empty();
    while i < objects.len()
        invariant
            0 <= i <= objects.len(),
            all == objects@,
            asset_manager.wf(),
            drawn == spec_drawn(*asset_manager, all.subrange(0, i as int)),
            drawn_all == spec_drawn(*asset_manager, all),
            drawn_all.len() <= pool.spec_free(),
            pool.wf(),
            commands@ == seq![begin] + spec_draws(*asset_manager, camera, drawn, pool, light),
            uniform_manager.wf(),
            camera_data.view == camera.view,
            camera_data.proj == camera.projection,
            *uniform_manager == (UniformManager {
                transformation_data: if drawn.len() > 0 {
                    spec_transformation(camera, drawn.last())
                } else {
                    before.transformation_data
                },
                transformation_data_buffer_pool: BufferPool {
                    in_use: (pool.in_use + drawn.len()) as usize,
                    ..pool
                },
                light_data: light.data,
                light_data_buffer_pool: before.light_data_buffer_pool.spec_after_next(),
            }),
            pool == before.transformation_data_buffer_pool.spec_reserved(drawn_all.len() as int),
            light == spec_light_subbuffer(before, *scene),
        decreases objects.len() - i,
    {
        let object = &objects[i];
        proof {
            reveal(Seq::filter);
            assert(all.subrange(0, i + 1).drop_last() =~= all.subrange(0, i as int));
            lemma_drawn_grows(*asset_manager, all, i + 1);
        }
        let mesh = match object.mesh {
            Some(handle) => asset_manager.mesh_at(handle),
            None => None,
        };
        if let Some(mesh) = mesh {
            let ghost next_drawn = drawn.push(*object);
            let mut uniform_data = camera_data;
            uniform_data.model = object.model_matrix();
            uniform_manager.update_transformation_data(uniform_data);
            let transformation = uniform_manager.get_transformation_subbuffer_data().unwrap();
            let texture = asset_manager.texture_or_default(mesh.texture());
            let draw = Command::DrawIndexed {
                vertex_buffer: mesh.vertex_buffer(),
                index_buffer: mesh.index_buffer(),
                descriptor_set: DescriptorSet {
                    transformation,
                    light,
                    image: texture.image_buffer(),
                    sampler: texture.sampler(),
                },
            };
            commands.push(draw);
            proof {
                assert(draw == spec_draw_at(
                    *asset_manager,
                    camera,
                    next_drawn,
                    pool,
                    light,
                    drawn.len() as int,
                ));
                assert(spec_draws(*asset_manager, camera, next_drawn, pool, light) =~= spec_draws(
                    *asset_manager,
                    camera,
                    drawn,
                    pool,
                    light,
                ).push(draw));
                assert(commands@ =~= seq![begin] + spec_draws(
                    *asset_manager,
                    camera,
                    next_drawn,
                    pool,
                    light,
                ));
                drawn = next_drawn;
            }
        }
        i += 1;
    }
    commands.push(Command::EndRenderPass);
    proof {
        assert(all.subrange(0, i as int) =~= all);
        assert(commands@ =~= spec_commands(
            framebuffers@[frame_index as int],
            before,
            *asset_manager,
        ));
    }
    Ok(AutoCommandBuffer { one_time_submit: true, commands })
}

/// A frame has one draw call for each object with a mesh, and a frame
/// without an active scene has none: its render pass begins and ends.
pub proof fn lemma_one_draw_for_each_mesh(
    framebuffer: Framebuffer,
    uniform_manager: UniformManager,
    asset_manager: AssetManager,
)
    ensures
        ({
            let commands = spec_commands(framebuffer, uniform_manager, asset_manager);
            let drawn = match asset_manager.active_scene {
                Some(scene) => spec_drawn(asset_manager, scene.objects@),
                None => Seq::<Object>::empty(),
            };
            &&& commands.len() == drawn.len() + 2
            &&& commands.first() is BeginRenderPass
            &&& commands.last() is EndRenderPass
            &&& forall|j: int| 0 < j < commands.len() - 1
                ==> (#[trigger] commands[j]) is DrawIndexed
            &&& forall|j: int|
                0 <= j < drawn.len() ==> commands[j + 1] == spec_draw_at(
                    asset_manager,
                    asset_manager.active_scene->0.camera,
                    drawn,
                    spec_transformation_pool(
                        uniform_manager,
                        asset_manager,
                        asset_manager.active_scene->0,
                    ),
                    spec_light_subbuffer(uniform_manager, asset_manager.active_scene->0),
                    j,
                )
        }),
{
}

/// Without an active scene a frame can always be recorded. Its render
/// pass begins and ends with nothing drawn in between, and it takes no
/// chunk of the pools.
pub proof fn lemma_frame_without_scene(
    framebuffer: Framebuffer,
    uniform_manager: UniformManager,
    asset_manager: AssetManager,
)
    requires
        asset_manager.active_scene is None,
    ensures
        spec_has_room(uniform_manager, asset_manager),
        spec_commands(framebuffer, uniform_manager, asset_manager) == seq![
            Command::BeginRenderPass { framebuffer, clear_color: spec_clear_color() },
            Command::EndRenderPass,
        ],
        spec_after_record(uniform_manager, asset_manager) == uniform_manager,
{
}

/// The transformation blocks of a frame lie in chunks of their own: once
/// the pool has room for the frame, no two draw calls of the frame share
/// a chunk, and none of them lies in a chunk of the pool's buffer that
/// was taken when the recording began, by this frame or by one that the
/// device may still work on.
pub proof fn lemma_draws_use_chunks_of_their_own(before: BufferPool, draws: int, j: int, k: int)
    requires
        before.wf(),
        before.spec_can_reserve(draws),
        0 <= j < k < draws,
    ensures
        ({
            let pool = before.spec_reserved(draws);
            &&& pool.spec_slot_at(pool.in_use + j) != pool.spec_slot_at(pool.in_use + k)
            &&& !pool.spec_is_taken(pool.spec_slot_at(pool.in_use + j))
            &&& !pool.spec_is_taken(pool.spec_slot_at(pool.in_use + k))
            &&& 0 <= pool.spec_slot_at(pool.in_use + j) < pool.capacity
            &&& 0 <= pool.spec_slot_at(pool.in_use + k) < pool.capacity
        }),
{
}

} // verus!
