use vstd::prelude::*;
use crate::scalar::{Mat4, Vec3, ZERO_BITS, ONE_BITS};
use crate::renderer::renderer_error::RenderError;

verus! {

/// Uniform block of the vertex shader: the three matrices that take a
/// vertex from model space to the screen.
#[derive(Clone, Copy, Debug, PartialEq, Eq)]
pub struct TransformationData {
    pub model: Mat4,
    pub view: Mat4,
    pub proj: Mat4,
}

/// Uniform block of the fragment shader: the light of the scene.
#[derive(Clone, Copy, Debug, PartialEq, Eq, Structural)]
pub struct LightData {
    pub light_position: Vec3,
    pub light_color: Vec3,
}

/// A chunk of a buffer pool with the data that was written to it.
#[derive(Clone, Copy, Debug, PartialEq, Eq)]
pub struct Subbuffer<T> {
    /// The buffer of the pool that the chunk lies in.
    pub buffer: u64,
    /// Position of the chunk in its buffer.
    pub slot: usize,
    pub data: T,
}

/// Keeps account of the chunks of a pool. The pool has one buffer at a
/// time, a ring of `capacity` chunks that are taken in the order of the
/// ring: the `in_use` chunks from `head` on are taken, the others are
/// free. A pool that lacks free chunks goes on in a new and larger
/// buffer, as a `Vec` does; the chunks of the buffer before stay where
/// they are for the frames that use them.
#[derive(Clone, Copy, Debug, PartialEq, Eq, Structural)]
pub struct BufferPool {
    /// Number of the buffer. After the last number comes the first.
    pub buffer: u64,
    pub capacity: usize,
    pub head: usize,
    pub in_use: usize,
}

/// The number of the buffer after the buffer `buffer`.
pub open spec fn spec_next_buffer(buffer: u64) -> u64 {
    if buffer == u64::MAX {
        0
    } else {
        (buffer + 1) as u64
    }
}

impl BufferPool {
    /// The head is a chunk of the ring, and no more chunks are taken than
    /// the ring has.
    pub open spec fn wf(&self) -> bool {
        &&& self.in_use <= self.capacity
        &&& (self.head < self.capacity || (self.head == 0 && self.capacity == 0))
    }

    /// The chunk that is `n` chunks behind the head.
    pub open spec fn spec_slot_at(&self, n: int) -> int {
        if self.head + n < self.capacity {
            self.head + n
        } else {
            self.head + n - self.capacity
        }
    }

    /// Whether the chunk at `slot` of the pool's buffer is taken.
    pub open spec fn spec_is_taken(&self, slot: int) -> bool {
        exists|n: int| 0 <= n < self.in_use && slot == #[trigger] self.spec_slot_at(n)
    }

    /// Number of free chunks.
    pub open spec fn spec_free(&self) -> int {
        self.capacity - self.in_use
    }

    /// The capacity of the buffer that the pool goes on in where it lacks
    /// `n` free chunks: twice the capacity that it has, or twice `n` where
    /// that is more.
    pub open spec fn spec_grown_capacity(&self, n: int) -> int {
        if n < self.capacity {
            2 * self.capacity
        } else {
            2 * n
        }
    }

    /// Whether the pool can be given `n` free chunks: it has them, or the
    /// capacity of a larger buffer is a number that the machine can
    /// count.
    pub open spec fn spec_can_reserve(&self, n: int) -> bool {
        n <= self.spec_free() || self.spec_grown_capacity(n) <= usize::MAX
    }

    /// The pool with `n` free chunks: the pool as it is where it has them,
    /// else the pool in a new buffer, all of whose chunks are free.
    pub open spec fn spec_reserved(&self, n: int) -> BufferPool {
        if n <= self.spec_free() {
            *self
        } else {
            BufferPool {
                buffer: spec_next_buffer(self.buffer),
                capacity: self.spec_grown_capacity(n) as usize,
                head: 0,
                in_use: 0,
            }
        }
    }

    /// The pool after its next chunk was taken.
    pub open spec fn spec_after_next(&self) -> BufferPool {
        let reserved = self.spec_reserved(1);
        BufferPool { in_use: (reserved.in_use + 1) as usize, ..reserved }
    }

    /// The pool with every chunk of its buffer free. The ring goes on
    /// behind the chunk taken last.
    pub open spec fn spec_release_all(&self) -> BufferPool {
        BufferPool {
            buffer: self.buffer,
            capacity: self.capacity,
            head: if self.in_use == self.capacity {
                self.head
            } else {
                self.spec_slot_at(self.in_use as int) as usize
            },
            in_use: 0,
        }
    }

    /// A pool whose first buffer has `capacity` free chunks.
    pub fn new(capacity: usize) -> (pool: BufferPool)
        ensures
            pool.wf(),
            pool == (BufferPool { buffer: 0, capacity, head: 0, in_use: 0 }),
    {
        BufferPool { buffer: 0, capacity, head: 0, in_use: 0 }
    }

    /// Returns the number of free chunks.
    pub fn free(&self) -> (free: usize)
        requires
            self.wf(),
        ensures
            free == self.spec_free(),
    {
        self.capacity - self.in_use
    }

    /// Sees to it that `n` chunks are free, in a new buffer where the
    /// pool's buffer lacks them. Fails where the new buffer would have
    /// more chunks than the machine can count, and changes nothing then.
    pub fn reserve(&mut self, n: usize) -> (reserved: Result<(), RenderError>)
        requires
            old(self).wf(),
        ensures
            final(self).wf(),
            match reserved {
                Ok(_) => {
                    &&& old(self).spec_can_reserve(n as int)
                    &&& *final(self) == old(self).spec_reserved(n as int)
                    &&& n <= final(self).spec_free()
                },
                Err(e) => {
                    &&& !old(self).spec_can_reserve(n as int)
                    &&& e == RenderError::DeviceMemoryAllocError
                    &&& *final(self) == *old(self)
                },
            },
    {
        if n <= self.capacity - self.in_use {
            return Ok(());
        }
        let least = if n < self.capacity {
            self.capacity
        } else {
            n
        };
        if least > usize::MAX / 2 {
            return Err(RenderError::DeviceMemoryAllocError);
        }
        self.buffer = if self.buffer == u64::MAX {
            0
        } else {
            self.buffer + 1
        };
        self.capacity = 2 * least;
        self.head = 0;
        self.in_use = 0;
        Ok(())
    }

    /// Takes the next chunk of the ring, which was free until now, in a
    /// new buffer where every chunk of the pool's buffer is taken. Fails
    /// where `reserve` fails for one chunk, and changes nothing then.
    pub fn next(&mut self) -> (slot: Result<usize, RenderError>)
        requires
            old(self).wf(),
        ensures
            final(self).wf(),
            match slot {
                Ok(s) => {
                    let reserved = old(self).spec_reserved(1);
                    &&& old(self).spec_can_reserve(1)
                    &&& s == reserved.spec_slot_at(reserved.in_use as int)
                    &&& s < reserved.capacity
                    &&& !reserved.spec_is_taken(s as int)
                    &&& *final(self) == old(self).spec_after_next()
                },
                Err(e) => {
                    &&& !old(self).spec_can_reserve(1)
                    &&& e == RenderError::DeviceMemoryAllocError
                    &&& *final(self) == *old(self)
                },
            },
    {
        match self.reserve(1) {
            Ok(_) => {},
            Err(e) => {
                return Err(e);
            },
        }
        let room = self.capacity - self.head;
        let slot = if self.in_use < room {
            self.head + self.in_use
        } else {
            self.in_use - room
        };
        self.in_use = self.in_use + 1;
        Ok(slot)
    }

    /// Frees every chunk of the pool's buffer. The ring goes on behind
    /// the chunk taken last.
    pub fn release_all(&mut self)
        requires
            old(self).wf(),
        ensures
            final(self).wf(),
            *final(self) == old(self).spec_release_all(),
    {
        if self.in_use < self.capacity {
            let room = self.capacity - self.head;
            self.head = if self.in_use < room {
                self.head + self.in_use
            } else {
                self.in_use - room
            };
        }
        self.in_use = 0;
    }
}

/// Two chunks of a buffer that are taken at once, each so many chunks
/// behind the head, are two places of the ring.
pub proof fn lemma_taken_chunks_are_apart(pool: BufferPool, m: int, n: int)
    requires
        pool.wf(),
        0 <= m < n < pool.in_use,
    ensures
        pool.spec_slot_at(m) != pool.spec_slot_at(n),
        0 <= pool.spec_slot_at(m) < pool.capacity,
        0 <= pool.spec_slot_at(n) < pool.capacity,
{
}

/// A pool that was given room is sound and has the room, in the buffer
/// that it had or in the next one, where nothing is taken.
pub proof fn lemma_reserved_pool_has_room(pool: BufferPool, n: int)
    requires
        pool.wf(),
        0 <= n,
        pool.spec_can_reserve(n),
    ensures
        pool.spec_reserved(n).wf(),
        n <= pool.spec_reserved(n).spec_free(),
        pool.spec_reserved(n) == pool || (pool.spec_reserved(n).buffer == spec_next_buffer(
            pool.buffer,
        ) && pool.spec_reserved(n).in_use == 0),
{
}

/// Struct which stores uniform data and keeps account of the uniform
/// buffers.
#[derive(Clone, Copy, Debug, PartialEq, Eq)]
pub struct UniformManager {
    // data used in transformations (model, view, projection matrix)
    pub transformation_data: TransformationData,
    pub transformation_data_buffer_pool: BufferPool,
    // data used with lighting
    pub light_data: LightData,
    pub light_data_buffer_pool: BufferPool,
}

impl UniformManager {
    /// Both pools are sound.
    pub open spec fn wf(&self) -> bool {
        &&& self.transformation_data_buffer_pool.wf()
        &&& self.light_data_buffer_pool.wf()
    }

    /// Whether this is a new uniform manager whose pools start with room
    /// for `pool_size` uniform blocks of each kind: the three matrices are
    /// the identity, the light is white and stands at the origin, and
    /// every chunk is free.
    pub open spec fn spec_is_new(&self, pool_size: usize) -> bool {
        let pool = BufferPool { buffer: 0, capacity: pool_size, head: 0, in_use: 0 };
        &&& self.transformation_data.model.cells@ == Mat4::spec_identity_cells()
        &&& self.transformation_data.view.cells@ == Mat4::spec_identity_cells()
        &&& self.transformation_data.proj.cells@ == Mat4::spec_identity_cells()
        &&& self.light_data == (LightData {
            light_position: Vec3 { x: ZERO_BITS, y: ZERO_BITS, z: ZERO_BITS },
            light_color: Vec3 { x: ONE_BITS, y: ONE_BITS, z: ONE_BITS },
        })
        &&& self.transformation_data_buffer_pool == pool
        &&& self.light_data_buffer_pool == pool
    }

    /// The manager with every chunk of both pools' buffers free. The data
    /// stays.
    pub open spec fn spec_release_all(&self) -> UniformManager {
        UniformManager {
            transformation_data_buffer_pool: self.transformation_data_buffer_pool
                .spec_release_all(),
            light_data_buffer_pool: self.light_data_buffer_pool.spec_release_all(),
            ..*self
        }
    }

    /// Creates new uniform manager whose pools start with room for
    /// `pool_size` uniform blocks of each kind: the three matrices are the
    /// identity, the light is white and stands at the origin.
    pub fn new(pool_size: usize) -> (manager: UniformManager)
        ensures
            manager.wf(),
            manager.spec_is_new(pool_size),
    {
        let transformation_data = TransformationData {
            model: Mat4::identity(),
            view: Mat4::identity(),
            proj: Mat4::identity(),
        };
        let light_data = LightData {
            light_position: Vec3::new(ZERO_BITS, ZERO_BITS, ZERO_BITS),
            light_color: Vec3::new(ONE_BITS, ONE_BITS, ONE_BITS),
        };
        UniformManager {
            transformation_data,
            transformation_data_buffer_pool: BufferPool::new(pool_size),
            light_data,
            light_data_buffer_pool: BufferPool::new(pool_size),
        }
    }

    /// Updates light uniform data.
    pub fn update_light_data(&mut self, light_data: LightData)
        ensures
            *final(self) == (UniformManager { light_data, ..*old(self) }),
    {
        self.light_data = light_data;
    }

    /// Returns subbuffer from light uniform buffer: a chunk that was free,
    /// holding the light data as it is now. Fails where the pool cannot
    /// be given a free chunk, and changes nothing then.
    pub fn get_light_subbuffer_data(&mut self) -> (subbuffer: Result<
        Subbuffer<LightData>,
        RenderError,
    >)
        requires
            old(self).wf(),
        ensures
            final(self).wf(),
            match subbuffer {
                Ok(s) => {
                    let reserved = old(self).light_data_buffer_pool.spec_reserved(1);
                    &&& old(self).light_data_buffer_pool.spec_can_reserve(1)
                    &&& s.data == old(self).light_data
                    &&& s.buffer == reserved.buffer
                    &&& s.slot == reserved.spec_slot_at(reserved.in_use as int)
                    &&& !reserved.spec_is_taken(s.slot as int)
                    &&& *final(self) == (UniformManager {
                        light_data_buffer_pool: old(self).light_data_buffer_pool.spec_after_next(),
                        ..*old(self)
                    })
                },
                Err(e) => {
                    &&& !old(self).light_data_buffer_pool.spec_can_reserve(1)
                    &&& e == RenderError::DeviceMemoryAllocError
                    &&& *final(self) == *old(self)
                },
            },
    {
        match self.light_data_buffer_pool.next() {
            Ok(slot) => Ok(
                Subbuffer {
                    buffer: self.light_data_buffer_pool.buffer,
                    slot,
                    data: self.light_data,
                },
            ),
            Err(e) => Err(e),
        }
    }

    /// Updates transformation uniform data.
    pub fn update_transformation_data(&mut self, transformation_data: TransformationData)
        ensures
            *final(self) == (UniformManager { transformation_data, ..*old(self) }),
    {
        self.transformation_data = transformation_data;
    }

    /// Returns subbuffer from transformation uniform buffer: a chunk that
    /// was free, holding the transformation data as it is now. Fails
    /// where the pool cannot be given a free chunk, and changes nothing
    /// then.
    pub fn get_transformation_subbuffer_data(&mut self) -> (subbuffer: Result<
        Subbuffer<TransformationData>,
        RenderError,
    >)
        requires
            old(self).wf(),
        ensures
            final(self).wf(),
            match subbuffer {
                Ok(s) => {
                    let reserved = old(self).transformation_data_buffer_pool.spec_reserved(1);
                    &&& old(self).transformation_data_buffer_pool.spec_can_reserve(1)
                    &&& s.data == old(self).transformation_data
                    &&& s.buffer == reserved.buffer
                    &&& s.slot == reserved.spec_slot_at(reserved.in_use as int)
                    &&& !reserved.spec_is_taken(s.slot as int)
                    &&& *final(self) == (UniformManager {
                        transformation_data_buffer_pool: old(
                            self,
                        ).transformation_data_buffer_pool.spec_after_next(),
                        ..*old(self)
                    })
                },
                Err(e) => {
                    &&& !old(self).transformation_data_buffer_pool.spec_can_reserve(1)
                    &&& e == RenderError::DeviceMemoryAllocError
                    &&& *final(self) == *old(self)
                },
            },
    {
        match self.transformation_data_buffer_pool.next() {
            Ok(slot) => Ok(
                Subbuffer {
                    buffer: self.transformation_data_buffer_pool.buffer,
                    slot,
                    data: self.transformation_data,
                },
            ),
            Err(e) => Err(e),
        }
    }

    /// Frees every chunk of both pools' buffers: the frames that used them
    /// are done. The data stays.
    pub fn release_all(&mut self)
        requires
            old(self).wf(),
        ensures
            final(self).wf(),
            *final(self) == old(self).spec_release_all(),
    {
        self.transformation_data_buffer_pool.release_all();
        self.light_data_buffer_pool.release_all();
    }
}

} // verus!
