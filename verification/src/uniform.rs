//! The frame clock and the uniform block written to the GPU every frame.

use vstd::prelude::*;
use crate::camera::CameraRaw;
use crate::layout::{
    append_words, holds_words_at, is_memory_image, lemma_image_subrange, memory_image,
    native_bytes, ByteOrder, ZERO_BITS,
};
use crate::resource::{
    all_stages, uniform_usage, BindingEntry, BindingKind, BufferSettings, BufferUsages,
    ShaderStages,
};

verus! {

/// A clock over readings of a monotonic timer, in nanoseconds: it remembers
/// the reading at its start and at the latest frame, and the time between the
/// latest two frames.
#[derive(Clone, Copy, Debug, PartialEq, Eq)]
pub struct Time {
    pub start: u64,
    pub prev_frame: u64,
    pub elapsed_frame: u64,
}

impl Time {
    /// The latest frame is not earlier than the start.
    pub open spec fn wf(&self) -> bool {
        self.start <= self.prev_frame
    }

    /// The clock after the frame read at `now`. A reading earlier than the
    /// latest frame counts as no time passed.
    pub open spec fn advanced(self, now: u64) -> Time {
        if now >= self.prev_frame {
            Time {
                start: self.start,
                prev_frame: now,
                elapsed_frame: (now - self.prev_frame) as u64,
            }
        } else {
            Time { start: self.start, prev_frame: self.prev_frame, elapsed_frame: 0 }
        }
    }

    /// The time from the start to the reading `now`; zero if `now` is earlier.
    pub open spec fn elapsed_at(self, now: u64) -> u64 {
        if now >= self.start {
            (now - self.start) as u64
        } else {
            0
        }
    }

    /// A clock started at the reading `now`.
    pub fn new(now: u64) -> (time: Time)
        ensures
            time == (Time { start: now, prev_frame: now, elapsed_frame: 0 }),
            time.wf(),
    {
        Time { start: now, prev_frame: now, elapsed_frame: 0 }
    }

    /// Advances the clock to the frame read at `now`.
    ///
    /// The frame times add up: the time from the start to the latest frame
    /// grows by exactly the new frame time.
    pub fn update(&mut self, now: u64)
        ensures
            *final(self) == old(self).advanced(now),
            old(self).wf() ==> final(self).wf(),
            old(self).wf() ==> final(self).prev_frame - final(self).start == old(self).prev_frame
                - old(self).start + final(self).elapsed_frame,
    {
        if now >= self.prev_frame {
            self.elapsed_frame = now - self.prev_frame;
            self.prev_frame = now;
        } else {
            self.elapsed_frame = 0;
        }
    }

    /// The time from the start to the reading `now`; zero if `now` is earlier.
    pub fn elapsed(&self, now: u64) -> (nanos: u64)
        ensures
            nanos == self.elapsed_at(now),
    {
        if now >= self.start {
            now - self.start
        } else {
            0
        }
    }
}

/// The number of words in a `UniformRaw`.
pub const UNIFORM_WORDS: usize = 36;

/// The number of bytes in a `UniformRaw`.
pub const UNIFORM_BYTES: u64 = 144;

/// The uniform block as the shader declares it: the view matrix, the
/// projection matrix, the elapsed time, and padding up to a multiple of 16 bytes.
#[derive(Clone, Copy, Debug, PartialEq, Eq)]
pub struct UniformRaw {
    pub camera: CameraRaw,
    pub time: u32,
    pub padding: [u32; 3],
}

impl UniformRaw {
    /// The thirty-six words of the block in the order the shader reads them.
    pub open spec fn words(self) -> Seq<u32> {
        self.camera.words() + seq![self.time] + self.padding@
    }

    /// The thirty-six words of the block in the order the shader reads them.
    pub fn to_words(&self) -> (words: Vec<u32>)
        ensures
            words@ == self.words(),
            words@.len() == UNIFORM_WORDS,
    {
        let mut words: Vec<u32> = self.camera.to_words();
        words.push(self.time);
        assert(words@ == self.camera.words() + seq![self.time]);
        append_words(&mut words, &self.padding);
        words
    }

    /// The bytes of the block as they lie in the uniform buffer: 144 bytes, a
    /// multiple of 16, with the view matrix at byte offset 0, the projection
    /// matrix at 64, the time at 128 and the padding at 132.
    pub fn to_bytes(&self) -> (bytes: Vec<u8>)
        ensures
            is_memory_image(bytes@, self.words()),
            bytes@.len() == UNIFORM_BYTES,
            bytes@.len() % 16 == 0,
            holds_words_at(bytes@, 0, self.camera.view_matrix@),
            holds_words_at(bytes@, 64, self.camera.perspective_matrix@),
            holds_words_at(bytes@, 128, seq![self.time]),
            holds_words_at(bytes@, 132, self.padding@),
    {
        let words = self.to_words();
        let bytes = native_bytes(&words);
        proof {
            lemma_uniform_fields(*self, ByteOrder::Little);
            lemma_uniform_fields(*self, ByteOrder::Big);
        }
        bytes
    }
}

/// In the memory image of a uniform block the fields lie one after another:
/// the view matrix in bytes 0..64, the projection matrix in 64..128, the time
/// in 128..132 and the padding in 132..144.
pub proof fn lemma_uniform_fields(u: UniformRaw, order: ByteOrder)
    ensures
        memory_image(u.words(), order).len() == UNIFORM_BYTES,
        memory_image(u.words(), order).subrange(0, 64) == memory_image(
            u.camera.view_matrix@,
            order,
        ),
        memory_image(u.words(), order).subrange(64, 128) == memory_image(
            u.camera.perspective_matrix@,
            order,
        ),
        memory_image(u.words(), order).subrange(128, 132) == memory_image(seq![u.time], order),
        memory_image(u.words(), order).subrange(132, 144) == memory_image(u.padding@, order),
{
    let w = u.words();
    lemma_image_subrange(w, 0, 16, order);
    lemma_image_subrange(w, 16, 32, order);
    lemma_image_subrange(w, 32, 33, order);
    lemma_image_subrange(w, 33, 36, order);
    assert(w.subrange(0, 16) == u.camera.view_matrix@);
    assert(w.subrange(16, 32) == u.camera.perspective_matrix@);
    assert(w.subrange(32, 33) == seq![u.time]);
    assert(w.subrange(33, 36) == u.padding@);
}

/// The bindings of the uniform group: the uniform buffer at binding 0,
/// visible to every shader stage.
pub open spec fn uniform_bindings() -> Seq<BindingEntry> {
    seq![BindingEntry { binding: 0, visibility: all_stages(), kind: BindingKind::UniformBuffer }]
}

/// The creation parameters of the uniform buffer: as large as one uniform
/// block, bound as a uniform and written by the queue.
pub open spec fn uniform_buffer() -> BufferSettings {
    BufferSettings { size: UNIFORM_BYTES, usage: uniform_usage(), mapped_at_creation: false }
}

/// The per-frame uniform state: the clock, the camera's latest matrices, the
/// time from the start to the latest frame in seconds (a single-precision bit
/// pattern), and the parameters of the buffer and bind group that carry them
/// to the shader.
#[derive(Clone, Debug, PartialEq, Eq)]
pub struct Uniform {
    pub time: Time,
    pub camera: CameraRaw,
    pub seconds: u32,
    pub buffer: BufferSettings,
    pub bind_group_layout: Vec<BindingEntry>,
}

impl Uniform {
    /// The buffer and the bindings are those of the uniform group.
    pub open spec fn wf(&self) -> bool {
        &&& self.time.wf()
        &&& self.buffer == uniform_buffer()
        &&& self.bind_group_layout@ == uniform_bindings()
    }

    /// The uniform block that the state holds: the camera's matrices, the
    /// elapsed seconds, and zero padding.
    pub open spec fn raw(&self) -> UniformRaw {
        UniformRaw {
            camera: self.camera,
            time: self.seconds,
            padding: [ZERO_BITS, ZERO_BITS, ZERO_BITS],
        }
    }

    /// The uniform state at the clock reading `now`, for a camera whose
    /// matrices are `camera`. No time has passed yet.
    pub fn new(now: u64, camera: CameraRaw) -> (uniform: Uniform)
        ensures
            uniform.wf(),
            uniform.time == (Time { start: now, prev_frame: now, elapsed_frame: 0 }),
            uniform.camera == camera,
            uniform.seconds == ZERO_BITS,
    {
        let mut bind_group_layout: Vec<BindingEntry> = Vec::new();
        bind_group_layout.push(
            BindingEntry {
                binding: 0,
                visibility: ShaderStages { vertex: true, fragment: true, compute: true },
                kind: BindingKind::UniformBuffer,
            },
        );
        assert(bind_group_layout@ =~= uniform_bindings());
        Uniform {
            time: Time::new(now),
            camera,
            seconds: ZERO_BITS,
            buffer: BufferSettings {
                size: UNIFORM_BYTES,
                usage: BufferUsages { vertex: false, index: false, uniform: true, copy_dst: true },
                mapped_at_creation: false,
            },
            bind_group_layout,
        }
    }

    /// The uniform block to write: the camera's matrices, the elapsed
    /// seconds, and zero padding.
    pub fn as_raw(&self) -> (raw: UniformRaw)
        ensures
            raw == self.raw(),
            raw.camera == self.camera,
            raw.time == self.seconds,
            raw.padding@ == seq![ZERO_BITS, ZERO_BITS, ZERO_BITS],
    {
        let raw = UniformRaw {
            camera: self.camera,
            time: self.seconds,
            padding: [ZERO_BITS, ZERO_BITS, ZERO_BITS],
        };
        assert(raw.padding@ =~= seq![ZERO_BITS, ZERO_BITS, ZERO_BITS]);
        raw
    }

    /// Runs one frame's update at the clock reading `now` and returns the
    /// bytes to write at offset 0 of the uniform buffer.
    ///
    /// In this order: the clock advances to `now`; `camera_step` is called
    /// once, with the time since the previous frame in nanoseconds and
    /// nothing else, and returns the camera's new matrices; `to_seconds` is
    /// called once, with the time since the start in nanoseconds, and returns
    /// that time in seconds as a single-precision bit pattern; the uniform
    /// block is laid out from the matrices and from that time.
    pub fn update<S: FnOnce(u64) -> CameraRaw, C: FnOnce(u64) -> u32>(
        &mut self,
        now: u64,
        camera_step: S,
        to_seconds: C,
    ) -> (bytes: Vec<u8>)
        requires
            call_requires(camera_step, (old(self).time.advanced(now).elapsed_frame,)),
            call_requires(to_seconds, (old(self).time.elapsed_at(now),)),
        ensures
            final(self).time == old(self).time.advanced(now),
            call_ensures(camera_step, (final(self).time.elapsed_frame,), final(self).camera),
            call_ensures(to_seconds, (old(self).time.elapsed_at(now),), final(self).seconds),
            final(self).buffer == old(self).buffer,
            final(self).bind_group_layout == old(self).bind_group_layout,
            old(self).wf() ==> final(self).wf(),
            is_memory_image(bytes@, final(self).raw().words()),
            bytes@.len() == UNIFORM_BYTES,
            holds_words_at(bytes@, 0, final(self).camera.view_matrix@),
            holds_words_at(bytes@, 64, final(self).camera.perspective_matrix@),
            holds_words_at(bytes@, 128, seq![final(self).seconds]),
            holds_words_at(bytes@, 132, seq![ZERO_BITS, ZERO_BITS, ZERO_BITS]),
    {
        self.time.update(now);
        let frame: u64 = self.time.elapsed_frame;
        let total: u64 = self.time.elapsed(now);
        self.camera = camera_step(frame);
        self.seconds = to_seconds(total);
        self.as_raw().to_bytes()
    }
}

} // verus!
