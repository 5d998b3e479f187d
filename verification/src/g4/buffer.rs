//! Vertex and index buffers: arrays of fixed capacity whose contents are only
//! reached through a lock, the exclusive mapping of a range of elements.

use vstd::prelude::*;
use vstd::slice::slice_subrange;
use crate::g4::state::{IndexBufferFormat, Usage};
use crate::g4::vertex::{stride_of, VertexStructure};

verus! {

/// Why a buffer could not be made.
#[derive(Debug, Copy, Clone, PartialEq, Eq, Structural)]
pub enum BufferError {
    /// The capacity asked for is zero or negative.
    NoCapacity,
    /// The buffer would take more bytes than an `i32` counts.
    TooLarge,
}

/// Why a range could not be locked.
#[derive(Debug, Copy, Clone, PartialEq, Eq, Structural)]
pub enum LockError {
    /// The first element is negative.
    NegativeStart,
    /// The first element lies beyond the last one of the buffer.
    StartOutOfRange,
    /// The number of elements is zero or negative.
    NoCount,
    /// More elements than the buffer holds.
    CountOutOfRange,
    /// The range runs past the end of the buffer.
    RangeOutOfRange,
}

/// Why nothing was written through a lock.
#[derive(Debug, Copy, Clone, PartialEq, Eq, Structural)]
pub enum WriteError {
    /// The source does not have the length of the mapping.
    LengthMismatch,
    /// The source holds elements of another width than the buffer.
    FormatMismatch,
}

/// What is wrong with locking `count` elements from `start` in a buffer of
/// `capacity` elements: the first of five checks that fails, if any.
pub open spec fn lock_error(capacity: int, start: int, count: int) -> Option<LockError> {
    if start < 0 {
        Some(LockError::NegativeStart)
    } else if start >= capacity {
        Some(LockError::StartOutOfRange)
    } else if count <= 0 {
        Some(LockError::NoCount)
    } else if count > capacity {
        Some(LockError::CountOutOfRange)
    } else if start + count > capacity {
        Some(LockError::RangeOutOfRange)
    } else {
        None
    }
}

/// The ranges that can be locked are those that start at or after the first
/// element, hold at least one element and end at or before the last.
pub proof fn lemma_lock_error_none(capacity: int, start: int, count: int)
    ensures
        lock_error(capacity, start, count) is None <==> (0 <= start && count > 0 && start + count
            <= capacity),
{
}

/// What a vertex buffer is made from.
pub struct VertexBufferDesc {
    pub count: i32,
    pub vertex_structure: VertexStructure,
    pub usage: Usage,
    pub instance_data_step_rate: i32,
}

/// A vertex buffer, as contracts see it.
pub struct VertexBufferView {
    /// The capacity, in vertices.
    pub count: int,
    /// The bytes of one vertex.
    pub stride: int,
    pub usage: Usage,
    pub instance_data_step_rate: int,
    /// The contents, vertex after vertex.
    pub data: Seq<u8>,
}

impl VertexBufferView {
    /// A buffer holds at least one vertex and exactly `count * stride` bytes.
    pub open spec fn wf(self) -> bool {
        &&& self.count > 0
        &&& self.stride >= 0
        &&& self.count * self.stride <= i32::MAX
        &&& self.data.len() == self.count * self.stride
    }

    /// The bytes of the `count` vertices from `start`.
    pub open spec fn mapped(self, start: int, count: int) -> Seq<u8> {
        self.data.subrange(start * self.stride, (start + count) * self.stride)
    }

    /// The buffer after `bytes` took the place of the bytes from vertex
    /// `start` on.
    pub open spec fn written(self, start: int, bytes: Seq<u8>) -> VertexBufferView {
        VertexBufferView {
            data: self.data.subrange(0, start * self.stride) + bytes + self.data.subrange(
                start * self.stride + bytes.len(),
                self.data.len() as int,
            ),
            ..self
        }
    }
}

/// The bytes of a range that can be locked lie inside the buffer.
pub proof fn lemma_range_in_bounds(capacity: int, stride: int, start: int, count: int)
    requires
        0 <= stride,
        0 <= start,
        0 < count,
        start + count <= capacity,
    ensures
        0 <= start * stride <= (start + count) * stride <= capacity * stride,
        (start + count) * stride == start * stride + count * stride,
{
    assert(0 <= start * stride) by (nonlinear_arith)
        requires
            0 <= start,
            0 <= stride,
    ;
    assert((start + count) * stride == start * stride + count * stride) by (nonlinear_arith);
    assert(0 <= count * stride) by (nonlinear_arith)
        requires
            0 < count,
            0 <= stride,
    ;
    assert((start + count) * stride <= capacity * stride) by (nonlinear_arith)
        requires
            start + count <= capacity,
            0 <= stride,
    ;
}

/// A fixed number of vertices of one layout, in memory the engine can see.
#[derive(Debug)]
pub struct VertexBuffer {
    count: i32,
    stride: i32,
    usage: Usage,
    instance_data_step_rate: i32,
    data: Vec<u8>,
}

impl View for VertexBuffer {
    type V = VertexBufferView;

    closed spec fn view(&self) -> VertexBufferView {
        VertexBufferView {
            count: self.count as int,
            stride: self.stride as int,
            usage: self.usage,
            instance_data_step_rate: self.instance_data_step_rate as int,
            data: self.data@,
        }
    }
}

impl VertexBuffer {
    #[verifier::type_invariant]
    spec fn inv(self) -> bool {
        self@.wf()
    }

    /// Makes a buffer of `desc.count` vertices of the layout in `desc`, every
    /// byte of it zero.
    pub fn new(desc: VertexBufferDesc) -> (made: Result<Self, BufferError>)
        ensures
            match made {
                Ok(buffer) => {
                    &&& desc.count > 0
                    &&& desc.count * stride_of(desc.vertex_structure@.fields) <= i32::MAX
                    &&& buffer@.wf()
                    &&& buffer@.count == desc.count
                    &&& buffer@.stride == stride_of(desc.vertex_structure@.fields)
                    &&& buffer@.usage == desc.usage
                    &&& buffer@.instance_data_step_rate == desc.instance_data_step_rate
                    &&& forall|i: int| 0 <= i < buffer@.data.len() ==> buffer@.data[i] == 0
                },
                Err(BufferError::NoCapacity) => desc.count <= 0,
                Err(BufferError::TooLarge) => {
                    &&& desc.count > 0
                    &&& desc.count * stride_of(desc.vertex_structure@.fields) > i32::MAX
                },
            },
    {
        if desc.count <= 0 {
            return Err(BufferError::NoCapacity);
        }
        let stride: i32 = desc.vertex_structure.size();
        proof {
            crate::g4::vertex::lemma_stride_bounds(desc.vertex_structure@.fields);
            assert(0 <= desc.count * stride <= 0x7fff_ffff * 0x7fff_ffff) by (nonlinear_arith)
                requires
                    0 < desc.count <= 0x7fff_ffff,
                    0 <= stride <= 0x7fff_ffff,
            ;
        }
        let bytes: i64 = (desc.count as i64) * (stride as i64);
        if bytes > i32::MAX as i64 {
            return Err(BufferError::TooLarge);
        }
        let data: Vec<u8> = vec![0u8; bytes as usize];
        Ok(
            VertexBuffer {
                count: desc.count,
                stride,
                usage: desc.usage,
                instance_data_step_rate: desc.instance_data_step_rate,
                data,
            },
        )
    }

    /// The capacity, in vertices.
    pub fn count(&self) -> (count: i32)
        ensures
            count == self@.count,
            self@.wf(),
    {
        proof {
            use_type_invariant(self);
        }
        self.count
    }

    /// The bytes of one vertex.
    pub fn stride(&self) -> (stride: i32)
        ensures
            stride == self@.stride,
            self@.wf(),
    {
        proof {
            use_type_invariant(self);
        }
        self.stride
    }

    /// The usage the buffer was made for.
    pub fn usage(&self) -> (usage: Usage)
        ensures
            usage == self@.usage,
    {
        self.usage
    }

    /// How many instances are drawn before the buffer advances by one vertex.
    pub fn instance_data_step_rate(&self) -> (rate: i32)
        ensures
            rate == self@.instance_data_step_rate,
    {
        self.instance_data_step_rate
    }

    /// Maps the `count` vertices from `start`. While the mapping lives the
    /// buffer cannot be reached in any other way; what the mapping holds when
    /// it is given up is what the buffer holds from then on. A range that does
    /// not lie inside the buffer is refused and nothing is mapped.
    pub fn lock<'a>(&'a mut self, start: i32, count: i32) -> (locked: Result<
        VertexLockResult<'a>,
        LockError,
    >)
        ensures
            match locked {
                Ok(lock) => {
                    &&& lock_error(old(self)@.count, start as int, count as int) is None
                    &&& lock.wf()
                    &&& lock.start == start
                    &&& lock.count == count
                    &&& *lock.buffer == *old(self)
                    // What the mapping holds in the end is what the buffer holds.
                    &&& *final(self) == *final(lock.buffer)
                },
                Err(e) => {
                    &&& lock_error(old(self)@.count, start as int, count as int) == Some(e)
                    &&& *final(self) == *old(self)
                },
            },
    {
        proof {
            use_type_invariant(&*self);
        }
        if start < 0 {
            return Err(LockError::NegativeStart);
        }
        if start >= self.count {
            return Err(LockError::StartOutOfRange);
        }
        if count <= 0 {
            return Err(LockError::NoCount);
        }
        if count > self.count {
            return Err(LockError::CountOutOfRange);
        }
        if start > self.count - count {
            return Err(LockError::RangeOutOfRange);
        }
        Ok(VertexLockResult { buffer: self, start, count })
    }

    /// Maps the whole buffer.
    pub fn lock_all<'a>(&'a mut self) -> (lock: VertexLockResult<'a>)
        ensures
            lock.wf(),
            lock.start == 0,
            lock.count == old(self)@.count,
            *lock.buffer == *old(self),
            *final(self) == *final(lock.buffer),
    {
        proof {
            use_type_invariant(&*self);
        }
        let count: i32 = self.count;
        VertexLockResult { buffer: self, start: 0, count }
    }
}

/// The mapping of a range of vertices: the only way to the bytes of a vertex
/// buffer. It borrows the buffer for as long as it lives and knows how many
/// vertices it maps.
pub struct VertexLockResult<'a> {
    pub buffer: &'a mut VertexBuffer,
    pub start: i32,
    pub count: i32,
}

impl<'a> View for VertexLockResult<'a> {
    type V = Seq<u8>;

    /// The mapped bytes.
    open spec fn view(&self) -> Seq<u8> {
        self.buffer@.mapped(self.start as int, self.count as int)
    }
}

impl<'a> VertexLockResult<'a> {
    /// A mapping lies inside its buffer.
    pub open spec fn wf(&self) -> bool {
        &&& self.buffer@.wf()
        &&& lock_error(self.buffer@.count, self.start as int, self.count as int) is None
    }

    /// The number of mapped bytes: as many vertices as are mapped, each of
    /// the buffer's stride.
    pub open spec fn bytes(&self) -> int {
        self.count * self.buffer@.stride
    }

    /// The number of mapped bytes.
    pub fn len(&self) -> (len: usize)
        requires
            self.wf(),
        ensures
            len == self@.len(),
            len == self.bytes(),
    {
        proof {
            lemma_range_in_bounds(
                self.buffer@.count,
                self.buffer@.stride,
                self.start as int,
                self.count as int,
            );
        }
        (self.count as usize) * (self.buffer.stride as usize)
    }

    /// The mapped bytes.
    pub fn as_slice(&self) -> (bytes: &[u8])
        requires
            self.wf(),
        ensures
            bytes@ == self@,
    {
        proof {
            lemma_range_in_bounds(
                self.buffer@.count,
                self.buffer@.stride,
                self.start as int,
                self.count as int,
            );
        }
        let lo: usize = (self.start as usize) * (self.buffer.stride as usize);
        let len: usize = (self.count as usize) * (self.buffer.stride as usize);
        slice_subrange(self.buffer.data.as_slice(), lo, lo + len)
    }

    /// Overwrites the whole mapping with `src`, which has to have its length;
    /// otherwise nothing is written.
    pub fn copy_from_slice(&mut self, src: &[u8]) -> (copied: Result<(), WriteError>)
        requires
            old(self).wf(),
        ensures
            final(self).wf(),
            final(self).start == old(self).start,
            final(self).count == old(self).count,
            // The mapping is still given up to the same buffer.
            *final(final(self).buffer) == *final(old(self).buffer),
            match copied {
                Ok(_) => {
                    &&& src@.len() == old(self)@.len()
                    &&& final(self).buffer@ == old(self).buffer@.written(
                        old(self).start as int,
                        src@,
                    )
                    &&& final(self)@ == src@
                },
                Err(e) => {
                    &&& e == WriteError::LengthMismatch
                    &&& src@.len() != old(self)@.len()
                    &&& *final(self).buffer == *old(self).buffer
                },
            },
    {
        proof {
            lemma_range_in_bounds(
                self.buffer@.count,
                self.buffer@.stride,
                self.start as int,
                self.count as int,
            );
        }
        let lo: usize = (self.start as usize) * (self.buffer.stride as usize);
        let len: usize = (self.count as usize) * (self.buffer.stride as usize);
        if src.len() != len {
            return Err(WriteError::LengthMismatch);
        }
        let ghost before = self.buffer@;
        assert(before.data =~= before.data.subrange(0, lo as int) + src@.subrange(0, 0)
            + before.data.subrange(lo as int, before.data.len() as int));
        let mut i: usize = 0;
        while i < len
            invariant
                i <= len,
                len == src@.len(),
                lo + len <= before.data.len(),
                before.wf(),
                self.start == old(self).start,
                self.count == old(self).count,
                *final(self.buffer) == *final(old(self).buffer),
                self.buffer@ == (VertexBufferView {
                    data: before.data.subrange(0, lo as int) + src@.subrange(0, i as int)
                        + before.data.subrange(lo + i, before.data.len() as int),
                    ..before
                }),
            decreases len - i,
        {
            self.buffer.data[lo + i] = src[i];
            assert(self.buffer.data@ =~= before.data.subrange(0, lo as int) + src@.subrange(
                0,
                i + 1,
            ) + before.data.subrange(lo + i + 1, before.data.len() as int));
            i += 1;
        }
        assert(src@.subrange(0, len as int) =~= src@);
        assert(self@ =~= src@);
        Ok(())
    }

    /// Gives the mapping up and says how many vertices it mapped: the number
    /// the engine has to be told when the range is handed back to it.
    pub fn unlock(self) -> (count: i32)
        ensures
            count == self.count,
            *final(self.buffer) == *old(self.buffer),
    {
        self.count
    }
}

/// Writing `bytes` over the vertices of a range that can be locked, and
/// mapping the same range again, gives `bytes` back; the buffer stays well
/// formed and every byte outside the range stays as it was.
pub proof fn lemma_lock_round_trip(buffer: VertexBufferView, start: int, count: int, bytes: Seq<u8>)
    requires
        buffer.wf(),
        0 <= start,
        count > 0,
        start + count <= buffer.count,
        bytes.len() == count * buffer.stride,
    ensures
        buffer.written(start, bytes).wf(),
        buffer.written(start, bytes).mapped(start, count) == bytes,
        forall|i: int|
            0 <= i < buffer.data.len() && !(start * buffer.stride <= i < (start + count)
                * buffer.stride) ==> buffer.written(start, bytes).data[i] == buffer.data[i],
{
    lemma_range_in_bounds(buffer.count, buffer.stride, start, count);
    assert(buffer.written(start, bytes).mapped(start, count) =~= bytes);
}

/// Every range that can be locked in a buffer of zero bytes maps zero bytes.
pub proof fn lemma_zeroed_reads_zero(buffer: VertexBufferView, start: int, count: int)
    requires
        buffer.wf(),
        forall|i: int| 0 <= i < buffer.data.len() ==> buffer.data[i] == 0,
        lock_error(buffer.count, start, count) is None,
    ensures
        buffer.mapped(start, count).len() == count * buffer.stride,
        forall|i: int|
            0 <= i < buffer.mapped(start, count).len() ==> buffer.mapped(start, count)[i] == 0,
{
    lemma_range_in_bounds(buffer.count, buffer.stride, start, count);
}

impl IndexBufferFormat {
    /// The largest index the format can hold.
    pub open spec fn max_index(self) -> int {
        match self {
            IndexBufferFormat::U16 => 0xffff,
            IndexBufferFormat::U32 => 0xffff_ffff,
        }
    }
}

/// The element types an index buffer can be filled from: one for each width.
pub trait ValidIndexFormat: Copy {
    /// The format whose indices have this type.
    spec fn format_of() -> IndexBufferFormat;

    /// The index as a number.
    spec fn index_of(self) -> u32;

    fn format() -> (format: IndexBufferFormat)
        ensures
            format == Self::format_of(),
    ;

    fn index(self) -> (index: u32)
        ensures
            index == self.index_of(),
            index <= Self::format_of().max_index(),
    ;
}

impl ValidIndexFormat for u16 {
    open spec fn format_of() -> IndexBufferFormat {
        IndexBufferFormat::U16
    }

    open spec fn index_of(self) -> u32 {
        self as u32
    }

    fn format() -> (format: IndexBufferFormat) {
        IndexBufferFormat::U16
    }

    fn index(self) -> (index: u32) {
        self as u32
    }
}

impl ValidIndexFormat for u32 {
    open spec fn format_of() -> IndexBufferFormat {
        IndexBufferFormat::U32
    }

    open spec fn index_of(self) -> u32 {
        self
    }

    fn format() -> (format: IndexBufferFormat) {
        IndexBufferFormat::U32
    }

    fn index(self) -> (index: u32) {
        self
    }
}

/// The indices that the elements of `src` stand for.
pub open spec fn indices_of<T: ValidIndexFormat>(src: Seq<T>) -> Seq<u32> {
    Seq::new(src.len(), |i: int| src[i].index_of())
}

/// An index buffer, as contracts see it.
pub struct IndexBufferView {
    /// The capacity, in indices.
    pub count: int,
    pub format: IndexBufferFormat,
    pub usage: Usage,
    /// The contents.
    pub data: Seq<u32>,
}

impl IndexBufferView {
    /// A buffer holds at least one index, exactly `count` of them, and none
    /// wider than its format.
    pub open spec fn wf(self) -> bool {
        &&& 0 < self.count <= i32::MAX
        &&& self.data.len() == self.count
        &&& forall|i: int| 0 <= i < self.data.len() ==> self.data[i] <= self.format.max_index()
    }
}

/// A fixed number of indices of one width, in memory the engine can see.
#[derive(Debug)]
pub struct IndexBuffer {
    count: i32,
    format: IndexBufferFormat,
    usage: Usage,
    data: Vec<u32>,
}

impl View for IndexBuffer {
    type V = IndexBufferView;

    closed spec fn view(&self) -> IndexBufferView {
        IndexBufferView {
            count: self.count as int,
            format: self.format,
            usage: self.usage,
            data: self.data@,
        }
    }
}

impl IndexBuffer {
    #[verifier::type_invariant]
    spec fn inv(self) -> bool {
        self@.wf()
    }

    /// Makes a buffer of `count` indices, every one of them zero.
    pub fn new(count: i32, usage: Usage, format: IndexBufferFormat) -> (made: Result<
        Self,
        BufferError,
    >)
        ensures
            match made {
                Ok(buffer) => {
                    &&& count > 0
                    &&& buffer@.wf()
                    &&& buffer@.count == count
                    &&& buffer@.format == format
                    &&& buffer@.usage == usage
                    &&& forall|i: int| 0 <= i < buffer@.data.len() ==> buffer@.data[i] == 0
                },
                Err(e) => e == BufferError::NoCapacity && count <= 0,
            },
    {
        if count <= 0 {
            return Err(BufferError::NoCapacity);
        }
        let data: Vec<u32> = vec![0u32; count as usize];
        Ok(IndexBuffer { count, format, usage, data })
    }

    /// The capacity, in indices.
    pub fn count(&self) -> (count: i32)
        ensures
            count == self@.count,
            self@.wf(),
    {
        proof {
            use_type_invariant(self);
        }
        self.count
    }

    /// The width of one index.
    pub fn format(&self) -> (format: IndexBufferFormat)
        ensures
            format == self@.format,
    {
        self.format
    }

    /// The usage the buffer was made for.
    pub fn usage(&self) -> (usage: Usage)
        ensures
            usage == self@.usage,
    {
        self.usage
    }

    /// Maps the whole buffer. While the mapping lives the buffer cannot be
    /// reached in any other way; what the mapping holds when it is given up is
    /// what the buffer holds from then on.
    pub fn lock<'a>(&'a mut self) -> (lock: IndexLockResult<'a>)
        ensures
            lock.wf(),
            lock.count == old(self)@.count,
            *lock.buffer == *old(self),
            *final(self) == *final(lock.buffer),
    {
        proof {
            use_type_invariant(&*self);
        }
        let count: i32 = self.count;
        IndexLockResult { buffer: self, count }
    }
}

/// The mapping of an index buffer: the only way to its indices. It borrows
/// the buffer for as long as it lives.
pub struct IndexLockResult<'a> {
    pub buffer: &'a mut IndexBuffer,
    pub count: i32,
}

impl<'a> View for IndexLockResult<'a> {
    type V = Seq<u32>;

    /// The mapped indices.
    open spec fn view(&self) -> Seq<u32> {
        self.buffer@.data
    }
}

impl<'a> IndexLockResult<'a> {
    /// A mapping covers its buffer.
    pub open spec fn wf(&self) -> bool {
        &&& self.buffer@.wf()
        &&& self.count == self.buffer@.count
    }

    /// The number of mapped indices.
    pub fn len(&self) -> (len: usize)
        requires
            self.wf(),
        ensures
            len == self@.len(),
    {
        self.count as usize
    }

    /// The mapped indices.
    pub fn as_slice(&self) -> (indices: &[u32])
        ensures
            indices@ == self@,
    {
        self.buffer.data.as_slice()
    }

    /// Overwrites the whole mapping with the indices in `src`, whose type has
    /// to be that of the buffer's format and whose length that of the
    /// mapping; otherwise nothing is written.
    pub fn copy_from_slice<T: ValidIndexFormat>(&mut self, src: &[T]) -> (copied: Result<
        (),
        WriteError,
    >)
        requires
            old(self).wf(),
        ensures
            final(self).wf(),
            final(self).count == old(self).count,
            // The mapping is still given up to the same buffer.
            *final(final(self).buffer) == *final(old(self).buffer),
            match copied {
                Ok(_) => {
                    &&& T::format_of() == old(self).buffer@.format
                    &&& src@.len() == old(self)@.len()
                    &&& final(self).buffer@ == (IndexBufferView {
                        data: indices_of(src@),
                        ..old(self).buffer@
                    })
                },
                Err(WriteError::FormatMismatch) => {
                    &&& T::format_of() != old(self).buffer@.format
                    &&& *final(self).buffer == *old(self).buffer
                },
                Err(WriteError::LengthMismatch) => {
                    &&& T::format_of() == old(self).buffer@.format
                    &&& src@.len() != old(self)@.len()
                    &&& *final(self).buffer == *old(self).buffer
                },
            },
    {
        if T::format() != self.buffer.format {
            return Err(WriteError::FormatMismatch);
        }
        let len: usize = self.count as usize;
        if src.len() != len {
            return Err(WriteError::LengthMismatch);
        }
        let mut data: Vec<u32> = Vec::with_capacity(len);
        let mut i: usize = 0;
        while i < len
            invariant
                i <= len,
                len == src@.len(),
                data@.len() == i,
                forall|j: int| 0 <= j < i ==> data@[j] == src@[j].index_of(),
                forall|j: int| 0 <= j < i ==> data@[j] <= T::format_of().max_index(),
            decreases len - i,
        {
            data.push(src[i].index());
            i += 1;
        }
        assert(data@ =~= indices_of(src@));
        self.buffer.data = data;
        Ok(())
    }

    /// Gives the mapping up.
    pub fn unlock(self)
        ensures
            *final(self.buffer) == *old(self.buffer),
    {
    }
}

} // verus!
