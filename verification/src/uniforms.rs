use vstd::prelude::*;

verus! {

/// Number of bytes of the elapsed-time uniform: one 32-bit float.
pub const TIME_BYTES: u64 = 4;

/// Number of bytes of the resolution uniform: two 32-bit floats.
pub const RESOLUTION_BYTES: u64 = 8;

/// How the uniform buffer may be used by the device.
#[derive(Clone, Copy, Debug, PartialEq, Eq, Structural)]
pub struct BufferUsage {
    pub uniform: bool,
    pub copy_dst: bool,
}

/// The shader stages that may read a binding.
#[derive(Clone, Copy, Debug, PartialEq, Eq, Structural)]
pub struct Visibility {
    pub vertex: bool,
    pub fragment: bool,
    pub compute: bool,
}

/// One buffer binding of the bind group and of its layout.
#[derive(Clone, Copy, Debug, PartialEq, Eq, Structural)]
pub struct Binding {
    /// Binding index seen by the fragment program.
    pub index: u32,
    /// Byte offset of the bound range in the uniform buffer.
    pub offset: u64,
    pub visibility: Visibility,
    pub has_dynamic_offset: bool,
}

/// The uniform buffer and the bind group that exposes it: what has to be
/// created on the device, as plain values.
#[derive(Clone, Copy, Debug, PartialEq, Eq, Structural)]
pub struct UniformBindings {
    /// The device's minimum uniform-buffer offset alignment.
    pub alignment: u32,
    /// Size of the buffer in bytes; never changes after creation.
    pub buffer_size: u64,
    pub usage: BufferUsage,
    pub mapped_at_creation: bool,
    /// Elapsed seconds, at the start of the buffer.
    pub time: Binding,
    /// Viewport resolution, one alignment step into the buffer.
    pub resolution: Binding,
}

/// One write into the uniform buffer, handed to the queue as it is.
#[derive(Debug, PartialEq, Eq)]
pub struct BufferWrite {
    pub offset: u64,
    pub data: Vec<u8>,
}

pub open spec fn fragment_only() -> Visibility {
    Visibility { vertex: false, fragment: true, compute: false }
}

/// The resources that `create_bindings` plans for a device alignment.
pub open spec fn spec_bindings(alignment: u32) -> UniformBindings {
    UniformBindings {
        alignment,
        buffer_size: (2 * alignment) as u64,
        usage: BufferUsage { uniform: true, copy_dst: true },
        mapped_at_creation: false,
        time: Binding {
            index: 0,
            offset: 0,
            visibility: fragment_only(),
            has_dynamic_offset: false,
        },
        resolution: Binding {
            index: 1,
            offset: alignment as u64,
            visibility: fragment_only(),
            has_dynamic_offset: false,
        },
    }
}

/// The four bytes of `x`, least significant first.
pub open spec fn le_bytes(x: u32) -> Seq<u8> {
    seq![
        (x & 0xff) as u8,
        ((x >> 8) & 0xff) as u8,
        ((x >> 16) & 0xff) as u8,
        ((x >> 24) & 0xff) as u8,
    ]
}

/// The four bytes of `x`, most significant first.
pub open spec fn be_bytes(x: u32) -> Seq<u8> {
    seq![
        ((x >> 24) & 0xff) as u8,
        ((x >> 16) & 0xff) as u8,
        ((x >> 8) & 0xff) as u8,
        (x & 0xff) as u8,
    ]
}

/// `bytes` is `x` as it lies in memory, in one of the two byte orders.
pub open spec fn is_memory_image(bytes: Seq<u8>, x: u32) -> bool {
    bytes == le_bytes(x) || bytes == be_bytes(x)
}

/// Calls `bytemuck::bytes_of` on a `u32` and copies the slice it returns.
///
/// Trusted: that function reinterprets the referenced value as the bytes it
/// occupies in memory, so for a `u32` the result has four bytes and is the
/// value in the byte order of the machine, which the contract leaves open.
#[verifier::external_body]
fn memory_image(x: u32) -> (bytes: Vec<u8>)
    ensures
        is_memory_image(bytes@, x),
{
    bytemuck::bytes_of(&x).to_vec()
}

impl UniformBindings {
    /// The buffer has room for both uniforms at offsets the device accepts:
    /// the offsets are multiples of the alignment and neither range leaves
    /// the buffer or reaches into the other.
    pub open spec fn well_formed(self) -> bool {
        &&& self == spec_bindings(self.alignment)
        &&& self.alignment >= RESOLUTION_BYTES
        &&& self.alignment % 4 == 0
    }

    /// The write that stores the elapsed time.
    pub open spec fn is_time_write(self, w: BufferWrite, bits: u32) -> bool {
        &&& w.offset == self.time.offset
        &&& is_memory_image(w.data@, bits)
    }

    /// The write that stores the resolution: width first, then height.
    pub open spec fn is_resolution_write(self, w: BufferWrite, width_bits: u32, height_bits: u32) -> bool {
        &&& w.offset == self.resolution.offset
        &&& w.data@.len() == RESOLUTION_BYTES
        &&& is_memory_image(w.data@.subrange(0, 4), width_bits)
        &&& is_memory_image(w.data@.subrange(4, 8), height_bits)
    }

    /// Plans the uniform buffer, its layout and its bind group for a device
    /// whose minimum uniform-buffer offset alignment is `alignment`: a
    /// buffer of twice the alignment, the time bound at offset zero and the
    /// resolution at offset `alignment`, both for the fragment stage only.
    pub fn create_bindings(alignment: u32) -> (bindings: UniformBindings)
        ensures
            bindings == spec_bindings(alignment),
            bindings.buffer_size == 2 * alignment,
            bindings.time.offset == 0,
            bindings.resolution.offset == alignment,
            alignment >= RESOLUTION_BYTES && alignment % 4 == 0 <==> bindings.well_formed(),
    {
        let step: u64 = alignment as u64;
        let visibility = Visibility { vertex: false, fragment: true, compute: false };
        UniformBindings {
            alignment,
            buffer_size: 2 * step,
            usage: BufferUsage { uniform: true, copy_dst: true },
            mapped_at_creation: false,
            time: Binding { index: 0, offset: 0, visibility, has_dynamic_offset: false },
            resolution: Binding { index: 1, offset: step, visibility, has_dynamic_offset: false },
        }
    }

    /// Whether both uniforms fit the buffer at offsets the device accepts.
    pub fn is_well_formed(&self) -> (ok: bool)
        ensures
            ok == self.well_formed(),
    {
        let planned = UniformBindings::create_bindings(self.alignment);
        *self == planned && self.alignment >= 8 && self.alignment % 4 == 0
    }

    /// The write of the elapsed time: the four bytes of a 32-bit float,
    /// given by its IEEE 754 bit pattern, at the start of the buffer.
    pub fn write_time(&self, elapsed_bits: u32) -> (w: BufferWrite)
        ensures
            self.is_time_write(w, elapsed_bits),
            w.data@.len() == TIME_BYTES,
            self.well_formed() ==> w.offset + w.data@.len() <= self.resolution.offset,
    {
        let data = memory_image(elapsed_bits);
        BufferWrite { offset: self.time.offset, data }
    }

    /// The write of the resolution: the eight bytes of two 32-bit floats,
    /// given by their IEEE 754 bit patterns, one alignment step into the
    /// buffer.
    pub fn write_resolution(&self, width_bits: u32, height_bits: u32) -> (w: BufferWrite)
        ensures
            self.is_resolution_write(w, width_bits, height_bits),
            self.well_formed() ==> w.offset == self.alignment
                && w.offset % 4 == 0
                && w.offset + w.data@.len() <= self.buffer_size,
    {
        let mut data = memory_image(width_bits);
        let mut tail = memory_image(height_bits);
        let ghost head = data@;
        let ghost rest = tail@;
        data.append(&mut tail);
        proof {
            assert(data@.subrange(0, 4) =~= head);
            assert(data@.subrange(4, 8) =~= rest);
        }
        BufferWrite { offset: self.resolution.offset, data }
    }
}

/// For every alignment of at least 64 bytes that is a multiple of four, the
/// planned buffer holds exactly twice the alignment, the resolution is bound
/// at exactly the alignment, and the plan is well formed.
pub proof fn lemma_offset_invariant(alignment: u32)
    requires
        alignment >= 64,
        alignment % 4 == 0,
    ensures
        spec_bindings(alignment).resolution.offset == alignment,
        spec_bindings(alignment).buffer_size == 2 * alignment,
        spec_bindings(alignment).time.offset == 0,
        spec_bindings(alignment).resolution.offset % (alignment as u64) == 0,
        spec_bindings(alignment).well_formed(),
{
}

} // verus!
