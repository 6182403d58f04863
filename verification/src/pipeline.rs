//! Vertex layout descriptors and the pipeline layout compiler.
//!
//! A pipeline's vertex input is described by buffer-slot descriptors and an
//! ordered attribute list.  The compiler packs each slot's attributes
//! contiguously, in declaration order: a slot whose declared stride is zero
//! gets the sum of its attributes' byte sizes as stride, and each attribute's
//! offset is the sum of the byte sizes of the same-slot attributes declared
//! before it.

use vstd::prelude::*;

use crate::gl;
use crate::shader::Shader;

verus! {

/// How a buffer slot advances: once per vertex, or once per `k` instances.
#[derive(Clone, Copy, Debug, PartialEq, Eq, Structural)]
pub enum VertexStep {
    /// The slot advances for every vertex.
    PerVertex,
    /// The slot advances once per the given number of instances.
    PerInstance(u32),
}

impl Default for VertexStep {
    fn default() -> (r: Self)
        ensures
            r == VertexStep::PerVertex,
    {
        VertexStep::PerVertex
    }
}

/// Component count and element type of one vertex attribute.
#[derive(Clone, Copy, Debug, PartialEq, Eq, Structural)]
pub enum VertexFormat {
    Float1,
    Float2,
    Float3,
    Float4,
    Byte1,
    Byte2,
    Byte3,
    Byte4,
    Short1,
    Short2,
    Short3,
    Short4,
}

/// One vertex-buffer slot: a declared stride (zero means "infer by packing")
/// and a step function.
#[derive(Clone, Copy, Debug, PartialEq, Eq, Structural)]
pub struct BufferLayout {
    /// The declared byte stride; zero asks the compiler to infer it.
    pub stride: i32,
    /// How the slot advances during instanced drawing.
    pub step_func: VertexStep,
}

impl Default for BufferLayout {
    fn default() -> (r: Self)
        ensures
            r == (BufferLayout { stride: 0, step_func: VertexStep::PerVertex }),
    {
        BufferLayout { stride: 0, step_func: VertexStep::PerVertex }
    }
}

/// One vertex attribute: its shader name, format, and buffer slot.
#[derive(Clone, Copy, Debug)]
pub struct VertexAttribute {
    /// The attribute's name in the shader source.
    pub name: &'static str,
    /// The attribute's component format.
    pub format: VertexFormat,
    /// The buffer slot the attribute reads from.
    pub buffer_index: usize,
}

/// A fully resolved attribute: backend location, element type code, byte
/// offset, byte stride, instance divisor and component count.
#[derive(Clone, Copy, Debug, PartialEq, Eq, Structural)]
pub struct VertexAttributeInternal {
    /// The backend attribute location.
    pub location: u32,
    /// The backend element type code.
    pub format: u32,
    /// The byte offset of the attribute inside one element of its slot.
    pub offset: i32,
    /// The byte stride of the attribute's slot.
    pub stride: i32,
    /// The per-instance advance rate; zero means per-vertex.
    pub divisor: u32,
    /// The number of components.
    pub size: i32,
}

/// A non-owning handle to a pipeline in a context's registry.
#[derive(Clone, Copy, Debug, PartialEq, Eq, Structural)]
pub struct Pipeline {
    /// The index of the pipeline in its context's registry.
    pub id: usize,
}

/// A registry entry: the owned shader and the per-slot attribute schedule.
#[derive(Debug)]
pub struct PipelineInternal {
    /// Resolved attributes, one ordered list per buffer slot.
    pub attrs: Vec<Vec<VertexAttributeInternal>>,
    /// The shader the pipeline draws with.
    pub shader: Shader,
}

/// The byte size of one attribute value of the given format.
pub open spec fn format_byte_size(format: VertexFormat) -> int {
    match format {
        VertexFormat::Float1 => 4,
        VertexFormat::Float2 => 8,
        VertexFormat::Float3 => 12,
        VertexFormat::Float4 => 16,
        VertexFormat::Byte1 => 1,
        VertexFormat::Byte2 => 2,
        VertexFormat::Byte3 => 3,
        VertexFormat::Byte4 => 4,
        VertexFormat::Short1 => 2,
        VertexFormat::Short2 => 4,
        VertexFormat::Short3 => 6,
        VertexFormat::Short4 => 8,
    }
}

/// The number of components of the given format.
pub open spec fn format_components(format: VertexFormat) -> int {
    match format {
        VertexFormat::Float1 => 1,
        VertexFormat::Float2 => 2,
        VertexFormat::Float3 => 3,
        VertexFormat::Float4 => 4,
        VertexFormat::Byte1 => 1,
        VertexFormat::Byte2 => 2,
        VertexFormat::Byte3 => 3,
        VertexFormat::Byte4 => 4,
        VertexFormat::Short1 => 1,
        VertexFormat::Short2 => 2,
        VertexFormat::Short3 => 3,
        VertexFormat::Short4 => 4,
    }
}

/// The backend element type code of the given format.
pub open spec fn format_type_code(format: VertexFormat) -> u32 {
    match format {
        VertexFormat::Float1 => gl::FLOAT,
        VertexFormat::Float2 => gl::FLOAT,
        VertexFormat::Float3 => gl::FLOAT,
        VertexFormat::Float4 => gl::FLOAT,
        VertexFormat::Byte1 => gl::BYTE,
        VertexFormat::Byte2 => gl::BYTE,
        VertexFormat::Byte3 => gl::BYTE,
        VertexFormat::Byte4 => gl::BYTE,
        VertexFormat::Short1 => gl::SHORT,
        VertexFormat::Short2 => gl::SHORT,
        VertexFormat::Short3 => gl::SHORT,
        VertexFormat::Short4 => gl::SHORT,
    }
}

/// The per-instance advance rate of a step function: per-vertex is zero.
pub open spec fn step_divisor(step: VertexStep) -> u32 {
    match step {
        VertexStep::PerVertex => 0,
        VertexStep::PerInstance(divisor) => divisor,
    }
}

/// The sum of the byte sizes of the attributes among the first `n` that are
/// assigned to `slot`, in declaration order.
pub open spec fn packed_size(attrs: Seq<VertexAttribute>, slot: int, n: int) -> int
    decreases n,
{
    if n <= 0 {
        0
    } else {
        packed_size(attrs, slot, n - 1) + if attrs[n - 1].buffer_index == slot {
            format_byte_size(attrs[n - 1].format)
        } else {
            0
        }
    }
}

/// The stride of `slot`: the declared stride when it is non-zero, otherwise
/// the tight packing of the slot's attributes.
pub open spec fn slot_stride(
    buffers: Seq<BufferLayout>,
    attrs: Seq<VertexAttribute>,
    slot: int,
) -> int {
    if buffers[slot].stride != 0 {
        buffers[slot].stride as int
    } else {
        packed_size(attrs, slot, attrs.len() as int)
    }
}

/// The resolved form of attribute `k`: its location, type code, running
/// offset, slot stride, divisor and component count.
pub open spec fn resolved_attr(
    buffers: Seq<BufferLayout>,
    attrs: Seq<VertexAttribute>,
    locations: Seq<u32>,
    k: int,
) -> VertexAttributeInternal {
    VertexAttributeInternal {
        location: locations[k],
        format: format_type_code(attrs[k].format),
        offset: packed_size(attrs, attrs[k].buffer_index as int, k) as i32,
        stride: slot_stride(buffers, attrs, attrs[k].buffer_index as int) as i32,
        divisor: step_divisor(buffers[attrs[k].buffer_index as int].step_func),
        size: format_components(attrs[k].format) as i32,
    }
}

/// The ordered schedule of `slot`, over the first `n` attributes: the
/// resolved forms of the slot's attributes, in declaration order.
pub open spec fn slot_schedule(
    buffers: Seq<BufferLayout>,
    attrs: Seq<VertexAttribute>,
    locations: Seq<u32>,
    slot: int,
    n: int,
) -> Seq<VertexAttributeInternal>
    decreases n,
{
    if n <= 0 {
        Seq::empty()
    } else {
        let prev = slot_schedule(buffers, attrs, locations, slot, n - 1);
        if attrs[n - 1].buffer_index == slot {
            prev.push(resolved_attr(buffers, attrs, locations, n - 1))
        } else {
            prev
        }
    }
}

/// The found locations of a fully resolved lookup, in order.
pub open spec fn location_values(locations: Seq<Option<u32>>) -> Seq<u32> {
    Seq::new(locations.len(), |i: int| locations[i]->0)
}

/// What the compiler asks of its inputs: every attribute names an existing
/// slot, and every slot's tight packing fits the backend's signed 32-bit
/// stride argument.
pub open spec fn layout_inputs_ok(
    buffers: Seq<BufferLayout>,
    attrs: Seq<VertexAttribute>,
) -> bool {
    &&& forall|k: int| 0 <= k < attrs.len() ==> attrs[k].buffer_index < buffers.len()
    &&& forall|s: int|
        0 <= s < buffers.len() ==> packed_size(attrs, s, attrs.len() as int) <= i32::MAX
}

/// Packed sizes only grow as more attributes are considered.
pub proof fn lemma_packed_size_monotone(
    attrs: Seq<VertexAttribute>,
    slot: int,
    n: int,
    m: int,
)
    requires
        0 <= n <= m,
    ensures
        0 <= packed_size(attrs, slot, n) <= packed_size(attrs, slot, m),
    decreases m,
{
    if m > 0 {
        if n <= m - 1 {
            lemma_packed_size_monotone(attrs, slot, n, m - 1);
        } else {
            lemma_packed_size_monotone(attrs, slot, n - 1, m - 1);
        }
    }
}

/// The byte size of a resolved attribute, recovered from its backend type
/// code and component count.
pub open spec fn resolved_byte_size(attr: VertexAttributeInternal) -> int {
    if attr.format == gl::FLOAT {
        4 * (attr.size as int)
    } else if attr.format == gl::SHORT {
        2 * (attr.size as int)
    } else {
        1 * (attr.size as int)
    }
}

/// The sum of the byte sizes of the first `j` entries of a resolved row.
pub open spec fn row_bytes(row: Seq<VertexAttributeInternal>, j: int) -> int
    decreases j,
{
    if j <= 0 {
        0
    } else {
        row_bytes(row, j - 1) + resolved_byte_size(row[j - 1])
    }
}

/// A resolved attribute's recovered byte size is its source format's.
proof fn lemma_resolved_byte_size(
    buffers: Seq<BufferLayout>,
    attrs: Seq<VertexAttribute>,
    locations: Seq<u32>,
    k: int,
)
    ensures
        resolved_byte_size(resolved_attr(buffers, attrs, locations, k)) == format_byte_size(
            attrs[k].format,
        ),
{
}

/// The first `j` entries of a row determine its `j`-length byte sum, so a
/// pushed entry leaves it unchanged.
proof fn lemma_row_bytes_push(row: Seq<VertexAttributeInternal>, attr: VertexAttributeInternal, j: int)
    requires
        0 <= j <= row.len(),
    ensures
        row_bytes(row.push(attr), j) == row_bytes(row, j),
    decreases j,
{
    if j > 0 {
        lemma_row_bytes_push(row, attr, j - 1);
        assert(row.push(attr)[j - 1] == row[j - 1]);
    }
}

/// The packing invariants of a slot's schedule: the row's total byte size
/// equals the slot's packed size, each entry's offset equals the sum of the
/// byte sizes of the entries before it, and each entry carries the slot's
/// stride.
pub proof fn lemma_slot_schedule_packing(
    buffers: Seq<BufferLayout>,
    attrs: Seq<VertexAttribute>,
    locations: Seq<u32>,
    slot: int,
    n: int,
)
    requires
        0 <= n <= attrs.len(),
        packed_size(attrs, slot, attrs.len() as int) <= i32::MAX,
    ensures
        ({
            let row = slot_schedule(buffers, attrs, locations, slot, n);
            &&& row_bytes(row, row.len() as int) == packed_size(attrs, slot, n)
            &&& forall|j: int|
                0 <= j < row.len() ==> (#[trigger] row[j]).offset == row_bytes(row, j)
            &&& forall|j: int|
                0 <= j < row.len() ==> (#[trigger] row[j]).stride == slot_stride(
                    buffers,
                    attrs,
                    slot,
                ) as i32
        }),
    decreases n,
{
    if n > 0 {
        lemma_slot_schedule_packing(buffers, attrs, locations, slot, n - 1);
        let prev = slot_schedule(buffers, attrs, locations, slot, n - 1);
        let row = slot_schedule(buffers, attrs, locations, slot, n);
        if attrs[n - 1].buffer_index == slot {
            let entry = resolved_attr(buffers, attrs, locations, n - 1);
            assert(row == prev.push(entry));
            lemma_packed_size_monotone(attrs, slot, n - 1, attrs.len() as int);
            lemma_packed_size_monotone(attrs, slot, n, attrs.len() as int);
            lemma_resolved_byte_size(buffers, attrs, locations, n - 1);
            assert forall|j: int| 0 <= j <= prev.len() implies row_bytes(row, j) == row_bytes(
                prev,
                j,
            ) by {
                lemma_row_bytes_push(prev, entry, j);
            }
            assert(row_bytes(row, row.len() as int) == row_bytes(row, prev.len() as int)
                + resolved_byte_size(entry));
            assert(entry.offset == packed_size(attrs, slot, n - 1));
            assert forall|j: int| 0 <= j < row.len() implies (#[trigger] row[j]).offset
                == row_bytes(row, j) && row[j].stride == slot_stride(buffers, attrs, slot) as i32 by {
                if j < prev.len() {
                    assert(row[j] == prev[j]);
                } else {
                    assert(row[j] == entry);
                }
            }
        } else {
            assert(row == prev);
        }
    }
}

/// With an inferred (zero) stride, every scheduled attribute of the slot
/// carries as stride the sum of the byte sizes of all the slot's
/// attributes, and as offset the sum of the byte sizes of those scheduled
/// before it.
pub proof fn lemma_inferred_stride_is_packed_sum(
    buffers: Seq<BufferLayout>,
    attrs: Seq<VertexAttribute>,
    locations: Seq<u32>,
    slot: int,
)
    requires
        0 <= slot < buffers.len(),
        buffers[slot].stride == 0,
        packed_size(attrs, slot, attrs.len() as int) <= i32::MAX,
    ensures
        ({
            let row = slot_schedule(buffers, attrs, locations, slot, attrs.len() as int);
            &&& forall|j: int|
                0 <= j < row.len() ==> (#[trigger] row[j]).stride == row_bytes(
                    row,
                    row.len() as int,
                )
            &&& forall|j: int|
                0 <= j < row.len() ==> (#[trigger] row[j]).offset == row_bytes(row, j)
        }),
{
    lemma_slot_schedule_packing(buffers, attrs, locations, slot, attrs.len() as int);
    lemma_packed_size_monotone(attrs, slot, 0, attrs.len() as int);
}

/// Every entry of a slot's schedule carries the slot's stride, whatever it
/// is.
pub proof fn lemma_schedule_stride(
    buffers: Seq<BufferLayout>,
    attrs: Seq<VertexAttribute>,
    locations: Seq<u32>,
    slot: int,
    n: int,
)
    requires
        0 <= n,
    ensures
        forall|j: int|
            0 <= j < slot_schedule(buffers, attrs, locations, slot, n).len() ==> (
            #[trigger] slot_schedule(buffers, attrs, locations, slot, n)[j]).stride == slot_stride(
                buffers,
                attrs,
                slot,
            ) as i32,
    decreases n,
{
    if n > 0 {
        lemma_schedule_stride(buffers, attrs, locations, slot, n - 1);
        let prev = slot_schedule(buffers, attrs, locations, slot, n - 1);
        let row = slot_schedule(buffers, attrs, locations, slot, n);
        if attrs[n - 1].buffer_index == slot {
            assert(row == prev.push(resolved_attr(buffers, attrs, locations, n - 1)));
            assert forall|j: int| 0 <= j < row.len() implies (#[trigger] row[j]).stride
                == slot_stride(buffers, attrs, slot) as i32 by {
                if j < prev.len() {
                    assert(row[j] == prev[j]);
                }
            }
        }
    }
}

/// The compiler never overrides a caller-declared stride: with a non-zero
/// declared stride, every scheduled attribute of the slot carries exactly
/// that value.
pub proof fn lemma_explicit_stride_preserved(
    buffers: Seq<BufferLayout>,
    attrs: Seq<VertexAttribute>,
    locations: Seq<u32>,
    slot: int,
)
    requires
        0 <= slot < buffers.len(),
        buffers[slot].stride != 0,
    ensures
        forall|j: int|
            0 <= j < slot_schedule(buffers, attrs, locations, slot, attrs.len() as int).len()
                ==> (#[trigger] slot_schedule(buffers, attrs, locations, slot, attrs.len() as int)[
                j
            ]).stride == buffers[slot].stride,
{
    lemma_schedule_stride(buffers, attrs, locations, slot, attrs.len() as int);
}

/// Resolution is idempotent: two schedules computed from the same layouts
/// and attribute list are structurally identical — same type codes,
/// offsets, strides, divisors and component counts — whatever attribute
/// locations the backend reported each time.
pub proof fn lemma_resolution_idempotent(
    buffers: Seq<BufferLayout>,
    attrs: Seq<VertexAttribute>,
    locations1: Seq<u32>,
    locations2: Seq<u32>,
    slot: int,
    n: int,
)
    requires
        0 <= n,
    ensures
        ({
            let r1 = slot_schedule(buffers, attrs, locations1, slot, n);
            let r2 = slot_schedule(buffers, attrs, locations2, slot, n);
            &&& r1.len() == r2.len()
            &&& forall|j: int|
                0 <= j < r1.len() ==> {
                    &&& (#[trigger] r1[j]).format == r2[j].format
                    &&& r1[j].offset == r2[j].offset
                    &&& r1[j].stride == r2[j].stride
                    &&& r1[j].divisor == r2[j].divisor
                    &&& r1[j].size == r2[j].size
                }
        }),
    decreases n,
{
    if n > 0 {
        lemma_resolution_idempotent(buffers, attrs, locations1, locations2, slot, n - 1);
    }
}

/// Computes the byte size of one attribute value of the given format.
pub fn vertex_format_byte_size(format: VertexFormat) -> (r: i32)
    ensures
        r == format_byte_size(format),
{
    match format {
        VertexFormat::Float1 => 4,
        VertexFormat::Float2 => 8,
        VertexFormat::Float3 => 12,
        VertexFormat::Float4 => 16,
        VertexFormat::Byte1 => 1,
        VertexFormat::Byte2 => 2,
        VertexFormat::Byte3 => 3,
        VertexFormat::Byte4 => 4,
        VertexFormat::Short1 => 2,
        VertexFormat::Short2 => 4,
        VertexFormat::Short3 => 6,
        VertexFormat::Short4 => 8,
    }
}

/// Computes the number of components of the given format.
pub fn vertex_format_components(format: VertexFormat) -> (r: i32)
    ensures
        r == format_components(format),
{
    match format {
        VertexFormat::Float1 => 1,
        VertexFormat::Float2 => 2,
        VertexFormat::Float3 => 3,
        VertexFormat::Float4 => 4,
        VertexFormat::Byte1 => 1,
        VertexFormat::Byte2 => 2,
        VertexFormat::Byte3 => 3,
        VertexFormat::Byte4 => 4,
        VertexFormat::Short1 => 1,
        VertexFormat::Short2 => 2,
        VertexFormat::Short3 => 3,
        VertexFormat::Short4 => 4,
    }
}

/// Computes the backend element type code of the given format.
pub fn vertex_format_type_code(format: VertexFormat) -> (r: u32)
    ensures
        r == format_type_code(format),
{
    match format {
        VertexFormat::Float1 => gl::FLOAT,
        VertexFormat::Float2 => gl::FLOAT,
        VertexFormat::Float3 => gl::FLOAT,
        VertexFormat::Float4 => gl::FLOAT,
        VertexFormat::Byte1 => gl::BYTE,
        VertexFormat::Byte2 => gl::BYTE,
        VertexFormat::Byte3 => gl::BYTE,
        VertexFormat::Byte4 => gl::BYTE,
        VertexFormat::Short1 => gl::SHORT,
        VertexFormat::Short2 => gl::SHORT,
        VertexFormat::Short3 => gl::SHORT,
        VertexFormat::Short4 => gl::SHORT,
    }
}

/// Computes the per-instance advance rate of a step function.
pub fn vertex_step_divisor(step: VertexStep) -> (r: u32)
    ensures
        r == step_divisor(step),
{
    match step {
        VertexStep::PerVertex => 0,
        VertexStep::PerInstance(divisor) => divisor,
    }
}

/// Computes the stride of `slot`: the declared stride if non-zero, else the
/// sum of the byte sizes of the slot's attributes.
fn compute_slot_stride(
    buffers: &[BufferLayout],
    attrs: &[VertexAttribute],
    slot: usize,
) -> (r: i32)
    requires
        slot < buffers@.len(),
        packed_size(attrs@, slot as int, attrs@.len() as int) <= i32::MAX,
    ensures
        r == slot_stride(buffers@, attrs@, slot as int),
{
    if buffers[slot].stride != 0 {
        return buffers[slot].stride;
    }
    let mut acc: i32 = 0;
    let mut k: usize = 0;
    while k < attrs.len()
        invariant
            k <= attrs@.len(),
            slot < buffers@.len(),
            buffers@[slot as int].stride == 0,
            acc == packed_size(attrs@, slot as int, k as int),
            packed_size(attrs@, slot as int, attrs@.len() as int) <= i32::MAX,
        decreases attrs@.len() - k,
    {
        if attrs[k].buffer_index == slot {
            let size = vertex_format_byte_size(attrs[k].format);
            proof {
                lemma_packed_size_monotone(attrs@, slot as int, k as int + 1, attrs@.len() as int);
            }
            acc = acc + size;
        }
        k += 1;
    }
    acc
}

/// The pipeline layout compiler: packs each slot's attributes in declaration
/// order and pairs them with the backend locations the shader reported.
///
/// The result has one ordered list per buffer slot; entry fields are pinned
/// by [`slot_schedule`]: offsets are running sums of prior same-slot byte
/// sizes, strides follow [`slot_stride`], divisors follow the slot's step
/// function.
pub fn resolve_attributes(
    buffers: &[BufferLayout],
    attrs: &[VertexAttribute],
    locations: &[u32],
) -> (r: Vec<Vec<VertexAttributeInternal>>)
    requires
        locations@.len() == attrs@.len(),
        layout_inputs_ok(buffers@, attrs@),
    ensures
        r@.len() == buffers@.len(),
        forall|s: int|
            0 <= s < buffers@.len() ==> r@[s]@ == slot_schedule(
                buffers@,
                attrs@,
                locations@,
                s,
                attrs@.len() as int,
            ),
{
    let mut out: Vec<Vec<VertexAttributeInternal>> = Vec::new();
    let mut s: usize = 0;
    while s < buffers.len()
        invariant
            locations@.len() == attrs@.len(),
            layout_inputs_ok(buffers@, attrs@),
            s <= buffers@.len(),
            out@.len() == s,
            forall|t: int|
                0 <= t < s ==> out@[t]@ == slot_schedule(
                    buffers@,
                    attrs@,
                    locations@,
                    t,
                    attrs@.len() as int,
                ),
        decreases buffers@.len() - s,
    {
        let stride = compute_slot_stride(buffers, attrs, s);
        let divisor = vertex_step_divisor(buffers[s].step_func);
        let mut row: Vec<VertexAttributeInternal> = Vec::new();
        let mut off: i32 = 0;
        let mut k: usize = 0;
        while k < attrs.len()
            invariant
                locations@.len() == attrs@.len(),
                layout_inputs_ok(buffers@, attrs@),
                s < buffers@.len(),
                k <= attrs@.len(),
                stride == slot_stride(buffers@, attrs@, s as int),
                divisor == step_divisor(buffers@[s as int].step_func),
                off == packed_size(attrs@, s as int, k as int),
                row@ == slot_schedule(buffers@, attrs@, locations@, s as int, k as int),
            decreases attrs@.len() - k,
        {
            if attrs[k].buffer_index == s {
                let size = vertex_format_components(attrs[k].format);
                let code = vertex_format_type_code(attrs[k].format);
                let byte = vertex_format_byte_size(attrs[k].format);
                row.push(
                    VertexAttributeInternal {
                        location: locations[k],
                        format: code,
                        offset: off,
                        stride,
                        divisor,
                        size,
                    },
                );
                proof {
                    lemma_packed_size_monotone(
                        attrs@,
                        s as int,
                        k as int + 1,
                        attrs@.len() as int,
                    );
                }
                off = off + byte;
            }
            k += 1;
        }
        out.push(row);
        s += 1;
    }
    out
}

} // verus!
