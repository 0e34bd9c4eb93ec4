//! Shader programs: the kinds of shaders and the layout of vertex data.

use crate::geom::in_i32;
use vstd::prelude::*;

verus! {

/// The kind of a shader.
#[derive(Copy, Clone, Debug, PartialEq, Eq, Structural)]
pub enum ShaderType {
    Vertex,
    Fragment,
}

impl ShaderType {
    /// The value that names the kind to the driver: `GL_VERTEX_SHADER` or
    /// `GL_FRAGMENT_SHADER`.
    pub fn as_gl(self) -> (r: u32)
        ensures
            r == (match self {
                ShaderType::Vertex => 0x8B31u32,
                ShaderType::Fragment => 0x8B30u32,
            }),
    {
        match self {
            ShaderType::Vertex => 0x8B31,
            ShaderType::Fragment => 0x8B30,
        }
    }
}

/// The sum of the first `k` sizes.
pub open spec fn size_sum(sizes: Seq<i32>, k: nat) -> int
    decreases k,
{
    if k == 0 || k > sizes.len() {
        0
    } else {
        size_sum(sizes, (k - 1) as nat) + sizes[k - 1]
    }
}

/// Whether the sum of the first `j` sizes fits in an `i32`, for every `j` up
/// to `k`.
pub open spec fn sums_fit(sizes: Seq<i32>, k: nat) -> bool {
    forall|j: nat| j <= k ==> in_i32(#[trigger] size_sum(sizes, j))
}

/// The number of floats of a vertex whose attributes have the given sizes,
/// in floats: their sum. `None` if a sum on the way does not fit.
pub fn stride(sizes: &[i32]) -> (r: Option<i32>)
    ensures
        r.is_some() == sums_fit(sizes@, sizes@.len()),
        r matches Some(total) ==> total == size_sum(sizes@, sizes@.len()),
{
    let mut total: i32 = 0;
    let mut i: usize = 0;
    while i < sizes.len()
        invariant
            i <= sizes@.len(),
            total == size_sum(sizes@, i as nat),
            sums_fit(sizes@, i as nat),
        decreases sizes@.len() - i,
    {
        match total.checked_add(sizes[i]) {
            Some(next) => {
                total = next;
            },
            None => {
                assert(!in_i32(size_sum(sizes@, (i + 1) as nat)));
                return None;
            },
        }
        i = i + 1;
    }
    Some(total)
}

/// One call that tells the driver where an attribute, or one row of a matrix
/// attribute, lies in the data of a vertex.
#[derive(Copy, Clone, Debug, PartialEq, Eq, Structural)]
pub struct AttribSlot {
    /// The place of the attribute in the list of attributes.
    pub attribute: usize,
    /// The row of a matrix attribute, which is added to the location of the
    /// attribute; zero for any other attribute.
    pub row: u32,
    /// The number of floats of the slot.
    pub size: i32,
    /// The distance between two vertices, in bytes.
    pub stride_bytes: i32,
    /// The distance of the slot from the start of a vertex, in bytes.
    pub offset_bytes: i32,
}

/// Whether an attribute of the given size can be laid out: it has at most
/// four floats, or it is a matrix of sixteen.
pub open spec fn supported_size(size: i32) -> bool {
    size <= 4 || size == 16
}

/// The slots of the attribute at `attribute`, which starts `offset` floats
/// into a vertex of `stride` floats: one slot, or, for a matrix, one for each
/// of its four rows of four floats.
pub open spec fn attribute_slots(attribute: usize, size: i32, stride: int, offset: int) -> Seq<
    AttribSlot,
> {
    if size == 16 {
        Seq::new(
            4,
            |row: int|
                AttribSlot {
                    attribute,
                    row: row as u32,
                    size: 4,
                    stride_bytes: (stride * 4) as i32,
                    offset_bytes: ((offset + 4 * row) * 4) as i32,
                },
        )
    } else {
        seq![
            AttribSlot {
                attribute,
                row: 0,
                size,
                stride_bytes: (stride * 4) as i32,
                offset_bytes: (offset * 4) as i32,
            },
        ]
    }
}

/// The slots of the first `k` attributes of a vertex, in order.
pub open spec fn vertex_slots(sizes: Seq<i32>, k: nat) -> Seq<AttribSlot>
    decreases k,
{
    if k == 0 || k > sizes.len() {
        Seq::empty()
    } else {
        vertex_slots(sizes, (k - 1) as nat) + attribute_slots(
            (k - 1) as usize,
            sizes[k - 1],
            size_sum(sizes, sizes.len()),
            size_sum(sizes, (k - 1) as nat),
        )
    }
}

/// Whether the attributes can be laid out: every size is supported and not
/// negative, and every distance in bytes fits in an `i32`.
pub open spec fn layout_fits(sizes: Seq<i32>) -> bool {
    &&& forall|i: int| 0 <= i < sizes.len() ==> 0 <= #[trigger] sizes[i] && supported_size(sizes[i])
    &&& in_i32(size_sum(sizes, sizes.len()) * 4)
}

proof fn lemma_size_sum_grows(sizes: Seq<i32>, k: nat, n: nat)
    requires
        k <= n <= sizes.len(),
        forall|i: int| 0 <= i < sizes.len() ==> 0 <= #[trigger] sizes[i],
    ensures
        0 <= size_sum(sizes, k) <= size_sum(sizes, n),
    decreases n,
{
    if k < n {
        lemma_size_sum_grows(sizes, k, (n - 1) as nat);
    } else if k > 0 {
        lemma_size_sum_grows(sizes, (k - 1) as nat, (k - 1) as nat);
    }
}

fn sizes_supported(sizes: &[i32]) -> (r: bool)
    ensures
        r == forall|i: int|
            0 <= i < sizes@.len() ==> 0 <= #[trigger] sizes@[i] && supported_size(sizes@[i]),
{
    let mut i: usize = 0;
    while i < sizes.len()
        invariant
            i <= sizes@.len(),
            forall|j: int| 0 <= j < i ==> 0 <= #[trigger] sizes@[j] && supported_size(sizes@[j]),
        decreases sizes@.len() - i,
    {
        if sizes[i] < 0 || (sizes[i] > 4 && sizes[i] != 16) {
            return false;
        }
        i = i + 1;
    }
    true
}

/// The calls that tell the driver where the attributes of a vertex lie,
/// given the sizes of the attributes in floats, in order.
///
/// The attributes follow each other without a gap. `None` if the attributes
/// cannot be laid out.
pub fn attrib_slots(sizes: &[i32]) -> (r: Option<Vec<AttribSlot>>)
    ensures
        r.is_some() == layout_fits(sizes@),
        r matches Some(slots) ==> slots@ == vertex_slots(sizes@, sizes@.len()),
{
    if !sizes_supported(sizes) {
        return None;
    }
    proof {
        assert forall|j: nat| j <= sizes@.len() implies in_i32(
            #[trigger] size_sum(sizes@, j) * 4,
        ) || !in_i32(size_sum(sizes@, sizes@.len()) * 4) by {
            lemma_size_sum_grows(sizes@, j, sizes@.len());
        }
    }
    let mut total: i32 = 0;
    let mut i: usize = 0;
    while i < sizes.len()
        invariant
            i <= sizes@.len(),
            forall|j: int| 0 <= j < sizes@.len() ==> 0 <= #[trigger] sizes@[j],
            total == size_sum(sizes@, i as nat),
            0 <= total,
        decreases sizes@.len() - i,
    {
        match total.checked_add(sizes[i]) {
            Some(next) => {
                total = next;
            },
            None => {
                proof {
                    lemma_size_sum_grows(sizes@, (i + 1) as nat, sizes@.len());
                }
                return None;
            },
        }
        i = i + 1;
    }
    let stride_bytes = match total.checked_mul(4) {
        Some(bytes) => bytes,
        None => {
            return None;
        },
    };
    let mut slots: Vec<AttribSlot> = Vec::new();
    let mut offset: i32 = 0;
    let mut k: usize = 0;
    while k < sizes.len()
        invariant
            k <= sizes@.len(),
            forall|j: int|
                0 <= j < sizes@.len() ==> 0 <= #[trigger] sizes@[j] && supported_size(sizes@[j]),
            total == size_sum(sizes@, sizes@.len()),
            stride_bytes == total * 4,
            offset == size_sum(sizes@, k as nat),
            0 <= offset <= total,
            slots@ == vertex_slots(sizes@, k as nat),
        decreases sizes@.len() - k,
    {
        let size = sizes[k];
        proof {
            lemma_size_sum_grows(sizes@, (k + 1) as nat, sizes@.len());
        }
        let ghost expected = attribute_slots(k, size, total as int, offset as int);
        let ghost before = slots@;
        if size == 16 {
            let mut row: u32 = 0;
            while row < 4
                invariant
                    row <= 4,
                    size == 16,
                    0 <= offset,
                    offset + 16 <= total,
                    stride_bytes == total * 4,
                    expected == attribute_slots(k, size, total as int, offset as int),
                    slots@ == before + expected.subrange(0, row as int),
                decreases 4 - row,
            {
                slots.push(
                    AttribSlot {
                        attribute: k,
                        row,
                        size: 4,
                        stride_bytes,
                        offset_bytes: (offset + 4 * (row as i32)) * 4,
                    },
                );
                assert(expected.subrange(0, row + 1) == expected.subrange(0, row as int).push(
                    expected[row as int],
                ));
                row = row + 1;
            }
            assert(expected.subrange(0, 4) == expected);
        } else {
            slots.push(
                AttribSlot { attribute: k, row: 0, size, stride_bytes, offset_bytes: offset * 4 },
            );
            assert(slots@ == before + expected);
        }
        offset = offset + size;
        k = k + 1;
    }
    Some(slots)
}

} // verus!
