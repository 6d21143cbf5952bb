use vstd::prelude::*;

verus! {

/// Where the three uniform blocks of a render pass sit in its uniform buffer:
/// the vertex matrix, the effect parameters and the texture matrix.
#[derive(Debug, Clone, Copy, PartialEq, Eq, Structural)]
pub struct UniformBufferInfo {
    pub offset_vertex_matrix: u64,
    pub size_vertex_matrix: u64,
    pub offset_param: u64,
    pub size_param: u64,
    pub offset_diffuse_matrix: u64,
    pub size_diffuse_matrix: u64,
    pub uniform_size: u64,
}

pub open spec fn spec_from_blocks(strides: (u64, u64, u64), sizes: (u64, u64, u64)) -> UniformBufferInfo {
    UniformBufferInfo {
        offset_vertex_matrix: 0,
        size_vertex_matrix: sizes.0,
        offset_param: strides.0,
        size_param: sizes.1,
        offset_diffuse_matrix: (strides.0 + strides.1) as u64,
        size_diffuse_matrix: sizes.2,
        uniform_size: (strides.0 + strides.1 + strides.2) as u64,
    }
}

impl UniformBufferInfo {
    /// Lays the three blocks out back to back from offset zero: block `i` takes
    /// `strides.i` bytes of the buffer and declares `sizes.i` bytes of data; the
    /// buffer is as long as the three strides together.
    pub fn from_blocks(strides: (u64, u64, u64), sizes: (u64, u64, u64)) -> (info: Self)
        requires
            strides.0 + strides.1 + strides.2 <= u64::MAX,
        ensures
            info == spec_from_blocks(strides, sizes),
    {
        let (o1, o2, o3) = strides;
        UniformBufferInfo {
            offset_vertex_matrix: 0,
            size_vertex_matrix: sizes.0,
            offset_param: 0 + o1,
            size_param: sizes.1,
            offset_diffuse_matrix: 0 + o1 + o2,
            size_diffuse_matrix: sizes.2,
            uniform_size: 0 + o1 + o2 + o3,
        }
    }
}

/// When every block's data fits in its stride, the blocks follow one another
/// without overlapping and all lie inside the buffer.
pub proof fn law_blocks_disjoint(strides: (u64, u64, u64), sizes: (u64, u64, u64))
    requires
        strides.0 + strides.1 + strides.2 <= u64::MAX,
        sizes.0 <= strides.0,
        sizes.1 <= strides.1,
        sizes.2 <= strides.2,
    ensures
        ({
            let info = spec_from_blocks(strides, sizes);
            &&& info.offset_vertex_matrix + info.size_vertex_matrix <= info.offset_param
            &&& info.offset_param + info.size_param <= info.offset_diffuse_matrix
            &&& info.offset_diffuse_matrix + info.size_diffuse_matrix <= info.uniform_size
        }),
{
}

} // verus!
