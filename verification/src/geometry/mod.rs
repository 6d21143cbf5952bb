use vstd::prelude::*;

pub mod vertex_buffer_layout;

verus! {

/// Bytes in one 32-bit float value.
pub const F32_BYTES: u16 = 4;

/// Bytes in one 16-bit index value.
pub const U16_BYTES: u16 = 2;

/// The buffers of the pipeline's geometry.
#[derive(Debug, Clone, Copy, PartialEq, Eq, Structural)]
pub enum EGeometryBuffer {
    Position2D,
    Indices,
    GlitchInstance,
}

impl EGeometryBuffer {
    /// The key the buffer is stored under: its position in the list above, from zero.
    pub fn key(&self) -> (key: u16)
        ensures
            key == match *self {
                EGeometryBuffer::Position2D => 0u16,
                EGeometryBuffer::Indices => 1u16,
                EGeometryBuffer::GlitchInstance => 2u16,
            },
    {
        match self {
            EGeometryBuffer::Position2D => 0,
            EGeometryBuffer::Indices => 1,
            EGeometryBuffer::GlitchInstance => 2,
        }
    }
}

/// Layout of a buffer of 2D positions: two float values per point.
pub struct VertexPosition2DViewer;

impl VertexPosition2DViewer {
    pub const PER_POINT_VALUE_CONT: u16 = 2;

    /// Number of points in a buffer of `data.len()` values (two values per point),
    /// kept to its low 16 bits.
    pub fn count<T>(data: &Vec<T>) -> (count: u16)
        ensures
            count == (data.len() / 2) as u16,
    {
        (data.len() / 2) as u16
    }

    /// Values per point.
    pub fn point_size() -> (size: u16)
        ensures
            size == 2,
    {
        VertexPosition2DViewer::PER_POINT_VALUE_CONT
    }

    /// Bytes per point.
    pub fn point_byte() -> (bytes: u16)
        ensures
            bytes == 8,
    {
        VertexPosition2DViewer::PER_POINT_VALUE_CONT * F32_BYTES
    }
}

/// Layout of the per-instance buffer of the glitch stripes: four float values per stripe.
pub struct GlitchInstanceViewer;

impl GlitchInstanceViewer {
    pub const MAX_INSTANCE_COUNT: usize = 32;
    pub const DATA_COUNT: u16 = 4;

    /// Bytes per stripe.
    pub fn bytes() -> (bytes: u16)
        ensures
            bytes == 16,
    {
        GlitchInstanceViewer::DATA_COUNT * F32_BYTES
    }
}

/// Layout of an index buffer of triangles with 16-bit indices.
pub struct IndicesViewer;

impl IndicesViewer {
    pub const TRIANGLE_POINT_CONT: u16 = 3;

    /// Number of indices, kept to its low 16 bits.
    pub fn count(data: &Vec<u16>) -> (count: u16)
        ensures
            count == data.len() as u16,
    {
        data.len() as u16
    }

    /// Bytes per triangle.
    pub fn triangle_byte() -> (bytes: u16)
        ensures
            bytes == 6,
    {
        IndicesViewer::TRIANGLE_POINT_CONT * U16_BYTES
    }
}

} // verus!
