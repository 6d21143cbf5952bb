use vstd::prelude::*;

verus! {

/// A region of a texture used as a post-process source or target: the region
/// starts at (`use_x`, `use_y`) and is `use_w` x `use_h` pixels of a texture of
/// `width` x `height`. `view` and `format` carry the GPU view and pixel format
/// the region belongs to.
#[derive(Clone)]
pub struct PostprocessTexture<V, F> {
    pub use_x: u32,
    pub use_y: u32,
    pub use_w: u32,
    pub use_h: u32,
    pub width: u32,
    pub height: u32,
    pub view: V,
    pub format: F,
}

impl<V, F> PostprocessTexture<V, F> {
    pub fn use_x(&self) -> (x: u32)
        ensures
            x == self.use_x,
    {
        self.use_x
    }

    pub fn use_y(&self) -> (y: u32)
        ensures
            y == self.use_y,
    {
        self.use_y
    }

    pub fn use_w(&self) -> (w: u32)
        ensures
            w == self.use_w,
    {
        self.use_w
    }

    pub fn use_h(&self) -> (h: u32)
        ensures
            h == self.use_h,
    {
        self.use_h
    }

    pub fn width(&self) -> (w: u32)
        ensures
            w == self.width,
    {
        self.width
    }

    pub fn height(&self) -> (h: u32)
        ensures
            h == self.height,
    {
        self.height
    }

    /// The region as (x, y, width, height).
    pub fn get_rect(&self) -> (rect: (u32, u32, u32, u32))
        ensures
            rect == (self.use_x, self.use_y, self.use_w, self.use_h),
    {
        (self.use_x, self.use_y, self.use_w, self.use_h)
    }

    /// The size of the whole texture.
    pub fn get_full_size(&self) -> (size: (u32, u32))
        ensures
            size == (self.width, self.height),
    {
        (self.width, self.height)
    }

    /// Whether two regions have the same size.
    pub fn size_eq(&self, rhs: &Self) -> (eq: bool)
        ensures
            eq == (self.use_w == rhs.use_w && self.use_h == rhs.use_h),
    {
        self.use_w == rhs.use_w && self.use_h == rhs.use_h
    }

    /// Whether the region has the size `rhs` (width, height).
    pub fn size_eq_2(&self, rhs: &(u32, u32)) -> (eq: bool)
        ensures
            eq == (self.use_w == rhs.0 && self.use_h == rhs.1),
    {
        self.use_w == rhs.0 && self.use_h == rhs.1
    }
}

impl<V, F: Copy> PostprocessTexture<V, F> {
    /// The pixel format of the texture.
    pub fn format(&self) -> (format: F)
        ensures
            format == self.format,
    {
        self.format
    }
}

/// A region given by its corners (`min` inclusive, `max` exclusive) as
/// (x, y, width, height), each coordinate and extent kept to its 32-bit pattern
/// read as unsigned. The extents must fit in 32-bit signed integers.
pub fn get_rect_info(min_x: i32, min_y: i32, max_x: i32, max_y: i32) -> (info: (u32, u32, u32, u32))
    requires
        i32::MIN <= max_x - min_x <= i32::MAX,
        i32::MIN <= max_y - min_y <= i32::MAX,
    ensures
        info == (min_x as u32, min_y as u32, (max_x - min_x) as u32, (max_y - min_y) as u32),
{
    (min_x as u32, min_y as u32, (max_x - min_x) as u32, (max_y - min_y) as u32)
}

} // verus!
