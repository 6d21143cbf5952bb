//! Size and pass planning of the multi-pass effects.

pub mod bloom_dual;
pub mod blur_dual;
