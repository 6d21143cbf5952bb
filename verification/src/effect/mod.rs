//! Effect parameters whose decisions are made on integers.

pub mod blur_dual;
pub mod color_balance;
pub mod horizon_glitch;
pub mod hsb;
pub mod image_mask;

pub use color_balance::ColorBalance;
pub use hsb::HSB;
pub use image_mask::EMaskMode;
