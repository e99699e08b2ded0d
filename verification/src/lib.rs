//! Verified core of HDR-Oxide: the integer, text and state logic behind
//! merging bracketed exposures into an HDR image and tone-mapping it.

pub mod text;
pub mod pathname;
pub mod error;
pub mod raster;
pub mod alignment;
pub mod histogram;
pub mod tonemap;
pub mod merge;
pub mod loader;
pub mod commands;
pub mod gui;
