//! A verified model of a GPU resource and submission core.
//!
//! The library decides what is created, copied, published and destroyed on the
//! device, and in which order. It never talks to a device itself: every
//! function records the device work it asks for, and a submission hands the
//! whole ordered script to whoever drives the device.

pub mod buffer;
pub mod commands;
pub mod deletion;
pub mod descriptor;
pub mod device;
pub mod discovery;
pub mod frame;
pub mod gui;
pub mod image;
pub mod light;
pub mod material;
pub mod memory;
pub mod mesh;
pub mod pod;
pub mod registry;
pub mod submit;
pub mod texture;
pub mod usage;
