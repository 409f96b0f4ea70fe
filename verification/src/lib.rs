//! Decision logic for presenting a native 3-D render engine inside an
//! immediate-mode GUI panel.
//!
//! The engine draws into an off-screen framebuffer whose colour texture the
//! GUI shows as an image. This crate owns every decision of that bridge and
//! none of its effects: each operation takes plain values sampled by the host
//! and answers with the [`command::Command`]s the host must carry out, in
//! order, against the engine and the GPU.

pub mod command;
pub mod error;
pub mod input;
pub mod surface;
pub mod theorems;
pub mod widget;
