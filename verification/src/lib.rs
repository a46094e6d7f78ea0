//! A windowing-and-input layer for Linux display stacks.
//!
//! The crate holds the decisions of two display backends, a Wayland client
//! and a direct DRM/KMS path, together with the bring-up sequence of the
//! graphics context both share. Every function is verified against the
//! contract written on it; the system calls themselves are made by the
//! caller, which is told what to do next and reports what came back.

pub mod backend;
pub mod egl;
pub mod keymap;
pub mod type_defs;
pub mod xcb;
