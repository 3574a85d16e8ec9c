use vstd::prelude::*;

pub mod buffer;
pub mod compute;
pub mod fps;
pub mod frame;
pub mod registry;
pub mod render;
pub mod workgroups;
