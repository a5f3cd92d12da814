//! Runtime core of a cinematic adventure-game engine: a cooperative bytecode
//! interpreter with 64 script threads, a segmented resource memory and a
//! polygon rasterizer painting into four indexed-colour pages.
use vstd::prelude::*;

pub mod memory;
pub mod video;
pub mod vm;

verus! {

} // verus!
