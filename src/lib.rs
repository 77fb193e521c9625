use vstd::prelude::*;

pub mod cpu;
pub mod isa;
pub mod loader;
pub mod mem;
pub mod utils;

verus! {

} // verus!
