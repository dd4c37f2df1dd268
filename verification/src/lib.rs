pub mod config;
pub mod cursor;
pub mod helper;
pub mod loader;
pub mod screens;
pub mod storage;

use vstd::prelude::*;

verus! {

} // verus!
