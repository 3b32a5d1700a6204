use vstd::prelude::*;

pub mod decimal;
pub mod fixed;
pub mod parse;
pub mod vector2;

pub use self::vector2::Vec2;

verus! {

} // verus!
