//! Named constants of the expression language, in two families:
//! [`ColorConstant`] and [`OtherConstant`].
use vstd::prelude::*;

pub mod color;
pub mod other;

pub use color::ColorConstant;
pub use other::OtherConstant;

verus! {

} // verus!
