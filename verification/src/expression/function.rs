//! Expression functions, one module per family, following the engine's own
//! grouping. These are names, not behavior.
use vstd::prelude::*;

pub mod array;
pub mod numeric;
pub mod other;
pub mod property;
pub mod string;
pub mod switching;
pub mod time;

pub use array::ArrayFunction;
pub use numeric::NumericFunction;
pub use other::OtherFunction;
pub use property::PropertyFunction;
pub use string::StringFunction;
pub use switching::SwitchingFunction;
pub use time::TimeFunction;

verus! {

} // verus!
