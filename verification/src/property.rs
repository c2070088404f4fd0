//! Property-object option masks, array shapes and value representations.
use vstd::prelude::*;

pub mod array_dimensions;
pub mod options;
pub mod property_object_type;

pub use array_dimensions::{dimension_lengths, dimension_lengths_fit, parse_bounds};
pub use options::{GetTemplatesFileOptions, PropertyOptions};
pub use property_object_type::PropertyRepresentation;

verus! {

} // verus!
