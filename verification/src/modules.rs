//! What a module shows of its types, field by field and item by item.

pub mod back_of_house;
pub mod enum_visibility;
pub mod error_visibility;
pub mod generic_visibility;
pub mod lifetime_visibility;
pub mod struct_visibility;
pub mod trait_visibility;
