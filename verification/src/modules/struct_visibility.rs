//! Structs with open and closed fields.

use vstd::prelude::*;

verus! {

/// A struct with one open and one closed field.
pub struct PublicStruct {
    pub public_field: i32,
    private_field: i32,
}

impl PublicStruct {
    /// The value of the open field.
    pub closed spec fn public_field(&self) -> i32 {
        self.public_field
    }

    /// The value of the closed field.
    pub closed spec fn private_field(&self) -> i32 {
        self.private_field
    }

    /// A struct with the two values.
    pub fn new(public: i32, private: i32) -> (s: PublicStruct)
        ensures
            s.public_field() == public,
            s.private_field() == private,
    {
        PublicStruct { public_field: public, private_field: private }
    }

    /// Reads the closed field.
    pub fn get_private(&self) -> (private: i32)
        ensures
            private == self.private_field(),
    {
        self.private_field
    }
}

/// A struct whose only field is closed.
pub struct PrivateStruct {
    field: i32,
}

impl PrivateStruct {
    /// The value of the field.
    pub closed spec fn field(&self) -> i32 {
        self.field
    }

    /// A struct with the value.
    pub fn new(field: i32) -> (s: PrivateStruct)
        ensures
            s.field() == field,
    {
        PrivateStruct { field }
    }

    /// Reads the field.
    pub fn get_field(&self) -> (field: i32)
        ensures
            field == self.field(),
    {
        self.field
    }
}

} // verus!
