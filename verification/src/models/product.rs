//! The product resource's companion types. The full product record
//! carries prices with fractions, which this library does not model; the
//! companion types here are the ones whose values are plain.

use vstd::prelude::*;

verus! {

/// Types of products.
#[derive(Clone, Copy, Debug, PartialEq, Eq, Structural)]
pub enum ProductType {
    Serials,
    File,
    Service,
    Dynamic,
    InfoCard,
    Subscription,
}

/// Types of sub products.
#[derive(Clone, Copy, Debug, PartialEq, Eq, Structural)]
pub enum ProductSubType {
    Serials,
    File,
    Service,
    Dynamic,
}

/// A custom field a product asks its customers to fill.
#[derive(Clone, Debug)]
pub struct CustomField {
    pub type_field: String,
    pub name: String,
    pub regex: Option<String>,
    pub placeholder: Option<String>,
    pub default_value: Option<String>,
    pub required: bool,
}

} // verus!
