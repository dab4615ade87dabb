//! License products.

use vstd::prelude::*;

verus! {

/// Represents a License Product.
#[derive(Clone, Debug)]
pub struct LicenseProduct {
    /// License key purchased by the customer.
    pub key: String,
    /// Unique id of the product.
    pub product_id: String,
    /// Hardware id of the customer.
    pub hardware_id: String,
}

} // verus!
