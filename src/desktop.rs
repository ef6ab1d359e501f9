//! The fallback adapter of platforms without native purchasing: every
//! operation fails with the unsupported-platform error.
use vstd::prelude::*;

use crate::error::{Error, ErrorKind};
use crate::models::{
    opt_view, AcknowledgePurchaseResponse, ConsumePurchaseResponse, GetProductsResponse,
    GetPurchaseHistoryResponse, ProductStatus, Purchase, PurchaseRequest,
    RestorePurchasesResponse,
};

verus! {

/// The message of the unsupported-platform error.
pub open spec fn unsupported_message() -> Seq<char> {
    "IAP is not supported on this platform"@
}

/// `e` is the unsupported-platform error.
pub open spec fn is_unsupported(e: Error) -> bool {
    e.kind == ErrorKind::UnsupportedPlatform && e.code is None && opt_view(e.message) == Some(
        unsupported_message(),
    )
}

/// The unsupported-platform error.
pub fn unsupported() -> (r: Error)
    ensures
        is_unsupported(r),
{
    Error::new(
        ErrorKind::UnsupportedPlatform,
        None,
        Some(String::from_str("IAP is not supported on this platform")),
    )
}

/// The adapter of a platform with no native purchasing support.
pub struct Iap;

impl Iap {
    pub fn new() -> Iap {
        Iap
    }

    pub fn get_products(&self, product_ids: Vec<String>, product_type: String) -> (r: Result<
        GetProductsResponse,
        Error,
    >)
        ensures
            r matches Err(e) && is_unsupported(e),
    {
        Err(unsupported())
    }

    pub fn purchase(&self, payload: PurchaseRequest) -> (r: Result<Purchase, Error>)
        ensures
            r matches Err(e) && is_unsupported(e),
    {
        Err(unsupported())
    }

    pub fn restore_purchases(&self, product_type: String) -> (r: Result<
        RestorePurchasesResponse,
        Error,
    >)
        ensures
            r matches Err(e) && is_unsupported(e),
    {
        Err(unsupported())
    }

    pub fn get_purchase_history(&self) -> (r: Result<GetPurchaseHistoryResponse, Error>)
        ensures
            r matches Err(e) && is_unsupported(e),
    {
        Err(unsupported())
    }

    pub fn acknowledge_purchase(&self, purchase_token: String) -> (r: Result<
        AcknowledgePurchaseResponse,
        Error,
    >)
        ensures
            r matches Err(e) && is_unsupported(e),
    {
        Err(unsupported())
    }

    pub fn get_product_status(&self, product_id: String, product_type: String) -> (r: Result<
        ProductStatus,
        Error,
    >)
        ensures
            r matches Err(e) && is_unsupported(e),
    {
        Err(unsupported())
    }

    pub fn consume_purchase(&self, purchase_token: String) -> (r: Result<
        ConsumePurchaseResponse,
        Error,
    >)
        ensures
            r matches Err(e) && is_unsupported(e),
    {
        Err(unsupported())
    }
}

} // verus!
