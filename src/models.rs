//! The unified purchase model every backend maps into and out of.
use vstd::prelude::*;

use crate::error::{Error, ErrorKind};
use crate::text::{decimal, decimal_text};

verus! {

/// The product kind of a subscription; the default of every request that
/// takes a product kind.
pub open spec fn subs_kind() -> Seq<char> {
    "subs"@
}

/// The product kind a request carries: the explicit one, else the default.
pub open spec fn resolved_product_type(explicit: Option<Seq<char>>) -> Seq<char> {
    match explicit {
        Some(t) => t,
        None => subs_kind(),
    }
}

/// The view of an optional text.
pub open spec fn opt_view(o: Option<String>) -> Option<Seq<char>> {
    match o {
        Some(s) => Some(s@),
        None => None,
    }
}

/// Reply of the deprecated `initialize` operation.
#[derive(Clone, Debug)]
pub struct InitializeResponse {
    pub success: bool,
}

impl Default for InitializeResponse {
    fn default() -> (r: InitializeResponse)
        ensures
            !r.success,
    {
        InitializeResponse { success: false }
    }
}

/// The product kind used when a request names none.
pub fn default_product_type() -> (r: String)
    ensures
        r@ == subs_kind(),
{
    String::from_str("subs")
}

/// The product kind of a request: `explicit` when given, else the default.
pub fn product_type_or_default(explicit: Option<String>) -> (r: String)
    ensures
        r@ == resolved_product_type(opt_view(explicit)),
{
    match explicit {
        Some(t) => t,
        None => default_product_type(),
    }
}

/// A request keeps the product kind it names, exactly, whatever it is;
/// a request that names none gets the subscription kind.
pub proof fn lemma_product_kind_resolution(named: Seq<char>)
    ensures
        resolved_product_type(Some(named)) == named,
        resolved_product_type(None) == "subs"@,
{
}

/// Catalog query.
#[derive(Clone, Debug)]
pub struct GetProductsRequest {
    pub product_ids: Vec<String>,
    pub product_type: String,
}

impl GetProductsRequest {
    /// A catalog query; an omitted product kind becomes the subscription kind.
    pub fn new(product_ids: Vec<String>, product_type: Option<String>) -> (r: GetProductsRequest)
        ensures
            r.product_ids == product_ids,
            r.product_type@ == resolved_product_type(opt_view(product_type)),
    {
        GetProductsRequest { product_ids, product_type: product_type_or_default(product_type) }
    }
}

/// One phase of a subscription offer's price schedule.
#[derive(Clone, Debug)]
pub struct PricingPhase {
    pub formatted_price: String,
    pub price_currency_code: String,
    pub price_amount_micros: i64,
    /// ISO-8601 duration of one billing period.
    pub billing_period: String,
    /// Number of cycles of this phase; 0 when it has no fixed limit.
    pub billing_cycle_count: i32,
    pub recurrence_mode: i32,
}

/// A subscription offer: the token that redeems it and its ordered phases.
#[derive(Clone, Debug)]
pub struct SubscriptionOffer {
    pub offer_token: String,
    pub base_plan_id: String,
    pub offer_id: Option<String>,
    pub pricing_phases: Vec<PricingPhase>,
}

/// A catalog entry.
#[derive(Clone, Debug)]
pub struct Product {
    pub product_id: String,
    pub title: String,
    pub description: String,
    pub product_type: String,
    pub formatted_price: Option<String>,
    pub price_currency_code: Option<String>,
    pub price_amount_micros: Option<i64>,
    pub subscription_offer_details: Option<Vec<SubscriptionOffer>>,
}

/// Reply of a catalog query.
#[derive(Clone, Debug)]
pub struct GetProductsResponse {
    pub products: Vec<Product>,
}

/// Store-specific options of a purchase.
#[derive(Clone, Debug)]
pub struct PurchaseOptions {
    pub offer_token: Option<String>,
    pub obfuscated_account_id: Option<String>,
    pub obfuscated_profile_id: Option<String>,
    pub app_account_token: Option<String>,
}

/// Purchase request.
#[derive(Clone, Debug)]
pub struct PurchaseRequest {
    pub product_id: String,
    pub product_type: String,
    pub options: Option<PurchaseOptions>,
}

impl PurchaseRequest {
    /// A purchase request; an omitted product kind becomes the subscription kind.
    pub fn new(
        product_id: String,
        product_type: Option<String>,
        options: Option<PurchaseOptions>,
    ) -> (r: PurchaseRequest)
        ensures
            r.product_id == product_id,
            r.product_type@ == resolved_product_type(opt_view(product_type)),
            r.options == options,
    {
        PurchaseRequest { product_id, product_type: product_type_or_default(product_type), options }
    }
}

/// The lifecycle state of a purchase; exactly one holds.
#[derive(Clone, Copy, Debug, PartialEq, Eq, Structural)]
pub enum PurchaseStateValue {
    Purchased,
    Canceled,
    Pending,
}

/// The wire code of a state.
pub open spec fn state_code(s: PurchaseStateValue) -> int {
    match s {
        PurchaseStateValue::Purchased => 0,
        PurchaseStateValue::Canceled => 1,
        PurchaseStateValue::Pending => 2,
    }
}

/// The state a wire code stands for, if any.
pub open spec fn state_of_code(v: int) -> Option<PurchaseStateValue> {
    if v == 0 {
        Some(PurchaseStateValue::Purchased)
    } else if v == 1 {
        Some(PurchaseStateValue::Canceled)
    } else if v == 2 {
        Some(PurchaseStateValue::Pending)
    } else {
        None
    }
}

/// The message of the error for a wire code that names no state.
pub open spec fn invalid_state_message(v: int) -> Seq<char> {
    "Invalid purchase state: "@ + decimal(v)
}

impl PurchaseStateValue {
    /// The integer that stands for this state on the wire.
    pub fn serialize(&self) -> (r: i32)
        ensures
            r as int == state_code(*self),
    {
        match self {
            PurchaseStateValue::Purchased => 0,
            PurchaseStateValue::Canceled => 1,
            PurchaseStateValue::Pending => 2,
        }
    }

    /// The state a wire integer stands for; any other integer is an error
    /// whose message names it.
    pub fn deserialize(value: i32) -> (r: Result<PurchaseStateValue, Error>)
        ensures
            match r {
                Ok(s) => state_of_code(value as int) == Some(s),
                Err(e) => {
                    &&& state_of_code(value as int) is None
                    &&& e.kind == ErrorKind::DeserializationError
                    &&& e.code is None
                    &&& opt_view(e.message) == Some(invalid_state_message(value as int))
                },
            },
    {
        if value == 0 {
            Ok(PurchaseStateValue::Purchased)
        } else if value == 1 {
            Ok(PurchaseStateValue::Canceled)
        } else if value == 2 {
            Ok(PurchaseStateValue::Pending)
        } else {
            let mut message = String::from_str("Invalid purchase state: ");
            let digits = decimal_text(value as i64);
            message.append(digits.as_str());
            Err(Error::new(ErrorKind::DeserializationError, None, Some(message)))
        }
    }
}

/// Serializing a state and deserializing the result gives the state back;
/// deserializing an integer other than 0, 1 or 2 fails, and the error's
/// message names that integer.
pub proof fn lemma_state_round_trip(s: PurchaseStateValue, v: int)
    ensures
        state_of_code(state_code(s)) == Some(s),
        state_of_code(v) is None <==> (v != 0 && v != 1 && v != 2),
        invalid_state_message(v).subrange(
            invalid_state_message(v).len() - decimal(v).len(),
            invalid_state_message(v).len() as int,
        ) == decimal(v),
{
    let m = invalid_state_message(v);
    assert(m.subrange(m.len() - decimal(v).len(), m.len() as int) =~= decimal(v));
}

/// A completed or pending transaction.
#[derive(Clone, Debug)]
pub struct Purchase {
    pub order_id: Option<String>,
    pub package_name: String,
    pub product_id: String,
    /// Epoch milliseconds.
    pub purchase_time: i64,
    pub purchase_token: String,
    pub purchase_state: PurchaseStateValue,
    pub is_auto_renewing: bool,
    pub is_acknowledged: bool,
    pub original_json: String,
    /// Empty when the backend has no signature.
    pub signature: String,
    pub original_id: Option<String>,
    pub jws_representation: Option<String>,
}

/// Restore request.
#[derive(Clone, Debug)]
pub struct RestorePurchasesRequest {
    pub product_type: String,
}

impl RestorePurchasesRequest {
    /// A restore request; an omitted product kind becomes the subscription kind.
    pub fn new(product_type: Option<String>) -> (r: RestorePurchasesRequest)
        ensures
            r.product_type@ == resolved_product_type(opt_view(product_type)),
    {
        RestorePurchasesRequest { product_type: product_type_or_default(product_type) }
    }
}

/// Reply of a restore request.
#[derive(Clone, Debug)]
pub struct RestorePurchasesResponse {
    pub purchases: Vec<Purchase>,
}

/// A historical purchase entry.
#[derive(Clone, Debug)]
pub struct PurchaseHistoryRecord {
    pub product_id: String,
    pub purchase_time: i64,
    pub purchase_token: String,
    pub quantity: i32,
    pub original_json: String,
    pub signature: String,
}

/// Reply of a history query.
#[derive(Clone, Debug)]
pub struct GetPurchaseHistoryResponse {
    pub history: Vec<PurchaseHistoryRecord>,
}

/// Acknowledge request.
#[derive(Clone, Debug)]
pub struct AcknowledgePurchaseRequest {
    pub purchase_token: String,
}

/// Reply of an acknowledge request.
#[derive(Clone, Debug)]
pub struct AcknowledgePurchaseResponse {
    pub success: bool,
}

/// Consume request.
#[derive(Clone, Debug)]
pub struct ConsumePurchaseRequest {
    pub purchase_token: String,
}

/// Reply of a consume request.
#[derive(Clone, Debug)]
pub struct ConsumePurchaseResponse {
    pub success: bool,
}

/// Entitlement query.
#[derive(Clone, Debug)]
pub struct GetProductStatusRequest {
    pub product_id: String,
    pub product_type: String,
}

impl GetProductStatusRequest {
    /// An entitlement query; an omitted product kind becomes the subscription kind.
    pub fn new(product_id: String, product_type: Option<String>) -> (r: GetProductStatusRequest)
        ensures
            r.product_id == product_id,
            r.product_type@ == resolved_product_type(opt_view(product_type)),
    {
        GetProductStatusRequest { product_id, product_type: product_type_or_default(product_type) }
    }
}

/// Entitlement snapshot of one product; an absent optional field means
/// "unknown or never purchased".
#[derive(Clone, Debug)]
pub struct ProductStatus {
    pub product_id: String,
    pub is_owned: bool,
    pub purchase_state: Option<PurchaseStateValue>,
    pub purchase_time: Option<i64>,
    pub expiration_time: Option<i64>,
    pub is_auto_renewing: Option<bool>,
    pub is_acknowledged: Option<bool>,
    pub purchase_token: Option<String>,
}

} // verus!
