//! The desktop store's purchase as a state machine. The host performs each
//! action (a catalog query, the purchase request, reading the clock,
//! notifying listeners) and feeds the answer back as the next event.
use vstd::prelude::*;

use crate::error::{Error, ErrorKind};
use crate::models::{
    opt_view, subs_kind, GetProductsResponse, Product, Purchase, PurchaseRequest,
    PurchaseStateValue,
};
use crate::text::{decimal, decimal_text, same_text};

verus! {

/// The outcome of a purchase status code: the state it maps to, or the
/// kind of failure.
pub open spec fn status_outcome(status: int) -> Result<PurchaseStateValue, ErrorKind> {
    if status == 0 || status == 1 {
        Ok(PurchaseStateValue::Purchased)
    } else if status == 2 {
        Err(ErrorKind::PurchaseIncomplete)
    } else if status == 3 {
        Err(ErrorKind::NetworkError)
    } else if status == 4 {
        Err(ErrorKind::ServerError)
    } else {
        Err(ErrorKind::PurchaseFailed)
    }
}

/// The machine-readable code of a purchase failure kind.
pub open spec fn failure_code(kind: ErrorKind) -> Seq<char> {
    match kind {
        ErrorKind::PurchaseIncomplete => "purchaseNotCompleted"@,
        ErrorKind::NetworkError => "networkError"@,
        ErrorKind::ServerError => "serverError"@,
        _ => "purchaseFailed"@,
    }
}

/// The human-readable message of a purchase failure kind.
pub open spec fn failure_message(kind: ErrorKind) -> Seq<char> {
    match kind {
        ErrorKind::PurchaseIncomplete => "Purchase was not completed"@,
        ErrorKind::NetworkError => "Network error during purchase"@,
        ErrorKind::ServerError => "Server error during purchase"@,
        _ => "Purchase failed"@,
    }
}

/// The purchase state of a store purchase status code (0 succeeded,
/// 1 already purchased, 2 not purchased, 3 network error, 4 server error).
pub fn purchase_state_for_status(status: i32) -> (r: Result<PurchaseStateValue, Error>)
    ensures
        match status_outcome(status as int) {
            Ok(s) => r == Ok::<PurchaseStateValue, Error>(s),
            Err(kind) => r matches Err(e) && e.kind == kind && opt_view(e.code) == Some(
                failure_code(kind),
            ) && opt_view(e.message) == Some(failure_message(kind)),
        },
{
    if status == 0 || status == 1 {
        Ok(PurchaseStateValue::Purchased)
    } else if status == 2 {
        Err(
            Error::new(
                ErrorKind::PurchaseIncomplete,
                Some(String::from_str("purchaseNotCompleted")),
                Some(String::from_str("Purchase was not completed")),
            ),
        )
    } else if status == 3 {
        Err(
            Error::new(
                ErrorKind::NetworkError,
                Some(String::from_str("networkError")),
                Some(String::from_str("Network error during purchase")),
            ),
        )
    } else if status == 4 {
        Err(
            Error::new(
                ErrorKind::ServerError,
                Some(String::from_str("serverError")),
                Some(String::from_str("Server error during purchase")),
            ),
        )
    } else {
        Err(
            Error::new(
                ErrorKind::PurchaseFailed,
                Some(String::from_str("purchaseFailed")),
                Some(String::from_str("Purchase failed")),
            ),
        )
    }
}

/// The extended data that selects the SKU of a subscription offer.
pub open spec fn sku_selection_json(offer_token: Seq<char>) -> Seq<char> {
    "{\"skuId\":\""@ + offer_token + "\"}"@
}

/// The token of a purchase of `product_id` made at `now`.
pub open spec fn purchase_token_of(product_id: Seq<char>, now: int) -> Seq<char> {
    "win_"@ + product_id + "_"@ + decimal(now)
}

/// The raw record kept with a completed purchase.
pub open spec fn outcome_json(status: int, message: Seq<char>, product_id: Seq<char>) -> Seq<char> {
    "{\"status\":"@ + decimal(status) + ",\"message\":\""@ + message + "\",\"productId\":\""@
        + product_id + "\"}"@
}

/// `p` is the purchase of `product` completed at `now` in state `state`,
/// with the store's status code and diagnostic text.
pub open spec fn completed_purchase(
    p: Purchase,
    product: Product,
    state: PurchaseStateValue,
    status: int,
    message: Seq<char>,
    now: int,
) -> bool {
    let token = purchase_token_of(product.product_id@, now);
    &&& opt_view(p.order_id) == Some(token)
    &&& p.package_name@ == product.title@
    &&& p.product_id@ == product.product_id@
    &&& p.purchase_time == now
    &&& p.purchase_token@ == token
    &&& p.purchase_state == state
    &&& p.is_auto_renewing == (product.product_type@ == subs_kind())
    &&& p.is_acknowledged
    &&& p.original_json@ == outcome_json(status, message, product.product_id@)
    &&& p.signature@ == Seq::<char>::empty()
    &&& p.original_id is None
    &&& p.jws_representation is None
}

/// Name of the event that carries an updated purchase.
pub open spec fn purchase_updated_event() -> Seq<char> {
    "purchaseUpdated"@
}

/// What the store answered to a purchase request.
#[derive(Clone, Debug)]
pub struct PurchaseOutcome {
    /// The store's purchase status code.
    pub status: i32,
    /// The store's extended diagnostic text; empty when there is none.
    pub extended_error: String,
}

/// An answer the host feeds back into a purchase.
pub enum PurchaseEvent {
    /// The catalog query for the requested product.
    Catalog(Result<GetProductsResponse, Error>),
    /// The store's answer to the purchase request.
    Outcome(Result<PurchaseOutcome, Error>),
    /// The current time, epoch milliseconds.
    Clock(i64),
}

/// What the host does next.
pub enum PurchaseAction {
    /// Query the catalog for these ids and kind.
    QueryCatalog { product_ids: Vec<String>, product_type: String },
    /// Ask the store to purchase `store_id`, with the extended data that
    /// selects an offer when there is one.
    RequestPurchase { store_id: String, extended_json: Option<String> },
    /// Read the current time.
    ReadClock,
    /// Notify the listeners of `event` with the purchase, then return it.
    Complete { event: String, purchase: Purchase },
    /// Return the failure; no purchase was made and no one is notified.
    Fail(Error),
}

/// Where a purchase stands.
pub enum PurchaseFlow {
    AwaitingCatalog { product_id: String, offer_token: Option<String> },
    AwaitingOutcome { product: Product },
    AwaitingClock { product: Product, state: PurchaseStateValue, status: i32, message: String },
    Done,
}

/// The failure of an answer that does not fit where the purchase stands.
pub open spec fn is_protocol_failure(a: PurchaseAction) -> bool {
    a matches PurchaseAction::Fail(e) && e.kind == ErrorKind::InvocationRejected
}

/// One step of a purchase: the state after `event`, and the next action.
pub open spec fn step_matches(
    flow: PurchaseFlow,
    event: PurchaseEvent,
    next: PurchaseFlow,
    action: PurchaseAction,
) -> bool {
    match flow {
        PurchaseFlow::AwaitingCatalog { product_id, offer_token } => match event {
            PurchaseEvent::Catalog(Err(e)) => next is Done && action == PurchaseAction::Fail(e),
            PurchaseEvent::Catalog(Ok(resp)) => if resp.products@.len() == 0 {
                &&& next is Done
                &&& action matches PurchaseAction::Fail(e)
                &&& e.kind == ErrorKind::ProductNotFound
                &&& opt_view(e.code) == Some("productNotFound"@)
                &&& opt_view(e.message) == Some("Product not found"@)
            } else {
                &&& next == PurchaseFlow::AwaitingOutcome { product: resp.products@[0] }
                &&& action matches PurchaseAction::RequestPurchase { store_id, extended_json }
                &&& store_id@ == product_id@
                &&& opt_view(extended_json) == match offer_token {
                    Some(t) => Some(sku_selection_json(t@)),
                    None => None,
                }
            },
            _ => next is Done && is_protocol_failure(action),
        },
        PurchaseFlow::AwaitingOutcome { product } => match event {
            PurchaseEvent::Outcome(Err(e)) => next is Done && action == PurchaseAction::Fail(e),
            PurchaseEvent::Outcome(Ok(outcome)) => match status_outcome(outcome.status as int) {
                Ok(state) => {
                    &&& next matches PurchaseFlow::AwaitingClock { product: p, state: s, status, message }
                    &&& p == product
                    &&& s == state
                    &&& status == outcome.status
                    &&& message@ == outcome.extended_error@
                    &&& action is ReadClock
                },
                Err(kind) => {
                    &&& next is Done
                    &&& action matches PurchaseAction::Fail(e)
                    &&& e.kind == kind
                    &&& opt_view(e.code) == Some(failure_code(kind))
                    &&& opt_view(e.message) == Some(failure_message(kind))
                },
            },
            _ => next is Done && is_protocol_failure(action),
        },
        PurchaseFlow::AwaitingClock { product, state, status, message } => match event {
            PurchaseEvent::Clock(now) => {
                &&& next is Done
                &&& action matches PurchaseAction::Complete { event: name, purchase }
                &&& name@ == purchase_updated_event()
                &&& completed_purchase(purchase, product, state, status as int, message@, now as int)
            },
            _ => next is Done && is_protocol_failure(action),
        },
        PurchaseFlow::Done => next is Done && is_protocol_failure(action),
    }
}

/// A purchase whose product the catalog lacks ends at the catalog answer:
/// it fails with product-not-found, asks the store for no purchase (so no
/// purchase token is made) and notifies no one. A finished purchase never
/// asks for anything again.
pub proof fn lemma_missing_product_ends_purchase(
    product_id: String,
    offer_token: Option<String>,
    resp: GetProductsResponse,
    event: PurchaseEvent,
    next: PurchaseFlow,
    action: PurchaseAction,
)
    requires
        resp.products@.len() == 0,
    ensures
        step_matches(
            PurchaseFlow::AwaitingCatalog { product_id, offer_token },
            PurchaseEvent::Catalog(Ok(resp)),
            next,
            action,
        ) ==> {
            &&& next is Done
            &&& action matches PurchaseAction::Fail(e)
            &&& e.kind == ErrorKind::ProductNotFound
            &&& action !is RequestPurchase
            &&& action !is Complete
        },
        step_matches(PurchaseFlow::Done, event, next, action) ==> next is Done
            && action is Fail,
{
}

fn protocol_failure() -> (r: (PurchaseFlow, PurchaseAction))
    ensures
        r.0 is Done,
        is_protocol_failure(r.1),
{
    (
        PurchaseFlow::Done,
        PurchaseAction::Fail(
            Error::new(
                ErrorKind::InvocationRejected,
                Some(String::from_str("unexpectedEvent")),
                Some(String::from_str("Purchase answer does not fit the purchase's progress")),
            ),
        ),
    )
}

/// The purchase of `product`, completed at `now`.
fn complete_purchase(
    product: Product,
    state: PurchaseStateValue,
    status: i32,
    message: String,
    now: i64,
) -> (r: Purchase)
    ensures
        completed_purchase(r, product, state, status as int, message@, now as int),
{
    let mut token = String::from_str("win_");
    token.append(product.product_id.as_str());
    token.append("_");
    let now_text = decimal_text(now);
    token.append(now_text.as_str());
    let mut original_json = String::from_str("{\"status\":");
    let status_text = decimal_text(status as i64);
    original_json.append(status_text.as_str());
    original_json.append(",\"message\":\"");
    original_json.append(message.as_str());
    original_json.append("\",\"productId\":\"");
    original_json.append(product.product_id.as_str());
    original_json.append("\"}");
    let is_subs = same_text(product.product_type.as_str(), "subs");
    Purchase {
        order_id: Some(token.clone()),
        package_name: product.title.clone(),
        product_id: product.product_id.clone(),
        purchase_time: now,
        purchase_token: token,
        purchase_state: state,
        is_auto_renewing: is_subs,
        is_acknowledged: true,
        original_json,
        signature: String::new(),
        original_id: None,
        jws_representation: None,
    }
}

impl PurchaseFlow {
    /// A purchase starts by querying the catalog for the requested product.
    pub fn start(request: PurchaseRequest) -> (r: (PurchaseFlow, PurchaseAction))
        ensures
            r.0 matches PurchaseFlow::AwaitingCatalog { product_id, offer_token }
                && product_id == request.product_id && offer_token == match request.options {
                Some(o) => o.offer_token,
                None => None,
            },
            r.1 matches PurchaseAction::QueryCatalog { product_ids, product_type }
                && product_ids@ == seq![request.product_id] && product_type
                == request.product_type,
    {
        let offer_token = match request.options {
            Some(o) => o.offer_token,
            None => None,
        };
        let mut product_ids: Vec<String> = Vec::new();
        product_ids.push(request.product_id.clone());
        (
            PurchaseFlow::AwaitingCatalog { product_id: request.product_id, offer_token },
            PurchaseAction::QueryCatalog { product_ids, product_type: request.product_type },
        )
    }

    /// Feeds the host's answer to the last action into the purchase.
    pub fn step(self, event: PurchaseEvent) -> (r: (PurchaseFlow, PurchaseAction))
        ensures
            step_matches(self, event, r.0, r.1),
    {
        match self {
            PurchaseFlow::AwaitingCatalog { product_id, offer_token } => match event {
                PurchaseEvent::Catalog(Err(e)) => (PurchaseFlow::Done, PurchaseAction::Fail(e)),
                PurchaseEvent::Catalog(Ok(resp)) => {
                    let mut products = resp.products;
                    if products.len() == 0 {
                        (
                            PurchaseFlow::Done,
                            PurchaseAction::Fail(
                                Error::new(
                                    ErrorKind::ProductNotFound,
                                    Some(String::from_str("productNotFound")),
                                    Some(String::from_str("Product not found")),
                                ),
                            ),
                        )
                    } else {
                        let product = products.remove(0);
                        let extended_json = match offer_token {
                            Some(t) => {
                                let mut j = String::from_str("{\"skuId\":\"");
                                j.append(t.as_str());
                                j.append("\"}");
                                Some(j)
                            },
                            None => None,
                        };
                        (
                            PurchaseFlow::AwaitingOutcome { product },
                            PurchaseAction::RequestPurchase { store_id: product_id, extended_json },
                        )
                    }
                },
                _ => protocol_failure(),
            },
            PurchaseFlow::AwaitingOutcome { product } => match event {
                PurchaseEvent::Outcome(Err(e)) => (PurchaseFlow::Done, PurchaseAction::Fail(e)),
                PurchaseEvent::Outcome(Ok(outcome)) => match purchase_state_for_status(
                    outcome.status,
                ) {
                    Ok(state) => (
                        PurchaseFlow::AwaitingClock {
                            product,
                            state,
                            status: outcome.status,
                            message: outcome.extended_error,
                        },
                        PurchaseAction::ReadClock,
                    ),
                    Err(e) => (PurchaseFlow::Done, PurchaseAction::Fail(e)),
                },
                _ => protocol_failure(),
            },
            PurchaseFlow::AwaitingClock { product, state, status, message } => match event {
                PurchaseEvent::Clock(now) => {
                    let purchase = complete_purchase(product, state, status, message, now);
                    (
                        PurchaseFlow::Done,
                        PurchaseAction::Complete {
                            event: String::from_str("purchaseUpdated"),
                            purchase,
                        },
                    )
                },
                _ => protocol_failure(),
            },
            PurchaseFlow::Done => protocol_failure(),
        }
    }
}

} // verus!
