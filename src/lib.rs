//! Cross-platform in-app purchase normalization: the unified purchase model,
//! the store adapters' decision logic, the environment guard, the
//! mapping of bridge failures and the transaction-update event bridge.
pub mod commands;
pub mod desktop;
pub mod error;
pub mod json;
pub mod listeners;
pub mod macos;
pub mod models;
pub mod price;
pub mod purchase_flow;
pub mod text;
pub mod windows_store;

pub use error::{Error, ErrorKind};
pub use models::{
    default_product_type, AcknowledgePurchaseRequest, AcknowledgePurchaseResponse,
    ConsumePurchaseRequest, ConsumePurchaseResponse, GetProductStatusRequest, GetProductsRequest,
    GetProductsResponse, GetPurchaseHistoryResponse, InitializeResponse, PricingPhase, Product,
    ProductStatus, Purchase, PurchaseHistoryRecord, PurchaseOptions, PurchaseRequest,
    PurchaseStateValue, RestorePurchasesRequest, RestorePurchasesResponse, SubscriptionOffer,
};
