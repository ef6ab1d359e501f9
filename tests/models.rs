use iap::models::product_type_or_default;
use iap::{
    default_product_type, ErrorKind, GetProductStatusRequest, GetProductsRequest,
    InitializeResponse, PurchaseOptions, PurchaseRequest, PurchaseStateValue,
    RestorePurchasesRequest,
};

fn text_member(value: &serde_json::Value, key: &str) -> Option<String> {
    value.get(key).and_then(|v| v.as_str()).map(|s| s.to_string())
}

fn ids_member(value: &serde_json::Value, key: &str) -> Vec<String> {
    value
        .get(key)
        .and_then(|v| v.as_array())
        .map(|a| a.iter().filter_map(|v| v.as_str().map(|s| s.to_string())).collect())
        .unwrap_or_default()
}

#[test]
fn test_default_product_type() {
    assert_eq!(default_product_type(), "subs");
}

#[test]
fn test_purchase_state_value_serialize() {
    assert_eq!(
        serde_json::to_string(&PurchaseStateValue::Purchased.serialize())
            .expect("Failed to serialize Purchased state"),
        "0"
    );
    assert_eq!(
        serde_json::to_string(&PurchaseStateValue::Canceled.serialize())
            .expect("Failed to serialize Canceled state"),
        "1"
    );
    assert_eq!(
        serde_json::to_string(&PurchaseStateValue::Pending.serialize())
            .expect("Failed to serialize Pending state"),
        "2"
    );
}

#[test]
fn test_purchase_state_value_deserialize() {
    let read = |text: &str| PurchaseStateValue::deserialize(serde_json::from_str::<i32>(text).unwrap());
    assert_eq!(
        read("0").expect("Failed to deserialize Purchased state"),
        PurchaseStateValue::Purchased
    );
    assert_eq!(
        read("1").expect("Failed to deserialize Canceled state"),
        PurchaseStateValue::Canceled
    );
    assert_eq!(
        read("2").expect("Failed to deserialize Pending state"),
        PurchaseStateValue::Pending
    );
}

#[test]
fn test_purchase_state_value_deserialize_invalid() {
    let result = PurchaseStateValue::deserialize(serde_json::from_str::<i32>("3").unwrap());
    assert!(result.is_err());
    let err = result.expect_err("Expected error for invalid state");
    assert_eq!(err.kind, ErrorKind::DeserializationError);
    assert!(err.message.unwrap().contains("Invalid purchase state: 3"));
}

#[test]
fn purchase_state_value_rejects_negative_and_large() {
    let err = PurchaseStateValue::deserialize(-7).unwrap_err();
    assert_eq!(err.message.as_deref(), Some("Invalid purchase state: -7"));
    let err = PurchaseStateValue::deserialize(i32::MIN).unwrap_err();
    assert_eq!(err.message.as_deref(), Some("Invalid purchase state: -2147483648"));
    let err = PurchaseStateValue::deserialize(i32::MAX).unwrap_err();
    assert_eq!(err.message.as_deref(), Some("Invalid purchase state: 2147483647"));
}

#[test]
fn test_purchase_state_value_roundtrip() {
    for state in [
        PurchaseStateValue::Purchased,
        PurchaseStateValue::Canceled,
        PurchaseStateValue::Pending,
    ] {
        let serialized = serde_json::to_string(&state.serialize())
            .expect("Failed to serialize PurchaseStateValue");
        let deserialized =
            PurchaseStateValue::deserialize(serde_json::from_str::<i32>(&serialized).unwrap())
                .expect("Failed to deserialize PurchaseStateValue");
        assert_eq!(state, deserialized);
    }
}

#[test]
fn test_initialize_response_default() {
    let response = InitializeResponse::default();
    assert!(!response.success);
}

#[test]
fn test_get_products_request_default_product_type() {
    let json = r#"{"productIds":["product1","product2"]}"#;
    let value: serde_json::Value =
        serde_json::from_str(json).expect("Failed to deserialize GetProductsRequest");
    let request = GetProductsRequest::new(
        ids_member(&value, "productIds"),
        text_member(&value, "productType"),
    );
    assert_eq!(request.product_ids, vec!["product1", "product2"]);
    assert_eq!(request.product_type, "subs");
}

#[test]
fn test_get_products_request_explicit_product_type() {
    let json = r#"{"productIds":["product1"],"productType":"inapp"}"#;
    let value: serde_json::Value =
        serde_json::from_str(json).expect("Failed to deserialize GetProductsRequest");
    let request = GetProductsRequest::new(
        ids_member(&value, "productIds"),
        text_member(&value, "productType"),
    );
    assert_eq!(request.product_type, "inapp");
}

#[test]
fn test_purchase_options_flatten() {
    let json = r#"{"productId":"prod1","offerToken":"token","obfuscatedAccountId":"acc123"}"#;
    let value: serde_json::Value =
        serde_json::from_str(json).expect("Failed to deserialize PurchaseRequest");
    let options = PurchaseOptions {
        offer_token: text_member(&value, "offerToken"),
        obfuscated_account_id: text_member(&value, "obfuscatedAccountId"),
        obfuscated_profile_id: text_member(&value, "obfuscatedProfileId"),
        app_account_token: text_member(&value, "appAccountToken"),
    };
    let request = PurchaseRequest::new(
        text_member(&value, "productId").unwrap(),
        text_member(&value, "productType"),
        Some(options),
    );

    assert_eq!(request.product_id, "prod1");
    assert_eq!(request.product_type, "subs"); // default
    let opts = request.options.expect("Expected PurchaseOptions to be present");
    assert_eq!(opts.offer_token, Some("token".to_string()));
    assert_eq!(opts.obfuscated_account_id, Some("acc123".to_string()));
}

#[test]
fn test_restore_purchases_request_default() {
    let json = r#"{}"#;
    let value: serde_json::Value =
        serde_json::from_str(json).expect("Failed to deserialize RestorePurchasesRequest");
    let request = RestorePurchasesRequest::new(text_member(&value, "productType"));
    assert_eq!(request.product_type, "subs");
}

#[test]
fn test_get_product_status_request_serde() {
    let json = r#"{"productId":"prod1"}"#;
    let value: serde_json::Value =
        serde_json::from_str(json).expect("Failed to deserialize GetProductStatusRequest");
    let request = GetProductStatusRequest::new(
        text_member(&value, "productId").unwrap(),
        text_member(&value, "productType"),
    );
    assert_eq!(request.product_id, "prod1");
    assert_eq!(request.product_type, "subs"); // default
}

#[test]
fn explicit_product_kind_is_kept_on_every_request() {
    let kind = Some("inapp".to_string());
    assert_eq!(GetProductsRequest::new(vec![], kind.clone()).product_type, "inapp");
    assert_eq!(PurchaseRequest::new("p".to_string(), kind.clone(), None).product_type, "inapp");
    assert_eq!(RestorePurchasesRequest::new(kind.clone()).product_type, "inapp");
    assert_eq!(GetProductStatusRequest::new("p".to_string(), kind).product_type, "inapp");
    assert_eq!(product_type_or_default(Some(String::new())), "");
    assert_eq!(product_type_or_default(None), "subs");
}
