use iap::price::price_amount_micros;
use iap::purchase_flow::{
    purchase_state_for_status, PurchaseAction, PurchaseEvent, PurchaseFlow, PurchaseOutcome,
};
use iap::windows_store::{
    window_handle_error, window_missing_error, DateTime, DurationUnit, Iap, LicenseEntry,
    SessionSlot, StoreLicense, StoreProduct, StoreQueryResult, StoreSku, SubscriptionInfo,
};
use iap::{
    ErrorKind, GetProductsResponse, Product, PurchaseOptions, PurchaseRequest, PurchaseStateValue,
};

const EPOCH_TICKS: i64 = 116444736000000000;

#[test]
fn test_datetime_to_unix_millis_epoch() {
    // Unix epoch: January 1, 1970 00:00:00 UTC
    let datetime = DateTime { universal_time: 116444736000000000 };
    let result = Iap::datetime_to_unix_millis(&datetime);
    assert_eq!(result, 0);
}

#[test]
fn test_datetime_to_unix_millis_known_date() {
    // November 14, 2023 00:00:00 UTC: 1699920000000 ms, which is
    // 133443936000000000 ticks. (133445856000000000 ticks, sometimes given
    // for this date, is November 16, 2023 and converts to 1700112000000.)
    let datetime = DateTime { universal_time: 133443936000000000 };
    let result = Iap::datetime_to_unix_millis(&datetime);
    assert_eq!(result, 1699920000000);
    let november_16 = DateTime { universal_time: 133445856000000000 };
    assert_eq!(Iap::datetime_to_unix_millis(&november_16), 1700112000000);
}

#[test]
fn test_datetime_to_unix_millis_before_epoch() {
    // January 1, 1969 00:00:00 UTC
    let datetime = DateTime { universal_time: 116413200000000000 };
    let result = Iap::datetime_to_unix_millis(&datetime);
    assert!(result < 0);
}

#[test]
fn test_datetime_to_unix_millis_year_2000() {
    // January 1, 2000 00:00:00 UTC
    let datetime = DateTime { universal_time: 125911584000000000 };
    let result = Iap::datetime_to_unix_millis(&datetime);
    assert_eq!(result, 946684800000);
}

#[test]
fn test_datetime_to_unix_millis_precision() {
    // epoch + 500ms: sub-second values are truncated
    let datetime = DateTime { universal_time: 116444736000000000 + 5000000 };
    let result = Iap::datetime_to_unix_millis(&datetime);
    assert_eq!(result, 0);
}

#[test]
fn test_datetime_to_unix_millis_one_second_after_epoch() {
    let datetime = DateTime { universal_time: 116444736000000000 + 10000000 };
    let result = Iap::datetime_to_unix_millis(&datetime);
    assert_eq!(result, 1000);
}

#[test]
fn test_datetime_to_unix_millis_far_future() {
    // January 1, 2100 00:00:00 UTC
    let datetime = DateTime { universal_time: 157766880000000000 };
    let result = Iap::datetime_to_unix_millis(&datetime);
    assert!(result > 4000000000000);
}

#[test]
fn datetime_rounds_down_to_the_earlier_second() {
    let just_before = DateTime { universal_time: EPOCH_TICKS - 1 };
    assert_eq!(Iap::datetime_to_unix_millis(&just_before), -1000);
    let negative = DateTime { universal_time: -1 };
    assert_eq!(Iap::datetime_to_unix_millis(&negative), (-1 - 11644473600) * 1000);
    let extreme = DateTime { universal_time: i64::MIN };
    assert_eq!(Iap::datetime_to_unix_millis(&extreme), (-922337203686 - 11644473600) * 1000);
    let top = DateTime { universal_time: i64::MAX };
    assert_eq!(Iap::datetime_to_unix_millis(&top), (922337203685 - 11644473600) * 1000);
}

#[test]
fn price_text_becomes_micro_units() {
    assert_eq!(price_amount_micros("$9.99"), 9990000);
    assert_eq!(price_amount_micros("USD 4.99"), 4990000);
    assert_eq!(price_amount_micros("$1,234.56"), 1234560000);
    assert_eq!(price_amount_micros("0.57"), 570000);
    assert_eq!(price_amount_micros("12"), 12000000);
    assert_eq!(price_amount_micros("3."), 3000000);
    assert_eq!(price_amount_micros(".5"), 500000);
    assert_eq!(price_amount_micros("1.23456789"), 1234567);
}

#[test]
fn price_text_without_an_amount_is_zero() {
    assert_eq!(price_amount_micros(""), 0);
    assert_eq!(price_amount_micros("Free"), 0);
    assert_eq!(price_amount_micros("."), 0);
    assert_eq!(price_amount_micros("1.2.3"), 0);
}

#[test]
fn price_text_past_the_range_saturates() {
    assert_eq!(price_amount_micros("9223372036854"), 9223372036854000000);
    assert_eq!(price_amount_micros("9223372036855"), i64::MAX);
    assert_eq!(price_amount_micros("99999999999999999999999.5"), i64::MAX);
}

#[test]
fn billing_period_renders_iso_durations() {
    assert_eq!(Iap::billing_period_text(1, DurationUnit::Month), "P1M");
    assert_eq!(Iap::billing_period_text(2, DurationUnit::Week), "P2W");
    assert_eq!(Iap::billing_period_text(7, DurationUnit::Day), "P7D");
    assert_eq!(Iap::billing_period_text(1, DurationUnit::Year), "P1Y");
    assert_eq!(Iap::billing_period_text(30, DurationUnit::Minute), "PT30M");
    assert_eq!(Iap::billing_period_text(12, DurationUnit::Hour), "PT12H");
    assert_eq!(Iap::billing_period_text(3, DurationUnit::Unknown), "P3M");
}

#[test]
fn duration_codes_follow_the_store() {
    assert_eq!(DurationUnit::from_code(0), DurationUnit::Minute);
    assert_eq!(DurationUnit::from_code(1), DurationUnit::Hour);
    assert_eq!(DurationUnit::from_code(2), DurationUnit::Day);
    assert_eq!(DurationUnit::from_code(3), DurationUnit::Week);
    assert_eq!(DurationUnit::from_code(4), DurationUnit::Month);
    assert_eq!(DurationUnit::from_code(5), DurationUnit::Year);
    assert_eq!(DurationUnit::from_code(9), DurationUnit::Unknown);
}

#[test]
fn product_kinds_per_query_kind() {
    assert_eq!(Iap::product_kinds("inapp"), vec!["Consumable", "UnmanagedConsumable"]);
    assert_eq!(Iap::product_kinds("subs"), vec!["Subscription", "Durable"]);
    assert_eq!(
        Iap::product_kinds("all"),
        vec!["Consumable", "UnmanagedConsumable", "Durable", "Subscription"]
    );
}

fn monthly_sku(id: &str) -> StoreSku {
    StoreSku {
        store_id: id.to_string(),
        formatted_price: "$9.99".to_string(),
        subscription_info: Some(SubscriptionInfo {
            billing_period: 1,
            billing_period_unit: DurationUnit::Month,
        }),
    }
}

fn store_product(id: &str, skus: Vec<StoreSku>) -> StoreProduct {
    StoreProduct {
        store_id: id.to_string(),
        title: "Premium".to_string(),
        description: "All features".to_string(),
        formatted_price: "$9.99".to_string(),
        currency_code: "USD".to_string(),
        formatted_base_price: "$9.99".to_string(),
        skus,
    }
}

#[test]
fn subscription_catalog_query_yields_one_offer_per_subscription_sku() {
    let query = StoreQueryResult {
        extended_error: None,
        products: vec![store_product("sku1", vec![monthly_sku("sku1-monthly")])],
    };
    let response = Iap::get_products(&query, "subs").unwrap();
    assert_eq!(response.products.len(), 1);
    let product = &response.products[0];
    assert_eq!(product.product_id, "sku1");
    assert_eq!(product.product_type, "subs");
    assert_eq!(product.formatted_price.as_deref(), Some("$9.99"));
    assert_eq!(product.price_currency_code.as_deref(), Some("USD"));
    assert_eq!(product.price_amount_micros, Some(9990000));
    let offers = product.subscription_offer_details.as_ref().unwrap();
    assert_eq!(offers.len(), 1);
    assert_eq!(offers[0].offer_token, "sku1-monthly");
    assert_eq!(offers[0].base_plan_id, "sku1-monthly");
    assert_eq!(offers[0].offer_id, None);
    assert_eq!(offers[0].pricing_phases.len(), 1);
    let phase = &offers[0].pricing_phases[0];
    assert_eq!(phase.billing_period, "P1M");
    assert_eq!(phase.billing_cycle_count, 0);
    assert_eq!(phase.recurrence_mode, 1);
    assert_eq!(phase.formatted_price, "$9.99");
    assert_eq!(phase.price_amount_micros, 9990000);

    let json = response.to_json();
    assert!(json.contains(r#""productType":"subs""#));
    assert!(json.contains(r#""billingPeriod":"P1M""#));
    assert!(json.contains(r#""billingCycleCount":0"#));
    assert!(json.contains(r#""recurrenceMode":1"#));
}

#[test]
fn skus_without_subscription_metadata_are_skipped() {
    let plain = StoreSku {
        store_id: "plain".to_string(),
        formatted_price: "$1.00".to_string(),
        subscription_info: None,
    };
    let product = Iap::convert_store_product_to_product(
        &store_product("p", vec![plain.clone(), monthly_sku("m"), plain]),
        "subs",
    );
    let offers = product.subscription_offer_details.unwrap();
    assert_eq!(offers.len(), 1);
    assert_eq!(offers[0].offer_token, "m");

    let only_plain = StoreSku {
        store_id: "plain".to_string(),
        formatted_price: "$1.00".to_string(),
        subscription_info: None,
    };
    let product = Iap::convert_store_product_to_product(&store_product("p", vec![only_plain]), "subs");
    assert!(product.subscription_offer_details.is_none());
}

#[test]
fn one_time_products_carry_no_offers() {
    let product =
        Iap::convert_store_product_to_product(&store_product("p", vec![monthly_sku("m")]), "inapp");
    assert_eq!(product.product_type, "inapp");
    assert!(product.subscription_offer_details.is_none());
}

#[test]
fn rejected_catalog_query_is_query_failed() {
    let query = StoreQueryResult {
        extended_error: Some("offline".to_string()),
        products: vec![store_product("p", vec![])],
    };
    let err = Iap::get_products(&query, "subs").unwrap_err();
    assert_eq!(err.kind, ErrorKind::QueryFailed);
    assert_eq!(err.code.as_deref(), Some("storeQueryFailed"));
    assert_eq!(err.message.as_deref(), Some("Store query failed with error: offline"));
}

fn license(token: &str, sku: &str, active: bool, expiration: i64) -> StoreLicense {
    StoreLicense {
        in_app_offer_token: token.to_string(),
        sku_store_id: sku.to_string(),
        is_active: active,
        expiration_date: DateTime { universal_time: expiration },
    }
}

#[test]
fn license_converts_to_purchase() {
    let iap = Iap::new("com.example.app".to_string());
    // November 14, 2023 00:00:00 UTC
    let active = license("premium", "sku-9", true, 133443936000000000);
    let purchase = iap.convert_license_to_purchase(&active, "subs", 42);
    assert_eq!(purchase.order_id.as_deref(), Some("sku-9"));
    assert_eq!(purchase.package_name, "com.example.app");
    assert_eq!(purchase.product_id, "premium");
    assert_eq!(purchase.purchase_time, 1699920000000 - 2592000000);
    assert_eq!(purchase.purchase_token, "sku-9");
    assert_eq!(purchase.purchase_state, PurchaseStateValue::Purchased);
    assert!(purchase.is_auto_renewing);
    assert!(purchase.is_acknowledged);
    assert_eq!(purchase.original_json, r#"{"isActive":true,"expirationDate":1699920000000}"#);
    assert_eq!(purchase.signature, "");
    assert!(purchase.original_id.is_none());
    assert!(purchase.jws_representation.is_none());

    let lapsed = license("premium", "sku-9", false, 133443936000000000);
    let purchase = iap.convert_license_to_purchase(&lapsed, "inapp", 42);
    assert_eq!(purchase.purchase_time, 42);
    assert_eq!(purchase.purchase_state, PurchaseStateValue::Canceled);
    assert!(!purchase.is_auto_renewing);
    assert_eq!(purchase.original_json, r#"{"isActive":false,"expirationDate":1699920000000}"#);
}

#[test]
fn restore_keeps_active_licenses_in_order() {
    let iap = Iap::new("app".to_string());
    let entries = vec![
        LicenseEntry { product_key: "a".to_string(), license: license("a", "sa", true, EPOCH_TICKS) },
        LicenseEntry { product_key: "b".to_string(), license: license("b", "sb", false, EPOCH_TICKS) },
        LicenseEntry { product_key: "c".to_string(), license: license("c", "sc", true, EPOCH_TICKS) },
    ];
    let restored = iap.restore_purchases(&entries, "subs", 5);
    assert_eq!(restored.purchases.len(), 2);
    assert_eq!(restored.purchases[0].product_id, "a");
    assert_eq!(restored.purchases[1].product_id, "c");
    // expiration at the epoch is not positive: the current time stands in
    assert_eq!(restored.purchases[0].purchase_time, 5);
    assert!(iap.restore_purchases(&vec![], "subs", 5).purchases.is_empty());
}

#[test]
fn product_status_from_licenses() {
    let entries = vec![
        LicenseEntry {
            product_key: "premium".to_string(),
            license: license("premium", "sku-9", true, 133443936000000000),
        },
        LicenseEntry { product_key: "old".to_string(), license: license("old", "sku-1", false, EPOCH_TICKS) },
    ];
    let status = Iap::get_product_status(&entries, "premium".to_string(), "subs", 77);
    assert!(status.is_owned);
    assert_eq!(status.purchase_state, Some(PurchaseStateValue::Purchased));
    assert_eq!(status.purchase_time, Some(1699920000000 - 2592000000));
    assert_eq!(status.expiration_time, Some(1699920000000));
    assert_eq!(status.is_auto_renewing, Some(true));
    assert_eq!(status.is_acknowledged, Some(true));
    assert_eq!(status.purchase_token.as_deref(), Some("sku-9"));

    let status = Iap::get_product_status(&entries, "old".to_string(), "subs", 77);
    assert!(!status.is_owned);
    assert_eq!(status.purchase_state, Some(PurchaseStateValue::Canceled));
    // no expiration to estimate from: the current time stands in
    assert_eq!(status.purchase_time, Some(77));
    assert_eq!(status.expiration_time, None);
    assert_eq!(status.is_auto_renewing, Some(false));

    let status = Iap::get_product_status(&entries, "never".to_string(), "subs", 77);
    assert_eq!(status.product_id, "never");
    assert!(!status.is_owned);
    assert!(status.purchase_state.is_none());
    assert!(status.purchase_time.is_none());
    assert!(status.expiration_time.is_none());
    assert!(status.is_auto_renewing.is_none());
    assert!(status.is_acknowledged.is_none());
    assert!(status.purchase_token.is_none());
}

#[test]
fn clock_is_needed_only_without_an_expiration_to_estimate_from() {
    let dated = LicenseEntry {
        product_key: "a".to_string(),
        license: license("a", "sa", true, 133443936000000000),
    };
    let undated = LicenseEntry { product_key: "b".to_string(), license: license("b", "sb", true, EPOCH_TICKS) };
    assert!(!Iap::clock_needed(&vec![dated.clone()], "subs"));
    assert!(Iap::clock_needed(&vec![dated.clone()], "inapp"));
    assert!(Iap::clock_needed(&vec![dated, undated], "subs"));
    assert!(!Iap::clock_needed(&vec![], "inapp"));
}

#[test]
fn acknowledge_and_consume_succeed_without_a_round_trip() {
    let iap = Iap::new("app".to_string());
    assert!(iap.acknowledge_purchase("t".to_string()).unwrap().success);
    assert!(iap.consume_purchase("t".to_string()).unwrap().success);
}

#[test]
fn purchase_status_codes_map_to_states_and_failures() {
    assert_eq!(purchase_state_for_status(0).unwrap(), PurchaseStateValue::Purchased);
    assert_eq!(purchase_state_for_status(1).unwrap(), PurchaseStateValue::Purchased);
    let e = purchase_state_for_status(2).unwrap_err();
    assert_eq!(e.kind, ErrorKind::PurchaseIncomplete);
    assert_eq!(e.code.as_deref(), Some("purchaseNotCompleted"));
    assert_eq!(e.message.as_deref(), Some("Purchase was not completed"));
    let e = purchase_state_for_status(3).unwrap_err();
    assert_eq!(e.kind, ErrorKind::NetworkError);
    assert_eq!(e.code.as_deref(), Some("networkError"));
    let e = purchase_state_for_status(4).unwrap_err();
    assert_eq!(e.kind, ErrorKind::ServerError);
    assert_eq!(e.code.as_deref(), Some("serverError"));
    let e = purchase_state_for_status(17).unwrap_err();
    assert_eq!(e.kind, ErrorKind::PurchaseFailed);
    assert_eq!(e.code.as_deref(), Some("purchaseFailed"));
    assert_eq!(e.message.as_deref(), Some("Purchase failed"));
}

fn catalog(products: Vec<Product>) -> PurchaseEvent {
    PurchaseEvent::Catalog(Ok(GetProductsResponse { products }))
}

fn subscription_product(id: &str) -> Product {
    Iap::convert_store_product_to_product(&store_product(id, vec![monthly_sku("m")]), "subs")
}

#[test]
fn purchase_of_an_unknown_product_fails_without_a_purchase() {
    let request = PurchaseRequest::new("missing".to_string(), None, None);
    let (flow, action) = PurchaseFlow::start(request);
    match action {
        PurchaseAction::QueryCatalog { product_ids, product_type } => {
            assert_eq!(product_ids, vec!["missing"]);
            assert_eq!(product_type, "subs");
        }
        _ => panic!("expected a catalog query"),
    }
    let (flow, action) = flow.step(catalog(vec![]));
    assert!(matches!(flow, PurchaseFlow::Done));
    match action {
        PurchaseAction::Fail(e) => {
            assert_eq!(e.kind, ErrorKind::ProductNotFound);
            assert_eq!(e.code.as_deref(), Some("productNotFound"));
            assert_eq!(e.message.as_deref(), Some("Product not found"));
        }
        _ => panic!("expected product-not-found"),
    }
    // nothing more happens after the failure
    let (_, action) = flow.step(PurchaseEvent::Clock(1));
    assert!(matches!(action, PurchaseAction::Fail(ref e) if e.kind == ErrorKind::InvocationRejected));
}

#[test]
fn purchase_with_an_offer_completes_and_notifies() {
    let options = PurchaseOptions {
        offer_token: Some("m".to_string()),
        obfuscated_account_id: None,
        obfuscated_profile_id: None,
        app_account_token: None,
    };
    let request = PurchaseRequest::new("sku1".to_string(), None, Some(options));
    let (flow, _) = PurchaseFlow::start(request);
    let (flow, action) = flow.step(catalog(vec![subscription_product("sku1")]));
    match action {
        PurchaseAction::RequestPurchase { store_id, extended_json } => {
            assert_eq!(store_id, "sku1");
            assert_eq!(extended_json.as_deref(), Some(r#"{"skuId":"m"}"#));
        }
        _ => panic!("expected a purchase request"),
    }
    let outcome = PurchaseOutcome { status: 0, extended_error: String::new() };
    let (flow, action) = flow.step(PurchaseEvent::Outcome(Ok(outcome)));
    assert!(matches!(action, PurchaseAction::ReadClock));
    let (flow, action) = flow.step(PurchaseEvent::Clock(1700000000000));
    assert!(matches!(flow, PurchaseFlow::Done));
    match action {
        PurchaseAction::Complete { event, purchase } => {
            assert_eq!(event, "purchaseUpdated");
            assert_eq!(purchase.purchase_token, "win_sku1_1700000000000");
            assert_eq!(purchase.order_id.as_deref(), Some("win_sku1_1700000000000"));
            assert_eq!(purchase.package_name, "Premium");
            assert_eq!(purchase.product_id, "sku1");
            assert_eq!(purchase.purchase_time, 1700000000000);
            assert_eq!(purchase.purchase_state, PurchaseStateValue::Purchased);
            assert!(purchase.is_auto_renewing);
            assert!(purchase.is_acknowledged);
            assert_eq!(
                purchase.original_json,
                r#"{"status":0,"message":"","productId":"sku1"}"#
            );
            assert_eq!(purchase.signature, "");
        }
        _ => panic!("expected completion"),
    }
}

#[test]
fn purchase_without_an_offer_sends_no_extended_data() {
    let request = PurchaseRequest::new("sku1".to_string(), Some("inapp".to_string()), None);
    let (flow, _) = PurchaseFlow::start(request);
    let (_, action) = flow.step(catalog(vec![subscription_product("sku1")]));
    assert!(matches!(
        action,
        PurchaseAction::RequestPurchase { extended_json: None, .. }
    ));
}

#[test]
fn purchase_failures_are_returned_once() {
    let request = PurchaseRequest::new("sku1".to_string(), None, None);
    let (flow, _) = PurchaseFlow::start(request);
    let (flow, _) = flow.step(catalog(vec![subscription_product("sku1")]));
    let outcome = PurchaseOutcome { status: 3, extended_error: "net".to_string() };
    let (flow, action) = flow.step(PurchaseEvent::Outcome(Ok(outcome)));
    assert!(matches!(flow, PurchaseFlow::Done));
    assert!(matches!(action, PurchaseAction::Fail(ref e) if e.kind == ErrorKind::NetworkError));

    let request = PurchaseRequest::new("sku1".to_string(), None, None);
    let (flow, _) = PurchaseFlow::start(request);
    let (_, action) = flow.step(PurchaseEvent::Catalog(Err(window_missing_error())));
    assert!(matches!(action, PurchaseAction::Fail(ref e) if e.kind == ErrorKind::SessionUnavailable));
}

#[test]
fn session_slot_keeps_the_first_session() {
    let mut slot: SessionSlot<u32> = SessionSlot::new();
    assert!(slot.get().is_none());
    assert!(slot.install(7));
    assert!(!slot.install(8));
    assert_eq!(slot.get(), Some(&7));
}

#[test]
fn session_errors_name_the_window() {
    let e = window_handle_error("gone".to_string());
    assert_eq!(e.kind, ErrorKind::SessionUnavailable);
    assert_eq!(e.code.as_deref(), Some("windowError"));
    assert_eq!(e.message.as_deref(), Some("Failed to get window handle: gone"));
    assert_eq!(window_missing_error().message.as_deref(), Some("Failed to get main window"));
}
