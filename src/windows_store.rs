//! Decisions of the desktop store adapter: everything between the store's
//! raw answers (read by the host) and the unified model.
use vstd::prelude::*;

use crate::error::{Error, ErrorKind};
use crate::json::bool_json;
use crate::models::{
    opt_view, subs_kind, AcknowledgePurchaseResponse, ConsumePurchaseResponse, GetProductsResponse,
    PricingPhase, Product, ProductStatus, Purchase, PurchaseRequest, PurchaseStateValue,
    RestorePurchasesResponse, SubscriptionOffer,
};
use crate::price::{price_amount_micros, price_micros};
use crate::text::{decimal, decimal_text, digits_of, same_text};

verus! {

/// Store ticks (100 ns) in one second.
pub const TICKS_PER_SECOND: i64 = 10000000;

/// Seconds from 1601-01-01 to the Unix epoch.
pub const EPOCH_OFFSET_SECONDS: i64 = 11644473600;

/// Recurrence mode of a phase that repeats until the subscription ends.
pub const RECURRENCE_INFINITE: i32 = 1;

/// The store tick count of the Unix epoch.
pub open spec fn unix_epoch_ticks() -> int {
    116444736000000000
}

/// Epoch milliseconds of a store tick count: whole seconds, rounded down.
pub open spec fn unix_millis_of(ticks: int) -> int {
    (ticks / 10000000 - 11644473600) * 1000
}

/// The Unix epoch converts to 0 and one second after it to 1000; an
/// earlier instant converts to a negative value. A conversion is a whole
/// number of seconds, rounded down: never after the instant and less than
/// one second before it.
pub proof fn lemma_timestamp_conversion(ticks: int)
    ensures
        unix_millis_of(unix_epoch_ticks()) == 0,
        unix_millis_of(unix_epoch_ticks() + 10_000_000) == 1000,
        ticks < unix_epoch_ticks() ==> unix_millis_of(ticks) < 0,
        unix_millis_of(ticks) % 1000 == 0,
        unix_millis_of(ticks) * 10_000 <= ticks - unix_epoch_ticks(),
        ticks - unix_epoch_ticks() < unix_millis_of(ticks) * 10_000 + 10_000_000,
{
    let q = ticks / 10000000;
    let r = ticks % 10000000;
    vstd::arithmetic::div_mod::lemma_fundamental_div_mod(ticks, 10000000);
    assert(ticks == q * 10000000 + r);
    assert(0 <= r < 10000000);
    assert(unix_epoch_ticks() / 10000000 == 11644473600);
    assert((unix_epoch_ticks() + 10_000_000) / 10000000 == 11644473601);
    if ticks < unix_epoch_ticks() {
        assert(q < 11644473600) by (nonlinear_arith)
            requires
                ticks == q * 10000000 + r,
                0 <= r,
                ticks < 116444736000000000,
        ;
    }
    assert(((q - 11644473600) * 1000) % 1000 == 0) by (nonlinear_arith);
    assert((q - 11644473600) * 1000 * 10_000 == q * 10000000 - 116444736000000000)
        by (nonlinear_arith);
}

/// A store timestamp: 100-nanosecond ticks since 1601-01-01 UTC.
#[derive(Clone, Copy, Debug, PartialEq, Eq, Structural)]
pub struct DateTime {
    pub universal_time: i64,
}

/// Unit of a store billing period.
#[derive(Clone, Copy, Debug, PartialEq, Eq, Structural)]
pub enum DurationUnit {
    Minute,
    Hour,
    Day,
    Week,
    Month,
    Year,
    /// A code the store did not document; rendered as months.
    Unknown,
}

/// The unit that a store duration code stands for.
pub open spec fn unit_of_code(code: int) -> DurationUnit {
    if code == 0 {
        DurationUnit::Minute
    } else if code == 1 {
        DurationUnit::Hour
    } else if code == 2 {
        DurationUnit::Day
    } else if code == 3 {
        DurationUnit::Week
    } else if code == 4 {
        DurationUnit::Month
    } else if code == 5 {
        DurationUnit::Year
    } else {
        DurationUnit::Unknown
    }
}

impl DurationUnit {
    /// The unit of a store duration code.
    pub fn from_code(code: i32) -> (r: DurationUnit)
        ensures
            r == unit_of_code(code as int),
    {
        if code == 0 {
            DurationUnit::Minute
        } else if code == 1 {
            DurationUnit::Hour
        } else if code == 2 {
            DurationUnit::Day
        } else if code == 3 {
            DurationUnit::Week
        } else if code == 4 {
            DurationUnit::Month
        } else if code == 5 {
            DurationUnit::Year
        } else {
            DurationUnit::Unknown
        }
    }
}

/// The ISO-8601 duration of `n` units.
pub open spec fn period_text(n: nat, unit: DurationUnit) -> Seq<char> {
    match unit {
        DurationUnit::Minute => "PT"@ + digits_of(n) + "M"@,
        DurationUnit::Hour => "PT"@ + digits_of(n) + "H"@,
        DurationUnit::Day => "P"@ + digits_of(n) + "D"@,
        DurationUnit::Week => "P"@ + digits_of(n) + "W"@,
        DurationUnit::Month => "P"@ + digits_of(n) + "M"@,
        DurationUnit::Year => "P"@ + digits_of(n) + "Y"@,
        DurationUnit::Unknown => "P"@ + digits_of(n) + "M"@,
    }
}

/// Billing metadata of a subscription SKU.
#[derive(Clone, Copy, Debug, PartialEq, Eq, Structural)]
pub struct SubscriptionInfo {
    pub billing_period: u32,
    pub billing_period_unit: DurationUnit,
}

/// A SKU (variant) of a store product.
#[derive(Clone, Debug)]
pub struct StoreSku {
    pub store_id: String,
    pub formatted_price: String,
    /// Present only on SKUs that are subscriptions.
    pub subscription_info: Option<SubscriptionInfo>,
}

/// A store product as the store reports it.
#[derive(Clone, Debug)]
pub struct StoreProduct {
    pub store_id: String,
    pub title: String,
    pub description: String,
    pub formatted_price: String,
    pub currency_code: String,
    pub formatted_base_price: String,
    pub skus: Vec<StoreSku>,
}

/// Answer of a store catalog query.
#[derive(Clone, Debug)]
pub struct StoreQueryResult {
    /// The vendor's diagnostic text when the query was rejected.
    pub extended_error: Option<String>,
    pub products: Vec<StoreProduct>,
}

/// The store product kinds that a query of product kind `t` covers.
pub open spec fn store_kinds(t: Seq<char>) -> Seq<Seq<char>> {
    if t == "inapp"@ {
        seq!["Consumable"@, "UnmanagedConsumable"@]
    } else if t == subs_kind() {
        seq!["Subscription"@, "Durable"@]
    } else {
        seq!["Consumable"@, "UnmanagedConsumable"@, "Durable"@, "Subscription"@]
    }
}

/// The SKUs that carry subscription metadata, in order.
pub open spec fn subscription_skus(s: Seq<StoreSku>) -> Seq<StoreSku>
    decreases s.len(),
{
    if s.len() == 0 {
        s
    } else if s.last().subscription_info is Some {
        subscription_skus(s.drop_last()).push(s.last())
    } else {
        subscription_skus(s.drop_last())
    }
}

/// `o` is the offer made of subscription SKU `sku`: one phase at the SKU's
/// price, billed every period, recurring without a cycle limit.
pub open spec fn offer_matches(
    o: SubscriptionOffer,
    sku: StoreSku,
    currency: Seq<char>,
    micros: int,
) -> bool {
    &&& sku.subscription_info matches Some(info)
    &&& o.offer_token@ == sku.store_id@
    &&& o.base_plan_id@ == sku.store_id@
    &&& o.offer_id is None
    &&& o.pricing_phases@.len() == 1
    &&& o.pricing_phases@[0].formatted_price@ == sku.formatted_price@
    &&& o.pricing_phases@[0].price_currency_code@ == currency
    &&& o.pricing_phases@[0].price_amount_micros == micros
    &&& o.pricing_phases@[0].billing_period@ == period_text(
        info.billing_period as nat,
        info.billing_period_unit,
    )
    &&& o.pricing_phases@[0].billing_cycle_count == 0
    &&& o.pricing_phases@[0].recurrence_mode == RECURRENCE_INFINITE
}

/// `p` is the unified product of store product `sp` queried as kind `kind`.
pub open spec fn product_converted(p: Product, sp: StoreProduct, kind: Seq<char>) -> bool {
    let micros = price_micros(sp.formatted_base_price@);
    let subs = subscription_skus(sp.skus@);
    &&& p.product_id@ == sp.store_id@
    &&& p.title@ == sp.title@
    &&& p.description@ == sp.description@
    &&& p.product_type@ == kind
    &&& opt_view(p.formatted_price) == Some(sp.formatted_price@)
    &&& opt_view(p.price_currency_code) == Some(sp.currency_code@)
    &&& p.price_amount_micros == Some(micros as i64)
    &&& if kind == subs_kind() && subs.len() > 0 {
        &&& p.subscription_offer_details matches Some(offers)
        &&& offers@.len() == subs.len()
        &&& forall|i: int|
            0 <= i < subs.len() ==> offer_matches(
                #[trigger] offers@[i],
                subs[i],
                sp.currency_code@,
                micros,
            )
    } else {
        p.subscription_offer_details is None
    }
}

/// The text of the query-failed error for a vendor diagnostic.
pub open spec fn query_failed_message(diagnostic: Seq<char>) -> Seq<char> {
    "Store query failed with error: "@ + diagnostic
}

/// Milliseconds in the thirty days that a subscription's purchase is
/// assumed to precede its expiration.
pub const THIRTY_DAYS_MILLIS: i64 = 2592000000;

/// A licence of an add-on, as the store reports it.
#[derive(Clone, Debug)]
pub struct StoreLicense {
    pub in_app_offer_token: String,
    pub sku_store_id: String,
    pub is_active: bool,
    pub expiration_date: DateTime,
}

/// One entry of the store's add-on licence map.
#[derive(Clone, Debug)]
pub struct LicenseEntry {
    pub product_key: String,
    pub license: StoreLicense,
}

/// Purchase time of a licence: for a subscription with a known expiration,
/// thirty days before it (an approximation: the store does not report the
/// purchase time); else `fallback`.
pub open spec fn estimated_purchase_time(kind: Seq<char>, expiration: int, fallback: int) -> int {
    if kind == subs_kind() && expiration > 0 {
        expiration - THIRTY_DAYS_MILLIS
    } else {
        fallback
    }
}

/// The state of a licence: active licences are purchased, others canceled.
pub open spec fn license_state(active: bool) -> PurchaseStateValue {
    if active {
        PurchaseStateValue::Purchased
    } else {
        PurchaseStateValue::Canceled
    }
}

/// The raw record kept with a purchase restored from a licence.
pub open spec fn license_json(active: bool, expiration: int) -> Seq<char> {
    "{\"isActive\":"@ + bool_json(active) + ",\"expirationDate\":"@ + decimal(expiration) + "}"@
}

/// `p` is the purchase that licence `l` stands for.
pub open spec fn license_purchase(
    p: Purchase,
    l: StoreLicense,
    kind: Seq<char>,
    package_name: Seq<char>,
    now: int,
) -> bool {
    let expiration = unix_millis_of(l.expiration_date.universal_time as int);
    &&& opt_view(p.order_id) == Some(l.sku_store_id@)
    &&& p.package_name@ == package_name
    &&& p.product_id@ == l.in_app_offer_token@
    &&& p.purchase_time == estimated_purchase_time(kind, expiration, now)
    &&& p.purchase_token@ == l.sku_store_id@
    &&& p.purchase_state == license_state(l.is_active)
    &&& p.is_auto_renewing == (kind == subs_kind() && l.is_active)
    &&& p.is_acknowledged
    &&& p.original_json@ == license_json(l.is_active, expiration)
    &&& p.signature@ == Seq::<char>::empty()
    &&& p.original_id is None
    &&& p.jws_representation is None
}

/// Whether the purchase time of licence `l` queried as kind `kind` falls
/// back to the current time.
pub open spec fn uses_clock(kind: Seq<char>, l: StoreLicense) -> bool {
    !(kind == subs_kind() && unix_millis_of(l.expiration_date.universal_time as int) > 0)
}

/// The licences of the active entries, in order.
pub open spec fn active_licenses(s: Seq<LicenseEntry>) -> Seq<StoreLicense>
    decreases s.len(),
{
    if s.len() == 0 {
        Seq::empty()
    } else if s.last().license.is_active {
        active_licenses(s.drop_last()).push(s.last().license)
    } else {
        active_licenses(s.drop_last())
    }
}

/// The licence of the first entry keyed `key`, if any.
pub open spec fn license_for(s: Seq<LicenseEntry>, key: Seq<char>) -> Option<StoreLicense>
    decreases s.len(),
{
    if s.len() == 0 {
        None
    } else if s[0].product_key@ == key {
        Some(s[0].license)
    } else {
        license_for(s.subrange(1, s.len() as int), key)
    }
}

/// `st` is the entitlement snapshot of `product_id` given its licence, if any.
pub open spec fn status_matches(
    st: ProductStatus,
    product_id: Seq<char>,
    kind: Seq<char>,
    license: Option<StoreLicense>,
    now: int,
) -> bool {
    &&& st.product_id@ == product_id
    &&& match license {
        None => {
            &&& !st.is_owned
            &&& st.purchase_state is None
            &&& st.purchase_time is None
            &&& st.expiration_time is None
            &&& st.is_auto_renewing is None
            &&& st.is_acknowledged is None
            &&& st.purchase_token is None
        },
        Some(l) => {
            let expiration = unix_millis_of(l.expiration_date.universal_time as int);
            &&& st.is_owned == l.is_active
            &&& st.purchase_state == Some(license_state(l.is_active))
            &&& st.purchase_time == Some(
                estimated_purchase_time(kind, expiration, now) as i64,
            )
            &&& st.expiration_time == if expiration > 0 {
                Some(expiration as i64)
            } else {
                None
            }
            &&& st.is_auto_renewing == Some(kind == subs_kind() && l.is_active)
            &&& st.is_acknowledged == Some(true)
            &&& opt_view(st.purchase_token) == Some(l.sku_store_id@)
        },
    }
}

/// The bound of a store tick count converted to milliseconds.
proof fn lemma_unix_millis_bounds(ticks: i64)
    ensures
        -1_000_000_000_000_000 <= unix_millis_of(ticks as int) <= 1_000_000_000_000_000,
{
    let s = ticks as int / 10000000;
    assert(-922_337_203_686 <= s <= 922_337_203_685);
}

/// The store session of an adapter: created at most once, then kept and
/// handed to every caller. The host holds it under a lock, so concurrent
/// first callers create one session between them.
pub struct SessionSlot<T> {
    session: Option<T>,
}

impl<T> SessionSlot<T> {
    /// The session installed so far, if any.
    pub closed spec fn installed(&self) -> Option<T> {
        self.session
    }

    /// A slot holding no session yet.
    pub fn new() -> (r: SessionSlot<T>)
        ensures
            r.installed() is None,
    {
        SessionSlot { session: None }
    }

    /// The installed session, if any.
    pub fn get(&self) -> (r: Option<&T>)
        ensures
            match r {
                Some(v) => self.installed() == Some(*v),
                None => self.installed() is None,
            },
    {
        match &self.session {
            Some(v) => Some(v),
            None => None,
        }
    }

    /// Installs `session` when none is installed yet, and says whether it
    /// did; an installed session is never replaced.
    pub fn install(&mut self, session: T) -> (r: bool)
        ensures
            r == (old(self).installed() is None),
            r ==> final(self).installed() == Some(session),
            !r ==> final(self).installed() == old(self).installed(),
    {
        if self.session.is_none() {
            self.session = Some(session);
            true
        } else {
            false
        }
    }
}

/// The failure when the host's main window cannot be found.
pub fn window_missing_error() -> (r: Error)
    ensures
        r.kind == ErrorKind::SessionUnavailable,
        opt_view(r.code) == Some("windowError"@),
        opt_view(r.message) == Some("Failed to get main window"@),
{
    Error::new(
        ErrorKind::SessionUnavailable,
        Some(String::from_str("windowError")),
        Some(String::from_str("Failed to get main window")),
    )
}

/// The failure when the main window's handle cannot be read.
pub fn window_handle_error(detail: String) -> (r: Error)
    ensures
        r.kind == ErrorKind::SessionUnavailable,
        opt_view(r.code) == Some("windowError"@),
        opt_view(r.message) == Some("Failed to get window handle: "@ + detail@),
{
    let mut message = String::from_str("Failed to get window handle: ");
    message.append(detail.as_str());
    Error::new(ErrorKind::SessionUnavailable, Some(String::from_str("windowError")), Some(message))
}

/// The desktop store adapter.
pub struct Iap {
    /// Name of the host application's package.
    pub package_name: String,
}

impl Iap {
    /// The adapter of the application packaged as `package_name`.
    pub fn new(package_name: String) -> (r: Iap)
        ensures
            r.package_name == package_name,
    {
        Iap { package_name }
    }

    /// Epoch milliseconds of a store timestamp, in whole seconds.
    pub fn datetime_to_unix_millis(datetime: &DateTime) -> (r: i64)
        ensures
            r as int == unix_millis_of(datetime.universal_time as int),
    {
        let ticks = datetime.universal_time;
        let seconds_since_1601: i64 = if ticks >= 0 {
            ticks / TICKS_PER_SECOND
        } else {
            let magnitude: i64 = -(ticks + 1);
            let q: i64 = magnitude / TICKS_PER_SECOND;
            assert(ticks as int / 10000000 == -(q as int) - 1) by (nonlinear_arith)
                requires
                    magnitude == -(ticks + 1),
                    q == magnitude / 10000000,
                    ticks < 0,
            ;
            -q - 1
        };
        let unix_seconds = seconds_since_1601 - EPOCH_OFFSET_SECONDS;
        unix_seconds * 1000
    }

    /// ISO-8601 duration text of `period` units.
    pub fn billing_period_text(period: u32, unit: DurationUnit) -> (r: String)
        ensures
            r@ == period_text(period as nat, unit),
    {
        let digits = decimal_text(period as i64);
        let (head, tail) = match unit {
            DurationUnit::Minute => ("PT", "M"),
            DurationUnit::Hour => ("PT", "H"),
            DurationUnit::Day => ("P", "D"),
            DurationUnit::Week => ("P", "W"),
            DurationUnit::Month => ("P", "M"),
            DurationUnit::Year => ("P", "Y"),
            DurationUnit::Unknown => ("P", "M"),
        };
        let mut s = String::from_str(head);
        s.append(digits.as_str());
        s.append(tail);
        s
    }

    /// Store product kinds to query for product kind `product_type`.
    pub fn product_kinds(product_type: &str) -> (r: Vec<String>)
        ensures
            r@.len() == store_kinds(product_type@).len(),
            forall|i: int| 0 <= i < r@.len() ==> #[trigger] r@[i]@ == store_kinds(product_type@)[i],
    {
        let mut kinds: Vec<String> = Vec::new();
        if same_text(product_type, "inapp") {
            kinds.push(String::from_str("Consumable"));
            kinds.push(String::from_str("UnmanagedConsumable"));
        } else if same_text(product_type, "subs") {
            kinds.push(String::from_str("Subscription"));
            kinds.push(String::from_str("Durable"));
        } else {
            kinds.push(String::from_str("Consumable"));
            kinds.push(String::from_str("UnmanagedConsumable"));
            kinds.push(String::from_str("Durable"));
            kinds.push(String::from_str("Subscription"));
        }
        kinds
    }

    /// The unified product of a store product, queried as `product_type`.
    /// Subscription queries carry one offer per SKU with subscription
    /// metadata; other SKUs are skipped.
    pub fn convert_store_product_to_product(
        store_product: &StoreProduct,
        product_type: &str,
    ) -> (r: Product)
        ensures
            product_converted(r, *store_product, product_type@),
    {
        let micros = price_amount_micros(store_product.formatted_base_price.as_str());
        let is_subs = same_text(product_type, "subs");
        let subscription_offer_details = if is_subs {
            let skus = &store_product.skus;
            let mut offers: Vec<SubscriptionOffer> = Vec::new();
            let mut i: usize = 0;
            while i < skus.len()
                invariant
                    skus == &store_product.skus,
                    i <= skus@.len(),
                    micros as int == price_micros(store_product.formatted_base_price@),
                    offers@.len() == subscription_skus(skus@.subrange(0, i as int)).len(),
                    forall|k: int|
                        0 <= k < offers@.len() ==> offer_matches(
                            #[trigger] offers@[k],
                            subscription_skus(skus@.subrange(0, i as int))[k],
                            store_product.currency_code@,
                            micros as int,
                        ),
                decreases skus@.len() - i,
            {
                let sku = &skus[i];
                assert(skus@.subrange(0, i + 1).drop_last() =~= skus@.subrange(0, i as int));
                match sku.subscription_info {
                    Some(info) => {
                        let phase = PricingPhase {
                            formatted_price: sku.formatted_price.clone(),
                            price_currency_code: store_product.currency_code.clone(),
                            price_amount_micros: micros,
                            billing_period: Self::billing_period_text(
                                info.billing_period,
                                info.billing_period_unit,
                            ),
                            billing_cycle_count: 0,
                            recurrence_mode: RECURRENCE_INFINITE,
                        };
                        let mut phases: Vec<PricingPhase> = Vec::new();
                        phases.push(phase);
                        let offer = SubscriptionOffer {
                            offer_token: sku.store_id.clone(),
                            base_plan_id: sku.store_id.clone(),
                            offer_id: None,
                            pricing_phases: phases,
                        };
                        offers.push(offer);
                    },
                    None => {},
                }
                i = i + 1;
            }
            assert(skus@.subrange(0, skus@.len() as int) =~= skus@);
            if offers.len() > 0 {
                Some(offers)
            } else {
                None
            }
        } else {
            None
        };
        Product {
            product_id: store_product.store_id.clone(),
            title: store_product.title.clone(),
            description: store_product.description.clone(),
            product_type: String::from_str(product_type),
            formatted_price: Some(store_product.formatted_price.clone()),
            price_currency_code: Some(store_product.currency_code.clone()),
            price_amount_micros: Some(micros),
            subscription_offer_details,
        }
    }

    /// The catalog reply to a store query made for `product_type`: every
    /// store product converted, in order, unless the store rejected the
    /// query.
    pub fn get_products(query: &StoreQueryResult, product_type: &str) -> (r: Result<
        GetProductsResponse,
        Error,
    >)
        ensures
            match query.extended_error {
                Some(diagnostic) => r matches Err(e) && e.kind == ErrorKind::QueryFailed
                    && opt_view(e.code) == Some("storeQueryFailed"@) && opt_view(e.message)
                    == Some(query_failed_message(diagnostic@)),
                None => r matches Ok(resp) && resp.products@.len() == query.products@.len()
                    && forall|i: int|
                    0 <= i < resp.products@.len() ==> product_converted(
                        #[trigger] resp.products@[i],
                        query.products@[i],
                        product_type@,
                    ),
            },
    {
        match &query.extended_error {
            Some(diagnostic) => {
                let mut message = String::from_str("Store query failed with error: ");
                message.append(diagnostic.as_str());
                Err(
                    Error::new(
                        ErrorKind::QueryFailed,
                        Some(String::from_str("storeQueryFailed")),
                        Some(message),
                    ),
                )
            },
            None => {
                let mut products: Vec<Product> = Vec::new();
                let mut i: usize = 0;
                while i < query.products.len()
                    invariant
                        i <= query.products@.len(),
                        products@.len() == i,
                        forall|k: int|
                            0 <= k < i ==> product_converted(
                                #[trigger] products@[k],
                                query.products@[k],
                                product_type@,
                            ),
                    decreases query.products@.len() - i,
                {
                    let product = Self::convert_store_product_to_product(
                        &query.products[i],
                        product_type,
                    );
                    products.push(product);
                    i = i + 1;
                }
                Ok(GetProductsResponse { products })
            },
        }
    }

    /// The purchase that a licence stands for; `now` is the current time,
    /// used when no purchase time can be estimated.
    pub fn convert_license_to_purchase(
        &self,
        license: &StoreLicense,
        product_type: &str,
        now: i64,
    ) -> (r: Purchase)
        ensures
            license_purchase(r, *license, product_type@, self.package_name@, now as int),
    {
        let expiration = Self::datetime_to_unix_millis(&license.expiration_date);
        proof {
            lemma_unix_millis_bounds(license.expiration_date.universal_time);
        }
        let is_subs = same_text(product_type, "subs");
        let purchase_time = if is_subs && expiration > 0 {
            expiration - THIRTY_DAYS_MILLIS
        } else {
            now
        };
        let purchase_state = if license.is_active {
            PurchaseStateValue::Purchased
        } else {
            PurchaseStateValue::Canceled
        };
        let mut original_json = String::from_str("{\"isActive\":");
        original_json.append(
            if license.is_active {
                "true"
            } else {
                "false"
            },
        );
        original_json.append(",\"expirationDate\":");
        let exp_text = decimal_text(expiration);
        original_json.append(exp_text.as_str());
        original_json.append("}");
        Purchase {
            order_id: Some(license.sku_store_id.clone()),
            package_name: self.package_name.clone(),
            product_id: license.in_app_offer_token.clone(),
            purchase_time,
            purchase_token: license.sku_store_id.clone(),
            purchase_state,
            is_auto_renewing: is_subs && license.is_active,
            is_acknowledged: true,
            original_json,
            signature: String::new(),
            original_id: None,
            jws_representation: None,
        }
    }

    /// The purchases of the active licences, in order.
    pub fn restore_purchases(
        &self,
        licenses: &Vec<LicenseEntry>,
        product_type: &str,
        now: i64,
    ) -> (r: RestorePurchasesResponse)
        ensures
            r.purchases@.len() == active_licenses(licenses@).len(),
            forall|i: int|
                0 <= i < r.purchases@.len() ==> license_purchase(
                    #[trigger] r.purchases@[i],
                    active_licenses(licenses@)[i],
                    product_type@,
                    self.package_name@,
                    now as int,
                ),
    {
        let mut purchases: Vec<Purchase> = Vec::new();
        let mut i: usize = 0;
        while i < licenses.len()
            invariant
                i <= licenses@.len(),
                purchases@.len() == active_licenses(licenses@.subrange(0, i as int)).len(),
                forall|k: int|
                    0 <= k < purchases@.len() ==> license_purchase(
                        #[trigger] purchases@[k],
                        active_licenses(licenses@.subrange(0, i as int))[k],
                        product_type@,
                        self.package_name@,
                        now as int,
                    ),
            decreases licenses@.len() - i,
        {
            assert(licenses@.subrange(0, i + 1).drop_last() =~= licenses@.subrange(0, i as int));
            let purchase = self.convert_license_to_purchase(&licenses[i].license, product_type, now);
            if purchase.purchase_state == PurchaseStateValue::Purchased {
                purchases.push(purchase);
            }
            i = i + 1;
        }
        assert(licenses@.subrange(0, licenses@.len() as int) =~= licenses@);
        RestorePurchasesResponse { purchases }
    }

    /// The entitlement snapshot of `product_id` from the add-on licences.
    /// `now` is the current time, used when no purchase time can be estimated.
    pub fn get_product_status(
        licenses: &Vec<LicenseEntry>,
        product_id: String,
        product_type: &str,
        now: i64,
    ) -> (r: ProductStatus)
        ensures
            status_matches(
                r,
                product_id@,
                product_type@,
                license_for(licenses@, product_id@),
                now as int,
            ),
    {
        let len = licenses.len();
        let mut i: usize = 0;
        assert(licenses@.subrange(0, len as int) =~= licenses@);
        while i < len
            invariant
                len == licenses@.len(),
                i <= len,
                license_for(licenses@.subrange(i as int, len as int), product_id@) == license_for(
                    licenses@,
                    product_id@,
                ),
            decreases len - i,
        {
            let entry = &licenses[i];
            let ghost rest = licenses@.subrange(i as int, len as int);
            assert(rest[0] == licenses@[i as int]);
            assert(rest.subrange(1, rest.len() as int) =~= licenses@.subrange(i + 1, len as int));
            if entry.product_key == product_id {
                let license = &entry.license;
                let expiration = Self::datetime_to_unix_millis(&license.expiration_date);
                proof {
                    lemma_unix_millis_bounds(license.expiration_date.universal_time);
                }
                let is_subs = same_text(product_type, "subs");
                let purchase_time = if is_subs && expiration > 0 {
                    expiration - THIRTY_DAYS_MILLIS
                } else {
                    now
                };
                let purchase_state = if license.is_active {
                    PurchaseStateValue::Purchased
                } else {
                    PurchaseStateValue::Canceled
                };
                return ProductStatus {
                    product_id,
                    is_owned: license.is_active,
                    purchase_state: Some(purchase_state),
                    purchase_time: Some(purchase_time),
                    expiration_time: if expiration > 0 {
                        Some(expiration)
                    } else {
                        None
                    },
                    is_auto_renewing: Some(is_subs && license.is_active),
                    is_acknowledged: Some(true),
                    purchase_token: Some(license.sku_store_id.clone()),
                };
            }
            i = i + 1;
        }
        ProductStatus {
            product_id,
            is_owned: false,
            purchase_state: None,
            purchase_time: None,
            expiration_time: None,
            is_auto_renewing: None,
            is_acknowledged: None,
            purchase_token: None,
        }
    }

    /// Whether converting any of `licenses` as `product_type` needs the
    /// current time; when none does, the time handed in is never used.
    pub fn clock_needed(licenses: &Vec<LicenseEntry>, product_type: &str) -> (r: bool)
        ensures
            r == exists|i: int|
                0 <= i < licenses@.len() && uses_clock(product_type@, #[trigger] licenses@[i].license),
    {
        let is_subs = same_text(product_type, "subs");
        let mut i: usize = 0;
        while i < licenses.len()
            invariant
                i <= licenses@.len(),
                is_subs == (product_type@ == subs_kind()),
                forall|k: int| 0 <= k < i ==> !uses_clock(product_type@, #[trigger] licenses@[k].license),
            decreases licenses@.len() - i,
        {
            let expiration = Self::datetime_to_unix_millis(&licenses[i].license.expiration_date);
            if !(is_subs && expiration > 0) {
                return true;
            }
            i = i + 1;
        }
        false
    }

    /// The store acknowledges purchases itself: accepted without a round trip.
    pub fn acknowledge_purchase(&self, purchase_token: String) -> (r: Result<
        AcknowledgePurchaseResponse,
        Error,
    >)
        ensures
            r matches Ok(resp) && resp.success,
    {
        Ok(AcknowledgePurchaseResponse { success: true })
    }

    /// The store consumes purchases itself: accepted without a round trip.
    pub fn consume_purchase(&self, purchase_token: String) -> (r: Result<
        ConsumePurchaseResponse,
        Error,
    >)
        ensures
            r matches Ok(resp) && resp.success,
    {
        Ok(ConsumePurchaseResponse { success: true })
    }
}

} // verus!
