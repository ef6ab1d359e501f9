//! The wire form of the model's records: JSON objects with camelCase keys,
//! in which an absent optional field is left out rather than written as
//! `null`.
use vstd::prelude::*;

use crate::models::{
    state_code, AcknowledgePurchaseRequest, AcknowledgePurchaseResponse, ConsumePurchaseRequest,
    ConsumePurchaseResponse, GetProductsResponse, GetPurchaseHistoryResponse, InitializeResponse,
    PricingPhase, Product, ProductStatus, Purchase, PurchaseHistoryRecord,
    RestorePurchasesResponse, SubscriptionOffer,
};
use crate::models::opt_view;
use crate::text::{decimal, decimal_text, digit_char};

verus! {

/// The lowercase hexadecimal digit of `d` (below 16).
pub open spec fn hex_digit(d: nat) -> char {
    if d < 10 {
        digit_char(d)
    } else if d == 10 {
        'a'
    } else if d == 11 {
        'b'
    } else if d == 12 {
        'c'
    } else if d == 13 {
        'd'
    } else if d == 14 {
        'e'
    } else {
        'f'
    }
}

/// How a character stands inside a JSON string: `"` and `\` and the
/// control characters below U+0020 are escaped (short forms where JSON has
/// them, else `\u00xx` in lowercase hex); every other character stands as
/// it is.
pub open spec fn escaped_char(c: char) -> Seq<char> {
    if c == '"' {
        seq!['\\', '"']
    } else if c == '\\' {
        seq!['\\', '\\']
    } else if c == '\u{8}' {
        seq!['\\', 'b']
    } else if c == '\t' {
        seq!['\\', 't']
    } else if c == '\n' {
        seq!['\\', 'n']
    } else if c == '\u{c}' {
        seq!['\\', 'f']
    } else if c == '\r' {
        seq!['\\', 'r']
    } else if (c as u32) < 32 {
        seq![
            '\\',
            'u',
            '0',
            '0',
            hex_digit(((c as u32) / 16) as nat),
            hex_digit(((c as u32) % 16) as nat),
        ]
    } else {
        seq![c]
    }
}

/// The escaped characters of `s`, in order.
pub open spec fn escaped_text(s: Seq<char>) -> Seq<char>
    decreases s.len(),
{
    if s.len() == 0 {
        Seq::empty()
    } else {
        escaped_text(s.drop_last()) + escaped_char(s.last())
    }
}

/// The JSON string literal of `s`: quoted, with its characters escaped.
pub open spec fn json_string_text(s: Seq<char>) -> Seq<char> {
    seq!['"'] + escaped_text(s) + seq!['"']
}

/// A text without quotes, backslashes or control characters stands in its
/// JSON string literal unchanged, between two quotes.
pub proof fn lemma_plain_text_quoted(s: Seq<char>)
    requires
        forall|i: int|
            #![trigger s[i]]
            0 <= i < s.len() ==> 32 <= (s[i] as u32) && s[i] != '"' && s[i] != '\\',
    ensures
        escaped_text(s) == s,
        json_string_text(s) == seq!['"'] + s + seq!['"'],
    decreases s.len(),
{
    if s.len() > 0 {
        let t = s.drop_last();
        assert forall|i: int|
            #![trigger t[i]]
            0 <= i < t.len() implies 32 <= (t[i] as u32) && t[i] != '"' && t[i] != '\\' by {
            assert(t[i] == s[i]);
        }
        lemma_plain_text_quoted(t);
        let c = s.last();
        assert(s[s.len() - 1] == c);
        assert(32 <= (c as u32));
        assert(c != '\u{8}' && c != '\t' && c != '\n' && c != '\u{c}' && c != '\r');
        assert(escaped_char(c) == seq![c]);
        assert(escaped_text(s) =~= s);
    } else {
        assert(escaped_text(s) =~= s);
    }
}

/// Relies on `serde_json::to_string` on a `str`: its JSON string literal,
/// which serde_json writes with the escapes above and no others.
#[verifier::external_body]
fn json_string(s: &str) -> (r: String)
    ensures
        r@ == json_string_text(s@),
{
    serde_json::to_string(s).unwrap_or_default()
}

/// A member of a record: its key and the JSON text of its value.
pub type Member = (Seq<char>, Seq<char>);

pub open spec fn member_text(m: Member) -> Seq<char> {
    "\""@ + m.0 + "\":"@ + m.1
}

pub open spec fn members_text(ms: Seq<Member>) -> Seq<char>
    decreases ms.len(),
{
    if ms.len() == 0 {
        Seq::empty()
    } else if ms.len() == 1 {
        member_text(ms[0])
    } else {
        members_text(ms.drop_last()) + ","@ + member_text(ms.last())
    }
}

/// The JSON object made of `ms`, in order.
pub open spec fn object_text(ms: Seq<Member>) -> Seq<char> {
    "{"@ + members_text(ms) + "}"@
}

pub open spec fn items_text(items: Seq<Seq<char>>) -> Seq<char>
    decreases items.len(),
{
    if items.len() == 0 {
        Seq::empty()
    } else if items.len() == 1 {
        items[0]
    } else {
        items_text(items.drop_last()) + ","@ + items.last()
    }
}

/// The JSON array of the texts `items`, in order.
pub open spec fn array_text(items: Seq<Seq<char>>) -> Seq<char> {
    "["@ + items_text(items) + "]"@
}

pub open spec fn bool_json(b: bool) -> Seq<char> {
    if b {
        "true"@
    } else {
        "false"@
    }
}

/// The member `key` when its value is present, else nothing.
pub open spec fn optional_member(key: Seq<char>, value: Option<Seq<char>>) -> Seq<Member> {
    match value {
        Some(t) => seq![(key, t)],
        None => Seq::empty(),
    }
}

struct ObjectWriter {
    text: String,
    empty: bool,
    members: Ghost<Seq<Member>>,
}

impl ObjectWriter {
    spec fn inv(&self) -> bool {
        &&& self.text@ == "{"@ + members_text(self.members@)
        &&& self.empty == (self.members@.len() == 0)
    }

    fn new() -> (r: ObjectWriter)
        ensures
            r.inv(),
            r.members@ == Seq::<Member>::empty(),
    {
        ObjectWriter { text: String::from_str("{"), empty: true, members: Ghost(Seq::empty()) }
    }

    fn member(&mut self, key: &str, value: &str)
        requires
            old(self).inv(),
        ensures
            final(self).inv(),
            final(self).members@ == old(self).members@.push((key@, value@)),
    {
        let ghost ms = self.members@;
        let ghost m = (key@, value@);
        let was_empty = self.empty;
        if !was_empty {
            self.text.append(",");
        }
        self.empty = false;
        self.text.append("\"");
        self.text.append(key);
        self.text.append("\":");
        self.text.append(value);
        self.members = Ghost(ms.push(m));
        assert(ms.push(m).drop_last() =~= ms);
        if was_empty {
            assert(members_text(ms.push(m)) == member_text(m));
            assert(self.text@ =~= "{"@ + members_text(self.members@));
        } else {
            assert(members_text(ms.push(m)) == members_text(ms) + ","@ + member_text(m));
            assert(self.text@ =~= "{"@ + members_text(self.members@));
        }
    }

    /// Adds the member `key` when `value` is present.
    fn optional(&mut self, key: &str, value: Option<String>)
        requires
            old(self).inv(),
        ensures
            final(self).inv(),
            final(self).members@ == old(self).members@ + optional_member(key@, opt_view(value)),
    {
        match value {
            Some(v) => {
                self.member(key, v.as_str());
                assert(old(self).members@.push((key@, v@)) =~= old(self).members@ + seq![(key@, v@)]);
            },
            None => {
                assert(old(self).members@ =~= old(self).members@ + Seq::<Member>::empty());
            },
        }
    }

    fn finish(self) -> (r: String)
        requires
            self.inv(),
        ensures
            r@ == object_text(self.members@),
    {
        let mut text = self.text;
        text.append("}");
        text
    }
}

struct ArrayWriter {
    text: String,
    empty: bool,
    items: Ghost<Seq<Seq<char>>>,
}

impl ArrayWriter {
    spec fn inv(&self) -> bool {
        &&& self.text@ == "["@ + items_text(self.items@)
        &&& self.empty == (self.items@.len() == 0)
    }

    fn new() -> (r: ArrayWriter)
        ensures
            r.inv(),
            r.items@ == Seq::<Seq<char>>::empty(),
    {
        ArrayWriter { text: String::from_str("["), empty: true, items: Ghost(Seq::empty()) }
    }

    fn item(&mut self, value: &str)
        requires
            old(self).inv(),
        ensures
            final(self).inv(),
            final(self).items@ == old(self).items@.push(value@),
    {
        let ghost its = self.items@;
        if !self.empty {
            self.text.append(",");
        }
        self.empty = false;
        self.text.append(value);
        self.items = Ghost(its.push(value@));
        assert(its.push(value@).drop_last() =~= its);
        assert(self.text@ =~= "["@ + items_text(self.items@));
    }

    fn finish(self) -> (r: String)
        requires
            self.inv(),
        ensures
            r@ == array_text(self.items@),
    {
        let mut text = self.text;
        text.append("]");
        text
    }
}

/// The members of a pricing phase's record.
pub open spec fn phase_members(ph: PricingPhase) -> Seq<Member> {
    seq![
        ("formattedPrice"@, json_string_text(ph.formatted_price@)),
        ("priceCurrencyCode"@, json_string_text(ph.price_currency_code@)),
        ("priceAmountMicros"@, decimal(ph.price_amount_micros as int)),
        ("billingPeriod"@, json_string_text(ph.billing_period@)),
        ("billingCycleCount"@, decimal(ph.billing_cycle_count as int)),
        ("recurrenceMode"@, decimal(ph.recurrence_mode as int)),
    ]
}

pub open spec fn phase_text(ph: PricingPhase) -> Seq<char> {
    object_text(phase_members(ph))
}

/// The members of a subscription offer's record.
pub open spec fn offer_members(o: SubscriptionOffer) -> Seq<Member> {
    seq![
        ("offerToken"@, json_string_text(o.offer_token@)),
        ("basePlanId"@, json_string_text(o.base_plan_id@)),
    ] + optional_member(
        "offerId"@,
        match o.offer_id {
            Some(t) => Some(json_string_text(t@)),
            None => None,
        },
    ) + seq![
        ("pricingPhases"@, array_text(o.pricing_phases@.map_values(|ph: PricingPhase| phase_text(ph)))),
    ]
}

pub open spec fn offer_text(o: SubscriptionOffer) -> Seq<char> {
    object_text(offer_members(o))
}

/// The members of a product's record; absent optional fields are left out.
pub open spec fn product_members(p: Product) -> Seq<Member> {
    seq![
        ("productId"@, json_string_text(p.product_id@)),
        ("title"@, json_string_text(p.title@)),
        ("description"@, json_string_text(p.description@)),
        ("productType"@, json_string_text(p.product_type@)),
    ] + optional_member(
        "formattedPrice"@,
        match p.formatted_price {
            Some(t) => Some(json_string_text(t@)),
            None => None,
        },
    ) + optional_member(
        "priceCurrencyCode"@,
        match p.price_currency_code {
            Some(t) => Some(json_string_text(t@)),
            None => None,
        },
    ) + optional_member(
        "priceAmountMicros"@,
        match p.price_amount_micros {
            Some(m) => Some(decimal(m as int)),
            None => None,
        },
    ) + optional_member(
        "subscriptionOfferDetails"@,
        match p.subscription_offer_details {
            Some(offers) => Some(array_text(offers@.map_values(|o: SubscriptionOffer| offer_text(o)))),
            None => None,
        },
    )
}

pub open spec fn product_text(p: Product) -> Seq<char> {
    object_text(product_members(p))
}

impl PricingPhase {
    /// The phase's JSON record.
    pub fn to_json(&self) -> (r: String)
        ensures
            r@ == phase_text(*self),
    {
        let mut w = ObjectWriter::new();
        w.member("formattedPrice", json_string(self.formatted_price.as_str()).as_str());
        w.member("priceCurrencyCode", json_string(self.price_currency_code.as_str()).as_str());
        w.member("priceAmountMicros", decimal_text(self.price_amount_micros).as_str());
        w.member("billingPeriod", json_string(self.billing_period.as_str()).as_str());
        w.member("billingCycleCount", decimal_text(self.billing_cycle_count as i64).as_str());
        w.member("recurrenceMode", decimal_text(self.recurrence_mode as i64).as_str());
        assert(w.members@ =~= phase_members(*self));
        w.finish()
    }
}

impl SubscriptionOffer {
    /// The offer's JSON record.
    pub fn to_json(&self) -> (r: String)
        ensures
            r@ == offer_text(*self),
    {
        let mut w = ObjectWriter::new();
        w.member("offerToken", json_string(self.offer_token.as_str()).as_str());
        w.member("basePlanId", json_string(self.base_plan_id.as_str()).as_str());
        w.optional(
            "offerId",
            match &self.offer_id {
                Some(id) => Some(json_string(id.as_str())),
                None => None,
            },
        );
        let mut a = ArrayWriter::new();
        let phases = &self.pricing_phases;
        let mut i: usize = 0;
        assert(phases@.subrange(0, 0).map_values(|ph: PricingPhase| phase_text(ph)) =~= Seq::<
            Seq<char>,
        >::empty());
        while i < phases.len()
            invariant
                a.inv(),
                i <= phases@.len(),
                a.items@ == phases@.subrange(0, i as int).map_values(
                    |ph: PricingPhase| phase_text(ph),
                ),
            decreases phases@.len() - i,
        {
            a.item(phases[i].to_json().as_str());
            assert(phases@.subrange(0, i + 1).map_values(|ph: PricingPhase| phase_text(ph))
                =~= phases@.subrange(0, i as int).map_values(|ph: PricingPhase| phase_text(ph)).push(
                phase_text(phases@[i as int]),
            ));
            i = i + 1;
        }
        assert(phases@.subrange(0, phases@.len() as int) =~= phases@);
        let ghost before_phases = w.members@;
        w.member("pricingPhases", a.finish().as_str());
        assert(w.members@ =~= before_phases + seq![("pricingPhases"@, array_text(
            phases@.map_values(|ph: PricingPhase| phase_text(ph)),
        ))]);
        assert(w.members@ =~= offer_members(*self));
        w.finish()
    }
}

impl Product {
    /// The product's JSON record; absent optional fields are left out.
    pub fn to_json(&self) -> (r: String)
        ensures
            r@ == product_text(*self),
    {
        let mut w = ObjectWriter::new();
        w.member("productId", json_string(self.product_id.as_str()).as_str());
        w.member("title", json_string(self.title.as_str()).as_str());
        w.member("description", json_string(self.description.as_str()).as_str());
        w.member("productType", json_string(self.product_type.as_str()).as_str());
        let ghost required = w.members@;
        match &self.formatted_price {
            Some(t) => w.member("formattedPrice", json_string(t.as_str()).as_str()),
            None => {},
        }
        let ghost after_price = w.members@;
        match &self.price_currency_code {
            Some(t) => w.member("priceCurrencyCode", json_string(t.as_str()).as_str()),
            None => {},
        }
        let ghost after_currency = w.members@;
        match self.price_amount_micros {
            Some(m) => w.member("priceAmountMicros", decimal_text(m).as_str()),
            None => {},
        }
        let ghost after_micros = w.members@;
        match &self.subscription_offer_details {
            Some(offers) => {
                let mut a = ArrayWriter::new();
                let mut i: usize = 0;
                assert(offers@.subrange(0, 0).map_values(|o: SubscriptionOffer| offer_text(o))
                    =~= Seq::<Seq<char>>::empty());
                while i < offers.len()
                    invariant
                        a.inv(),
                        i <= offers@.len(),
                        a.items@ == offers@.subrange(0, i as int).map_values(
                            |o: SubscriptionOffer| offer_text(o),
                        ),
                    decreases offers@.len() - i,
                {
                    a.item(offers[i].to_json().as_str());
                    assert(offers@.subrange(0, i + 1).map_values(
                        |o: SubscriptionOffer| offer_text(o),
                    ) =~= offers@.subrange(0, i as int).map_values(
                        |o: SubscriptionOffer| offer_text(o),
                    ).push(offer_text(offers@[i as int])));
                    i = i + 1;
                }
                assert(offers@.subrange(0, offers@.len() as int) =~= offers@);
                w.member("subscriptionOfferDetails", a.finish().as_str());
            },
            None => {},
        }
        assert(w.members@ =~= product_members(*self));
        w.finish()
    }
}

/// With every optional field absent, a product's record holds just its
/// four required keys; each optional field that is present stands under its
/// camelCase key with its value's own text, and each absent one has no key.
pub proof fn lemma_product_optional_fields(p: Product)
    ensures
        p.formatted_price is None && p.price_currency_code is None && p.price_amount_micros is None
            && p.subscription_offer_details is None ==> product_members(p).map_values(
            |m: Member| m.0,
        ) == seq!["productId"@, "title"@, "description"@, "productType"@],
        p.formatted_price matches Some(t) ==> product_members(p).contains(
            ("formattedPrice"@, json_string_text(t@)),
        ),
        p.price_currency_code matches Some(t) ==> product_members(p).contains(
            ("priceCurrencyCode"@, json_string_text(t@)),
        ),
        p.price_amount_micros matches Some(m) ==> product_members(p).contains(
            ("priceAmountMicros"@, decimal(m as int)),
        ),
        p.formatted_price is None ==> !product_members(p).map_values(|m: Member| m.0).contains(
            "formattedPrice"@,
        ),
        p.price_currency_code is None ==> !product_members(p).map_values(|m: Member| m.0).contains(
            "priceCurrencyCode"@,
        ),
        p.price_amount_micros is None ==> !product_members(p).map_values(|m: Member| m.0).contains(
            "priceAmountMicros"@,
        ),
        p.subscription_offer_details is None ==> !product_members(p).map_values(
            |m: Member| m.0,
        ).contains("subscriptionOfferDetails"@),
        p.subscription_offer_details matches Some(offers) ==> product_members(p).contains(
            (
                "subscriptionOfferDetails"@,
                array_text(offers@.map_values(|o: SubscriptionOffer| offer_text(o))),
            ),
        ),
        product_members(p).subrange(0, 4) == seq![
            ("productId"@, json_string_text(p.product_id@)),
            ("title"@, json_string_text(p.title@)),
            ("description"@, json_string_text(p.description@)),
            ("productType"@, json_string_text(p.product_type@)),
        ],
{
    reveal_strlit("productId");
    reveal_strlit("title");
    reveal_strlit("description");
    reveal_strlit("productType");
    reveal_strlit("formattedPrice");
    reveal_strlit("priceCurrencyCode");
    reveal_strlit("priceAmountMicros");
    reveal_strlit("subscriptionOfferDetails");
    let ms = product_members(p);
    let keys = ms.map_values(|m: Member| m.0);
    let a = optional_member(
        "formattedPrice"@,
        match p.formatted_price {
            Some(t) => Some(json_string_text(t@)),
            None => None,
        },
    );
    let b = optional_member(
        "priceCurrencyCode"@,
        match p.price_currency_code {
            Some(t) => Some(json_string_text(t@)),
            None => None,
        },
    );
    let c = optional_member(
        "priceAmountMicros"@,
        match p.price_amount_micros {
            Some(m) => Some(decimal(m as int)),
            None => None,
        },
    );
    let d = optional_member(
        "subscriptionOfferDetails"@,
        match p.subscription_offer_details {
            Some(offers) => Some(array_text(offers@.map_values(|o: SubscriptionOffer| offer_text(o)))),
            None => None,
        },
    );
    assert("priceAmountMicros"@[5] != "priceCurrencyCode"@[5]);
    let req = seq![
        ("productId"@, json_string_text(p.product_id@)),
        ("title"@, json_string_text(p.title@)),
        ("description"@, json_string_text(p.description@)),
        ("productType"@, json_string_text(p.product_type@)),
    ];
    if p.formatted_price is Some {
        assert(ms[4] == a[0]);
    }
    if p.price_currency_code is Some {
        assert(ms[4 + a.len() as int] == b[0]);
    }
    if p.price_amount_micros is Some {
        assert(ms[4 + a.len() + b.len() as int] == c[0]);
    }
    if p.subscription_offer_details is Some {
        assert(ms[4 + a.len() + b.len() + c.len() as int] == d[0]);
    }
    assert(ms.subrange(0, 4) =~= req);
    if p.formatted_price is None && p.price_currency_code is None && p.price_amount_micros is None
        && p.subscription_offer_details is None {
        assert(keys =~= seq!["productId"@, "title"@, "description"@, "productType"@]);
    }
    assert forall|i: int| 0 <= i < keys.len() implies {
        &&& (p.formatted_price is None ==> keys[i] != "formattedPrice"@)
        &&& (p.price_currency_code is None ==> keys[i] != "priceCurrencyCode"@)
        &&& (p.price_amount_micros is None ==> keys[i] != "priceAmountMicros"@)
        &&& (p.subscription_offer_details is None ==> keys[i] != "subscriptionOfferDetails"@)
    } by {
        assert(keys[i] == ms[i].0);
        if i < 4 {
            assert(ms[i] == req[i]);
        } else if i < 4 + a.len() {
            assert(ms[i] == a[i - 4]);
        } else if i < 4 + a.len() + b.len() {
            assert(ms[i] == b[i - 4 - a.len()]);
        } else if i < 4 + a.len() + b.len() + c.len() {
            assert(ms[i] == c[i - 4 - a.len() - b.len()]);
        } else {
            assert(ms[i] == d[i - 4 - a.len() - b.len() - c.len()]);
        }
    }
}

/// The members of a purchase's record.
pub open spec fn purchase_members(p: Purchase) -> Seq<Member> {
    optional_member(
        "orderId"@,
        match p.order_id {
            Some(t) => Some(json_string_text(t@)),
            None => None,
        },
    ) + seq![
        ("packageName"@, json_string_text(p.package_name@)),
        ("productId"@, json_string_text(p.product_id@)),
        ("purchaseTime"@, decimal(p.purchase_time as int)),
        ("purchaseToken"@, json_string_text(p.purchase_token@)),
        ("purchaseState"@, decimal(state_code(p.purchase_state))),
        ("isAutoRenewing"@, bool_json(p.is_auto_renewing)),
        ("isAcknowledged"@, bool_json(p.is_acknowledged)),
        ("originalJson"@, json_string_text(p.original_json@)),
        ("signature"@, json_string_text(p.signature@)),
    ] + optional_member(
        "originalId"@,
        match p.original_id {
            Some(t) => Some(json_string_text(t@)),
            None => None,
        },
    ) + optional_member(
        "jwsRepresentation"@,
        match p.jws_representation {
            Some(t) => Some(json_string_text(t@)),
            None => None,
        },
    )
}

pub open spec fn purchase_text(p: Purchase) -> Seq<char> {
    object_text(purchase_members(p))
}

/// A purchase's record leaves out each of its optional fields that is
/// absent (no key, never `null`), and holds each present one under its
/// camelCase key with its value's own text.
pub proof fn lemma_purchase_optional_fields(p: Purchase)
    ensures
        p.order_id is None ==> !purchase_members(p).map_values(|m: Member| m.0).contains(
            "orderId"@,
        ),
        p.original_id is None ==> !purchase_members(p).map_values(|m: Member| m.0).contains(
            "originalId"@,
        ),
        p.jws_representation is None ==> !purchase_members(p).map_values(|m: Member| m.0).contains(
            "jwsRepresentation"@,
        ),
        p.order_id matches Some(t) ==> purchase_members(p).contains(
            ("orderId"@, json_string_text(t@)),
        ),
        p.original_id matches Some(t) ==> purchase_members(p).contains(
            ("originalId"@, json_string_text(t@)),
        ),
        p.jws_representation matches Some(t) ==> purchase_members(p).contains(
            ("jwsRepresentation"@, json_string_text(t@)),
        ),
{
    reveal_strlit("orderId");
    reveal_strlit("originalId");
    reveal_strlit("jwsRepresentation");
    reveal_strlit("packageName");
    reveal_strlit("productId");
    reveal_strlit("purchaseTime");
    reveal_strlit("purchaseToken");
    reveal_strlit("purchaseState");
    reveal_strlit("isAutoRenewing");
    reveal_strlit("isAcknowledged");
    reveal_strlit("originalJson");
    reveal_strlit("signature");
    let ms = purchase_members(p);
    let keys = ms.map_values(|m: Member| m.0);
    let a = optional_member(
        "orderId"@,
        match p.order_id {
            Some(t) => Some(json_string_text(t@)),
            None => None,
        },
    );
    let req = seq![
        ("packageName"@, json_string_text(p.package_name@)),
        ("productId"@, json_string_text(p.product_id@)),
        ("purchaseTime"@, decimal(p.purchase_time as int)),
        ("purchaseToken"@, json_string_text(p.purchase_token@)),
        ("purchaseState"@, decimal(state_code(p.purchase_state))),
        ("isAutoRenewing"@, bool_json(p.is_auto_renewing)),
        ("isAcknowledged"@, bool_json(p.is_acknowledged)),
        ("originalJson"@, json_string_text(p.original_json@)),
        ("signature"@, json_string_text(p.signature@)),
    ];
    let b = optional_member(
        "originalId"@,
        match p.original_id {
            Some(t) => Some(json_string_text(t@)),
            None => None,
        },
    );
    let c = optional_member(
        "jwsRepresentation"@,
        match p.jws_representation {
            Some(t) => Some(json_string_text(t@)),
            None => None,
        },
    );
    assert(ms =~= a + req + b + c);
    if p.order_id is Some {
        assert(ms[0] == a[0]);
    }
    if p.original_id is Some {
        assert(ms[a.len() + 9 as int] == b[0]);
    }
    if p.jws_representation is Some {
        assert(ms[a.len() + 9 + b.len() as int] == c[0]);
    }
    assert forall|i: int| 0 <= i < keys.len() implies {
        &&& (p.order_id is None ==> keys[i] != "orderId"@)
        &&& (p.original_id is None ==> keys[i] != "originalId"@)
        &&& (p.jws_representation is None ==> keys[i] != "jwsRepresentation"@)
    } by {
        assert(keys[i] == ms[i].0);
        if i < a.len() {
            assert(ms[i] == a[i]);
        } else if i < a.len() + 9 {
            assert(ms[i] == req[i - a.len()]);
        } else if i < a.len() + 9 + b.len() {
            assert(ms[i] == b[i - a.len() - 9]);
        } else {
            assert(ms[i] == c[i - a.len() - 9 - b.len()]);
        }
    }
}

/// The members of an entitlement snapshot's record; absent optional fields
/// are left out.
pub open spec fn status_members(st: ProductStatus) -> Seq<Member> {
    seq![("productId"@, json_string_text(st.product_id@)), ("isOwned"@, bool_json(st.is_owned))]
        + optional_member(
        "purchaseState"@,
        match st.purchase_state {
            Some(s) => Some(decimal(state_code(s))),
            None => None,
        },
    ) + optional_member(
        "purchaseTime"@,
        match st.purchase_time {
            Some(t) => Some(decimal(t as int)),
            None => None,
        },
    ) + optional_member(
        "expirationTime"@,
        match st.expiration_time {
            Some(t) => Some(decimal(t as int)),
            None => None,
        },
    ) + optional_member(
        "isAutoRenewing"@,
        match st.is_auto_renewing {
            Some(b) => Some(bool_json(b)),
            None => None,
        },
    ) + optional_member(
        "isAcknowledged"@,
        match st.is_acknowledged {
            Some(b) => Some(bool_json(b)),
            None => None,
        },
    ) + optional_member(
        "purchaseToken"@,
        match st.purchase_token {
            Some(t) => Some(json_string_text(t@)),
            None => None,
        },
    )
}

/// The members of a history record.
pub open spec fn history_members(h: PurchaseHistoryRecord) -> Seq<Member> {
    seq![
        ("productId"@, json_string_text(h.product_id@)),
        ("purchaseTime"@, decimal(h.purchase_time as int)),
        ("purchaseToken"@, json_string_text(h.purchase_token@)),
        ("quantity"@, decimal(h.quantity as int)),
        ("originalJson"@, json_string_text(h.original_json@)),
        ("signature"@, json_string_text(h.signature@)),
    ]
}

pub open spec fn history_text(h: PurchaseHistoryRecord) -> Seq<char> {
    object_text(history_members(h))
}

fn bool_text_of(b: bool) -> (r: &'static str)
    ensures
        r@ == bool_json(b),
{
    if b {
        "true"
    } else {
        "false"
    }
}

impl Purchase {
    /// The purchase's JSON record.
    pub fn to_json(&self) -> (r: String)
        ensures
            r@ == purchase_text(*self),
    {
        let mut w = ObjectWriter::new();
        w.optional(
            "orderId",
            match &self.order_id {
                Some(t) => Some(json_string(t.as_str())),
                None => None,
            },
        );
        let ghost head = w.members@;
        w.member("packageName", json_string(self.package_name.as_str()).as_str());
        w.member("productId", json_string(self.product_id.as_str()).as_str());
        w.member("purchaseTime", decimal_text(self.purchase_time).as_str());
        w.member("purchaseToken", json_string(self.purchase_token.as_str()).as_str());
        w.member("purchaseState", decimal_text(self.purchase_state.serialize() as i64).as_str());
        w.member("isAutoRenewing", bool_text_of(self.is_auto_renewing));
        w.member("isAcknowledged", bool_text_of(self.is_acknowledged));
        w.member("originalJson", json_string(self.original_json.as_str()).as_str());
        w.member("signature", json_string(self.signature.as_str()).as_str());
        assert(w.members@ =~= head + seq![
            ("packageName"@, json_string_text(self.package_name@)),
            ("productId"@, json_string_text(self.product_id@)),
            ("purchaseTime"@, decimal(self.purchase_time as int)),
            ("purchaseToken"@, json_string_text(self.purchase_token@)),
            ("purchaseState"@, decimal(state_code(self.purchase_state))),
            ("isAutoRenewing"@, bool_json(self.is_auto_renewing)),
            ("isAcknowledged"@, bool_json(self.is_acknowledged)),
            ("originalJson"@, json_string_text(self.original_json@)),
            ("signature"@, json_string_text(self.signature@)),
        ]);
        w.optional(
            "originalId",
            match &self.original_id {
                Some(t) => Some(json_string(t.as_str())),
                None => None,
            },
        );
        w.optional(
            "jwsRepresentation",
            match &self.jws_representation {
                Some(t) => Some(json_string(t.as_str())),
                None => None,
            },
        );
        w.finish()
    }
}

impl ProductStatus {
    /// The snapshot's JSON record; absent optional fields are left out.
    pub fn to_json(&self) -> (r: String)
        ensures
            r@ == object_text(status_members(*self)),
    {
        let mut w = ObjectWriter::new();
        w.member("productId", json_string(self.product_id.as_str()).as_str());
        w.member("isOwned", bool_text_of(self.is_owned));
        assert(w.members@ =~= seq![
            ("productId"@, json_string_text(self.product_id@)),
            ("isOwned"@, bool_json(self.is_owned)),
        ]);
        w.optional(
            "purchaseState",
            match self.purchase_state {
                Some(st) => Some(decimal_text(st.serialize() as i64)),
                None => None,
            },
        );
        w.optional(
            "purchaseTime",
            match self.purchase_time {
                Some(t) => Some(decimal_text(t)),
                None => None,
            },
        );
        w.optional(
            "expirationTime",
            match self.expiration_time {
                Some(t) => Some(decimal_text(t)),
                None => None,
            },
        );
        w.optional(
            "isAutoRenewing",
            match self.is_auto_renewing {
                Some(b) => Some(String::from_str(bool_text_of(b))),
                None => None,
            },
        );
        w.optional(
            "isAcknowledged",
            match self.is_acknowledged {
                Some(b) => Some(String::from_str(bool_text_of(b))),
                None => None,
            },
        );
        w.optional(
            "purchaseToken",
            match &self.purchase_token {
                Some(t) => Some(json_string(t.as_str())),
                None => None,
            },
        );
        w.finish()
    }
}

impl PurchaseHistoryRecord {
    /// The record's JSON form.
    pub fn to_json(&self) -> (r: String)
        ensures
            r@ == history_text(*self),
    {
        let mut w = ObjectWriter::new();
        w.member("productId", json_string(self.product_id.as_str()).as_str());
        w.member("purchaseTime", decimal_text(self.purchase_time).as_str());
        w.member("purchaseToken", json_string(self.purchase_token.as_str()).as_str());
        w.member("quantity", decimal_text(self.quantity as i64).as_str());
        w.member("originalJson", json_string(self.original_json.as_str()).as_str());
        w.member("signature", json_string(self.signature.as_str()).as_str());
        assert(w.members@ =~= history_members(*self));
        w.finish()
    }
}

impl InitializeResponse {
    /// The reply's JSON record.
    pub fn to_json(&self) -> (r: String)
        ensures
            r@ == object_text(seq![("success"@, bool_json(self.success))]),
    {
        let mut w = ObjectWriter::new();
        w.member("success", bool_text_of(self.success));
        assert(w.members@ =~= seq![("success"@, bool_json(self.success))]);
        w.finish()
    }
}

impl AcknowledgePurchaseResponse {
    /// The reply's JSON record.
    pub fn to_json(&self) -> (r: String)
        ensures
            r@ == object_text(seq![("success"@, bool_json(self.success))]),
    {
        let mut w = ObjectWriter::new();
        w.member("success", bool_text_of(self.success));
        assert(w.members@ =~= seq![("success"@, bool_json(self.success))]);
        w.finish()
    }
}

impl ConsumePurchaseResponse {
    /// The reply's JSON record.
    pub fn to_json(&self) -> (r: String)
        ensures
            r@ == object_text(seq![("success"@, bool_json(self.success))]),
    {
        let mut w = ObjectWriter::new();
        w.member("success", bool_text_of(self.success));
        assert(w.members@ =~= seq![("success"@, bool_json(self.success))]);
        w.finish()
    }
}

impl AcknowledgePurchaseRequest {
    /// The request's JSON record.
    pub fn to_json(&self) -> (r: String)
        ensures
            r@ == object_text(seq![("purchaseToken"@, json_string_text(self.purchase_token@))]),
    {
        let mut w = ObjectWriter::new();
        w.member("purchaseToken", json_string(self.purchase_token.as_str()).as_str());
        assert(w.members@ =~= seq![("purchaseToken"@, json_string_text(self.purchase_token@))]);
        w.finish()
    }
}

impl ConsumePurchaseRequest {
    /// The request's JSON record.
    pub fn to_json(&self) -> (r: String)
        ensures
            r@ == object_text(seq![("purchaseToken"@, json_string_text(self.purchase_token@))]),
    {
        let mut w = ObjectWriter::new();
        w.member("purchaseToken", json_string(self.purchase_token.as_str()).as_str());
        assert(w.members@ =~= seq![("purchaseToken"@, json_string_text(self.purchase_token@))]);
        w.finish()
    }
}

impl GetProductsResponse {
    /// The reply's JSON record.
    pub fn to_json(&self) -> (r: String)
        ensures
            r@ == object_text(
                seq![("products"@, array_text(self.products@.map_values(|p: Product| product_text(p))))],
            ),
    {
        let mut a = ArrayWriter::new();
        let products = &self.products;
        let mut i: usize = 0;
        assert(products@.subrange(0, 0).map_values(|p: Product| product_text(p)) =~= Seq::<
            Seq<char>,
        >::empty());
        while i < products.len()
            invariant
                a.inv(),
                i <= products@.len(),
                a.items@ == products@.subrange(0, i as int).map_values(|p: Product| product_text(p)),
            decreases products@.len() - i,
        {
            a.item(products[i].to_json().as_str());
            assert(products@.subrange(0, i + 1).map_values(|p: Product| product_text(p))
                =~= products@.subrange(0, i as int).map_values(|p: Product| product_text(p)).push(
                product_text(products@[i as int]),
            ));
            i = i + 1;
        }
        assert(products@.subrange(0, products@.len() as int) =~= products@);
        let mut w = ObjectWriter::new();
        w.member("products", a.finish().as_str());
        w.finish()
    }
}

impl RestorePurchasesResponse {
    /// The reply's JSON record.
    pub fn to_json(&self) -> (r: String)
        ensures
            r@ == object_text(
                seq![("purchases"@, array_text(self.purchases@.map_values(|p: Purchase| purchase_text(p))))],
            ),
    {
        let mut a = ArrayWriter::new();
        let purchases = &self.purchases;
        let mut i: usize = 0;
        assert(purchases@.subrange(0, 0).map_values(|p: Purchase| purchase_text(p)) =~= Seq::<
            Seq<char>,
        >::empty());
        while i < purchases.len()
            invariant
                a.inv(),
                i <= purchases@.len(),
                a.items@ == purchases@.subrange(0, i as int).map_values(
                    |p: Purchase| purchase_text(p),
                ),
            decreases purchases@.len() - i,
        {
            a.item(purchases[i].to_json().as_str());
            assert(purchases@.subrange(0, i + 1).map_values(|p: Purchase| purchase_text(p))
                =~= purchases@.subrange(0, i as int).map_values(|p: Purchase| purchase_text(p)).push(
                purchase_text(purchases@[i as int]),
            ));
            i = i + 1;
        }
        assert(purchases@.subrange(0, purchases@.len() as int) =~= purchases@);
        let mut w = ObjectWriter::new();
        w.member("purchases", a.finish().as_str());
        w.finish()
    }
}

impl GetPurchaseHistoryResponse {
    /// The reply's JSON record.
    pub fn to_json(&self) -> (r: String)
        ensures
            r@ == object_text(
                seq![("history"@, array_text(self.history@.map_values(|h: PurchaseHistoryRecord| history_text(h))))],
            ),
    {
        let mut a = ArrayWriter::new();
        let history = &self.history;
        let mut i: usize = 0;
        assert(history@.subrange(0, 0).map_values(|h: PurchaseHistoryRecord| history_text(h))
            =~= Seq::<Seq<char>>::empty());
        while i < history.len()
            invariant
                a.inv(),
                i <= history@.len(),
                a.items@ == history@.subrange(0, i as int).map_values(
                    |h: PurchaseHistoryRecord| history_text(h),
                ),
            decreases history@.len() - i,
        {
            a.item(history[i].to_json().as_str());
            assert(history@.subrange(0, i + 1).map_values(
                |h: PurchaseHistoryRecord| history_text(h),
            ) =~= history@.subrange(0, i as int).map_values(
                |h: PurchaseHistoryRecord| history_text(h),
            ).push(history_text(history@[i as int])));
            i = i + 1;
        }
        assert(history@.subrange(0, history@.len() as int) =~= history@);
        let mut w = ObjectWriter::new();
        w.member("history", a.finish().as_str());
        w.finish()
    }
}

} // verus!
