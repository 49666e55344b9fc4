//! The receipt: the neutral document that a billing event is turned into, and
//! its JSON form. The parts of the schema that hold fractional numbers (the
//! place of sale, tax rates, the rate of an adjustment) are written as empty.

use vstd::prelude::*;
use crate::document::{
    Document, JsonValue, fields_view, items_view, lemma_items_view, push_field,
};

verus! {

/// A link offered to the customer at the foot of the receipt.
#[derive(Debug)]
pub struct Action {
    pub name: String,
    pub url: String,
}

/// ISO 4217 currency code.
#[derive(Debug, Clone, Copy, PartialEq, Eq, Structural)]
pub enum Currency {
    Aud,
    Cad,
    Chf,
    Cnh,
    Eur,
    Gbp,
    Jpy,
    Usd,
}

/// How a third party stands to the merchant.
#[derive(Debug, Clone, Copy, PartialEq, Eq, Structural)]
pub enum FirstPartyRelation {
    Bnpl,
    DeliveryService,
    Marketplace,
    PaymentProcessor,
    Platform,
    PointOfSale,
}

/// Whether a discount is an amount or a share.
#[derive(Debug, Clone, Copy, PartialEq, Eq, Structural)]
pub enum DiscountType {
    Fixed,
    Percentage,
}

/// The period after which a subscription renews.
#[derive(Debug, Clone, Copy, PartialEq, Eq, Structural)]
pub enum Interval {
    Day,
    Month,
    Week,
    Year,
}

/// The catalogue that a metadatum refers to.
#[derive(Debug, Clone, Copy, PartialEq, Eq, Structural)]
pub enum MetadatumType {
    Asin,
    Other,
    Sku,
    Unspsc,
}

/// A named value attached to a customer or an item.
#[derive(Debug)]
pub struct MetadatumElement {
    pub name: String,
    pub receip_type: MetadatumType,
    pub value: String,
}

/// Whether a subscription item is billed once or recurs.
#[derive(Debug, Clone, Copy, PartialEq, Eq, Structural)]
pub enum SubscriptionItemType {
    OneTime,
    Recurring,
}

/// How a payment was made.
#[derive(Debug, Clone, Copy, PartialEq, Eq, Structural)]
pub enum PaymentType {
    Ach,
    Card,
}

/// What changes the price of an item.
#[derive(Debug, Clone, Copy, PartialEq, Eq, Structural)]
pub enum AdjustmentType {
    Discount,
}

/// A change to the price of an item.
#[derive(Debug)]
pub struct Adjustment {
    pub amount: i64,
    pub name: Option<String>,
    pub adjustment_type: AdjustmentType,
}

/// Who bought.
#[derive(Debug)]
pub struct Customer {
    pub email: Option<String>,
    pub name: String,
    pub phone: Option<String>,
    pub metadata: Vec<MetadatumElement>,
}

/// A merchant as a receipt shows it.
#[derive(Debug)]
pub struct Merchant {
    /// Hex color
    pub brand_color: String,
    pub logo: Option<String>,
    pub name: String,
    pub website: Option<String>,
}

/// A party between the merchant and the customer.
#[derive(Debug)]
pub struct ThirdParty {
    pub first_party_relation: FirstPartyRelation,
    /// Determines whether the merchant or third party gets top billing on the receipt
    pub make_primary: bool,
    pub merchant: Merchant,
}

/// A payment made on the receipt.
#[derive(Debug)]
pub struct Payment {
    pub paid_at: i64,
    pub payment_type: PaymentType,
}

/// What the receipt says at its head.
#[derive(Debug)]
pub struct Header {
    pub total: i64,
    pub currency: Currency,
    pub customer: Option<Customer>,
    pub mcc: Option<String>,
    pub invoice_number: Option<String>,
    pub subtotal: i64,
    pub third_party: Option<ThirdParty>,
    pub invoiced_at: i64,
    pub paid: i64,
    pub invoice_asset_id: Option<String>,
    pub receipt_asset_id: Option<String>,
}

/// One line of a subscription. The quantity and the cost of a unit are whole
/// numbers.
#[derive(Debug)]
pub struct SubscriptionItem {
    pub current_period_end: Option<i64>,
    pub current_period_start: Option<i64>,
    pub description: String,
    pub adjustments: Vec<Adjustment>,
    pub interval: Option<Interval>,
    pub interval_count: Option<i64>,
    pub metadata: Vec<MetadatumElement>,
    pub quantity: Option<u64>,
    pub subscription_type: SubscriptionItemType,
    pub unit_cost: Option<i64>,
    pub amount: i64,
}

/// The items of a subscription.
#[derive(Debug)]
pub struct Subscription {
    pub subscription_items: Vec<SubscriptionItem>,
    pub invoice_level_adjustments: Vec<Adjustment>,
}

/// What was bought, by kind of purchase.
#[derive(Debug)]
pub struct Itemization {
    pub subscription: Option<Subscription>,
}

/// What the receipt says at its foot.
#[derive(Debug)]
pub struct Footer {
    pub actions: Vec<Action>,
    pub supplemental_text: Option<String>,
}

/// An itemized receipt.
#[derive(Debug)]
pub struct Receipt {
    pub schema_version: String,
    pub footer: Footer,
    pub header: Header,
    pub itemization: Itemization,
    pub payments: Vec<Payment>,
}

/// An optional string as JSON: the string, or `null`.
pub open spec fn text_or_null(value: Option<String>) -> JsonValue {
    match value {
        Some(s) => JsonValue::Text(s@),
        None => JsonValue::Null,
    }
}

/// An optional integer as JSON: the number, or `null`.
pub open spec fn int_or_null(value: Option<i64>) -> JsonValue {
    match value {
        Some(n) => JsonValue::Number(n as int),
        None => JsonValue::Null,
    }
}

/// The JSON of each adjustment, in order.
pub open spec fn adjustments_json(list: Seq<Adjustment>) -> JsonValue {
    JsonValue::Array(Seq::new(list.len(), |i: int| list[i].json()))
}

/// The JSON of each subscription item, in order.
pub open spec fn items_json(list: Seq<SubscriptionItem>) -> JsonValue {
    JsonValue::Array(Seq::new(list.len(), |i: int| list[i].json()))
}

/// The JSON of each metadatum, in order.
pub open spec fn metadata_json(list: Seq<MetadatumElement>) -> JsonValue {
    JsonValue::Array(Seq::new(list.len(), |i: int| list[i].json()))
}

/// The JSON of each payment, in order.
pub open spec fn payments_json(list: Seq<Payment>) -> JsonValue {
    JsonValue::Array(Seq::new(list.len(), |i: int| list[i].json()))
}

/// The JSON of each action, in order.
pub open spec fn actions_json(list: Seq<Action>) -> JsonValue {
    JsonValue::Array(Seq::new(list.len(), |i: int| list[i].json()))
}

/// The empty JSON array.
pub open spec fn empty_array() -> JsonValue {
    JsonValue::Array(Seq::empty())
}

/// The object without fields.
pub open spec fn no_fields() -> Map<Seq<char>, JsonValue> {
    Map::empty()
}

fn text_document(value: &Option<String>) -> (doc: Document)
    ensures
        doc@ == text_or_null(*value),
{
    match value {
        Some(s) => Document::Text(s.clone()),
        None => Document::Null,
    }
}

fn int_document(value: &Option<i64>) -> (doc: Document)
    ensures
        doc@ == int_or_null(*value),
{
    match value {
        Some(n) => Document::Int(*n),
        None => Document::Null,
    }
}

fn empty_list() -> (doc: Document)
    ensures
        doc@ == empty_array(),
{
    let items: Vec<Document> = Vec::new();
    assert(items_view(items@) == Seq::<JsonValue>::empty());
    Document::Array(items)
}

fn new_fields() -> (fields: Vec<(String, Document)>)
    ensures
        fields_view(fields@) == no_fields(),
{
    let fields: Vec<(String, Document)> = Vec::new();
    assert(fields_view(fields@) == Map::<Seq<char>, JsonValue>::empty());
    fields
}

impl Currency {
    /// The code in lower case.
    pub open spec fn code(self) -> Seq<char> {
        match self {
            Currency::Aud => "aud"@,
            Currency::Cad => "cad"@,
            Currency::Chf => "chf"@,
            Currency::Cnh => "cnh"@,
            Currency::Eur => "eur"@,
            Currency::Gbp => "gbp"@,
            Currency::Jpy => "jpy"@,
            Currency::Usd => "usd"@,
        }
    }

    /// The code in lower case, as a receipt spells it.
    pub fn as_str(&self) -> (name: &'static str)
        ensures
            name@ == self.code(),
    {
        match self {
            Currency::Aud => "aud",
            Currency::Cad => "cad",
            Currency::Chf => "chf",
            Currency::Cnh => "cnh",
            Currency::Eur => "eur",
            Currency::Gbp => "gbp",
            Currency::Jpy => "jpy",
            Currency::Usd => "usd",
        }
    }
}

impl Interval {
    /// The name of the interval in lower case.
    pub open spec fn name(self) -> Seq<char> {
        match self {
            Interval::Day => "day"@,
            Interval::Month => "month"@,
            Interval::Week => "week"@,
            Interval::Year => "year"@,
        }
    }

    /// The name of the interval in lower case, as a receipt spells it.
    pub fn as_str(&self) -> (name: &'static str)
        ensures
            name@ == self.name(),
    {
        match self {
            Interval::Day => "day",
            Interval::Month => "month",
            Interval::Week => "week",
            Interval::Year => "year",
        }
    }
}

impl SubscriptionItemType {
    /// `one_time` or `recurring`.
    pub open spec fn name(self) -> Seq<char> {
        match self {
            SubscriptionItemType::OneTime => "one_time"@,
            SubscriptionItemType::Recurring => "recurring"@,
        }
    }

    /// `one_time` or `recurring`, as a receipt spells it.
    pub fn as_str(&self) -> (name: &'static str)
        ensures
            name@ == self.name(),
    {
        match self {
            SubscriptionItemType::OneTime => "one_time",
            SubscriptionItemType::Recurring => "recurring",
        }
    }
}

impl FirstPartyRelation {
    /// The name of the relation in lower case, its words joined by `_`.
    pub open spec fn name(self) -> Seq<char> {
        match self {
            FirstPartyRelation::Bnpl => "bnpl"@,
            FirstPartyRelation::DeliveryService => "delivery_service"@,
            FirstPartyRelation::Marketplace => "marketplace"@,
            FirstPartyRelation::PaymentProcessor => "payment_processor"@,
            FirstPartyRelation::Platform => "platform"@,
            FirstPartyRelation::PointOfSale => "point_of_sale"@,
        }
    }

    /// The name of the relation, as a receipt spells it.
    pub fn as_str(&self) -> (name: &'static str)
        ensures
            name@ == self.name(),
    {
        match self {
            FirstPartyRelation::Bnpl => "bnpl",
            FirstPartyRelation::DeliveryService => "delivery_service",
            FirstPartyRelation::Marketplace => "marketplace",
            FirstPartyRelation::PaymentProcessor => "payment_processor",
            FirstPartyRelation::Platform => "platform",
            FirstPartyRelation::PointOfSale => "point_of_sale",
        }
    }
}

impl DiscountType {
    /// `fixed` or `percentage`.
    pub open spec fn name(self) -> Seq<char> {
        match self {
            DiscountType::Fixed => "fixed"@,
            DiscountType::Percentage => "percentage"@,
        }
    }

    /// `fixed` or `percentage`, as a receipt spells it.
    pub fn as_str(&self) -> (name: &'static str)
        ensures
            name@ == self.name(),
    {
        match self {
            DiscountType::Fixed => "fixed",
            DiscountType::Percentage => "percentage",
        }
    }
}

impl MetadatumType {
    /// The name of the catalogue in lower case.
    pub open spec fn name(self) -> Seq<char> {
        match self {
            MetadatumType::Asin => "asin"@,
            MetadatumType::Other => "other"@,
            MetadatumType::Sku => "sku"@,
            MetadatumType::Unspsc => "unspsc"@,
        }
    }

    /// The name of the catalogue, as a receipt spells it.
    pub fn as_str(&self) -> (name: &'static str)
        ensures
            name@ == self.name(),
    {
        match self {
            MetadatumType::Asin => "asin",
            MetadatumType::Other => "other",
            MetadatumType::Sku => "sku",
            MetadatumType::Unspsc => "unspsc",
        }
    }
}

impl PaymentType {
    /// `ach` or `card`.
    pub open spec fn name(self) -> Seq<char> {
        match self {
            PaymentType::Ach => "ach"@,
            PaymentType::Card => "card"@,
        }
    }

    /// `ach` or `card`, as a receipt spells it.
    pub fn as_str(&self) -> (name: &'static str)
        ensures
            name@ == self.name(),
    {
        match self {
            PaymentType::Ach => "ach",
            PaymentType::Card => "card",
        }
    }
}

impl MetadatumElement {
    /// The metadatum as JSON.
    pub open spec fn json(self) -> JsonValue {
        JsonValue::Object(
            no_fields().insert("name"@, JsonValue::Text(self.name@)).insert(
                "type"@,
                JsonValue::Text(self.receip_type.name()),
            ).insert("value"@, JsonValue::Text(self.value@)),
        )
    }

    /// The metadatum as a JSON document.
    pub fn to_document(&self) -> (doc: Document)
        ensures
            doc@ == self.json(),
    {
        let mut fields = new_fields();
        push_field(&mut fields, "name", Document::Text(self.name.clone()));
        push_field(&mut fields, "type", Document::Text(self.receip_type.as_str().to_owned()));
        push_field(&mut fields, "value", Document::Text(self.value.clone()));
        Document::Object(fields)
    }
}

fn metadata_document(list: &Vec<MetadatumElement>) -> (doc: Document)
    ensures
        doc@ == metadata_json(list@),
{
    let mut items: Vec<Document> = Vec::new();
    let mut i: usize = 0;
    while i < list.len()
        invariant
            i <= list.len(),
            items@.len() == i,
            forall|k: int| 0 <= k < i ==> (#[trigger] items@[k])@ == list@[k].json(),
        decreases list.len() - i,
    {
        items.push(list[i].to_document());
        i = i + 1;
    }
    proof {
        lemma_items_view(items@);
        assert(items_view(items@) =~= Seq::new(list@.len(), |i: int| list@[i].json()));
    }
    Document::Array(items)
}

impl Merchant {
    /// The merchant as JSON. It has no identifier.
    pub open spec fn json(self) -> JsonValue {
        JsonValue::Object(
            no_fields().insert("brand_color"@, JsonValue::Text(self.brand_color@)).insert(
                "logo"@,
                text_or_null(self.logo),
            ).insert("name"@, JsonValue::Text(self.name@)).insert(
                "website"@,
                text_or_null(self.website),
            ).insert("id"@, JsonValue::Null),
        )
    }

    /// The merchant as a JSON document.
    pub fn to_document(&self) -> (doc: Document)
        ensures
            doc@ == self.json(),
    {
        let mut fields = new_fields();
        push_field(&mut fields, "brand_color", Document::Text(self.brand_color.clone()));
        push_field(&mut fields, "logo", text_document(&self.logo));
        push_field(&mut fields, "name", Document::Text(self.name.clone()));
        push_field(&mut fields, "website", text_document(&self.website));
        push_field(&mut fields, "id", Document::Null);
        Document::Object(fields)
    }
}

impl ThirdParty {
    /// The third party as JSON.
    pub open spec fn json(self) -> JsonValue {
        JsonValue::Object(
            no_fields().insert(
                "first_party_relation"@,
                JsonValue::Text(self.first_party_relation.name()),
            ).insert("make_primary"@, JsonValue::Bool(self.make_primary)).insert(
                "merchant"@,
                self.merchant.json(),
            ),
        )
    }

    /// The third party as a JSON document.
    pub fn to_document(&self) -> (doc: Document)
        ensures
            doc@ == self.json(),
    {
        let mut fields = new_fields();
        push_field(
            &mut fields,
            "first_party_relation",
            Document::Text(self.first_party_relation.as_str().to_owned()),
        );
        push_field(&mut fields, "make_primary", Document::Bool(self.make_primary));
        push_field(&mut fields, "merchant", self.merchant.to_document());
        Document::Object(fields)
    }
}

impl Payment {
    /// The payment as JSON. The details of the card or the transfer are `null`.
    pub open spec fn json(self) -> JsonValue {
        JsonValue::Object(
            no_fields().insert("paid_at"@, JsonValue::Number(self.paid_at as int)).insert(
                "type"@,
                JsonValue::Text(self.payment_type.name()),
            ).insert("card_payment"@, JsonValue::Null).insert("ach_payment"@, JsonValue::Null),
        )
    }

    /// The payment as a JSON document.
    pub fn to_document(&self) -> (doc: Document)
        ensures
            doc@ == self.json(),
    {
        let mut fields = new_fields();
        push_field(&mut fields, "paid_at", Document::Int(self.paid_at));
        push_field(&mut fields, "type", Document::Text(self.payment_type.as_str().to_owned()));
        push_field(&mut fields, "card_payment", Document::Null);
        push_field(&mut fields, "ach_payment", Document::Null);
        Document::Object(fields)
    }
}

impl AdjustmentType {
    /// `discount`.
    pub open spec fn name(self) -> Seq<char> {
        match self {
            AdjustmentType::Discount => "discount"@,
        }
    }

    /// `discount`, as a receipt spells it.
    pub fn as_str(&self) -> (name: &'static str)
        ensures
            name@ == self.name(),
    {
        match self {
            AdjustmentType::Discount => "discount",
        }
    }
}

impl Action {
    /// The action as JSON.
    pub open spec fn json(self) -> JsonValue {
        JsonValue::Object(
            no_fields().insert("name"@, JsonValue::Text(self.name@)).insert(
                "url"@,
                JsonValue::Text(self.url@),
            ),
        )
    }

    /// The action as a JSON document.
    pub fn to_document(&self) -> (doc: Document)
        ensures
            doc@ == self.json(),
    {
        let mut fields = new_fields();
        push_field(&mut fields, "name", Document::Text(self.name.clone()));
        push_field(&mut fields, "url", Document::Text(self.url.clone()));
        Document::Object(fields)
    }
}

impl Adjustment {
    /// The adjustment as JSON. It has no rate.
    pub open spec fn json(self) -> JsonValue {
        JsonValue::Object(
            no_fields().insert("amount"@, JsonValue::Number(self.amount as int)).insert(
                "name"@,
                text_or_null(self.name),
            ).insert("adjustment_type"@, JsonValue::Text(self.adjustment_type.name())).insert(
                "rate"@,
                JsonValue::Null,
            ),
        )
    }

    /// The adjustment as a JSON document.
    pub fn to_document(&self) -> (doc: Document)
        ensures
            doc@ == self.json(),
    {
        let mut fields = new_fields();
        push_field(&mut fields, "amount", Document::Int(self.amount));
        push_field(&mut fields, "name", text_document(&self.name));
        push_field(
            &mut fields,
            "adjustment_type",
            Document::Text(self.adjustment_type.as_str().to_owned()),
        );
        push_field(&mut fields, "rate", Document::Null);
        Document::Object(fields)
    }
}

fn adjustments_document(list: &Vec<Adjustment>) -> (doc: Document)
    ensures
        doc@ == adjustments_json(list@),
{
    let mut items: Vec<Document> = Vec::new();
    let mut i: usize = 0;
    while i < list.len()
        invariant
            i <= list.len(),
            items@.len() == i,
            forall|k: int| 0 <= k < i ==> (#[trigger] items@[k])@ == list@[k].json(),
        decreases list.len() - i,
    {
        items.push(list[i].to_document());
        i = i + 1;
    }
    proof {
        lemma_items_view(items@);
        assert(items_view(items@) =~= Seq::new(list@.len(), |i: int| list@[i].json()));
    }
    Document::Array(items)
}

impl Customer {
    /// The customer as JSON. There is no address.
    pub open spec fn json(self) -> JsonValue {
        JsonValue::Object(
            no_fields().insert("address"@, JsonValue::Null).insert(
                "email"@,
                text_or_null(self.email),
            ).insert("name"@, JsonValue::Text(self.name@)).insert(
                "phone"@,
                text_or_null(self.phone),
            ).insert("metadata"@, metadata_json(self.metadata@)),
        )
    }

    /// The customer as a JSON document.
    pub fn to_document(&self) -> (doc: Document)
        ensures
            doc@ == self.json(),
    {
        let mut fields = new_fields();
        push_field(&mut fields, "address", Document::Null);
        push_field(&mut fields, "email", text_document(&self.email));
        push_field(&mut fields, "name", Document::Text(self.name.clone()));
        push_field(&mut fields, "phone", text_document(&self.phone));
        push_field(&mut fields, "metadata", metadata_document(&self.metadata));
        Document::Object(fields)
    }
}

impl Header {
    /// The header as JSON. The place of sale is `null`.
    pub open spec fn json(self) -> JsonValue {
        JsonValue::Object(
            no_fields().insert("total"@, JsonValue::Number(self.total as int)).insert(
                "currency"@,
                JsonValue::Text(self.currency.code()),
            ).insert(
                "customer"@,
                match self.customer {
                    Some(customer) => customer.json(),
                    None => JsonValue::Null,
                },
            ).insert("location"@, JsonValue::Null).insert("mcc"@, text_or_null(self.mcc)).insert(
                "invoice_number"@,
                text_or_null(self.invoice_number),
            ).insert("subtotal"@, JsonValue::Number(self.subtotal as int)).insert(
                "third_party"@,
                match self.third_party {
                    Some(third_party) => third_party.json(),
                    None => JsonValue::Null,
                },
            ).insert("invoiced_at"@, JsonValue::Number(self.invoiced_at as int)).insert(
                "paid"@,
                JsonValue::Number(self.paid as int),
            ).insert("invoice_asset_id"@, text_or_null(self.invoice_asset_id)).insert(
                "receipt_asset_id"@,
                text_or_null(self.receipt_asset_id),
            ),
        )
    }

    /// The header as a JSON document.
    pub fn to_document(&self) -> (doc: Document)
        ensures
            doc@ == self.json(),
    {
        let mut fields = new_fields();
        push_field(&mut fields, "total", Document::Int(self.total));
        push_field(&mut fields, "currency", Document::Text(self.currency.as_str().to_owned()));
        let customer = match &self.customer {
            Some(customer) => customer.to_document(),
            None => Document::Null,
        };
        push_field(&mut fields, "customer", customer);
        push_field(&mut fields, "location", Document::Null);
        push_field(&mut fields, "mcc", text_document(&self.mcc));
        push_field(&mut fields, "invoice_number", text_document(&self.invoice_number));
        push_field(&mut fields, "subtotal", Document::Int(self.subtotal));
        let third_party = match &self.third_party {
            Some(third_party) => third_party.to_document(),
            None => Document::Null,
        };
        push_field(&mut fields, "third_party", third_party);
        push_field(&mut fields, "invoiced_at", Document::Int(self.invoiced_at));
        push_field(&mut fields, "paid", Document::Int(self.paid));
        push_field(&mut fields, "invoice_asset_id", text_document(&self.invoice_asset_id));
        push_field(&mut fields, "receipt_asset_id", text_document(&self.receipt_asset_id));
        Document::Object(fields)
    }
}

impl SubscriptionItem {
    /// The item as JSON. There are no taxes.
    pub open spec fn json(self) -> JsonValue {
        JsonValue::Object(
            no_fields().insert("current_period_end"@, int_or_null(self.current_period_end)).insert(
                "current_period_start"@,
                int_or_null(self.current_period_start),
            ).insert("description"@, JsonValue::Text(self.description@)).insert(
                "adjustments"@,
                adjustments_json(self.adjustments@),
            ).insert(
                "interval"@,
                match self.interval {
                    Some(interval) => JsonValue::Text(interval.name()),
                    None => JsonValue::Null,
                },
            ).insert("interval_count"@, int_or_null(self.interval_count)).insert(
                "metadata"@,
                metadata_json(self.metadata@),
            ).insert(
                "quantity"@,
                match self.quantity {
                    Some(n) => JsonValue::Number(n as int),
                    None => JsonValue::Null,
                },
            ).insert("taxes"@, empty_array()).insert(
                "type"@,
                JsonValue::Text(self.subscription_type.name()),
            ).insert("unit_cost"@, int_or_null(self.unit_cost)).insert(
                "amount"@,
                JsonValue::Number(self.amount as int),
            ),
        )
    }

    /// The item as a JSON document.
    pub fn to_document(&self) -> (doc: Document)
        ensures
            doc@ == self.json(),
    {
        let mut fields = new_fields();
        push_field(&mut fields, "current_period_end", int_document(&self.current_period_end));
        push_field(&mut fields, "current_period_start", int_document(&self.current_period_start));
        push_field(&mut fields, "description", Document::Text(self.description.clone()));
        push_field(&mut fields, "adjustments", adjustments_document(&self.adjustments));
        let interval = match &self.interval {
            Some(interval) => Document::Text(interval.as_str().to_owned()),
            None => Document::Null,
        };
        push_field(&mut fields, "interval", interval);
        push_field(&mut fields, "interval_count", int_document(&self.interval_count));
        push_field(&mut fields, "metadata", metadata_document(&self.metadata));
        let quantity = match self.quantity {
            Some(n) => Document::UInt(n),
            None => Document::Null,
        };
        push_field(&mut fields, "quantity", quantity);
        push_field(&mut fields, "taxes", empty_list());
        push_field(&mut fields, "type", Document::Text(self.subscription_type.as_str().to_owned()));
        push_field(&mut fields, "unit_cost", int_document(&self.unit_cost));
        push_field(&mut fields, "amount", Document::Int(self.amount));
        Document::Object(fields)
    }
}

impl Subscription {
    /// The subscription as JSON.
    pub open spec fn json(self) -> JsonValue {
        JsonValue::Object(
            no_fields().insert("subscription_items"@, items_json(self.subscription_items@)).insert(
                "invoice_level_adjustments"@,
                adjustments_json(self.invoice_level_adjustments@),
            ),
        )
    }

    /// The subscription as a JSON document.
    pub fn to_document(&self) -> (doc: Document)
        ensures
            doc@ == self.json(),
    {
        let mut items: Vec<Document> = Vec::new();
        let mut i: usize = 0;
        while i < self.subscription_items.len()
            invariant
                i <= self.subscription_items.len(),
                items@.len() == i,
                forall|k: int|
                    0 <= k < i ==> (#[trigger] items@[k])@ == self.subscription_items@[k].json(),
            decreases self.subscription_items.len() - i,
        {
            items.push(self.subscription_items[i].to_document());
            i = i + 1;
        }
        proof {
            lemma_items_view(items@);
            assert(items_view(items@) =~= Seq::new(
                self.subscription_items@.len(),
                |i: int| self.subscription_items@[i].json(),
            ));
        }
        let mut fields = new_fields();
        push_field(&mut fields, "subscription_items", Document::Array(items));
        push_field(
            &mut fields,
            "invoice_level_adjustments",
            adjustments_document(&self.invoice_level_adjustments),
        );
        Document::Object(fields)
    }
}

impl Itemization {
    /// The itemization as JSON. Every kind of purchase but the subscription is
    /// `null`.
    pub open spec fn json(self) -> JsonValue {
        JsonValue::Object(
            no_fields().insert("general"@, JsonValue::Null).insert(
                "lodging"@,
                JsonValue::Null,
            ).insert("ecommerce"@, JsonValue::Null).insert("car_rental"@, JsonValue::Null).insert(
                "transit_route"@,
                JsonValue::Null,
            ).insert(
                "subscription"@,
                match self.subscription {
                    Some(subscription) => subscription.json(),
                    None => JsonValue::Null,
                },
            ).insert("flight"@, JsonValue::Null),
        )
    }

    /// The itemization as a JSON document.
    pub fn to_document(&self) -> (doc: Document)
        ensures
            doc@ == self.json(),
    {
        let mut fields = new_fields();
        push_field(&mut fields, "general", Document::Null);
        push_field(&mut fields, "lodging", Document::Null);
        push_field(&mut fields, "ecommerce", Document::Null);
        push_field(&mut fields, "car_rental", Document::Null);
        push_field(&mut fields, "transit_route", Document::Null);
        let subscription = match &self.subscription {
            Some(subscription) => subscription.to_document(),
            None => Document::Null,
        };
        push_field(&mut fields, "subscription", subscription);
        push_field(&mut fields, "flight", Document::Null);
        Document::Object(fields)
    }
}

impl Footer {
    /// The footer as JSON.
    pub open spec fn json(self) -> JsonValue {
        JsonValue::Object(
            no_fields().insert("actions"@, actions_json(self.actions@)).insert(
                "supplemental_text"@,
                text_or_null(self.supplemental_text),
            ),
        )
    }

    /// The footer as a JSON document.
    pub fn to_document(&self) -> (doc: Document)
        ensures
            doc@ == self.json(),
    {
        let mut items: Vec<Document> = Vec::new();
        let mut i: usize = 0;
        while i < self.actions.len()
            invariant
                i <= self.actions.len(),
                items@.len() == i,
                forall|k: int| 0 <= k < i ==> (#[trigger] items@[k])@ == self.actions@[k].json(),
            decreases self.actions.len() - i,
        {
            items.push(self.actions[i].to_document());
            i = i + 1;
        }
        proof {
            lemma_items_view(items@);
            assert(items_view(items@) =~= Seq::new(
                self.actions@.len(),
                |i: int| self.actions@[i].json(),
            ));
        }
        let mut fields = new_fields();
        push_field(&mut fields, "actions", Document::Array(items));
        push_field(&mut fields, "supplemental_text", text_document(&self.supplemental_text));
        Document::Object(fields)
    }
}

impl Receipt {
    /// The receipt as JSON.
    pub open spec fn json(self) -> JsonValue {
        JsonValue::Object(
            no_fields().insert("schema_version"@, JsonValue::Text(self.schema_version@)).insert(
                "footer"@,
                self.footer.json(),
            ).insert("header"@, self.header.json()).insert(
                "itemization"@,
                self.itemization.json(),
            ).insert("payments"@, payments_json(self.payments@)),
        )
    }

    /// The receipt as a JSON document: what is hashed, sealed and delivered.
    pub fn to_document(&self) -> (doc: Document)
        ensures
            doc@ == self.json(),
    {
        let mut fields = new_fields();
        push_field(&mut fields, "schema_version", Document::Text(self.schema_version.clone()));
        push_field(&mut fields, "footer", self.footer.to_document());
        push_field(&mut fields, "header", self.header.to_document());
        push_field(&mut fields, "itemization", self.itemization.to_document());
        let mut payments: Vec<Document> = Vec::new();
        let mut i: usize = 0;
        while i < self.payments.len()
            invariant
                i <= self.payments.len(),
                payments@.len() == i,
                forall|k: int| 0 <= k < i ==> (#[trigger] payments@[k])@ == self.payments@[k].json(),
            decreases self.payments.len() - i,
        {
            payments.push(self.payments[i].to_document());
            i = i + 1;
        }
        proof {
            lemma_items_view(payments@);
            assert(items_view(payments@) =~= Seq::new(
                self.payments@.len(),
                |i: int| self.payments@[i].json(),
            ));
        }
        push_field(&mut fields, "payments", Document::Array(payments));
        Document::Object(fields)
    }
}

} // verus!
