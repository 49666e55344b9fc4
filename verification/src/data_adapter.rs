//! From a paid invoice of the billing provider to a receipt.

use vstd::prelude::*;
use crate::receipt::{
    Action, Adjustment, AdjustmentType, Currency, Customer, Footer, Header, Interval,
    Itemization, Receipt, Subscription, SubscriptionItem, SubscriptionItemType,
};

verus! {

/// A reference that the billing provider sends either as an identifier or
/// expanded to the object itself.
#[derive(Debug)]
pub enum Expandable<T> {
    Id(String),
    Object(T),
}

/// The customer of an invoice.
#[derive(Debug)]
pub struct InvoiceCustomer {
    pub email: Option<String>,
    pub name: Option<String>,
    pub phone: Option<String>,
}

/// The period that a line of an invoice covers.
#[derive(Debug)]
pub struct Period {
    pub end: Option<i64>,
    pub start: Option<i64>,
}

/// The period after which a price recurs.
#[derive(Debug, Clone, Copy, PartialEq, Eq, Structural)]
pub enum RecurringInterval {
    Day,
    Month,
    Week,
    Year,
}

/// How a price recurs.
#[derive(Debug)]
pub struct Recurring {
    pub interval: RecurringInterval,
    pub interval_count: u64,
}

/// Whether a price is charged once or recurs.
#[derive(Debug, Clone, Copy, PartialEq, Eq, Structural)]
pub enum PriceType {
    OneTime,
    Recurring,
}

/// The price of a line of an invoice.
#[derive(Debug)]
pub struct Price {
    pub recurring: Option<Recurring>,
    pub type_: Option<PriceType>,
    pub unit_amount: Option<i64>,
}

/// The coupon behind a discount.
#[derive(Debug)]
pub struct Coupon {
    pub amount_off: Option<i64>,
    pub name: Option<String>,
}

/// A discount on a line of an invoice.
#[derive(Debug)]
pub struct Discount {
    pub coupon: Coupon,
}

/// A line of an invoice.
#[derive(Debug)]
pub struct InvoiceLineItem {
    pub period: Option<Period>,
    pub price: Option<Price>,
    pub description: Option<String>,
    pub discounts: Option<Vec<Expandable<Discount>>>,
    pub quantity: Option<u64>,
    pub amount: i64,
}

/// What a receipt needs of a paid invoice.
#[derive(Debug)]
pub struct Invoice {
    pub id: String,
    pub customer: Option<Expandable<InvoiceCustomer>>,
    pub customer_email: Option<String>,
    pub hosted_invoice_url: Option<String>,
    pub total: Option<i64>,
    pub subtotal: Option<i64>,
    pub amount_due: Option<i64>,
    pub created: Option<i64>,
    pub amount_paid: Option<i64>,
    pub lines: Option<Vec<InvoiceLineItem>>,
}

/// Two optional strings read the same.
pub open spec fn same_text(a: Option<String>, b: Option<String>) -> bool {
    match (a, b) {
        (Some(x), Some(y)) => x@ == y@,
        (None, None) => true,
        _ => false,
    }
}

/// The interval of a receipt for the interval of a price.
pub open spec fn interval_of(interval: RecurringInterval) -> Interval {
    match interval {
        RecurringInterval::Day => Interval::Day,
        RecurringInterval::Week => Interval::Week,
        RecurringInterval::Month => Interval::Month,
        RecurringInterval::Year => Interval::Year,
    }
}

/// The interval of a receipt for the interval of a price.
pub fn transform_interval(interval: RecurringInterval) -> (result: Interval)
    ensures
        result == interval_of(interval),
{
    match interval {
        RecurringInterval::Day => Interval::Day,
        RecurringInterval::Week => Interval::Week,
        RecurringInterval::Month => Interval::Month,
        RecurringInterval::Year => Interval::Year,
    }
}

/// Every discount of the list is expanded.
pub open spec fn all_expanded(discounts: Seq<Expandable<Discount>>) -> bool {
    forall|i: int| 0 <= i < discounts.len() ==> (#[trigger] discounts[i]) is Object
}

/// The adjustment is the one for the discount: the amount off, or zero where
/// the coupon names none, under the coupon's name.
pub open spec fn is_adjustment_of(discount: Discount, adjustment: Adjustment) -> bool {
    &&& adjustment.amount == match discount.coupon.amount_off {
        Some(amount) => amount,
        None => 0,
    }
    &&& same_text(adjustment.name, discount.coupon.name)
    &&& adjustment.adjustment_type == AdjustmentType::Discount
}

/// The adjustments are those for the discounts of a line: one for each
/// discount, in order, where every discount is expanded; none where the line
/// has no discounts or one of them is not expanded.
pub open spec fn are_adjustments_of(
    discounts: Option<Vec<Expandable<Discount>>>,
    adjustments: Seq<Adjustment>,
) -> bool {
    match discounts {
        Some(list) => if all_expanded(list@) {
            adjustments.len() == list@.len() && forall|i: int|
                0 <= i < list@.len() ==> is_adjustment_of(
                    list@[i]->Object_0,
                    #[trigger] adjustments[i],
                )
        } else {
            adjustments.len() == 0
        },
        None => adjustments.len() == 0,
    }
}

/// The line has a period and a price: only such a line becomes an item.
pub open spec fn is_billable(line: InvoiceLineItem) -> bool {
    line.period is Some && line.price is Some
}

/// The lines that have a period and a price, in order.
pub open spec fn billable_lines(lines: Seq<InvoiceLineItem>) -> Seq<InvoiceLineItem>
    decreases lines.len(),
{
    if lines.len() == 0 {
        Seq::empty()
    } else if is_billable(lines.last()) {
        billable_lines(lines.drop_last()).push(lines.last())
    } else {
        billable_lines(lines.drop_last())
    }
}

/// The item is the one for the line: its period, its description or `Missing
/// Description`, its adjustments, how its price recurs, its quantity, the cost
/// of a unit and its amount. A price without a type is charged once.
pub open spec fn is_item_of(line: InvoiceLineItem, item: SubscriptionItem) -> bool {
    let period = line.period->Some_0;
    let price = line.price->Some_0;
    &&& is_billable(line)
    &&& item.current_period_end == period.end
    &&& item.current_period_start == period.start
    &&& item.description@ == match line.description {
        Some(text) => text@,
        None => "Missing Description"@,
    }
    &&& are_adjustments_of(line.discounts, item.adjustments@)
    &&& item.interval == match price.recurring {
        Some(recurring) => Some(interval_of(recurring.interval)),
        None => None,
    }
    &&& item.interval_count == match price.recurring {
        Some(recurring) => Some(recurring.interval_count as i64),
        None => None,
    }
    &&& item.metadata@.len() == 0
    &&& item.quantity == line.quantity
    &&& item.subscription_type == match price.type_ {
        Some(PriceType::Recurring) => SubscriptionItemType::Recurring,
        _ => SubscriptionItemType::OneTime,
    }
    &&& item.unit_cost == price.unit_amount
    &&& item.amount == line.amount
}

/// The items are those for the lines of an invoice: one for each line that has
/// a period and a price, in order.
pub open spec fn are_items_of(lines: Option<Vec<InvoiceLineItem>>, items: Seq<SubscriptionItem>) -> bool {
    let billable = match lines {
        Some(list) => billable_lines(list@),
        None => Seq::empty(),
    };
    items.len() == billable.len() && forall|i: int|
        0 <= i < billable.len() ==> is_item_of(billable[i], #[trigger] items[i])
}

/// A copy of an optional string.
fn copy_of(text: &Option<String>) -> (copy: Option<String>)
    ensures
        same_text(copy, *text),
{
    match text {
        Some(s) => Some(s.clone()),
        None => None,
    }
}

/// The adjustments for the discounts of a line.
fn discounts_to_adjustments(discounts: &Option<Vec<Expandable<Discount>>>) -> (adjustments: Vec<
    Adjustment,
>)
    ensures
        are_adjustments_of(*discounts, adjustments@),
{
    let list = match discounts {
        Some(list) => list,
        None => {
            return Vec::new();
        },
    };
    let mut adjustments: Vec<Adjustment> = Vec::new();
    let mut i: usize = 0;
    while i < list.len()
        invariant
            i <= list.len(),
            adjustments@.len() == i,
            *discounts == Some(*list),
            forall|k: int| 0 <= k < i ==> (#[trigger] list@[k]) is Object,
            forall|k: int|
                0 <= k < i ==> is_adjustment_of(list@[k]->Object_0, #[trigger] adjustments@[k]),
        decreases list.len() - i,
    {
        match &list[i] {
            Expandable::Object(d) => {
                let amount = match d.coupon.amount_off {
                    Some(amount) => amount,
                    None => 0,
                };
                adjustments.push(
                    Adjustment {
                        amount,
                        name: copy_of(&d.coupon.name),
                        adjustment_type: AdjustmentType::Discount,
                    },
                );
            },
            Expandable::Id(_) => {
                proof {
                    assert(!(list@[i as int] is Object));
                }
                return Vec::new();
            },
        }
        i = i + 1;
    }
    adjustments
}

/// The subscription item for a line that has a period and a price.
fn line_to_item(line: &InvoiceLineItem) -> (item: SubscriptionItem)
    requires
        is_billable(*line),
    ensures
        is_item_of(*line, item),
{
    let (current_period_end, current_period_start) = match &line.period {
        Some(period) => (period.end, period.start),
        None => (None, None),
    };
    let description = match &line.description {
        Some(text) => text.clone(),
        None => "Missing Description".to_owned(),
    };
    let (interval, interval_count, subscription_type, unit_cost) = match &line.price {
        Some(price) => {
            let (interval, interval_count) = match &price.recurring {
                Some(recurring) => (
                    Some(transform_interval(recurring.interval)),
                    Some(
                        #[verifier::truncate]
                        (recurring.interval_count as i64),
                    ),
                ),
                None => (None, None),
            };
            let subscription_type = match price.type_ {
                Some(PriceType::Recurring) => SubscriptionItemType::Recurring,
                _ => SubscriptionItemType::OneTime,
            };
            (interval, interval_count, subscription_type, price.unit_amount)
        },
        None => (None, None, SubscriptionItemType::OneTime, None),
    };
    SubscriptionItem {
        current_period_end,
        current_period_start,
        description,
        adjustments: discounts_to_adjustments(&line.discounts),
        interval,
        interval_count,
        metadata: Vec::new(),
        quantity: line.quantity,
        subscription_type,
        unit_cost,
        amount: line.amount,
    }
}

/// The subscription items for the lines of an invoice. A line without a
/// period or without a price is passed over.
pub fn invoice_items_to_subscriptions(lines: Option<Vec<InvoiceLineItem>>) -> (items: Vec<
    SubscriptionItem,
>)
    ensures
        are_items_of(lines, items@),
{
    let list = match &lines {
        Some(list) => list,
        None => {
            return Vec::new();
        },
    };
    let mut items: Vec<SubscriptionItem> = Vec::new();
    let mut i: usize = 0;
    while i < list.len()
        invariant
            i <= list.len(),
            items@.len() == billable_lines(list@.take(i as int)).len(),
            forall|k: int|
                0 <= k < items@.len() ==> is_item_of(
                    billable_lines(list@.take(i as int))[k],
                    #[trigger] items@[k],
                ),
        decreases list.len() - i,
    {
        proof {
            assert(list@.take(i + 1).drop_last() == list@.take(i as int));
            assert(list@.take(i + 1).last() == list@[i as int]);
        }
        if list[i].period.is_some() && list[i].price.is_some() {
            items.push(line_to_item(&list[i]));
        }
        i = i + 1;
    }
    proof {
        assert(list@.take(list.len() as int) == list@);
    }
    items
}

impl Invoice {
    /// The invoice has what a receipt cannot do without: a total, an amount
    /// due, the date of its creation and the amount paid.
    pub open spec fn complete(self) -> bool {
        self.total is Some && self.amount_due is Some && self.created is Some
            && self.amount_paid is Some
    }

    /// Whether the invoice has what a receipt cannot do without.
    pub fn is_complete(&self) -> (complete: bool)
        ensures
            complete == self.complete(),
    {
        self.total.is_some() && self.amount_due.is_some() && self.created.is_some()
            && self.amount_paid.is_some()
    }
}

/// The customer of the receipt is the one of the invoice, where the invoice
/// holds the customer itself and not a reference; a customer without a name
/// gets the empty name.
pub open spec fn is_customer_of(
    given: Option<Expandable<InvoiceCustomer>>,
    customer: Option<Customer>,
) -> bool {
    match given {
        Some(Expandable::Object(c)) => customer matches Some(made) && same_text(made.email, c.email)
            && made.name@ == (match c.name {
            Some(name) => name@,
            None => Seq::<char>::empty(),
        }) && same_text(made.phone, c.phone) && made.metadata@.len() == 0,
        _ => customer is None,
    }
}

/// The receipt is the one for the invoice: schema version 1.5.1, in US
/// dollars, with a link to the invoice where the provider hosts it, the
/// amounts and the date of the invoice in its header, and its lines as the
/// items of a subscription. It names no third party, no merchant category, no
/// assets and no payments.
pub open spec fn is_receipt_of(invoice: Invoice, receipt: Receipt) -> bool {
    &&& receipt.schema_version@ == "1.5.1"@
    &&& receipt.footer.supplemental_text is None
    &&& match invoice.hosted_invoice_url {
        Some(url) => receipt.footer.actions@.len() == 1 && receipt.footer.actions@[0].name@
            == "View in Stripe"@ && receipt.footer.actions@[0].url@ == url@,
        None => receipt.footer.actions@.len() == 0,
    }
    &&& receipt.header.total == invoice.total->Some_0
    &&& receipt.header.currency == Currency::Usd
    &&& is_customer_of(invoice.customer, receipt.header.customer)
    &&& receipt.header.mcc is None
    &&& receipt.header.third_party is None
    &&& receipt.header.invoice_asset_id is None
    &&& receipt.header.receipt_asset_id is None
    &&& receipt.payments@.len() == 0
    &&& receipt.header.invoice_number matches Some(number) && number@ == invoice.id@
    &&& receipt.header.subtotal == match invoice.subtotal {
        Some(subtotal) => subtotal,
        None => invoice.amount_due->Some_0,
    }
    &&& receipt.header.invoiced_at == invoice.created->Some_0
    &&& receipt.header.paid == invoice.amount_paid->Some_0
    &&& receipt.itemization.subscription matches Some(subscription) && are_items_of(
        invoice.lines,
        subscription.subscription_items@,
    ) && subscription.invoice_level_adjustments@.len() == 0
}

/// Turns a paid invoice into a receipt.
pub fn transform_stripe_invoice(invoice: Invoice) -> (receipt: Receipt)
    requires
        invoice.complete(),
    ensures
        is_receipt_of(invoice, receipt),
{
    let Invoice {
        id,
        customer,
        customer_email: _,
        hosted_invoice_url,
        total,
        subtotal,
        amount_due,
        created,
        amount_paid,
        lines,
    } = invoice;
    let customer = match customer {
        Some(Expandable::Object(obj)) => {
            let name = match obj.name {
                Some(name) => name,
                None => String::new(),
            };
            Some(Customer { email: obj.email, name, phone: obj.phone, metadata: Vec::new() })
        },
        _ => None,
    };
    let mut actions: Vec<Action> = Vec::new();
    match hosted_invoice_url {
        Some(invoice_hosted_url) => {
            actions.push(Action { name: "View in Stripe".to_owned(), url: invoice_hosted_url });
        },
        None => {},
    }
    let due = amount_due.unwrap();
    Receipt {
        schema_version: "1.5.1".to_owned(),
        footer: Footer { actions, supplemental_text: None },
        header: Header {
            total: total.unwrap(),
            currency: Currency::Usd,
            customer,
            mcc: None,
            invoice_number: Some(id),
            subtotal: match subtotal {
                Some(subtotal) => subtotal,
                None => due,
            },
            third_party: None,
            invoiced_at: created.unwrap(),
            paid: amount_paid.unwrap(),
            invoice_asset_id: None,
            receipt_asset_id: None,
        },
        itemization: Itemization {
            subscription: Some(
                Subscription {
                    subscription_items: invoice_items_to_subscriptions(lines),
                    invoice_level_adjustments: Vec::new(),
                },
            ),
        },
        payments: Vec::new(),
    }
}

} // verus!
