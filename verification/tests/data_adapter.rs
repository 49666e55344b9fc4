use adapter_client_stripe::data_adapter::{
    invoice_items_to_subscriptions, transform_interval, transform_stripe_invoice, Coupon,
    Discount, Expandable, Invoice, InvoiceCustomer, InvoiceLineItem, Period, Price, PriceType,
    Recurring, RecurringInterval,
};
use adapter_client_stripe::encryption::{canonicalize, generate_hash};
use adapter_client_stripe::json::serialize_document;
use adapter_client_stripe::receipt::{
    Action, Adjustment, AdjustmentType, Currency, Customer, DiscountType, FirstPartyRelation,
    Interval, Merchant, MetadatumElement, MetadatumType, Payment, PaymentType,
    SubscriptionItemType, ThirdParty,
};
use adapter_client_stripe::webhook::{routing_of, Rejection};

fn line(amount: i64) -> InvoiceLineItem {
    InvoiceLineItem {
        period: Some(Period { end: Some(2000), start: Some(1000) }),
        price: Some(Price {
            recurring: Some(Recurring { interval: RecurringInterval::Month, interval_count: 3 }),
            type_: Some(PriceType::Recurring),
            unit_amount: Some(250),
        }),
        description: Some("Pro plan".to_string()),
        discounts: None,
        quantity: Some(4),
        amount,
    }
}

fn discount(amount_off: Option<i64>, name: &str) -> Expandable<Discount> {
    Expandable::Object(Discount { coupon: Coupon { amount_off, name: Some(name.to_string()) } })
}

fn invoice() -> Invoice {
    Invoice {
        id: "in_123".to_string(),
        customer: Some(Expandable::Object(InvoiceCustomer {
            email: Some("jo@example.org".to_string()),
            name: None,
            phone: Some("+1 555".to_string()),
        })),
        customer_email: Some("jo@example.org".to_string()),
        hosted_invoice_url: Some("https://pay.example/in_123".to_string()),
        total: Some(1000),
        subtotal: None,
        amount_due: Some(900),
        created: Some(1_700_000_000),
        amount_paid: Some(1000),
        lines: Some(vec![line(1000)]),
    }
}

#[test]
fn intervals_keep_their_meaning() {
    assert_eq!(transform_interval(RecurringInterval::Day), Interval::Day);
    assert_eq!(transform_interval(RecurringInterval::Week), Interval::Week);
    assert_eq!(transform_interval(RecurringInterval::Month), Interval::Month);
    assert_eq!(transform_interval(RecurringInterval::Year), Interval::Year);
}

#[test]
fn invoice_becomes_receipt() {
    let given = invoice();
    assert!(given.is_complete());
    let receipt = transform_stripe_invoice(given);
    assert_eq!(receipt.schema_version, "1.5.1");
    assert_eq!(receipt.footer.actions.len(), 1);
    assert_eq!(receipt.footer.actions[0].name, "View in Stripe");
    assert_eq!(receipt.footer.actions[0].url, "https://pay.example/in_123");
    assert_eq!(receipt.footer.supplemental_text, None);
    assert_eq!(receipt.header.total, 1000);
    assert_eq!(receipt.header.currency, Currency::Usd);
    assert_eq!(receipt.header.subtotal, 900);
    assert_eq!(receipt.header.invoiced_at, 1_700_000_000);
    assert_eq!(receipt.header.paid, 1000);
    assert_eq!(receipt.header.invoice_number, Some("in_123".to_string()));
    let customer = receipt.header.customer.as_ref().expect("the customer was expanded");
    assert_eq!(customer.email, Some("jo@example.org".to_string()));
    assert_eq!(customer.name, "");
    assert_eq!(customer.phone, Some("+1 555".to_string()));
    let subscription = receipt.itemization.subscription.as_ref().unwrap();
    assert!(subscription.invoice_level_adjustments.is_empty());
    assert_eq!(subscription.subscription_items.len(), 1);
    let item = &subscription.subscription_items[0];
    assert_eq!(item.current_period_start, Some(1000));
    assert_eq!(item.current_period_end, Some(2000));
    assert_eq!(item.description, "Pro plan");
    assert_eq!(item.interval, Some(Interval::Month));
    assert_eq!(item.interval_count, Some(3));
    assert_eq!(item.quantity, Some(4));
    assert_eq!(item.subscription_type, SubscriptionItemType::Recurring);
    assert_eq!(item.unit_cost, Some(250));
    assert_eq!(item.amount, 1000);
    assert!(item.adjustments.is_empty());
}

#[test]
fn subtotal_is_preferred_to_amount_due_and_reference_is_no_customer() {
    let mut given = invoice();
    given.subtotal = Some(950);
    given.customer = Some(Expandable::Id("cus_1".to_string()));
    given.hosted_invoice_url = None;
    given.lines = None;
    let receipt = transform_stripe_invoice(given);
    assert_eq!(receipt.header.subtotal, 950);
    assert!(receipt.header.customer.is_none());
    assert!(receipt.footer.actions.is_empty());
    assert!(receipt
        .itemization
        .subscription
        .unwrap()
        .subscription_items
        .is_empty());
}

#[test]
fn incomplete_invoice_is_recognized() {
    for missing in 0..4 {
        let mut given = invoice();
        match missing {
            0 => given.total = None,
            1 => given.amount_due = None,
            2 => given.created = None,
            _ => given.amount_paid = None,
        }
        assert!(!given.is_complete());
    }
    let mut given = invoice();
    given.subtotal = None;
    given.customer = None;
    given.lines = None;
    assert!(given.is_complete());
}

#[test]
fn lines_without_period_or_price_are_passed_over() {
    let mut no_period = line(1);
    no_period.period = None;
    let mut no_price = line(2);
    no_price.price = None;
    let mut plain = line(3);
    plain.description = None;
    plain.price = Some(Price { recurring: None, type_: None, unit_amount: None });
    plain.quantity = None;
    let items =
        invoice_items_to_subscriptions(Some(vec![no_period, line(10), no_price, plain, line(20)]));
    assert_eq!(items.len(), 3);
    assert_eq!(items[0].amount, 10);
    assert_eq!(items[1].amount, 3);
    assert_eq!(items[1].description, "Missing Description");
    assert_eq!(items[1].interval, None);
    assert_eq!(items[1].interval_count, None);
    assert_eq!(items[1].subscription_type, SubscriptionItemType::OneTime);
    assert_eq!(items[1].unit_cost, None);
    assert_eq!(items[1].quantity, None);
    assert_eq!(items[2].amount, 20);
    assert!(invoice_items_to_subscriptions(None).is_empty());
    assert!(invoice_items_to_subscriptions(Some(vec![])).is_empty());
}

#[test]
fn one_time_price_is_one_time() {
    let mut once = line(5);
    once.price = Some(Price {
        recurring: None,
        type_: Some(PriceType::OneTime),
        unit_amount: Some(5),
    });
    let items = invoice_items_to_subscriptions(Some(vec![once]));
    assert_eq!(items[0].subscription_type, SubscriptionItemType::OneTime);
}

#[test]
fn interval_count_wraps_like_a_cast() {
    let mut odd = line(5);
    odd.price = Some(Price {
        recurring: Some(Recurring { interval: RecurringInterval::Year, interval_count: u64::MAX }),
        type_: None,
        unit_amount: None,
    });
    let items = invoice_items_to_subscriptions(Some(vec![odd]));
    assert_eq!(items[0].interval_count, Some(-1));
    assert_eq!(items[0].interval, Some(Interval::Year));
}

#[test]
fn discounts_become_adjustments_when_all_are_expanded() {
    let mut discounted = line(700);
    discounted.discounts = Some(vec![discount(Some(300), "WELCOME"), discount(None, "FRIEND")]);
    let mut partly = line(800);
    partly.discounts =
        Some(vec![discount(Some(1), "A"), Expandable::Id("di_1".to_string())]);
    let mut none = line(900);
    none.discounts = Some(vec![]);
    let items = invoice_items_to_subscriptions(Some(vec![discounted, partly, none]));
    assert_eq!(items[0].adjustments.len(), 2);
    assert_eq!(items[0].adjustments[0].amount, 300);
    assert_eq!(items[0].adjustments[0].name, Some("WELCOME".to_string()));
    assert_eq!(items[0].adjustments[0].adjustment_type, AdjustmentType::Discount);
    assert_eq!(items[0].adjustments[1].amount, 0);
    assert_eq!(items[0].adjustments[1].name, Some("FRIEND".to_string()));
    assert!(items[1].adjustments.is_empty());
    assert!(items[2].adjustments.is_empty());
}

#[test]
fn receipt_is_written_as_json() {
    let receipt = transform_stripe_invoice(invoice());
    let doc = receipt.to_document();
    let text = canonicalize(&doc).unwrap();
    assert_eq!(
        text,
        "{\"footer\":{\"actions\":[{\"name\":\"View in Stripe\",\"url\":\"https://pay.example/in_123\"}],\"supplemental_text\":null},\
\"header\":{\"currency\":\"usd\",\"customer\":{\"address\":null,\"email\":\"jo@example.org\",\"metadata\":[],\"name\":\"\",\"phone\":\"+1 555\"},\
\"invoice_asset_id\":null,\"invoice_number\":\"in_123\",\"invoiced_at\":1700000000,\"location\":null,\"mcc\":null,\"paid\":1000,\
\"receipt_asset_id\":null,\"subtotal\":900,\"third_party\":null,\"total\":1000},\
\"itemization\":{\"car_rental\":null,\"ecommerce\":null,\"flight\":null,\"general\":null,\"lodging\":null,\
\"subscription\":{\"invoice_level_adjustments\":[],\"subscription_items\":[{\"adjustments\":[],\"amount\":1000,\
\"current_period_end\":2000,\"current_period_start\":1000,\"description\":\"Pro plan\",\"interval\":\"month\",\
\"interval_count\":3,\"metadata\":[],\"quantity\":4,\"taxes\":[],\"type\":\"recurring\",\"unit_cost\":250}]},\
\"transit_route\":null},\"payments\":[],\"schema_version\":\"1.5.1\"}"
    );
    assert_eq!(serialize_document(&doc), text);
    assert!(generate_hash(&doc).is_ok());
}

#[test]
fn parts_of_a_receipt_are_written_as_json() {
    let action = Action { name: "n".to_string(), url: "u".to_string() };
    assert_eq!(serialize_document(&action.to_document()), "{\"name\":\"n\",\"url\":\"u\"}");
    let adjustment = Adjustment {
        amount: -5,
        name: None,
        adjustment_type: AdjustmentType::Discount,
    };
    assert_eq!(
        serialize_document(&adjustment.to_document()),
        "{\"adjustment_type\":\"discount\",\"amount\":-5,\"name\":null,\"rate\":null}"
    );
    assert_eq!(Currency::Eur.as_str(), "eur");
    assert_eq!(Currency::Usd.as_str(), "usd");
    assert_eq!(Interval::Week.as_str(), "week");
    assert_eq!(SubscriptionItemType::OneTime.as_str(), "one_time");
    assert_eq!(SubscriptionItemType::Recurring.as_str(), "recurring");
    assert_eq!(AdjustmentType::Discount.as_str(), "discount");
}

#[test]
fn invoice_without_customer_email_is_turned_away() {
    let mut given = invoice();
    let routing = routing_of(&given).unwrap();
    assert_eq!(routing.email, Some("jo@example.org".to_string()));
    assert_eq!(routing.bin, None);
    assert_eq!(routing.par, None);
    given.customer_email = None;
    assert_eq!(routing_of(&given).err(), Some(Rejection::MissingCustomerEmail));
}

#[test]
fn receipt_of_an_invoice_leaves_the_rest_empty() {
    let receipt = transform_stripe_invoice(invoice());
    assert!(receipt.payments.is_empty());
    assert!(receipt.header.mcc.is_none());
    assert!(receipt.header.third_party.is_none());
    assert!(receipt.header.invoice_asset_id.is_none());
    assert!(receipt.header.receipt_asset_id.is_none());
    assert!(receipt.header.customer.unwrap().metadata.is_empty());
    let subscription = receipt.itemization.subscription.unwrap();
    assert!(subscription.subscription_items[0].metadata.is_empty());
}

#[test]
fn names_are_spelled_as_a_receipt_spells_them() {
    assert_eq!(FirstPartyRelation::Bnpl.as_str(), "bnpl");
    assert_eq!(FirstPartyRelation::DeliveryService.as_str(), "delivery_service");
    assert_eq!(FirstPartyRelation::Marketplace.as_str(), "marketplace");
    assert_eq!(FirstPartyRelation::PaymentProcessor.as_str(), "payment_processor");
    assert_eq!(FirstPartyRelation::Platform.as_str(), "platform");
    assert_eq!(FirstPartyRelation::PointOfSale.as_str(), "point_of_sale");
    assert_eq!(DiscountType::Fixed.as_str(), "fixed");
    assert_eq!(DiscountType::Percentage.as_str(), "percentage");
    assert_eq!(MetadatumType::Asin.as_str(), "asin");
    assert_eq!(MetadatumType::Other.as_str(), "other");
    assert_eq!(MetadatumType::Sku.as_str(), "sku");
    assert_eq!(MetadatumType::Unspsc.as_str(), "unspsc");
    assert_eq!(PaymentType::Ach.as_str(), "ach");
    assert_eq!(PaymentType::Card.as_str(), "card");
    assert_eq!(Currency::Aud.as_str(), "aud");
    assert_eq!(Currency::Cad.as_str(), "cad");
    assert_eq!(Currency::Chf.as_str(), "chf");
    assert_eq!(Currency::Cnh.as_str(), "cnh");
    assert_eq!(Currency::Gbp.as_str(), "gbp");
    assert_eq!(Currency::Jpy.as_str(), "jpy");
    assert_eq!(Interval::Day.as_str(), "day");
    assert_eq!(Interval::Month.as_str(), "month");
    assert_eq!(Interval::Year.as_str(), "year");
}

#[test]
fn filled_parts_of_a_receipt_are_written_as_json() {
    let metadatum = MetadatumElement {
        name: "code".to_string(),
        receip_type: MetadatumType::Sku,
        value: "A-1".to_string(),
    };
    assert_eq!(
        serialize_document(&metadatum.to_document()),
        "{\"name\":\"code\",\"type\":\"sku\",\"value\":\"A-1\"}"
    );
    let customer = Customer {
        email: None,
        name: "Jo".to_string(),
        phone: None,
        metadata: vec![metadatum],
    };
    assert_eq!(
        serialize_document(&customer.to_document()),
        "{\"address\":null,\"email\":null,\"metadata\":[{\"name\":\"code\",\"type\":\"sku\",\"value\":\"A-1\"}],\"name\":\"Jo\",\"phone\":null}"
    );
    let third_party = ThirdParty {
        first_party_relation: FirstPartyRelation::Marketplace,
        make_primary: true,
        merchant: Merchant {
            brand_color: "#ff0000".to_string(),
            logo: None,
            name: "Shop".to_string(),
            website: Some("https://shop.example".to_string()),
        },
    };
    assert_eq!(
        serialize_document(&third_party.to_document()),
        "{\"first_party_relation\":\"marketplace\",\"make_primary\":true,\"merchant\":{\"brand_color\":\"#ff0000\",\"id\":null,\"logo\":null,\"name\":\"Shop\",\"website\":\"https://shop.example\"}}"
    );
    let payment = Payment { paid_at: 17, payment_type: PaymentType::Card };
    assert_eq!(
        serialize_document(&payment.to_document()),
        "{\"ach_payment\":null,\"card_payment\":null,\"paid_at\":17,\"type\":\"card\"}"
    );
    let mut receipt = transform_stripe_invoice(invoice());
    receipt.payments.push(payment);
    receipt.header.third_party = Some(third_party);
    receipt.header.mcc = Some("5734".to_string());
    let text = serialize_document(&receipt.to_document());
    assert!(text.contains("\"payments\":[{\"ach_payment\":null"));
    assert!(text.contains("\"mcc\":\"5734\""));
    assert!(text.contains("\"third_party\":{\"first_party_relation\":\"marketplace\""));
}
