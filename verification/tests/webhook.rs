use adapter_client_stripe::document::Document;
use adapter_client_stripe::encryption::{generate_hash, KEY_LEN};
use adapter_client_stripe::model::RoutingInfo;
use adapter_client_stripe::protocol::{DeliveryState, HttpReply, HttpRequest};
use adapter_client_stripe::config::Config;
use adapter_client_stripe::webhook::{
    admit_body, admit_event, admit_headers, BodyRead, DeliveryReport, Distribution, EventCheck,
    Rejection, SignatureHeader, Step, ACCEPTED,
};
use base64::prelude::BASE64_STANDARD;
use base64::Engine;

fn config() -> Config {
    Config {
        registry_url: "https://registry.example".to_string(),
        client_id: "sender_1".to_string(),
        client_secret: "hush".to_string(),
        webhook_secret: "whsec".to_string(),
    }
}

fn routing() -> RoutingInfo {
    RoutingInfo { email: Some("jo@example.org".to_string()), bin: None, par: None }
}

fn invoice_receipt() -> Document {
    Document::Object(vec![
        ("total".to_string(), Document::Int(1200)),
        ("currency".to_string(), Document::Text("usd".to_string())),
    ])
}

fn registration_with(receivers: usize) -> HttpReply {
    let list: Vec<String> = (0..receivers)
        .map(|n| {
            format!(
                "{{\"address\":\"https://r{}.example\",\"org_id\":\"org{}\",\"shared_secret\":\"s{}\",\"version\":\"1\"}}",
                n, n, n
            )
        })
        .collect();
    HttpReply::Answered {
        status: 200,
        body: format!(
            "{{\"receipt_id\":\"rct_42\",\"encryption_key\":\"{}\",\"receivers\":[{}]}}",
            BASE64_STANDARD.encode([6u8; KEY_LEN]),
            list.join(",")
        ),
    }
}

fn ok() -> HttpReply {
    HttpReply::Answered { status: 200, body: String::new() }
}

fn sent(step: Step) -> HttpRequest {
    match step {
        Step::Send(request) => request,
        Step::Respond(status) => panic!("the invocation ended early with {}", status),
    }
}

fn responded(step: Step) -> u16 {
    match step {
        Step::Respond(status) => status,
        Step::Send(request) => panic!("another request to {}", request.url),
    }
}

#[test]
fn one_unreachable_receiver_does_not_stop_the_others() {
    let (distribution, request) = Distribution::begin(&config(), invoice_receipt(), &routing())
        .expect("the receipt has a canonical form");
    assert_eq!(request.url, "https://registry.example/register");
    let hash = generate_hash(&invoice_receipt()).unwrap();
    assert!(request.body.contains(&format!("\"receipt_hash\":{}", hash)));

    let (distribution, step) = distribution.on_reply(&registration_with(3));
    let first = sent(step);
    assert_eq!(first.url, "https://r0.example");
    assert_eq!(distribution.state_of(0), DeliveryState::Sending);
    assert_eq!(distribution.state_of(1), DeliveryState::Pending);

    let (distribution, step) = distribution.on_reply(&ok());
    let second = sent(step);
    assert_eq!(second.url, "https://r1.example");
    assert_eq!(distribution.state_of(0), DeliveryState::Acknowledged);

    let unreachable = HttpReply::Unreachable { cause: "no route to host".to_string() };
    let (distribution, step) = distribution.on_reply(&unreachable);
    let third = sent(step);
    assert_eq!(third.url, "https://r2.example");
    assert_eq!(distribution.state_of(1), DeliveryState::Failed);
    assert_eq!(distribution.finished(), None);

    let (distribution, step) = distribution.on_reply(&ok());
    assert_eq!(responded(step), ACCEPTED);
    assert_eq!(distribution.state_of(2), DeliveryState::Acknowledged);
    assert_eq!(distribution.finished(), Some(202));
    assert_eq!(distribution.report(), DeliveryReport { delivered: 2, failed: 1 });
}

#[test]
fn every_delivery_may_fail_and_the_invocation_is_still_accepted() {
    let (distribution, _) =
        Distribution::begin(&config(), invoice_receipt(), &routing()).unwrap();
    let (distribution, step) = distribution.on_reply(&registration_with(2));
    sent(step);
    let refused = HttpReply::Answered { status: 500, body: "boom".to_string() };
    let (distribution, step) = distribution.on_reply(&refused);
    sent(step);
    let (distribution, step) = distribution.on_reply(&refused);
    assert_eq!(responded(step), 202);
    assert_eq!(distribution.report(), DeliveryReport { delivered: 0, failed: 2 });
}

#[test]
fn registration_without_receivers_ends_as_accepted_with_no_delivery() {
    let (distribution, _) =
        Distribution::begin(&config(), invoice_receipt(), &routing()).unwrap();
    let (distribution, step) = distribution.on_reply(&registration_with(0));
    assert_eq!(responded(step), ACCEPTED);
    assert_eq!(distribution.finished(), Some(ACCEPTED));
    assert_eq!(distribution.report(), DeliveryReport { delivered: 0, failed: 0 });
    assert_eq!(distribution.state_of(0), DeliveryState::Pending);
}

#[test]
fn failed_registration_ends_as_unavailable() {
    for reply in [
        HttpReply::Unreachable { cause: "dns".to_string() },
        HttpReply::Answered { status: 401, body: "{}".to_string() },
        HttpReply::Answered { status: 200, body: "{\"receipt_id\":1}".to_string() },
    ] {
        let (distribution, _) =
            Distribution::begin(&config(), invoice_receipt(), &routing()).unwrap();
        let (distribution, step) = distribution.on_reply(&reply);
        assert_eq!(responded(step), 503);
        assert_eq!(distribution.finished(), Some(503));
        assert_eq!(distribution.report(), DeliveryReport { delivered: 0, failed: 0 });
    }
}

#[test]
fn nothing_changes_once_the_invocation_is_over() {
    let (distribution, _) =
        Distribution::begin(&config(), invoice_receipt(), &routing()).unwrap();
    let (distribution, step) = distribution.on_reply(&registration_with(1));
    sent(step);
    let (distribution, step) = distribution.on_reply(&ok());
    assert_eq!(responded(step), 202);
    let (distribution, step) = distribution.on_reply(&registration_with(5));
    assert_eq!(responded(step), 202);
    assert_eq!(distribution.report(), DeliveryReport { delivered: 1, failed: 0 });
}

#[test]
fn receipt_without_canonical_form_is_turned_away_before_registration() {
    let receipt = Document::Object(vec![("total".to_string(), Document::UInt(u64::MAX))]);
    let rejection = Distribution::begin(&config(), receipt, &routing()).err();
    assert_eq!(rejection, Some(Rejection::Unserializable));
    assert_eq!(Rejection::Unserializable.status_code(), 500);
}

#[test]
fn requests_are_admitted_in_order() {
    assert_eq!(
        admit_headers(false, SignatureHeader::Missing),
        Err(Rejection::MissingWebhookSecret)
    );
    assert_eq!(
        admit_headers(false, SignatureHeader::Present),
        Err(Rejection::MissingWebhookSecret)
    );
    assert_eq!(admit_headers(true, SignatureHeader::Missing), Err(Rejection::MissingSignature));
    assert_eq!(
        admit_headers(true, SignatureHeader::Unreadable),
        Err(Rejection::UnreadableSignature)
    );
    assert_eq!(admit_headers(true, SignatureHeader::Present), Ok(()));
    assert_eq!(admit_body(BodyRead::Failed), Err(Rejection::UnreadableBody));
    assert_eq!(admit_body(BodyRead::NotText), Err(Rejection::BodyNotText));
    assert_eq!(admit_body(BodyRead::Text), Ok(()));
    assert_eq!(admit_event(EventCheck::Invalid), Err(Rejection::InvalidEvent));
    assert_eq!(admit_event(EventCheck::OtherType), Err(Rejection::UnsupportedEventType));
    assert_eq!(admit_event(EventCheck::WithoutInvoice), Err(Rejection::MissingInvoice));
    assert_eq!(admit_event(EventCheck::PaidInvoice), Ok(()));
}

#[test]
fn rejections_have_their_status() {
    assert_eq!(Rejection::MissingWebhookSecret.status_code(), 503);
    assert_eq!(Rejection::MissingSignature.status_code(), 401);
    assert_eq!(Rejection::UnreadableSignature.status_code(), 401);
    assert_eq!(Rejection::UnreadableBody.status_code(), 400);
    assert_eq!(Rejection::BodyNotText.status_code(), 400);
    assert_eq!(Rejection::InvalidEvent.status_code(), 401);
    assert_eq!(Rejection::UnsupportedEventType.status_code(), 405);
    assert_eq!(Rejection::MissingInvoice.status_code(), 400);
    assert_eq!(Rejection::MissingCustomerEmail.status_code(), 400);
    assert_eq!(Rejection::RegistrationFailed.status_code(), 503);
}
