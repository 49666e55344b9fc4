//! The registry handshake and the delivery to one receiver, as far as they
//! compute: the requests to send and what to make of the answers. Sending is
//! left to the caller.

use vstd::prelude::*;
use vstd::utf8::encode_utf8;
use base64::prelude::BASE64_STANDARD;
use base64::Engine;
use hmac::{Hmac, Mac};
use sha1::Sha1;
use crate::document::{Document, JsonValue, fields_view, items_view, lemma_items_view, push_field};
use crate::encryption::{
    KEY_LEN, NONCE_LEN, encrypt_envelope, encrypt_envelope_with_nonce, seal_failure,
    seal_outcome,
};
use crate::error::{DeliveryError, RegistrationError};
use crate::json::{json_text, parse_document, parsed_document, serialize_document};
use crate::model::{Envelope, EnvelopeView, Receiver, ReceiverView, RoutingInfo};

verus! {

/// An HTTP POST for the caller to send.
#[derive(Debug)]
pub struct HttpRequest {
    pub url: String,
    pub headers: Vec<(String, String)>,
    pub body: String,
}

/// What an HTTP POST holds.
pub struct HttpRequestView {
    pub url: Seq<char>,
    pub headers: Seq<(Seq<char>, Seq<char>)>,
    pub body: Seq<char>,
}

impl View for HttpRequest {
    type V = HttpRequestView;

    open spec fn view(&self) -> HttpRequestView {
        HttpRequestView {
            url: self.url@,
            headers: Seq::new(
                self.headers@.len(),
                |i: int| (self.headers@[i].0@, self.headers@[i].1@),
            ),
            body: self.body@,
        }
    }
}

/// What came of sending a request.
#[derive(Debug)]
pub enum HttpReply {
    /// No answer came; the cause is kept for the log.
    Unreachable { cause: String },
    /// The peer answered.
    Answered { status: u16, body: String },
}

/// A status in 200..=299.
pub open spec fn is_success(status: u16) -> bool {
    200 <= status < 300
}

/// Where the domain of an e-mail address starts: behind its last `@`; -1
/// where it has none.
pub open spec fn domain_start(email: Seq<char>) -> int
    decreases email.len(),
{
    if email.len() == 0 {
        -1
    } else if email.last() == '@' {
        email.len() as int
    } else {
        domain_start(email.drop_last())
    }
}

/// The domain of an e-mail address: what follows its last `@`. An address
/// without `@`, or with nothing behind it, has none.
pub open spec fn email_domain_of(email: Seq<char>) -> Option<Seq<char>> {
    let start = domain_start(email);
    if 0 <= start < email.len() {
        Some(email.subrange(start, email.len() as int))
    } else {
        None
    }
}

/// `domain_start` is behind the last `@`: no `@` follows it, and one stands
/// just before it unless the address has none.
pub proof fn lemma_domain_start(email: Seq<char>, start: int)
    requires
        0 <= start <= email.len(),
        forall|k: int| start <= k < email.len() ==> email[k] != '@',
        start > 0 ==> email[start - 1] == '@',
    ensures
        domain_start(email) == if start == 0 {
            -1
        } else {
            start
        },
    decreases email.len(),
{
    if email.len() > start {
        let front = email.drop_last();
        assert(email.last() != '@');
        assert forall|k: int| start <= k < front.len() implies front[k] != '@' by {
            assert(front[k] == email[k]);
        }
        lemma_domain_start(front, start);
    }
}

/// The domain of an e-mail address, for routing: the address itself is not
/// handed on. A missing `@` means that there is no domain.
pub fn email_domain(email: &str) -> (domain: Option<String>)
    ensures
        match domain {
            Some(d) => email_domain_of(email@) == Some(d@),
            None => email_domain_of(email@) is None,
        },
{
    let n = email.unicode_len();
    let mut start: usize = n;
    while start > 0 && email.get_char(start - 1) != '@'
        invariant
            start <= n,
            n == email@.len(),
            forall|k: int| start <= k < n ==> email@[k] != '@',
        decreases start,
    {
        start = start - 1;
    }
    proof {
        lemma_domain_start(email@, start as int);
    }
    if start == 0 || start == n {
        None
    } else {
        Some(email.substring_char(start, n).to_owned())
    }
}

/// The text of an optional string.
pub open spec fn text_of(value: Option<String>) -> Option<Seq<char>> {
    match value {
        Some(s) => Some(s@),
        None => None,
    }
}

/// The routing handles that the registry is given: the domain of the
/// customer's e-mail address and the card's BIN, each where it is known.
pub open spec fn handles_of(email: Option<Seq<char>>, bin: Option<Seq<char>>) -> Map<
    Seq<char>,
    JsonValue,
> {
    let domain = match email {
        Some(address) => email_domain_of(address),
        None => None,
    };
    let with_domain = match domain {
        Some(d) => Map::<Seq<char>, JsonValue>::empty().insert(
            "customer_email_domain"@,
            JsonValue::Text(d),
        ),
        None => Map::<Seq<char>, JsonValue>::empty(),
    };
    match bin {
        Some(b) => with_domain.insert("authorization_bin"@, JsonValue::Text(b)),
        None => with_domain,
    }
}

/// The body of a registration request.
pub open spec fn registration_body(
    registration_hash: u64,
    email: Option<Seq<char>>,
    bin: Option<Seq<char>>,
) -> JsonValue {
    JsonValue::Object(
        Map::<Seq<char>, JsonValue>::empty().insert(
            "schema_version"@,
            JsonValue::Text("1.0.0"@),
        ).insert("receipt_hash"@, JsonValue::Number(registration_hash as int)).insert(
            "handles"@,
            JsonValue::Object(handles_of(email, bin)),
        ),
    )
}

/// The registration request: a POST to `/register` below the registry's URL,
/// with the sender's credentials in the `Authorization` header.
pub open spec fn registration_request_of(
    registry_url: Seq<char>,
    client_id: Seq<char>,
    client_secret: Seq<char>,
    email: Option<Seq<char>>,
    bin: Option<Seq<char>>,
    registration_hash: u64,
) -> HttpRequestView {
    HttpRequestView {
        url: registry_url + "/register"@,
        headers: seq![
            ("Accept"@, "application/json"@),
            ("Authorization"@, "Basic "@ + client_id + ":"@ + client_secret),
            ("Content-Type"@, "application/json"@),
        ],
        body: json_text(registration_body(registration_hash, email, bin)),
    }
}

/// Builds the request that registers a receipt: its fingerprint and the
/// routing handles, never the e-mail address itself.
pub fn registration_request(
    registry_url: &str,
    client_id: &str,
    client_secret: &str,
    routing: &RoutingInfo,
    registration_hash: u64,
) -> (request: HttpRequest)
    ensures
        request@ == registration_request_of(
            registry_url@,
            client_id@,
            client_secret@,
            text_of(routing.email),
            text_of(routing.bin),
            registration_hash,
        ),
{
    let mut handles: Vec<(String, Document)> = Vec::new();
    assert(fields_view(handles@) == Map::<Seq<char>, JsonValue>::empty());
    match &routing.email {
        Some(address) => {
            match email_domain(address.as_str()) {
                Some(domain) => {
                    push_field(&mut handles, "customer_email_domain", Document::Text(domain));
                },
                None => {},
            }
        },
        None => {},
    }
    match &routing.bin {
        Some(bin) => {
            push_field(&mut handles, "authorization_bin", Document::Text(bin.clone()));
        },
        None => {},
    }
    let mut fields: Vec<(String, Document)> = Vec::new();
    assert(fields_view(fields@) == Map::<Seq<char>, JsonValue>::empty());
    push_field(&mut fields, "schema_version", Document::Text("1.0.0".to_owned()));
    push_field(&mut fields, "receipt_hash", Document::UInt(registration_hash));
    push_field(&mut fields, "handles", Document::Object(handles));
    let body = serialize_document(&Document::Object(fields));

    let mut url = registry_url.to_owned();
    url.append("/register");
    let mut credential = "Basic ".to_owned();
    credential.append(client_id);
    credential.append(":");
    credential.append(client_secret);
    let mut headers: Vec<(String, String)> = Vec::new();
    headers.push(("Accept".to_owned(), "application/json".to_owned()));
    headers.push(("Authorization".to_owned(), credential));
    headers.push(("Content-Type".to_owned(), "application/json".to_owned()));
    let request = HttpRequest { url, headers, body };
    proof {
        assert(request@.headers =~= registration_request_of(
            registry_url@,
            client_id@,
            client_secret@,
            text_of(routing.email),
            text_of(routing.bin),
            registration_hash,
        ).headers);
    }
    request
}

/// What the registry answers to a registration: the identifier of the
/// receipt, the key under which it is to be sealed for every receiver, and the
/// receivers, of which there may be none.
#[derive(Debug)]
pub struct RegistrationRecord {
    pub receipt_id: String,
    pub encryption_key: Vec<u8>,
    pub receivers: Vec<Receiver>,
}

/// What a registration record holds.
pub struct RegistrationRecordView {
    pub receipt_id: Seq<char>,
    pub encryption_key: Seq<u8>,
    pub receivers: Seq<ReceiverView>,
}

/// What each receiver of a list holds, in order.
pub open spec fn receivers_view(receivers: Seq<Receiver>) -> Seq<ReceiverView> {
    Seq::new(receivers.len(), |i: int| receivers[i]@)
}

impl View for RegistrationRecord {
    type V = RegistrationRecordView;

    open spec fn view(&self) -> RegistrationRecordView {
        RegistrationRecordView {
            receipt_id: self.receipt_id@,
            encryption_key: self.encryption_key@,
            receivers: receivers_view(self.receivers@),
        }
    }
}

/// The tag that HMAC-SHA1 gives for a message under a key.
pub uninterp spec fn hmac_sha1_tag(key: Seq<u8>, message: Seq<u8>) -> Seq<u8>;

/// The standard base64 text, padded, of a byte string.
pub uninterp spec fn base64_text(bytes: Seq<u8>) -> Seq<char>;

/// The byte string that a standard base64 text stands for, where it is one.
pub uninterp spec fn base64_decoded(text: Seq<char>) -> Option<Seq<u8>>;

/// `Mac::new_from_slice`, `update` and `finalize` of `hmac::Hmac<sha1::Sha1>`:
/// HMAC takes a key of any length, and the tag of SHA-1 has 20 bytes.
#[verifier::external_body]
fn hmac_sha1(key: &[u8], message: &[u8]) -> (result: Option<Vec<u8>>)
    ensures
        result is Some,
        result->Some_0@ == hmac_sha1_tag(key@, message@),
        result->Some_0@.len() == 20,
{
    let mut mac = Hmac::<Sha1>::new_from_slice(key).ok()?;
    mac.update(message);
    Some(mac.finalize().into_bytes().to_vec())
}

/// `Engine::encode` of `base64::prelude::BASE64_STANDARD`.
#[verifier::external_body]
fn base64_encode(bytes: &[u8]) -> (text: String)
    ensures
        text@ == base64_text(bytes@),
{
    BASE64_STANDARD.encode(bytes)
}

/// `Engine::decode` of `base64::prelude::BASE64_STANDARD`.
#[verifier::external_body]
fn base64_decode(text: &str) -> (result: Option<Vec<u8>>)
    ensures
        match result {
            Some(bytes) => base64_decoded(text@) == Some(bytes@),
            None => base64_decoded(text@) is None,
        },
{
    BASE64_STANDARD.decode(text).ok()
}

/// The string under `key`, where the object has one there.
pub open spec fn text_field(fields: Map<Seq<char>, JsonValue>, key: Seq<char>) -> Option<
    Seq<char>,
> {
    if fields.dom().contains(key) && fields[key] is Text {
        Some(fields[key]->Text_0)
    } else {
        None
    }
}

/// The receiver that a JSON value describes: an object with the strings
/// `address`, `org_id`, `shared_secret` and `version`.
pub open spec fn receiver_of(value: JsonValue) -> Option<ReceiverView> {
    match value {
        JsonValue::Object(fields) => {
            if text_field(fields, "address"@) is Some && text_field(fields, "org_id"@) is Some
                && text_field(fields, "shared_secret"@) is Some && text_field(
                fields,
                "version"@,
            ) is Some {
                Some(
                    ReceiverView {
                        address: text_field(fields, "address"@)->Some_0,
                        org_id: text_field(fields, "org_id"@)->Some_0,
                        secret: text_field(fields, "shared_secret"@)->Some_0,
                        version: text_field(fields, "version"@)->Some_0,
                    },
                )
            } else {
                None
            }
        },
        _ => None,
    }
}

/// The receivers that a list of JSON values describes, where each item
/// describes one.
pub open spec fn receivers_of(items: Seq<JsonValue>) -> Option<Seq<ReceiverView>> {
    if forall|i: int| 0 <= i < items.len() ==> (#[trigger] receiver_of(items[i])) is Some {
        Some(Seq::new(items.len(), |i: int| receiver_of(items[i])->Some_0))
    } else {
        None
    }
}

/// A registration as it is written: the key is still base64 text.
#[derive(Debug)]
pub struct RegistrationFields {
    pub receipt_id: String,
    pub encryption_key: String,
    pub receivers: Vec<Receiver>,
}

/// What a written registration holds.
pub struct RegistrationFieldsView {
    pub receipt_id: Seq<char>,
    pub encryption_key: Seq<char>,
    pub receivers: Seq<ReceiverView>,
}

impl View for RegistrationFields {
    type V = RegistrationFieldsView;

    open spec fn view(&self) -> RegistrationFieldsView {
        RegistrationFieldsView {
            receipt_id: self.receipt_id@,
            encryption_key: self.encryption_key@,
            receivers: receivers_view(self.receivers@),
        }
    }
}

/// The registration that a JSON value writes out: an object with the strings
/// `receipt_id` and `encryption_key` and an array `receivers`, which may be
/// empty, of receivers.
pub open spec fn registration_fields_of(value: JsonValue) -> Option<RegistrationFieldsView> {
    match value {
        JsonValue::Object(fields) => {
            if text_field(fields, "receipt_id"@) is Some && text_field(
                fields,
                "encryption_key"@,
            ) is Some && fields.dom().contains("receivers"@) && fields["receivers"@] is Array
                && receivers_of(fields["receivers"@]->Array_0) is Some {
                Some(
                    RegistrationFieldsView {
                        receipt_id: text_field(fields, "receipt_id"@)->Some_0,
                        encryption_key: text_field(fields, "encryption_key"@)->Some_0,
                        receivers: receivers_of(fields["receivers"@]->Array_0)->Some_0,
                    },
                )
            } else {
                None
            }
        },
        _ => None,
    }
}

/// The registration record that written fields and the decoded key make: the
/// receipt identifier must not be empty, and the key must have been decoded to
/// `KEY_LEN` bytes.
pub open spec fn checked_record_of(
    fields: RegistrationFieldsView,
    key: Option<Seq<u8>>,
) -> Option<RegistrationRecordView> {
    if fields.receipt_id.len() > 0 && key is Some && key->Some_0.len() == KEY_LEN {
        Some(
            RegistrationRecordView {
                receipt_id: fields.receipt_id,
                encryption_key: key->Some_0,
                receivers: fields.receivers,
            },
        )
    } else {
        None
    }
}

/// The registration record that a JSON value describes: an object with a
/// `receipt_id` that is not empty, an `encryption_key` that is the base64 text
/// of `KEY_LEN` bytes, and an array `receivers`, which may be empty.
pub open spec fn registration_of(value: JsonValue) -> Option<RegistrationRecordView> {
    match registration_fields_of(value) {
        Some(fields) => checked_record_of(fields, base64_decoded(fields.encryption_key)),
        None => None,
    }
}

/// The registration record that the body of an answer holds.
pub open spec fn registration_in(body: Seq<char>) -> Option<RegistrationRecordView> {
    match parsed_document(body) {
        Some(value) => registration_of(value),
        None => None,
    }
}

/// The string under `key` of an object.
fn text_at<'a>(doc: &'a Document, key: &str) -> (text: Option<&'a String>)
    ensures
        match text {
            Some(s) => doc@ is Object && text_field(doc@->Object_0, key@) == Some(s@),
            None => doc@ is Object ==> text_field(doc@->Object_0, key@) is None,
        },
{
    match doc.get(key) {
        Some(value) => value.as_text(),
        None => None,
    }
}

/// Reads one receiver from its JSON description.
pub fn decode_receiver(doc: &Document) -> (result: Option<Receiver>)
    ensures
        match result {
            Some(receiver) => receiver_of(doc@) == Some(receiver@),
            None => receiver_of(doc@) is None,
        },
{
    let address = match text_at(doc, "address") {
        Some(s) => s.clone(),
        None => {
            return None;
        },
    };
    let org_id = match text_at(doc, "org_id") {
        Some(s) => s.clone(),
        None => {
            return None;
        },
    };
    let secret = match text_at(doc, "shared_secret") {
        Some(s) => s.clone(),
        None => {
            return None;
        },
    };
    let version = match text_at(doc, "version") {
        Some(s) => s.clone(),
        None => {
            return None;
        },
    };
    Some(Receiver { address, org_id, secret, version })
}

/// Reads a registration as it is written from its JSON description. Any
/// number of receivers is accepted, none too.
pub fn read_registration(doc: &Document) -> (result: Option<RegistrationFields>)
    ensures
        match result {
            Some(fields) => registration_fields_of(doc@) == Some(fields@),
            None => registration_fields_of(doc@) is None,
        },
{
    let receipt_id = match text_at(doc, "receipt_id") {
        Some(s) => s.clone(),
        None => {
            return None;
        },
    };
    let encryption_key = match text_at(doc, "encryption_key") {
        Some(s) => s.clone(),
        None => {
            return None;
        },
    };
    let items = match doc.get("receivers") {
        Some(value) => match value.as_array() {
            Some(items) => items,
            None => {
                return None;
            },
        },
        None => {
            return None;
        },
    };
    let mut receivers: Vec<Receiver> = Vec::new();
    let mut i: usize = 0;
    proof {
        lemma_items_view(items@);
    }
    while i < items.len()
        invariant
            i <= items.len(),
            receivers@.len() == i,
            doc@ is Object,
            doc@->Object_0.dom().contains("receivers"@),
            doc@->Object_0["receivers"@] == JsonValue::Array(items_view(items@)),
            items_view(items@).len() == items@.len(),
            forall|k: int| 0 <= k < items@.len() ==> (#[trigger] items_view(items@)[k]) == items@[k]@,
            forall|k: int|
                0 <= k < i ==> receiver_of(#[trigger] items_view(items@)[k]) == Some(
                    receivers@[k]@,
                ),
        decreases items.len() - i,
    {
        match decode_receiver(&items[i]) {
            Some(receiver) => {
                receivers.push(receiver);
            },
            None => {
                proof {
                    assert(receiver_of(items_view(items@)[i as int]) is None);
                }
                return None;
            },
        }
        i = i + 1;
    }
    let fields = RegistrationFields { receipt_id, encryption_key, receivers };
    proof {
        assert(receivers_of(items_view(items@)) is Some);
        assert(fields@.receivers =~= receivers_of(items_view(items@))->Some_0);
    }
    Some(fields)
}

/// Makes the registration record from the written fields and the key as it
/// was decoded: a record needs a receipt identifier that is not empty and a
/// key of `KEY_LEN` bytes.
pub fn checked_record(fields: RegistrationFields, key: Option<Vec<u8>>) -> (result: Option<
    RegistrationRecord,
>)
    ensures
        match result {
            Some(record) => checked_record_of(
                fields@,
                match key {
                    Some(bytes) => Some(bytes@),
                    None => None,
                },
            ) == Some(record@),
            None => checked_record_of(
                fields@,
                match key {
                    Some(bytes) => Some(bytes@),
                    None => None,
                },
            ) is None,
        },
{
    if fields.receipt_id.as_str().unicode_len() == 0 {
        return None;
    }
    match key {
        Some(encryption_key) => {
            if encryption_key.len() != KEY_LEN {
                return None;
            }
            Some(
                RegistrationRecord {
                    receipt_id: fields.receipt_id,
                    encryption_key,
                    receivers: fields.receivers,
                },
            )
        },
        None => None,
    }
}

/// Reads a registration record from its JSON description: reads the fields,
/// decodes the key from base64 and checks both.
pub fn decode_registration(doc: &Document) -> (result: Option<RegistrationRecord>)
    ensures
        match result {
            Some(record) => registration_of(doc@) == Some(record@),
            None => registration_of(doc@) is None,
        },
{
    match read_registration(doc) {
        Some(fields) => {
            let key = base64_decode(fields.encryption_key.as_str());
            checked_record(fields, key)
        },
        None => None,
    }
}

/// What to make of the registry's answer. A failure to reach the registry, a
/// status outside 200..=299 and a body that holds no registration record are
/// the three ways to fail; a record without receivers is a success.
pub fn registration_outcome(reply: &HttpReply) -> (result: Result<
    RegistrationRecord,
    RegistrationError,
>)
    ensures
        match reply {
            HttpReply::Unreachable { cause } => result matches Err(
                RegistrationError::Transport(kept),
            ) && kept@ == cause@,
            HttpReply::Answered { status, body } => if !is_success(*status) {
                result matches Err(RegistrationError::Status(code)) && code == *status
            } else {
                match registration_in(body@) {
                    Some(record) => result matches Ok(read) && read@ == record,
                    None => result matches Err(RegistrationError::Undecodable),
                }
            },
        },
{
    match reply {
        HttpReply::Unreachable { cause } => Err(RegistrationError::Transport(cause.clone())),
        HttpReply::Answered { status, body } => {
            if *status < 200 || *status >= 300 {
                return Err(RegistrationError::Status(*status));
            }
            let doc = match parse_document(body.as_str()) {
                Some(doc) => doc,
                None => {
                    return Err(RegistrationError::Undecodable);
                },
            };
            match decode_registration(&doc) {
                Some(record) => Ok(record),
                None => Err(RegistrationError::Undecodable),
            }
        },
    }
}

/// The signature of a request body for one receiver: the base64 text of the
/// HMAC-SHA1 tag of the body's bytes under the receiver's secret.
pub open spec fn token_of(body: Seq<char>, secret: Seq<char>) -> Seq<char> {
    base64_text(hmac_sha1_tag(encode_utf8(secret), encode_utf8(body)))
}

/// A byte string as JSON: the array of its bytes.
pub open spec fn bytes_json(bytes: Seq<u8>) -> JsonValue {
    JsonValue::Array(Seq::new(bytes.len(), |i: int| JsonValue::Number(bytes[i] as int)))
}

/// An envelope as JSON.
pub open spec fn envelope_json(envelope: EnvelopeView) -> JsonValue {
    JsonValue::Object(
        Map::<Seq<char>, JsonValue>::empty().insert(
            "fingerprint"@,
            JsonValue::Number(envelope.hash as int),
        ).insert("ciphertext"@, bytes_json(envelope.encrypted)).insert(
            "nonce"@,
            bytes_json(envelope.nonce),
        ),
    )
}

/// The body of a delivery: who sends, which receipt, and the envelope.
pub open spec fn delivery_body(
    client_id: Seq<char>,
    receipt_id: Seq<char>,
    envelope: EnvelopeView,
) -> JsonValue {
    JsonValue::Object(
        Map::<Seq<char>, JsonValue>::empty().insert(
            "sender_client_id"@,
            JsonValue::Text(client_id),
        ).insert("receipt_id"@, JsonValue::Text(receipt_id)).insert(
            "envelope"@,
            envelope_json(envelope),
        ),
    )
}

/// The POST of a body to a receiver: to the receiver's address, as JSON, signed
/// over the exact text of the body with the receiver's secret.
pub open spec fn signed_post(receiver: ReceiverView, body: Seq<char>) -> HttpRequestView {
    HttpRequestView {
        url: receiver.address,
        headers: seq![
            ("Content-Type"@, "application/json"@),
            ("X-Request-Signature"@, token_of(body, receiver.secret)),
        ],
        body,
    }
}

/// The delivery of an envelope to a receiver: the signed POST of the delivery
/// body as JSON text.
pub open spec fn delivery_request_of(
    receiver: ReceiverView,
    client_id: Seq<char>,
    receipt_id: Seq<char>,
    envelope: EnvelopeView,
) -> HttpRequestView {
    signed_post(receiver, json_text(delivery_body(client_id, receipt_id, envelope)))
}

/// Signs a request body with a receiver's secret.
pub fn generate_token(body: &str, secret: &str) -> (token: String)
    ensures
        token@ == token_of(body@, secret@),
{
    let code_bytes = hmac_sha1(secret.as_bytes(), body.as_bytes()).unwrap();
    base64_encode(code_bytes.as_slice())
}

/// The JSON array of the bytes.
fn bytes_document(bytes: &Vec<u8>) -> (doc: Document)
    ensures
        doc@ == bytes_json(bytes@),
{
    let mut items: Vec<Document> = Vec::new();
    let mut i: usize = 0;
    while i < bytes.len()
        invariant
            i <= bytes.len(),
            items@.len() == i,
            forall|k: int| 0 <= k < i ==> (#[trigger] items@[k])@ == JsonValue::Number(
                bytes@[k] as int,
            ),
        decreases bytes.len() - i,
    {
        items.push(Document::UInt(bytes[i] as u64));
        i = i + 1;
    }
    proof {
        lemma_items_view(items@);
        assert(items_view(items@) =~= Seq::new(
            bytes@.len(),
            |i: int| JsonValue::Number(bytes@[i] as int),
        ));
    }
    Document::Array(items)
}

/// What is delivered to a receiver: who sends, which receipt, and the envelope.
#[derive(Debug)]
pub struct ReceiverPayload {
    pub sender_client_id: String,
    pub receipt_id: String,
    pub envelope: Envelope,
}

impl ReceiverPayload {
    /// The payload as JSON.
    pub open spec fn json(self) -> JsonValue {
        delivery_body(self.sender_client_id@, self.receipt_id@, self.envelope@)
    }

    /// The payload as a JSON document.
    pub fn to_document(&self) -> (doc: Document)
        ensures
            doc@ == self.json(),
    {
        let mut sealed: Vec<(String, Document)> = Vec::new();
        assert(fields_view(sealed@) == Map::<Seq<char>, JsonValue>::empty());
        push_field(&mut sealed, "fingerprint", Document::UInt(self.envelope.hash));
        push_field(&mut sealed, "ciphertext", bytes_document(&self.envelope.encrypted));
        push_field(&mut sealed, "nonce", bytes_document(&self.envelope.nonce));
        let mut payload: Vec<(String, Document)> = Vec::new();
        assert(fields_view(payload@) == Map::<Seq<char>, JsonValue>::empty());
        push_field(&mut payload, "sender_client_id", Document::Text(self.sender_client_id.clone()));
        push_field(&mut payload, "receipt_id", Document::Text(self.receipt_id.clone()));
        push_field(&mut payload, "envelope", Document::Object(sealed));
        Document::Object(payload)
    }
}

/// Builds the POST of a body to a receiver: to the receiver's address, as
/// JSON, with the signature of exactly this body under the receiver's secret.
pub fn post_to_receiver(receiver: &Receiver, body: String) -> (request: HttpRequest)
    ensures
        request@ == signed_post(receiver@, body@),
{
    let token = generate_token(body.as_str(), receiver.secret.as_str());
    let mut headers: Vec<(String, String)> = Vec::new();
    headers.push(("Content-Type".to_owned(), "application/json".to_owned()));
    headers.push(("X-Request-Signature".to_owned(), token));
    let request = HttpRequest { url: receiver.address.clone(), headers, body };
    proof {
        assert(request@.headers =~= signed_post(receiver@, body@).headers);
    }
    request
}

/// Builds the signed delivery of a payload to a receiver: the body is the
/// payload as JSON text, and the signature is made over exactly that text.
pub fn signed_request(receiver: &Receiver, payload: &ReceiverPayload) -> (request: HttpRequest)
    ensures
        request@ == delivery_request_of(
            receiver@,
            payload.sender_client_id@,
            payload.receipt_id@,
            payload.envelope@,
        ),
{
    post_to_receiver(receiver, serialize_document(&payload.to_document()))
}

/// Seals the document for one receiver with the given nonce and builds the
/// signed delivery. It fails exactly when sealing fails.
pub fn delivery_request_with_nonce(
    receiver: &Receiver,
    client_id: &str,
    receipt_id: &str,
    key: &Vec<u8>,
    data: &Document,
    nonce: &Vec<u8>,
) -> (result: Result<HttpRequest, DeliveryError>)
    ensures
        match result {
            Ok(request) => seal_outcome(data@, key@, nonce@) is Ok && request@
                == delivery_request_of(
                receiver@,
                client_id@,
                receipt_id@,
                seal_outcome(data@, key@, nonce@)->Ok_0,
            ),
            Err(e) => seal_outcome(data@, key@, nonce@) is Err && e == DeliveryError::Seal(
                seal_outcome(data@, key@, nonce@)->Err_0,
            ),
        },
{
    match encrypt_envelope_with_nonce(data, key, nonce) {
        Ok(envelope) => {
            let payload = ReceiverPayload {
                sender_client_id: client_id.to_owned(),
                receipt_id: receipt_id.to_owned(),
                envelope,
            };
            Ok(signed_request(receiver, &payload))
        },
        Err(e) => Err(DeliveryError::Seal(e)),
    }
}

/// Seals the document for one receiver with a nonce drawn for this delivery
/// and builds the signed delivery. Each receiver gets an envelope of its own.
/// It fails exactly when the document cannot be sealed under the key.
pub fn delivery_request(
    receiver: &Receiver,
    client_id: &str,
    receipt_id: &str,
    key: &Vec<u8>,
    data: &Document,
) -> (result: Result<HttpRequest, DeliveryError>)
    ensures
        match result {
            Ok(request) => seal_failure(data@, key@) is None && exists|nonce: Seq<u8>|
                nonce.len() == NONCE_LEN && (#[trigger] seal_outcome(data@, key@, nonce)) is Ok
                    && request@ == delivery_request_of(
                    receiver@,
                    client_id@,
                    receipt_id@,
                    seal_outcome(data@, key@, nonce)->Ok_0,
                ),
            Err(e) => seal_failure(data@, key@) is Some && e == DeliveryError::Seal(
                seal_failure(data@, key@)->Some_0,
            ),
        },
{
    match encrypt_envelope(data, key) {
        Ok(envelope) => {
            proof {
                assert(seal_outcome(data@, key@, envelope@.nonce) is Ok);
            }
            let payload = ReceiverPayload {
                sender_client_id: client_id.to_owned(),
                receipt_id: receipt_id.to_owned(),
                envelope,
            };
            Ok(signed_request(receiver, &payload))
        },
        Err(e) => Err(DeliveryError::Seal(e)),
    }
}

/// What to make of a receiver's answer: any status in 200..=299 acknowledges
/// the delivery; every other status, and no answer at all, fails it.
pub fn delivery_outcome(reply: &HttpReply) -> (result: Result<(), DeliveryError>)
    ensures
        match reply {
            HttpReply::Unreachable { cause } => result matches Err(
                DeliveryError::Transport(kept),
            ) && kept@ == cause@,
            HttpReply::Answered { status, body } => if is_success(*status) {
                result is Ok
            } else {
                result matches Err(DeliveryError::Status(code)) && code == *status
            },
        },
{
    match reply {
        HttpReply::Unreachable { cause } => Err(DeliveryError::Transport(cause.clone())),
        HttpReply::Answered { status, body } => {
            if 200 <= *status && *status < 300 {
                Ok(())
            } else {
                Err(DeliveryError::Status(*status))
            }
        },
    }
}

/// Where the delivery to one receiver stands. `Acknowledged` and `Failed` are
/// final: an attempt is not retried.
#[derive(Debug, Clone, Copy, PartialEq, Eq, Structural)]
pub enum DeliveryState {
    Pending,
    Signing,
    Sending,
    Acknowledged,
    Failed,
}

/// What happens to the delivery to one receiver.
#[derive(Debug, Clone, Copy, PartialEq, Eq, Structural)]
pub enum DeliveryEvent {
    /// The document was sealed for the receiver.
    Sealed,
    /// The document could not be sealed.
    SealFailed,
    /// The request was signed and handed over for sending.
    Signed,
    /// The receiver answered with this status.
    Answered(u16),
    /// The receiver did not answer.
    Unreachable,
}

impl DeliveryEvent {
    /// The event is an answer to a request, or the lack of one.
    pub open spec fn is_answer(self) -> bool {
        self is Answered || self is Unreachable
    }
}

impl DeliveryState {
    /// `Acknowledged` or `Failed`.
    pub open spec fn is_final(self) -> bool {
        self is Acknowledged || self is Failed
    }

    /// How far the attempt has come: a final state is furthest.
    pub open spec fn rank(self) -> nat {
        match self {
            DeliveryState::Pending => 0,
            DeliveryState::Signing => 1,
            DeliveryState::Sending => 2,
            DeliveryState::Acknowledged => 3,
            DeliveryState::Failed => 3,
        }
    }

    /// The state after an event: `Pending` to `Signing` when the document is
    /// sealed, `Signing` to `Sending` when the request is signed, `Sending` to
    /// `Acknowledged` on a status in 200..=299 and to `Failed` on any other
    /// status or none; `Pending` to `Failed` when sealing fails. An event that
    /// the state does not wait for changes nothing.
    pub open spec fn after(self, event: DeliveryEvent) -> DeliveryState {
        match (self, event) {
            (DeliveryState::Pending, DeliveryEvent::Sealed) => DeliveryState::Signing,
            (DeliveryState::Pending, DeliveryEvent::SealFailed) => DeliveryState::Failed,
            (DeliveryState::Signing, DeliveryEvent::Signed) => DeliveryState::Sending,
            (DeliveryState::Sending, DeliveryEvent::Answered(status)) => if is_success(status) {
                DeliveryState::Acknowledged
            } else {
                DeliveryState::Failed
            },
            (DeliveryState::Sending, DeliveryEvent::Unreachable) => DeliveryState::Failed,
            _ => self,
        }
    }

    /// Moves the attempt by one event.
    pub fn advance(self, event: DeliveryEvent) -> (next: DeliveryState)
        ensures
            next == self.after(event),
    {
        match self {
            DeliveryState::Pending => match event {
                DeliveryEvent::Sealed => DeliveryState::Signing,
                DeliveryEvent::SealFailed => DeliveryState::Failed,
                _ => self,
            },
            DeliveryState::Signing => match event {
                DeliveryEvent::Signed => DeliveryState::Sending,
                _ => self,
            },
            DeliveryState::Sending => match event {
                DeliveryEvent::Answered(status) => if 200 <= status && status < 300 {
                    DeliveryState::Acknowledged
                } else {
                    DeliveryState::Failed
                },
                DeliveryEvent::Unreachable => DeliveryState::Failed,
                _ => self,
            },
            _ => self,
        }
    }
}

/// The event that an answer, or its absence, is for the attempt that waits
/// for it.
pub open spec fn event_of(reply: HttpReply) -> DeliveryEvent {
    match reply {
        HttpReply::Unreachable { .. } => DeliveryEvent::Unreachable,
        HttpReply::Answered { status, .. } => DeliveryEvent::Answered(status),
    }
}

/// A final state stays what it is, whatever happens.
pub proof fn law_final_states_are_final(state: DeliveryState, event: DeliveryEvent)
    requires
        state.is_final(),
    ensures
        state.after(event) == state,
{
}

/// An attempt never moves backwards, and it moves by one step at most unless
/// it fails.
pub proof fn law_attempt_only_advances(state: DeliveryState, event: DeliveryEvent)
    ensures
        state.rank() <= state.after(event).rank(),
        state.after(event) is Failed || state.after(event).rank() <= state.rank() + 1,
{
}

/// A delivery is acknowledged only by a status in 200..=299 that answers a
/// request that was sent.
pub proof fn law_acknowledged_only_by_success(state: DeliveryState, event: DeliveryEvent)
    requires
        !(state is Acknowledged),
        state.after(event) is Acknowledged,
    ensures
        state is Sending,
        event matches DeliveryEvent::Answered(status) && is_success(status),
{
}

/// An answer, or the lack of one, ends the attempt that waits for it.
pub proof fn law_answer_ends_sending(event: DeliveryEvent)
    requires
        event.is_answer(),
    ensures
        DeliveryState::Sending.after(event).is_final(),
{
}

/// Sending ends in `Acknowledged` exactly when `delivery_outcome` is `Ok`.
pub proof fn law_outcome_matches_state(reply: HttpReply, outcome: Result<(), DeliveryError>)
    requires
        match reply {
            HttpReply::Unreachable { .. } => outcome is Err,
            HttpReply::Answered { status, .. } => outcome is Ok <==> is_success(status),
        },
    ensures
        DeliveryState::Sending.after(event_of(reply)).is_final(),
        DeliveryState::Sending.after(event_of(reply)) is Acknowledged <==> outcome is Ok,
{
}

} // verus!
