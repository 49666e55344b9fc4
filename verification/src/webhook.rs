//! One invocation: a billing event is admitted, its receipt is registered, and
//! the receipt is delivered to every receiver that the registry names. The
//! caller reads and sends; what to do next is decided here.

use vstd::prelude::*;
use crate::config::Config;
use crate::data_adapter::{Invoice, same_text};
use crate::document::{Document, JsonValue};
use crate::encryption::{KEY_LEN, NONCE_LEN, fingerprint, generate_hash, seal_outcome};
use crate::json::canonical_json;
use crate::model::{Receiver, ReceiverView, RoutingInfo};
use crate::protocol::{
    DeliveryEvent, DeliveryState, HttpReply, HttpRequest, HttpRequestView, RegistrationRecordView,
    delivery_request, delivery_request_of, event_of, is_success, receivers_view,
    registration_in, registration_outcome, registration_request, registration_request_of,
    text_of,
};

verus! {

/// The status that reports an invocation as accepted.
pub const ACCEPTED: u16 = 202;

/// Why an invocation is turned away.
#[derive(Debug, Clone, Copy, PartialEq, Eq, Structural)]
pub enum Rejection {
    /// The secret that validates billing events is not configured.
    MissingWebhookSecret,
    /// The request has no signature header.
    MissingSignature,
    /// The signature header is no text.
    UnreadableSignature,
    /// The body of the request could not be read.
    UnreadableBody,
    /// The body of the request is no UTF-8 text.
    BodyNotText,
    /// The event does not carry a valid signature of the billing provider.
    InvalidEvent,
    /// The event is of a type other than a paid invoice.
    UnsupportedEventType,
    /// The event holds no invoice.
    MissingInvoice,
    /// The invoice names no e-mail address of the customer.
    MissingCustomerEmail,
    /// The receipt has no canonical form.
    Unserializable,
    /// The registration failed.
    RegistrationFailed,
}

impl Rejection {
    /// The HTTP status that answers the billing provider.
    pub open spec fn status(self) -> u16 {
        match self {
            Rejection::MissingWebhookSecret => 503,
            Rejection::MissingSignature => 401,
            Rejection::UnreadableSignature => 401,
            Rejection::UnreadableBody => 400,
            Rejection::BodyNotText => 400,
            Rejection::InvalidEvent => 401,
            Rejection::UnsupportedEventType => 405,
            Rejection::MissingInvoice => 400,
            Rejection::MissingCustomerEmail => 400,
            Rejection::Unserializable => 500,
            Rejection::RegistrationFailed => 503,
        }
    }

    /// The HTTP status that answers the billing provider.
    pub fn status_code(&self) -> (code: u16)
        ensures
            code == self.status(),
            400 <= code < 600,
    {
        match self {
            Rejection::MissingWebhookSecret => 503,
            Rejection::MissingSignature => 401,
            Rejection::UnreadableSignature => 401,
            Rejection::UnreadableBody => 400,
            Rejection::BodyNotText => 400,
            Rejection::InvalidEvent => 401,
            Rejection::UnsupportedEventType => 405,
            Rejection::MissingInvoice => 400,
            Rejection::MissingCustomerEmail => 400,
            Rejection::Unserializable => 500,
            Rejection::RegistrationFailed => 503,
        }
    }
}

/// What the request says of its signature.
#[derive(Debug, Clone, Copy, PartialEq, Eq, Structural)]
pub enum SignatureHeader {
    Missing,
    Unreadable,
    Present,
}

/// What came of reading the body of the request.
#[derive(Debug, Clone, Copy, PartialEq, Eq, Structural)]
pub enum BodyRead {
    Failed,
    NotText,
    Text,
}

/// What the billing provider's check made of the event.
#[derive(Debug, Clone, Copy, PartialEq, Eq, Structural)]
pub enum EventCheck {
    /// The signature does not match, or the event cannot be read.
    Invalid,
    /// The event is valid but no paid invoice.
    OtherType,
    /// The event is a paid invoice without the invoice.
    WithoutInvoice,
    /// The event is a paid invoice.
    PaidInvoice,
}

/// The first reason, in the order in which a request is looked at, to turn it
/// away before its body is read: no configured secret, then no signature, then
/// a signature that is no text.
pub open spec fn headers_rejection(has_secret: bool, signature: SignatureHeader) -> Option<
    Rejection,
> {
    if !has_secret {
        Some(Rejection::MissingWebhookSecret)
    } else {
        match signature {
            SignatureHeader::Missing => Some(Rejection::MissingSignature),
            SignatureHeader::Unreadable => Some(Rejection::UnreadableSignature),
            SignatureHeader::Present => None,
        }
    }
}

/// Decides from the configuration and the headers whether to read the body.
pub fn admit_headers(has_secret: bool, signature: SignatureHeader) -> (result: Result<
    (),
    Rejection,
>)
    ensures
        match result {
            Ok(_) => headers_rejection(has_secret, signature) is None,
            Err(r) => headers_rejection(has_secret, signature) == Some(r),
        },
{
    if !has_secret {
        return Err(Rejection::MissingWebhookSecret);
    }
    match signature {
        SignatureHeader::Missing => Err(Rejection::MissingSignature),
        SignatureHeader::Unreadable => Err(Rejection::UnreadableSignature),
        SignatureHeader::Present => Ok(()),
    }
}

/// Decides from the body whether to check the event.
pub fn admit_body(body: BodyRead) -> (result: Result<(), Rejection>)
    ensures
        match body {
            BodyRead::Failed => result == Err::<(), Rejection>(Rejection::UnreadableBody),
            BodyRead::NotText => result == Err::<(), Rejection>(Rejection::BodyNotText),
            BodyRead::Text => result is Ok,
        },
{
    match body {
        BodyRead::Failed => Err(Rejection::UnreadableBody),
        BodyRead::NotText => Err(Rejection::BodyNotText),
        BodyRead::Text => Ok(()),
    }
}

/// Decides from the checked event whether there is an invoice to work on.
pub fn admit_event(check: EventCheck) -> (result: Result<(), Rejection>)
    ensures
        match check {
            EventCheck::Invalid => result == Err::<(), Rejection>(Rejection::InvalidEvent),
            EventCheck::OtherType => result == Err::<(), Rejection>(
                Rejection::UnsupportedEventType,
            ),
            EventCheck::WithoutInvoice => result == Err::<(), Rejection>(
                Rejection::MissingInvoice,
            ),
            EventCheck::PaidInvoice => result is Ok,
        },
{
    match check {
        EventCheck::Invalid => Err(Rejection::InvalidEvent),
        EventCheck::OtherType => Err(Rejection::UnsupportedEventType),
        EventCheck::WithoutInvoice => Err(Rejection::MissingInvoice),
        EventCheck::PaidInvoice => Ok(()),
    }
}

/// Decides from the invoice whether its receipt can be routed: the registry is
/// asked on behalf of the customer's e-mail address, so an invoice without one
/// is turned away.
pub fn routing_of(invoice: &Invoice) -> (result: Result<RoutingInfo, Rejection>)
    ensures
        match result {
            Ok(routing) => invoice.customer_email is Some && same_text(
                routing.email,
                invoice.customer_email,
            ) && routing.bin is None && routing.par is None,
            Err(rejection) => invoice.customer_email is None && rejection
                == Rejection::MissingCustomerEmail,
        },
{
    match &invoice.customer_email {
        Some(email) => Ok(RoutingInfo { email: Some(email.clone()), bin: None, par: None }),
        None => Err(Rejection::MissingCustomerEmail),
    }
}

/// What the caller is to do next.
#[derive(Debug)]
pub enum Step {
    /// Send the request and hand the answer to `on_reply`.
    Send(HttpRequest),
    /// Answer the billing provider with this status: the invocation is over.
    Respond(u16),
}

/// The distribution of one receipt: the registration, then one delivery after
/// the other. A delivery that fails is counted and the next receiver is served;
/// once the registration has succeeded the invocation ends as accepted.
pub struct Distribution {
    client_id: String,
    document: Document,
    registered: bool,
    receipt_id: String,
    key: Vec<u8>,
    receivers: Vec<Receiver>,
    states: Vec<DeliveryState>,
    finished: Option<u16>,
}

/// What a distribution holds.
pub struct DistributionView {
    pub client_id: Seq<char>,
    pub document: JsonValue,
    /// Whether the registry has answered with a registration record.
    pub registered: bool,
    pub receipt_id: Seq<char>,
    pub key: Seq<u8>,
    pub receivers: Seq<ReceiverView>,
    /// The final state of each delivery that is over, in the order of the
    /// receivers.
    pub states: Seq<DeliveryState>,
    /// The status that ended the invocation.
    pub finished: Option<u16>,
}

impl DistributionView {
    /// What always holds of a distribution.
    pub open spec fn well_formed(self) -> bool {
        &&& self.document.canonicalizable()
        &&& self.states.len() <= self.receivers.len()
        &&& forall|i: int| 0 <= i < self.states.len() ==> (#[trigger] self.states[i]).is_final()
        &&& self.registered ==> self.key.len() == KEY_LEN
        &&& !self.registered ==> self.receivers.len() == 0
        &&& self.finished is None && self.registered ==> self.states.len() < self.receivers.len()
        &&& self.finished is Some && self.registered ==> self.states.len()
            == self.receivers.len() && self.finished == Some(ACCEPTED)
    }

    /// Where the delivery to receiver `i` stands: final once it is over,
    /// `Sending` while its answer is awaited, `Pending` before.
    pub open spec fn state_of(self, i: int) -> DeliveryState {
        if 0 <= i < self.states.len() {
            self.states[i]
        } else if i == self.states.len() && self.registered && self.finished is None {
            DeliveryState::Sending
        } else {
            DeliveryState::Pending
        }
    }

    /// The distribution after the delivery that was awaited is settled by
    /// `event`: its final state is recorded, and the invocation is over, as
    /// accepted, once this has been done for the last receiver.
    pub open spec fn settled(self, event: DeliveryEvent) -> DistributionView {
        let states = self.states.push(DeliveryState::Sending.after(event));
        DistributionView {
            states,
            finished: if states.len() == self.receivers.len() {
                Some(ACCEPTED)
            } else {
                None
            },
            ..self
        }
    }

    /// The distribution after one delivery after the other is settled by the
    /// events, in order.
    pub open spec fn settled_all(self, events: Seq<DeliveryEvent>) -> DistributionView
        decreases events.len(),
    {
        if events.len() == 0 {
            self
        } else {
            self.settled_all(events.drop_last()).settled(events.last())
        }
    }

    /// Whether `request` delivers the document to receiver `i`, sealed under
    /// the key of the registration with some nonce of the right length.
    pub open spec fn delivers_to(self, i: int, request: HttpRequestView) -> bool {
        exists|nonce: Seq<u8>|
            nonce.len() == NONCE_LEN && (#[trigger] seal_outcome(self.document, self.key, nonce))
                is Ok && request == delivery_request_of(
                self.receivers[i],
                self.client_id,
                self.receipt_id,
                seal_outcome(self.document, self.key, nonce)->Ok_0,
            )
    }
}

/// How many deliveries of the list were acknowledged.
pub open spec fn acknowledged_in(states: Seq<DeliveryState>) -> nat
    decreases states.len(),
{
    if states.len() == 0 {
        0
    } else {
        acknowledged_in(states.drop_last()) + if states.last() is Acknowledged {
            1nat
        } else {
            0nat
        }
    }
}

/// How many deliveries reached a receiver, and how many did not.
#[derive(Debug, Clone, Copy, PartialEq, Eq, Structural)]
pub struct DeliveryReport {
    pub delivered: usize,
    pub failed: usize,
}

impl View for Distribution {
    type V = DistributionView;

    closed spec fn view(&self) -> DistributionView {
        DistributionView {
            client_id: self.client_id@,
            document: self.document@,
            registered: self.registered,
            receipt_id: self.receipt_id@,
            key: self.key@,
            receivers: receivers_view(self.receivers@),
            states: self.states@,
            finished: self.finished,
        }
    }
}

impl Distribution {
    #[verifier::type_invariant]
    spec fn holds_together(self) -> bool {
        self@.well_formed()
    }

    /// Starts the distribution of a receipt: computes its fingerprint and
    /// builds the registration request. A receipt without canonical form ends
    /// the invocation before anything is sent.
    pub fn begin(config: &Config, document: Document, routing: &RoutingInfo) -> (result: Result<
        (Distribution, HttpRequest),
        Rejection,
    >)
        ensures
            match result {
                Ok((distribution, request)) => {
                    &&& document@.canonicalizable()
                    &&& request@ == registration_request_of(
                        config.registry_url@,
                        config.client_id@,
                        config.client_secret@,
                        text_of(routing.email),
                        text_of(routing.bin),
                        fingerprint(canonical_json(document@)),
                    )
                    &&& distribution@.well_formed()
                    &&& distribution@.client_id == config.client_id@
                    &&& distribution@.document == document@
                    &&& !distribution@.registered
                    &&& distribution@.states.len() == 0
                    &&& distribution@.finished is None
                },
                Err(rejection) => !document@.canonicalizable() && rejection
                    == Rejection::Unserializable,
            },
    {
        let hash = match generate_hash(&document) {
            Ok(hash) => hash,
            Err(_) => {
                return Err(Rejection::Unserializable);
            },
        };
        let request = registration_request(
            config.registry_url.as_str(),
            config.client_id.as_str(),
            config.client_secret.as_str(),
            routing,
            hash,
        );
        let distribution = Distribution {
            client_id: config.client_id.clone(),
            document,
            registered: false,
            receipt_id: String::new(),
            key: Vec::new(),
            receivers: Vec::new(),
            states: Vec::new(),
            finished: None,
        };
        Ok((distribution, request))
    }

    /// The status that ended the invocation, once it is over.
    pub fn finished(&self) -> (status: Option<u16>)
        ensures
            status == self@.finished,
    {
        self.finished
    }

    /// Where the delivery to receiver `i` stands.
    pub fn state_of(&self, i: usize) -> (state: DeliveryState)
        ensures
            state == self@.state_of(i as int),
    {
        if i < self.states.len() {
            self.states[i]
        } else if i == self.states.len() && self.registered && self.finished.is_none() {
            DeliveryState::Sending
        } else {
            DeliveryState::Pending
        }
    }

    /// Counts the deliveries that are over: those acknowledged and those
    /// failed. Together they are as many as deliveries are over.
    pub fn report(&self) -> (report: DeliveryReport)
        ensures
            report.delivered == acknowledged_in(self@.states),
            report.delivered + report.failed == self@.states.len(),
    {
        let mut delivered: usize = 0;
        let mut i: usize = 0;
        while i < self.states.len()
            invariant
                i <= self.states.len(),
                delivered <= i,
                delivered == acknowledged_in(self.states@.take(i as int)),
            decreases self.states.len() - i,
        {
            proof {
                assert(self.states@.take(i + 1).drop_last() == self.states@.take(i as int));
            }
            if self.states[i] == DeliveryState::Acknowledged {
                delivered = delivered + 1;
            }
            i = i + 1;
        }
        proof {
            assert(self.states@.take(self.states.len() as int) == self.states@);
        }
        DeliveryReport { delivered, failed: self.states.len() - delivered }
    }

    /// Builds the delivery to the receiver whose turn it is.
    fn next_delivery(&self) -> (request: HttpRequest)
        requires
            self@.registered,
            self@.states.len() < self@.receivers.len(),
        ensures
            self@.delivers_to(self@.states.len() as int, request@),
    {
        proof {
            use_type_invariant(self);
        }
        let i = self.states.len();
        let built = delivery_request(
            &self.receivers[i],
            self.client_id.as_str(),
            self.receipt_id.as_str(),
            &self.key,
            &self.document,
        );
        match built {
            Ok(request) => request,
            Err(_) => unreached(),
        }
    }

    /// Takes the answer to the request that was handed out last and says what
    /// to do next.
    ///
    /// While the registration is awaited: a failure ends the invocation with
    /// status 503; a record without receivers ends it as accepted; a record
    /// with receivers starts the delivery to the first.
    ///
    /// While a delivery is awaited: the answer settles that delivery, as
    /// acknowledged or as failed, and either way the next receiver is served;
    /// after the last one the invocation ends as accepted.
    ///
    /// Once the invocation is over, nothing changes any more.
    pub fn on_reply(self, reply: &HttpReply) -> (next: (Distribution, Step))
        ensures
            self@.well_formed(),
            next.0@.well_formed(),
            next.0@.client_id == self@.client_id,
            next.0@.document == self@.document,
            self@.finished matches Some(status) ==> next.0@ == self@ && next.1 == Step::Respond(
                status,
            ),
            self@.finished is None && !self@.registered ==> match registration_of_reply(*reply) {
                None => next.0@ == (DistributionView {
                    finished: Some(Rejection::RegistrationFailed.status()),
                    ..self@
                }) && next.1 == Step::Respond(Rejection::RegistrationFailed.status()),
                Some(record) => {
                    &&& next.0@.registered
                    &&& next.0@.receipt_id == record.receipt_id
                    &&& next.0@.key == record.encryption_key
                    &&& next.0@.receivers == record.receivers
                    &&& next.0@.states.len() == 0
                    &&& if record.receivers.len() == 0 {
                        next.0@.finished == Some(ACCEPTED) && next.1 == Step::Respond(ACCEPTED)
                    } else {
                        next.0@.finished is None && (next.1 matches Step::Send(request)
                            && next.0@.delivers_to(0, request@))
                    }
                },
            },
            self@.finished is None && self@.registered ==> {
                &&& next.0@ == self@.settled(event_of(*reply))
                &&& if next.0@.finished is Some {
                    next.1 == Step::Respond(ACCEPTED)
                } else {
                    next.1 matches Step::Send(request) && next.0@.delivers_to(
                        next.0@.states.len() as int,
                        request@,
                    )
                }
            },
    {
        proof {
            use_type_invariant(&self);
        }
        if let Some(status) = self.finished {
            return (self, Step::Respond(status));
        }
        let Distribution {
            client_id,
            document,
            registered,
            receipt_id,
            key,
            receivers,
            states,
            finished,
        } = self;
        let mut states = states;
        let settled = if !registered {
            match registration_outcome(reply) {
                Err(_) => {
                    let status = Rejection::RegistrationFailed.status_code();
                    let ended = Distribution {
                        client_id,
                        document,
                        registered,
                        receipt_id,
                        key,
                        receivers,
                        states,
                        finished: Some(status),
                    };
                    return (ended, Step::Respond(status));
                },
                Ok(record) => {
                    let nobody = record.receivers.len() == 0;
                    Distribution {
                        client_id,
                        document,
                        registered: true,
                        receipt_id: record.receipt_id,
                        key: record.encryption_key,
                        receivers: record.receivers,
                        states,
                        finished: if nobody {
                            Some(ACCEPTED)
                        } else {
                            None
                        },
                    }
                },
            }
        } else {
            let event = match reply {
                HttpReply::Unreachable { .. } => DeliveryEvent::Unreachable,
                HttpReply::Answered { status, .. } => DeliveryEvent::Answered(*status),
            };
            states.push(DeliveryState::Sending.advance(event));
            let over = states.len() == receivers.len();
            Distribution {
                client_id,
                document,
                registered,
                receipt_id,
                key,
                receivers,
                states,
                finished: if over {
                    Some(ACCEPTED)
                } else {
                    None
                },
            }
        };
        if settled.finished.is_some() {
            (settled, Step::Respond(ACCEPTED))
        } else {
            let request = settled.next_delivery();
            (settled, Step::Send(request))
        }
    }
}

/// The registration record that an answer of the registry holds: the answer
/// has a status in 200..=299 and a body that describes a record.
pub open spec fn registration_of_reply(reply: HttpReply) -> Option<RegistrationRecordView> {
    match reply {
        HttpReply::Unreachable { .. } => None,
        HttpReply::Answered { status, body } => if is_success(status) {
            registration_in(body@)
        } else {
            None
        },
    }
}

/// Every receiver is served, whatever became of the others: starting from a
/// registration with receivers, one answer per receiver ends the invocation
/// as accepted and not before; the state of each delivery is what its own
/// answer makes of it.
pub proof fn law_every_receiver_is_served(start: DistributionView, events: Seq<DeliveryEvent>)
    requires
        start.well_formed(),
        start.registered,
        start.finished is None,
        start.states.len() == 0,
        events.len() == start.receivers.len(),
        forall|i: int| 0 <= i < events.len() ==> (#[trigger] events[i]).is_answer(),
    ensures
        start.settled_all(events).finished == Some(ACCEPTED),
        start.settled_all(events).states.len() == start.receivers.len(),
        forall|i: int|
            0 <= i < events.len() ==> #[trigger] start.settled_all(events).states[i]
                == DeliveryState::Sending.after(events[i]),
        forall|k: int|
            0 <= k < events.len() ==> (#[trigger] start.settled_all(events.take(k))).finished
                is None,
{
    lemma_settled_prefix(start, events, events.len() as int);
    assert(events.take(events.len() as int) == events);
    assert forall|k: int| 0 <= k < events.len() implies (#[trigger] start.settled_all(
        events.take(k),
    )).finished is None by {
        lemma_settled_prefix(start, events, k);
    }
}

/// What holds after the first `k` deliveries are settled.
proof fn lemma_settled_prefix(start: DistributionView, events: Seq<DeliveryEvent>, k: int)
    requires
        start.well_formed(),
        start.registered,
        start.finished is None,
        start.states.len() == 0,
        events.len() == start.receivers.len(),
        forall|i: int| 0 <= i < events.len() ==> (#[trigger] events[i]).is_answer(),
        0 <= k <= events.len(),
    ensures
        start.settled_all(events.take(k)).well_formed(),
        start.settled_all(events.take(k)).receivers == start.receivers,
        start.settled_all(events.take(k)).registered,
        start.settled_all(events.take(k)).states.len() == k,
        forall|i: int|
            0 <= i < k ==> #[trigger] start.settled_all(events.take(k)).states[i]
                == DeliveryState::Sending.after(events[i]),
        start.settled_all(events.take(k)).finished == if k == events.len() {
            Some(ACCEPTED)
        } else {
            None
        },
    decreases k,
{
    if k == 0 {
        assert(events.take(0).len() == 0);
    } else {
        lemma_settled_prefix(start, events, k - 1);
        assert(events.take(k).drop_last() == events.take(k - 1));
        assert(events.take(k).last() == events[k - 1]);
        let before = start.settled_all(events.take(k - 1));
        let after = before.settled(events[k - 1]);
        assert(start.settled_all(events.take(k)) == after);
        assert forall|i: int| 0 <= i < after.states.len() implies (#[trigger] after.states[i])
            .is_final() by {
            if i < before.states.len() {
                assert(after.states[i] == before.states[i]);
            } else {
                assert(events[k - 1].is_answer());
            }
        }
    }
}

} // verus!
