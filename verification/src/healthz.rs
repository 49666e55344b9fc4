//! What the service says of itself when asked whether it is alive.

use vstd::prelude::*;
use crate::document::{Document, JsonValue, fields_view, push_field};

verus! {

/// A point in time: seconds and nanoseconds since the Unix epoch.
#[derive(Debug, Clone, Copy, PartialEq, Eq, Structural)]
pub struct SystemTime {
    pub secs_since_epoch: u64,
    pub nanos_since_epoch: u32,
}

/// What the service says of itself.
#[derive(Debug)]
pub struct ServiceInfo {
    pub service_name: String,
    pub service_profile: String,
    pub service_version: String,
    pub system_time: SystemTime,
}

/// Describes the service: its name, the profile it runs under, its version and
/// the time of the answer.
pub fn service_info(service_profile: String, service_version: String, system_time: SystemTime) -> (info:
    ServiceInfo)
    ensures
        info.service_name@ == "adapter-client-stripe"@,
        info.service_profile == service_profile,
        info.service_version == service_version,
        info.system_time == system_time,
{
    ServiceInfo {
        service_name: "adapter-client-stripe".to_owned(),
        service_profile,
        service_version,
        system_time,
    }
}

impl ServiceInfo {
    /// The description as JSON.
    pub open spec fn json(self) -> JsonValue {
        JsonValue::Object(
            Map::<Seq<char>, JsonValue>::empty().insert(
                "service_name"@,
                JsonValue::Text(self.service_name@),
            ).insert("service_profile"@, JsonValue::Text(self.service_profile@)).insert(
                "service_version"@,
                JsonValue::Text(self.service_version@),
            ).insert(
                "system_time"@,
                JsonValue::Object(
                    Map::<Seq<char>, JsonValue>::empty().insert(
                        "secs_since_epoch"@,
                        JsonValue::Number(self.system_time.secs_since_epoch as int),
                    ).insert(
                        "nanos_since_epoch"@,
                        JsonValue::Number(self.system_time.nanos_since_epoch as int),
                    ),
                ),
            ),
        )
    }

    /// The description as a JSON document, for the body of the answer.
    pub fn to_document(&self) -> (doc: Document)
        ensures
            doc@ == self.json(),
    {
        let mut time: Vec<(String, Document)> = Vec::new();
        assert(fields_view(time@) == Map::<Seq<char>, JsonValue>::empty());
        push_field(&mut time, "secs_since_epoch", Document::UInt(self.system_time.secs_since_epoch));
        push_field(
            &mut time,
            "nanos_since_epoch",
            Document::UInt(self.system_time.nanos_since_epoch as u64),
        );
        let mut fields: Vec<(String, Document)> = Vec::new();
        assert(fields_view(fields@) == Map::<Seq<char>, JsonValue>::empty());
        push_field(&mut fields, "service_name", Document::Text(self.service_name.clone()));
        push_field(&mut fields, "service_profile", Document::Text(self.service_profile.clone()));
        push_field(&mut fields, "service_version", Document::Text(self.service_version.clone()));
        push_field(&mut fields, "system_time", Document::Object(time));
        Document::Object(fields)
    }
}

} // verus!
