//! The record of one completed inbound request.
use vstd::prelude::*;
use crate::duration::FormattedDuration;
use crate::maps::TextMap;
use crate::time::Timestamp;
use crate::deps::{duration_nanos, method_text, status_value};
use crate::uri::{UriParts, name_of, normalized_text, normalized_uri, request_name};

verus! {

/// Custom properties: text keys to text values.
pub type Properties = TextMap<String>;

/// Context tags: text keys to text values.
pub type ContextTags = TextMap<String>;

/// Custom measurements: text keys to the IEEE 754 bit patterns of 64-bit
/// floating-point values.
pub type Measurements = TextMap<u64>;

/// Whether a response code counts as a successful call: below 400, or 401.
pub open spec fn success_code(code: u16) -> bool {
    code < 400 || code == 401
}

/// One completed inbound request: identity, name, URI, duration, response code
/// and time, with custom properties, tags and measurements.
#[derive(Debug)]
pub struct RequestTelemetry {
    id: uuid::Uuid,
    name: String,
    uri: String,
    duration: FormattedDuration,
    response_code: u16,
    timestamp: Timestamp,
    properties: Properties,
    tags: ContextTags,
    measurements: Measurements,
}

impl RequestTelemetry {
    pub closed spec fn spec_id(&self) -> uuid::Uuid {
        self.id
    }

    pub closed spec fn spec_name(&self) -> Seq<char> {
        self.name@
    }

    pub closed spec fn spec_uri(&self) -> Seq<char> {
        self.uri@
    }

    pub closed spec fn spec_duration(&self) -> FormattedDuration {
        self.duration
    }

    pub closed spec fn spec_code(&self) -> u16 {
        self.response_code
    }

    pub closed spec fn spec_timestamp(&self) -> Timestamp {
        self.timestamp
    }

    pub closed spec fn spec_properties(&self) -> Properties {
        self.properties
    }

    pub closed spec fn spec_tags(&self) -> ContextTags {
        self.tags
    }

    pub closed spec fn spec_measurements(&self) -> Measurements {
        self.measurements
    }

    pub open spec fn wf(&self) -> bool {
        &&& self.spec_timestamp().wf()
        &&& self.spec_properties().wf()
        &&& self.spec_tags().wf()
        &&& self.spec_measurements().wf()
    }

    /// A record for a request with verb `verb` to the URI of `parts`, served in
    /// `nanos` nanoseconds with response code `response_code`, identified by `id`
    /// and measured at `timestamp`. The URI is normalised and the name is the
    /// verb followed by that URI; the maps start empty.
    pub fn from_parts(
        verb: &str,
        parts: &UriParts,
        nanos: u128,
        response_code: u16,
        id: uuid::Uuid,
        timestamp: Timestamp,
    ) -> (r: RequestTelemetry)
        requires
            timestamp.wf(),
        ensures
            r.wf(),
            r.spec_uri() == normalized_text(*parts),
            r.spec_name() == request_name(verb@, normalized_text(*parts)),
            r.spec_duration().nanos == nanos,
            r.spec_code() == response_code,
            r.spec_id() == id,
            r.spec_timestamp() == timestamp,
            r.spec_properties()@ == Map::<Seq<char>, String>::empty(),
            r.spec_tags()@ == Map::<Seq<char>, String>::empty(),
            r.spec_measurements()@ == Map::<Seq<char>, u64>::empty(),
    {
        let uri = parts.normalize();
        let name = name_of(verb, &uri);
        RequestTelemetry {
            id,
            name,
            uri,
            duration: FormattedDuration::from_nanos(nanos),
            response_code,
            timestamp,
            properties: TextMap::new(),
            tags: TextMap::new(),
            measurements: TextMap::new(),
        }
    }

    /// A record for an http request, with the given identifier and time.
    pub fn with_identity(
        method: http::Method,
        uri: http::Uri,
        duration: std::time::Duration,
        response_code: http::StatusCode,
        id: uuid::Uuid,
        timestamp: Timestamp,
    ) -> (r: RequestTelemetry)
        requires
            timestamp.wf(),
        ensures
            r.wf(),
            r.spec_id() == id,
            r.spec_timestamp() == timestamp,
            r.spec_code() == status_value(response_code),
            100 <= r.spec_code() < 1000,
            r.spec_duration().nanos == duration_nanos(duration),
            r.spec_uri() == normalized_uri(uri),
            r.spec_name() == request_name(method_text(method), normalized_uri(uri)),
            r.spec_properties()@ == Map::<Seq<char>, String>::empty(),
            r.spec_tags()@ == Map::<Seq<char>, String>::empty(),
            r.spec_measurements()@ == Map::<Seq<char>, u64>::empty(),
    {
        let parts = UriParts::of(&uri);
        RequestTelemetry::from_parts(
            method.as_str(),
            &parts,
            duration.as_nanos(),
            response_code.as_u16(),
            id,
            timestamp,
        )
    }

    /// A record for an http request, with a fresh random identifier and the
    /// current time.
    pub fn new(
        method: http::Method,
        uri: http::Uri,
        duration: std::time::Duration,
        response_code: http::StatusCode,
    ) -> (r: RequestTelemetry)
        ensures
            r.wf(),
            r.spec_code() == status_value(response_code),
            100 <= r.spec_code() < 1000,
            r.spec_duration().nanos == duration_nanos(duration),
            r.spec_uri() == normalized_uri(uri),
            r.spec_name() == request_name(method_text(method), normalized_uri(uri)),
            r.spec_properties()@ == Map::<Seq<char>, String>::empty(),
            r.spec_tags()@ == Map::<Seq<char>, String>::empty(),
            r.spec_measurements()@ == Map::<Seq<char>, u64>::empty(),
    {
        let id = uuid::Uuid::new_v4();
        let timestamp = Timestamp::now();
        RequestTelemetry::with_identity(method, uri, duration, response_code, id, timestamp)
    }

    /// Whether the call succeeded: a response code below 400, or 401.
    pub fn is_success(&self) -> (r: bool)
        ensures
            r == success_code(self.spec_code()),
    {
        self.response_code < 400 || self.response_code == 401
    }

    pub fn id(&self) -> (r: &uuid::Uuid)
        ensures
            *r == self.spec_id(),
    {
        &self.id
    }

    pub fn name(&self) -> (r: &String)
        ensures
            r@ == self.spec_name(),
    {
        &self.name
    }

    pub fn uri(&self) -> (r: &String)
        ensures
            r@ == self.spec_uri(),
    {
        &self.uri
    }

    pub fn duration(&self) -> (r: FormattedDuration)
        ensures
            r == self.spec_duration(),
    {
        self.duration
    }

    pub fn response_code(&self) -> (r: u16)
        ensures
            r == self.spec_code(),
    {
        self.response_code
    }

    /// The time when the request was measured.
    pub fn timestamp(&self) -> (r: Timestamp)
        ensures
            r == self.spec_timestamp(),
    {
        self.timestamp
    }

    /// The custom properties.
    pub fn properties(&self) -> (r: &Properties)
        ensures
            *r == self.spec_properties(),
    {
        &self.properties
    }

    /// The custom properties, to change.
    pub fn properties_mut(&mut self) -> (r: &mut Properties)
        ensures
            *r == old(self).spec_properties(),
            final(self).spec_properties() == *final(r),
            final(self).spec_id() == old(self).spec_id(),
            final(self).spec_name() == old(self).spec_name(),
            final(self).spec_uri() == old(self).spec_uri(),
            final(self).spec_duration() == old(self).spec_duration(),
            final(self).spec_code() == old(self).spec_code(),
            final(self).spec_timestamp() == old(self).spec_timestamp(),
            final(self).spec_tags() == old(self).spec_tags(),
            final(self).spec_measurements() == old(self).spec_measurements(),
    {
        &mut self.properties
    }

    /// The tags, which win over the context's tags of the same key.
    pub fn tags(&self) -> (r: &ContextTags)
        ensures
            *r == self.spec_tags(),
    {
        &self.tags
    }

    /// The tags, to change.
    pub fn tags_mut(&mut self) -> (r: &mut ContextTags)
        ensures
            *r == old(self).spec_tags(),
            final(self).spec_tags() == *final(r),
            final(self).spec_id() == old(self).spec_id(),
            final(self).spec_name() == old(self).spec_name(),
            final(self).spec_uri() == old(self).spec_uri(),
            final(self).spec_duration() == old(self).spec_duration(),
            final(self).spec_code() == old(self).spec_code(),
            final(self).spec_timestamp() == old(self).spec_timestamp(),
            final(self).spec_properties() == old(self).spec_properties(),
            final(self).spec_measurements() == old(self).spec_measurements(),
    {
        &mut self.tags
    }

    /// The custom measurements.
    pub fn measurements(&self) -> (r: &Measurements)
        ensures
            *r == self.spec_measurements(),
    {
        &self.measurements
    }

    /// The custom measurements, to change.
    pub fn measurements_mut(&mut self) -> (r: &mut Measurements)
        ensures
            *r == old(self).spec_measurements(),
            final(self).spec_measurements() == *final(r),
            final(self).spec_id() == old(self).spec_id(),
            final(self).spec_name() == old(self).spec_name(),
            final(self).spec_uri() == old(self).spec_uri(),
            final(self).spec_duration() == old(self).spec_duration(),
            final(self).spec_code() == old(self).spec_code(),
            final(self).spec_timestamp() == old(self).spec_timestamp(),
            final(self).spec_properties() == old(self).spec_properties(),
            final(self).spec_tags() == old(self).spec_tags(),
    {
        &mut self.measurements
    }

    /// Takes the record apart: name, URI, properties, tags and measurements.
    pub(crate) fn into_parts(self) -> (r: (String, String, Properties, ContextTags, Measurements))
        ensures
            r.0@ == self.spec_name(),
            r.1@ == self.spec_uri(),
            r.2 == self.spec_properties(),
            r.3 == self.spec_tags(),
            r.4 == self.spec_measurements(),
    {
        (self.name, self.uri, self.properties, self.tags, self.measurements)
    }
}

} // verus!
