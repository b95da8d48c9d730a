//! The wire envelope built from a context and a request record.
use vstd::prelude::*;
use crate::context::TelemetryContext;
use crate::duration::timespan_text;
use crate::maps::{TextMap, merged};
use crate::request::{ContextTags, Measurements, Properties, RequestTelemetry, success_code};
use crate::text::{decimal, decimal_string};
use crate::time::{ends_with_millis, millis_of, rfc3339_millis};

verus! {

/// A lowercase hexadecimal digit.
pub open spec fn is_lower_hex(c: char) -> bool {
    ('0' <= c && c <= '9') || ('a' <= c && c <= 'f')
}

/// The hyphenated form of a UUID: 36 characters, lowercase hex digits in
/// groups of 8, 4, 4, 4 and 12, separated by `-`.
pub open spec fn is_hyphenated_uuid(t: Seq<char>) -> bool {
    &&& t.len() == 36
    &&& forall|i: int|
        0 <= i < 36 ==> if i == 8 || i == 13 || i == 18 || i == 23 {
            #[trigger] t[i] == '-'
        } else {
            is_lower_hex(t[i])
        }
}

/// The hyphenated text of a UUID.
pub uninterp spec fn uuid_text(id: uuid::Uuid) -> Seq<char>;

/// Relies on uuid's `Uuid::to_hyphenated` and its `Display`, which writes the
/// sixteen bytes as lowercase hex, with `-` after the 4th, 6th, 8th and 10th byte.
#[verifier::external_body]
fn hyphenated(id: &uuid::Uuid) -> (r: String)
    ensures
        r@ == uuid_text(*id),
        is_hyphenated_uuid(r@),
{
    id.to_hyphenated().to_string()
}

/// The envelope name of a request: `Microsoft.ApplicationInsights.<key>.Request`.
pub open spec fn envelope_name(key: Seq<char>) -> Seq<char> {
    "Microsoft.ApplicationInsights."@ + key + ".Request"@
}

/// The request part of an envelope.
#[derive(Debug)]
pub struct RequestData {
    pub id: String,
    pub duration: String,
    pub response_code: String,
    pub name: String,
    pub success: bool,
    pub url: String,
    pub properties: Properties,
    pub measurements: Measurements,
}

/// The record as it is sent: its name, time, instrumentation key, tags and data.
#[derive(Debug)]
pub struct Envelope {
    pub name: String,
    pub time: String,
    pub i_key: String,
    pub tags: ContextTags,
    pub data: RequestData,
}

impl Envelope {
    /// Builds the envelope of `telemetry` under `context`: the context's
    /// properties and tags are merged with the record's, the record winning on
    /// a shared key; the duration, response code and time are rendered as text.
    pub fn from_request(context: TelemetryContext, telemetry: RequestTelemetry) -> (r: Envelope)
        requires
            context.wf(),
            telemetry.wf(),
        ensures
            r.name@ == envelope_name(context.spec_normalized_i_key()),
            rfc3339_millis(telemetry.spec_timestamp().spec_secs(), telemetry.spec_timestamp().spec_nanos())
                == Some(r.time@),
            ends_with_millis(r.time@, millis_of(telemetry.spec_timestamp().spec_nanos())),
            r.i_key@ == context.spec_i_key(),
            r.tags.wf(),
            r.tags@ == merged(context.spec_tags()@, telemetry.spec_tags()@),
            r.data.id@ == uuid_text(telemetry.spec_id()),
            is_hyphenated_uuid(r.data.id@),
            r.data.duration@ == timespan_text(telemetry.spec_duration().nanos as nat),
            r.data.response_code@ == decimal(telemetry.spec_code() as nat),
            r.data.name@ == telemetry.spec_name(),
            r.data.success == success_code(telemetry.spec_code()),
            r.data.url@ == telemetry.spec_uri(),
            r.data.properties.wf(),
            r.data.properties@ == merged(context.spec_properties()@, telemetry.spec_properties()@),
            r.data.measurements == telemetry.spec_measurements(),
    {
        let success = telemetry.is_success();
        let id = hyphenated(telemetry.id());
        let duration = telemetry.duration().to_text();
        let response_code = decimal_string(telemetry.response_code() as u128);
        let time = telemetry.timestamp().to_rfc3339_millis();
        let name = envelope_name_of(context.normalized_i_key());
        let i_key = context.i_key().clone();
        let (t_name, t_uri, t_properties, t_tags, t_measurements) = telemetry.into_parts();
        let (c_properties, c_tags) = context.into_maps();
        let data = RequestData {
            id,
            duration,
            response_code,
            name: t_name,
            success,
            url: t_uri,
            properties: TextMap::combine(c_properties, t_properties),
            measurements: t_measurements,
        };
        Envelope { name, time, i_key, tags: TextMap::combine(c_tags, t_tags), data }
    }
}

fn envelope_name_of(key: &String) -> (r: String)
    ensures
        r@ == envelope_name(key@),
{
    let mut n = String::from_str("Microsoft.ApplicationInsights.");
    n.append(key.as_str());
    n.append(".Request");
    n
}

} // verus!
