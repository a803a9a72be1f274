//! The JSON document that Segment receives for one event.
use vstd::prelude::*;

use crate::context::{build_context, context_of, non_empty, nonempty, Context};
use crate::credentials::{credentials_of, Credentials};
use crate::error::SegmentError;
use crate::event::{Dict, Event, UserData};
use crate::json::{
    json_quoted, member, member_text, object, object_text, opt_member, opt_view, push_member,
    quote, quote_opt, quoted_opt, texts,
};
use crate::properties::{properties_json, PropModel, Properties};

verus! {

/// The RFC 3339 text, in UTC with a `Z`, of an instant given in microseconds
/// since the Unix epoch, with 0, 3, 6 or 9 fractional digits as needed; or
/// `None` when the instant lies outside chrono's range of dates.
pub uninterp spec fn rfc3339_of_micros(micros: i64) -> Option<Seq<char>>;

/// Relies on `chrono::DateTime::from_timestamp_micros` (`None` outside its
/// range) and on `to_rfc3339_opts` with `SecondsFormat::AutoSi` and `Z`, the
/// format in which chrono serializes a `DateTime<Utc>`.
#[verifier::external_body]
fn timestamp_text(micros: i64) -> (r: Option<String>)
    ensures
        match r {
            Some(t) => rfc3339_of_micros(micros) == Some(t@),
            None => rfc3339_of_micros(micros) is None,
        },
{
    match chrono::DateTime::from_timestamp_micros(micros) {
        Some(d) => Some(d.to_rfc3339_opts(chrono::SecondsFormat::AutoSi, true)),
        None => None,
    }
}

/// The document sent for one event. Fields that are `None` are left out of
/// the JSON text.
#[derive(Debug)]
pub struct SegmentPayload {
    pub project_id: String,
    /// The event's instant in RFC 3339 form.
    pub timestamp: String,
    /// `page`, `track` or `identify`.
    pub event_type: String,
    pub context: Context,
    pub user_id: Option<String>,
    pub anonymous_id: Option<String>,
    pub properties: Option<Properties>,
    pub event: Option<String>,
    pub traits: Option<Properties>,
}

/// What a `SegmentPayload` holds.
pub struct PayloadModel {
    pub project_id: String,
    pub timestamp: Seq<char>,
    pub event_type: Seq<char>,
    pub context: Context,
    pub user_id: Option<String>,
    pub anonymous_id: Option<String>,
    pub properties: Option<Seq<(Seq<char>, PropModel)>>,
    pub event: Option<String>,
    pub traits: Option<Seq<(Seq<char>, PropModel)>>,
}

pub open spec fn opt_properties(o: Option<Properties>) -> Option<Seq<(Seq<char>, PropModel)>> {
    match o {
        Some(p) => Some(p@),
        None => None,
    }
}

impl View for SegmentPayload {
    type V = PayloadModel;

    open spec fn view(&self) -> PayloadModel {
        PayloadModel {
            project_id: self.project_id,
            timestamp: self.timestamp@,
            event_type: self.event_type@,
            context: self.context,
            user_id: self.user_id,
            anonymous_id: self.anonymous_id,
            properties: opt_properties(self.properties),
            event: self.event,
            traits: opt_properties(self.traits),
        }
    }
}

/// The anonymous id: the one the site gave, else the one the platform generated.
pub open spec fn anonymous_of(u: UserData) -> Option<String> {
    if u.anonymous_id@.len() == 0 {
        nonempty(u.edgee_id)
    } else {
        Some(u.anonymous_id)
    }
}

/// The document for an event before anything specific to its kind is added.
pub open spec fn base_payload(
    e: Event,
    project_id: String,
    timestamp: Seq<char>,
    event_type: Seq<char>,
) -> PayloadModel {
    PayloadModel {
        project_id,
        timestamp,
        event_type,
        context: context_of(e.context),
        user_id: nonempty(e.context.user.user_id),
        anonymous_id: anonymous_of(e.context.user),
        properties: None,
        event: None,
        traits: None,
    }
}

/// What `SegmentPayload::new` returns: the credentials are checked first,
/// then the timestamp.
pub open spec fn new_payload(e: Event, settings: Seq<(String, String)>, event_type: Seq<char>) -> Result<
    PayloadModel,
    SegmentError,
> {
    match credentials_of(settings) {
        Err(err) => Err(err),
        Ok(c) => match rfc3339_of_micros(e.timestamp_micros) {
            None => Err(SegmentError::InvalidTimestamp),
            Some(ts) => Ok(base_payload(e, c.project_id, ts, event_type)),
        },
    }
}

pub open spec fn properties_opt(o: Option<Seq<(Seq<char>, PropModel)>>) -> Option<Seq<char>> {
    match o {
        Some(ps) => Some(properties_json(ps)),
        None => None,
    }
}

/// The document as JSON text.
pub open spec fn payload_json(m: PayloadModel) -> Seq<char> {
    object_text(
        seq![
            member_text("projectId"@, json_quoted(m.project_id@)),
            member_text("timestamp"@, json_quoted(m.timestamp)),
            member_text("type"@, json_quoted(m.event_type)),
            member_text("context"@, m.context.json()),
        ] + opt_member("userId"@, quoted_opt(m.user_id)) + opt_member(
            "anonymousId"@,
            quoted_opt(m.anonymous_id),
        ) + opt_member("properties"@, properties_opt(m.properties)) + opt_member(
            "event"@,
            quoted_opt(m.event),
        ) + opt_member("traits"@, properties_opt(m.traits)),
    )
}

fn anonymous_id(u: &UserData) -> (r: Option<String>)
    ensures
        r == anonymous_of(*u),
{
    if u.anonymous_id.as_str().is_empty() {
        non_empty(&u.edgee_id)
    } else {
        Some(u.anonymous_id.clone())
    }
}

fn properties_json_opt(o: &Option<Properties>) -> (r: Option<String>)
    ensures
        opt_view(r) == properties_opt(opt_properties(*o)),
{
    match o {
        Some(p) => Some(p.to_json()),
        None => None,
    }
}

impl SegmentPayload {
    /// Starts the document for an event: checks the credentials (project id
    /// first), converts the timestamp, and fills in the ids and the context.
    pub fn new(edgee_event: &Event, settings: &Dict, event_type: String) -> (r: Result<
        Self,
        SegmentError,
    >)
        ensures
            match r {
                Ok(p) => new_payload(*edgee_event, settings@, event_type@) == Ok::<
                    PayloadModel,
                    SegmentError,
                >(p@),
                Err(err) => new_payload(*edgee_event, settings@, event_type@) == Err::<
                    PayloadModel,
                    SegmentError,
                >(err),
            },
    {
        let credentials = match Credentials::from_dict(settings) {
            Ok(c) => c,
            Err(err) => return Err(err),
        };
        let timestamp = match timestamp_text(edgee_event.timestamp_micros) {
            Some(t) => t,
            None => return Err(SegmentError::InvalidTimestamp),
        };
        let user = &edgee_event.context.user;
        let payload = SegmentPayload {
            project_id: credentials.project_id,
            timestamp,
            event_type,
            context: build_context(&edgee_event.context),
            user_id: non_empty(&user.user_id),
            anonymous_id: anonymous_id(user),
            properties: None,
            event: None,
            traits: None,
        };
        proof {
            let ps: Option<Seq<(Seq<char>, PropModel)>> = None;
            assert(opt_properties(payload.properties) == ps);
            assert(opt_properties(payload.traits) == ps);
        }
        Ok(payload)
    }

    /// Writes the document as JSON text.
    pub fn to_json(&self) -> (r: String)
        ensures
            r@ == payload_json(self@),
    {
        let mut ms: Vec<String> = Vec::new();
        ms.push(member("projectId", quote(self.project_id.as_str()).as_str()));
        ms.push(member("timestamp", quote(self.timestamp.as_str()).as_str()));
        ms.push(member("type", quote(self.event_type.as_str()).as_str()));
        ms.push(member("context", self.context.to_json().as_str()));
        let ghost fixed = texts(ms@);
        push_member(&mut ms, "userId", quote_opt(&self.user_id));
        push_member(&mut ms, "anonymousId", quote_opt(&self.anonymous_id));
        push_member(&mut ms, "properties", properties_json_opt(&self.properties));
        push_member(&mut ms, "event", quote_opt(&self.event));
        push_member(&mut ms, "traits", properties_json_opt(&self.traits));
        proof {
            let m = self@;
            assert(fixed =~= seq![
                member_text("projectId"@, json_quoted(m.project_id@)),
                member_text("timestamp"@, json_quoted(m.timestamp)),
                member_text("type"@, json_quoted(m.event_type)),
                member_text("context"@, m.context.json()),
            ]);
        }
        object(&ms)
    }
}

} // verus!
