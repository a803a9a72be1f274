//! The three operations that turn an event into a request: page, track and identify.
use vstd::prelude::*;

use crate::context::{page_from, prefer, preferred, Context, Page};
use crate::credentials::{credentials_of, Credentials};
use crate::error::SegmentError;
use crate::event::{Data, Dict, Event, PageData};
use crate::json::texts;
use crate::properties::{insert_all, prop_insert, PropModel, PropValue, Properties};
use crate::segment_payload::{
    base_payload, payload_json, rfc3339_of_micros, PayloadModel, SegmentPayload,
};

verus! {

/// Standard base64, with padding, of the UTF-8 bytes of `s`.
pub uninterp spec fn base64_of(s: Seq<char>) -> Seq<char>;

/// Relies on `base64::engine::general_purpose::STANDARD.encode`: the standard
/// alphabet with `=` padding, over the bytes of the string.
#[verifier::external_body]
fn base64_encode(s: &str) -> (r: String)
    ensures
        r@ == base64_of(s@),
{
    base64::Engine::encode(&base64::engine::general_purpose::STANDARD, s)
}

/// The HTTP methods a request can use.
#[derive(Clone, Copy, Debug, PartialEq, Eq, Structural)]
pub enum HttpMethod {
    Get,
    Put,
    Post,
    Delete,
}

/// A request for the host to send.
#[derive(Clone, Debug)]
pub struct EdgeeRequest {
    pub method: HttpMethod,
    pub url: String,
    pub headers: Vec<(String, String)>,
    pub body: String,
}

/// What a request holds.
pub struct RequestModel {
    pub method: HttpMethod,
    pub url: Seq<char>,
    pub headers: Seq<(Seq<char>, Seq<char>)>,
    pub body: Seq<char>,
}

impl View for EdgeeRequest {
    type V = RequestModel;

    open spec fn view(&self) -> RequestModel {
        RequestModel {
            method: self.method,
            url: self.url@,
            headers: self.headers@.map_values(|h: (String, String)| (h.0@, h.1@)),
            body: self.body@,
        }
    }
}

/// The outcome of an operation, with the request by what it holds.
pub open spec fn outcome(r: Result<EdgeeRequest, SegmentError>) -> Result<RequestModel, SegmentError> {
    match r {
        Ok(req) => Ok(req@),
        Err(err) => Err(err),
    }
}

/// Where every request goes.
pub open spec fn endpoint() -> Seq<char> {
    "https://api.segment.io/v1/track"@
}

/// The `authorization` header value for a write key.
pub open spec fn authorization(write_key: Seq<char>) -> Seq<char> {
    "Basic "@ + base64_of(write_key + ":"@)
}

/// A POST of `body` to the endpoint, signed with the write key.
pub open spec fn request_for(c: Credentials, body: Seq<char>) -> RequestModel {
    RequestModel {
        method: HttpMethod::Post,
        url: endpoint(),
        headers: seq![
            ("authorization"@, authorization(c.write_key@)),
            ("content-type"@, "application/json"@),
        ],
        body,
    }
}

/// The page object of a page event: each field from the page data, or from
/// the event's context when the page data leaves it empty.
pub open spec fn page_context(ctx: PageData, d: PageData) -> Option<Page> {
    page_from(
        prefer(d.path, ctx.path),
        prefer(d.referrer, ctx.referrer),
        prefer(d.search, ctx.search),
        prefer(d.title, ctx.title),
        prefer(d.url, ctx.url),
    )
}

/// The properties of a page event: title, url and path always; referrer,
/// search and keywords when not empty; then the custom properties.
pub open spec fn page_properties(d: PageData) -> Seq<(Seq<char>, PropModel)> {
    let fixed = prop_insert(
        prop_insert(
            prop_insert(Seq::empty(), "title"@, PropModel::Text(d.title@)),
            "url"@,
            PropModel::Text(d.url@),
        ),
        "path"@,
        PropModel::Text(d.path@),
    );
    let with_referrer = if d.referrer@.len() == 0 {
        fixed
    } else {
        prop_insert(fixed, "referrer"@, PropModel::Text(d.referrer@))
    };
    let with_search = if d.search@.len() == 0 {
        with_referrer
    } else {
        prop_insert(with_referrer, "search"@, PropModel::Text(d.search@))
    };
    let with_keywords = if d.keywords@.len() == 0 {
        with_search
    } else {
        prop_insert(with_search, "keywords"@, PropModel::List(texts(d.keywords@)))
    };
    insert_all(with_keywords, d.properties@)
}

/// The document of a page event.
pub open spec fn page_model(e: Event, d: PageData, base: PayloadModel) -> PayloadModel {
    PayloadModel {
        context: Context { page: page_context(e.context.page, d), ..base.context },
        properties: Some(page_properties(d)),
        ..base
    }
}

/// What `page` returns: credentials first, then the kind of event, then the
/// timestamp.
pub open spec fn page_result(e: Event, creds: Seq<(String, String)>) -> Result<
    RequestModel,
    SegmentError,
> {
    match credentials_of(creds) {
        Err(err) => Err(err),
        Ok(c) => match e.data {
            Data::Page(d) => match rfc3339_of_micros(e.timestamp_micros) {
                None => Err(SegmentError::InvalidTimestamp),
                Some(ts) => Ok(
                    request_for(
                        c,
                        payload_json(page_model(e, d, base_payload(e, c.project_id, ts, "page"@))),
                    ),
                ),
            },
            _ => Err(SegmentError::MissingPageData),
        },
    }
}

/// What `track` returns: credentials first, then the kind of event, then its
/// name, then the timestamp.
pub open spec fn track_result(e: Event, creds: Seq<(String, String)>) -> Result<
    RequestModel,
    SegmentError,
> {
    match credentials_of(creds) {
        Err(err) => Err(err),
        Ok(c) => match e.data {
            Data::Track(d) => if d.name@.len() == 0 {
                Err(SegmentError::MissingTrackName)
            } else {
                match rfc3339_of_micros(e.timestamp_micros) {
                    None => Err(SegmentError::InvalidTimestamp),
                    Some(ts) => Ok(
                        request_for(
                            c,
                            payload_json(
                                PayloadModel {
                                    event: Some(d.name),
                                    properties: Some(insert_all(Seq::empty(), d.properties@)),
                                    ..base_payload(e, c.project_id, ts, "track"@)
                                },
                            ),
                        ),
                    ),
                }
            },
            _ => Err(SegmentError::MissingTrackData),
        },
    }
}

/// What `user` returns: credentials first, then the kind of event, then its
/// ids, then the timestamp.
pub open spec fn user_result(e: Event, creds: Seq<(String, String)>) -> Result<
    RequestModel,
    SegmentError,
> {
    match credentials_of(creds) {
        Err(err) => Err(err),
        Ok(c) => match e.data {
            Data::User(d) => if d.user_id@.len() == 0 && d.anonymous_id@.len() == 0 {
                Err(SegmentError::MissingUserIds)
            } else {
                match rfc3339_of_micros(e.timestamp_micros) {
                    None => Err(SegmentError::InvalidTimestamp),
                    Some(ts) => Ok(
                        request_for(
                            c,
                            payload_json(
                                PayloadModel {
                                    traits: Some(insert_all(Seq::empty(), d.properties@)),
                                    ..base_payload(e, c.project_id, ts, "identify"@)
                                },
                            ),
                        ),
                    ),
                }
            },
            _ => Err(SegmentError::MissingUserData),
        },
    }
}

/// Signs and frames a finished document.
fn build_edgee_request(segment_payload: SegmentPayload, credentials: &Credentials) -> (r:
    EdgeeRequest)
    ensures
        r@ == request_for(*credentials, payload_json(segment_payload@)),
{
    let mut key = String::from_str(credentials.write_key());
    key.append(":");
    let mut authorization = String::from_str("Basic ");
    authorization.append(base64_encode(key.as_str()).as_str());
    let mut headers: Vec<(String, String)> = Vec::new();
    headers.push((String::from_str("authorization"), authorization));
    headers.push((String::from_str("content-type"), String::from_str("application/json")));
    let r = EdgeeRequest {
        method: HttpMethod::Post,
        url: String::from_str("https://api.segment.io/v1/track"),
        headers,
        body: segment_payload.to_json(),
    };
    assert(r@.headers =~= request_for(*credentials, payload_json(segment_payload@)).headers);
    r
}

fn copy_texts(v: &Vec<String>) -> (r: Vec<String>)
    ensures
        texts(r@) == texts(v@),
{
    let mut r: Vec<String> = Vec::new();
    let mut i: usize = 0;
    while i < v.len()
        invariant
            i <= v.len(),
            texts(r@) =~= texts(v@.subrange(0, i as int)),
        decreases v.len() - i,
    {
        let ghost old_r = r@;
        r.push(v[i].clone());
        proof {
            assert(v@.subrange(0, i + 1) =~= v@.subrange(0, i as int).push(v@[i as int]));
            assert(texts(r@) =~= texts(old_r).push(v@[i as int]@));
        }
        i = i + 1;
    }
    assert(v@.subrange(0, v.len() as int) =~= v@);
    r
}

fn build_page_properties(d: &PageData) -> (r: Properties)
    ensures
        r@ == page_properties(*d),
{
    let mut properties = Properties::new();
    properties.insert(String::from_str("title"), PropValue::Text(d.title.clone()));
    properties.insert(String::from_str("url"), PropValue::Text(d.url.clone()));
    properties.insert(String::from_str("path"), PropValue::Text(d.path.clone()));
    if !d.referrer.as_str().is_empty() {
        properties.insert(String::from_str("referrer"), PropValue::Text(d.referrer.clone()));
    }
    if !d.search.as_str().is_empty() {
        properties.insert(String::from_str("search"), PropValue::Text(d.search.clone()));
    }
    if d.keywords.len() > 0 {
        properties.insert(String::from_str("keywords"), PropValue::List(copy_texts(&d.keywords)));
    }
    properties.insert_all(&d.properties);
    properties
}

fn build_page_context(ctx: &PageData, d: &PageData) -> (r: Option<Page>)
    ensures
        r == page_context(*ctx, *d),
{
    let page = Page {
        path: preferred(&d.path, &ctx.path),
        referrer: preferred(&d.referrer, &ctx.referrer),
        search: preferred(&d.search, &ctx.search),
        title: preferred(&d.title, &ctx.title),
        url: preferred(&d.url, &ctx.url),
    };
    if page.path.is_some() || page.referrer.is_some() || page.search.is_some()
        || page.title.is_some() || page.url.is_some() {
        Some(page)
    } else {
        None
    }
}

/// Builds requests for Segment's tracking API.
pub struct SegmentComponent;

impl SegmentComponent {
    /// The request for a page view.
    pub fn page(edgee_event: Event, cred_map: Dict) -> (r: Result<EdgeeRequest, SegmentError>)
        ensures
            outcome(r) == page_result(edgee_event, cred_map@),
    {
        let credentials = match Credentials::from_dict(&cred_map) {
            Ok(c) => c,
            Err(err) => return Err(err),
        };
        let data = match &edgee_event.data {
            Data::Page(d) => d,
            _ => return Err(SegmentError::MissingPageData),
        };
        let mut segment_payload = match SegmentPayload::new(
            &edgee_event,
            &cred_map,
            String::from_str("page"),
        ) {
            Ok(p) => p,
            Err(err) => return Err(err),
        };
        segment_payload.context.page = build_page_context(&edgee_event.context.page, data);
        segment_payload.properties = Some(build_page_properties(data));
        Ok(build_edgee_request(segment_payload, &credentials))
    }

    /// The request for a custom event.
    pub fn track(edgee_event: Event, cred_map: Dict) -> (r: Result<EdgeeRequest, SegmentError>)
        ensures
            outcome(r) == track_result(edgee_event, cred_map@),
    {
        let credentials = match Credentials::from_dict(&cred_map) {
            Ok(c) => c,
            Err(err) => return Err(err),
        };
        let data = match &edgee_event.data {
            Data::Track(d) => d,
            _ => return Err(SegmentError::MissingTrackData),
        };
        if data.name.as_str().is_empty() {
            return Err(SegmentError::MissingTrackName);
        }
        let mut segment_payload = match SegmentPayload::new(
            &edgee_event,
            &cred_map,
            String::from_str("track"),
        ) {
            Ok(p) => p,
            Err(err) => return Err(err),
        };
        segment_payload.event = Some(data.name.clone());
        let mut properties = Properties::new();
        properties.insert_all(&data.properties);
        segment_payload.properties = Some(properties);
        Ok(build_edgee_request(segment_payload, &credentials))
    }

    /// The request that identifies a user.
    pub fn user(edgee_event: Event, cred_map: Dict) -> (r: Result<EdgeeRequest, SegmentError>)
        ensures
            outcome(r) == user_result(edgee_event, cred_map@),
    {
        let credentials = match Credentials::from_dict(&cred_map) {
            Ok(c) => c,
            Err(err) => return Err(err),
        };
        let data = match &edgee_event.data {
            Data::User(d) => d,
            _ => return Err(SegmentError::MissingUserData),
        };
        if data.user_id.as_str().is_empty() && data.anonymous_id.as_str().is_empty() {
            return Err(SegmentError::MissingUserIds);
        }
        let mut segment_payload = match SegmentPayload::new(
            &edgee_event,
            &cred_map,
            String::from_str("identify"),
        ) {
            Ok(p) => p,
            Err(err) => return Err(err),
        };
        let mut traits = Properties::new();
        traits.insert_all(&data.properties);
        segment_payload.traits = Some(traits);
        Ok(build_edgee_request(segment_payload, &credentials))
    }
}

} // verus!
