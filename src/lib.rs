//! Turns analytics events (page views, custom tracks, user identifications)
//! into ready-to-send requests for Segment's HTTP tracking API.
//!
//! Every request goes to `https://api.segment.io/v1/track` and names its kind
//! in the document's `type` field. Without an anonymous id the document
//! carries the platform-generated id in its place.

pub mod component;
pub mod context;
pub mod credentials;
pub mod error;
pub mod event;
pub mod json;
pub mod laws;
pub mod properties;
pub mod segment_payload;
pub mod string_ext;

pub use component::{EdgeeRequest, HttpMethod, SegmentComponent};
pub use context::Context;
pub use credentials::Credentials;
pub use error::SegmentError;
pub use event::{
    CampaignData, Client, Consent, Data, Dict, Event, EventContext, EventType, PageData, Session,
    TrackData, UserData,
};
pub use properties::{parse_value, PropValue, Properties};
pub use segment_payload::SegmentPayload;
pub use string_ext::StringExt;
