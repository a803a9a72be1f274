//! The events that the host hands over, as plain values.
use vstd::prelude::*;

verus! {

/// A list of key/value pairs, as the host passes credentials and custom properties.
pub type Dict = Vec<(String, String)>;

/// The kind of an event, as the host labels it.
#[derive(Clone, Copy, Debug, PartialEq, Eq, Structural)]
pub enum EventType {
    Page,
    Track,
    User,
}

/// The visitor's consent, as the host reports it; requests do not depend on it.
#[derive(Clone, Copy, Debug, PartialEq, Eq, Structural)]
pub enum Consent {
    Pending,
    Granted,
    Denied,
}

/// A page view, or the page that an event happened on.
#[derive(Clone, Debug)]
pub struct PageData {
    pub keywords: Vec<String>,
    pub title: String,
    pub url: String,
    pub path: String,
    pub search: String,
    pub referrer: String,
    pub properties: Dict,
}

/// A custom event with a name.
#[derive(Clone, Debug)]
pub struct TrackData {
    pub name: String,
    pub properties: Dict,
}

/// Who the visitor is: ids given by the site, and the id the platform generated.
#[derive(Clone, Debug)]
pub struct UserData {
    pub user_id: String,
    pub anonymous_id: String,
    pub edgee_id: String,
    pub properties: Dict,
}

/// What an event carries, by kind.
#[derive(Clone, Debug)]
pub enum Data {
    Page(PageData),
    Track(TrackData),
    User(UserData),
}

/// Campaign (UTM) parameters of the visit.
#[derive(Clone, Debug)]
pub struct CampaignData {
    pub name: String,
    pub source: String,
    pub medium: String,
    pub term: String,
    pub content: String,
}

/// Facts about the visitor's device and connection.
#[derive(Clone, Debug)]
pub struct Client {
    pub ip: String,
    pub locale: String,
    pub timezone: String,
    pub user_agent: String,
    pub os_name: String,
    pub os_version: String,
    pub screen_width: u32,
    pub screen_height: u32,
    /// The device pixel ratio as a decimal number; empty when the host reports none.
    pub screen_density: String,
}

/// The visit's session; requests do not depend on it.
#[derive(Clone, Debug)]
pub struct Session {
    pub session_id: String,
    pub previous_session_id: String,
    pub session_count: u32,
    pub session_start: bool,
    pub first_seen: i64,
    pub last_seen: i64,
}

/// Everything around an event: the page, the visitor, the device, the campaign.
#[derive(Clone, Debug)]
pub struct EventContext {
    pub page: PageData,
    pub user: UserData,
    pub client: Client,
    pub campaign: CampaignData,
    pub session: Session,
}

/// One analytics event.
#[derive(Clone, Debug)]
pub struct Event {
    pub uuid: String,
    /// Microseconds since the Unix epoch.
    pub timestamp_micros: i64,
    pub event_type: EventType,
    pub data: Data,
    pub context: EventContext,
    pub consent: Option<Consent>,
}

} // verus!
