//! The `context` object of a request: page, campaign, device and connection
//! facts, each field left out when it is empty.
use vstd::prelude::*;

use crate::event::{CampaignData, Client, EventContext, PageData};
use crate::json::{
    decimal, decimal_text, json_number_text, number_text, object, object_text, opt_member,
    opt_view, push_member, quote_opt, quoted_opt,
};

verus! {

/// The text, or nothing when it is empty.
pub open spec fn nonempty(s: String) -> Option<String> {
    if s@.len() == 0 {
        None
    } else {
        Some(s)
    }
}

/// The first text when it is not empty, else the second, else nothing.
pub open spec fn prefer(first: String, second: String) -> Option<String> {
    if first@.len() == 0 {
        nonempty(second)
    } else {
        Some(first)
    }
}

pub fn non_empty(s: &String) -> (r: Option<String>)
    ensures
        r == nonempty(*s),
{
    if s.as_str().is_empty() {
        None
    } else {
        Some(s.clone())
    }
}

pub fn preferred(first: &String, second: &String) -> (r: Option<String>)
    ensures
        r == prefer(*first, *second),
{
    if first.as_str().is_empty() {
        non_empty(second)
    } else {
        Some(first.clone())
    }
}

/// The page that the event happened on.
#[derive(Debug)]
pub struct Page {
    pub path: Option<String>,
    pub referrer: Option<String>,
    pub search: Option<String>,
    pub title: Option<String>,
    pub url: Option<String>,
}

/// The campaign (UTM) parameters of the visit.
#[derive(Debug)]
pub struct Campaign {
    pub name: Option<String>,
    pub source: Option<String>,
    pub medium: Option<String>,
    pub term: Option<String>,
    pub content: Option<String>,
}

/// The visitor's operating system.
#[derive(Debug)]
pub struct Os {
    pub name: Option<String>,
    pub version: Option<String>,
}

/// The visitor's screen. The density is kept as the decimal text it came in.
#[derive(Debug)]
pub struct Screen {
    pub width: Option<u32>,
    pub height: Option<u32>,
    pub density: Option<String>,
}

/// The `context` object of a request.
#[derive(Debug)]
pub struct Context {
    pub campaign: Option<Campaign>,
    pub ip: Option<String>,
    pub locale: Option<String>,
    pub os: Option<Os>,
    pub page: Option<Page>,
    pub screen: Option<Screen>,
    pub timezone: Option<String>,
    pub user_agent: Option<String>,
}

impl Page {
    pub open spec fn has_any(self) -> bool {
        self.path is Some || self.referrer is Some || self.search is Some || self.title is Some
            || self.url is Some
    }
}

impl Campaign {
    pub open spec fn has_any(self) -> bool {
        self.name is Some || self.source is Some || self.medium is Some || self.term is Some
            || self.content is Some
    }
}

impl Os {
    pub open spec fn has_any(self) -> bool {
        self.name is Some || self.version is Some
    }
}

impl Screen {
    pub open spec fn has_any(self) -> bool {
        self.width is Some || self.height is Some || self.density is Some
    }
}

/// A page object from the given fields, or nothing when all are empty.
pub open spec fn page_from(
    path: Option<String>,
    referrer: Option<String>,
    search: Option<String>,
    title: Option<String>,
    url: Option<String>,
) -> Option<Page> {
    let page = Page { path, referrer, search, title, url };
    if page.has_any() {
        Some(page)
    } else {
        None
    }
}

/// The page object for the page an event happened on.
pub open spec fn page_of(p: PageData) -> Option<Page> {
    page_from(
        nonempty(p.path),
        nonempty(p.referrer),
        nonempty(p.search),
        nonempty(p.title),
        nonempty(p.url),
    )
}

pub open spec fn campaign_of(c: CampaignData) -> Option<Campaign> {
    let campaign = Campaign {
        name: nonempty(c.name),
        source: nonempty(c.source),
        medium: nonempty(c.medium),
        term: nonempty(c.term),
        content: nonempty(c.content),
    };
    if campaign.has_any() {
        Some(campaign)
    } else {
        None
    }
}

pub open spec fn os_of(c: Client) -> Option<Os> {
    let os = Os { name: nonempty(c.os_name), version: nonempty(c.os_version) };
    if os.has_any() {
        Some(os)
    } else {
        None
    }
}

/// A width or height, or nothing when it is zero.
pub open spec fn nonzero(n: u32) -> Option<u32> {
    if n == 0 {
        None
    } else {
        Some(n)
    }
}

/// The density, kept only when it reads as a number.
pub open spec fn density_of(d: String) -> Option<String> {
    if json_number_text(d@) is Some {
        Some(d)
    } else {
        None
    }
}

pub open spec fn screen_of(c: Client) -> Option<Screen> {
    let screen = Screen {
        width: nonzero(c.screen_width),
        height: nonzero(c.screen_height),
        density: density_of(c.screen_density),
    };
    if screen.has_any() {
        Some(screen)
    } else {
        None
    }
}

/// The `context` object for an event's surroundings.
pub open spec fn context_of(c: EventContext) -> Context {
    Context {
        campaign: campaign_of(c.campaign),
        ip: nonempty(c.client.ip),
        locale: nonempty(c.client.locale),
        os: os_of(c.client),
        page: page_of(c.page),
        screen: screen_of(c.client),
        timezone: nonempty(c.client.timezone),
        user_agent: nonempty(c.client.user_agent),
    }
}

/// Each field present is non-empty, and each sub-object present holds at
/// least one field.
pub open spec fn no_empty_parts(c: Context) -> bool {
    &&& match c.page {
        Some(p) => p.has_any() && text_ok(p.path) && text_ok(p.referrer) && text_ok(p.search)
            && text_ok(p.title) && text_ok(p.url),
        None => true,
    }
    &&& match c.campaign {
        Some(k) => k.has_any() && text_ok(k.name) && text_ok(k.source) && text_ok(k.medium)
            && text_ok(k.term) && text_ok(k.content),
        None => true,
    }
    &&& match c.os {
        Some(o) => o.has_any() && text_ok(o.name) && text_ok(o.version),
        None => true,
    }
    &&& match c.screen {
        Some(s) => s.has_any() && s.width != Some(0u32) && s.height != Some(0u32) && match s.density {
            Some(d) => json_number_text(d@) is Some,
            None => true,
        },
        None => true,
    }
    &&& text_ok(c.ip)
    &&& text_ok(c.locale)
    &&& text_ok(c.timezone)
    &&& text_ok(c.user_agent)
}

/// Absent, or present and non-empty.
pub open spec fn text_ok(o: Option<String>) -> bool {
    match o {
        Some(s) => s@.len() > 0,
        None => true,
    }
}

fn build_page(p: &PageData) -> (r: Option<Page>)
    ensures
        r == page_of(*p),
{
    let page = Page {
        path: non_empty(&p.path),
        referrer: non_empty(&p.referrer),
        search: non_empty(&p.search),
        title: non_empty(&p.title),
        url: non_empty(&p.url),
    };
    if page.path.is_some() || page.referrer.is_some() || page.search.is_some()
        || page.title.is_some() || page.url.is_some() {
        Some(page)
    } else {
        None
    }
}

fn build_campaign(c: &CampaignData) -> (r: Option<Campaign>)
    ensures
        r == campaign_of(*c),
{
    let campaign = Campaign {
        name: non_empty(&c.name),
        source: non_empty(&c.source),
        medium: non_empty(&c.medium),
        term: non_empty(&c.term),
        content: non_empty(&c.content),
    };
    if campaign.name.is_some() || campaign.source.is_some() || campaign.medium.is_some()
        || campaign.term.is_some() || campaign.content.is_some() {
        Some(campaign)
    } else {
        None
    }
}

fn build_os(c: &Client) -> (r: Option<Os>)
    ensures
        r == os_of(*c),
{
    let os = Os { name: non_empty(&c.os_name), version: non_empty(&c.os_version) };
    if os.name.is_some() || os.version.is_some() {
        Some(os)
    } else {
        None
    }
}

fn build_screen(c: &Client) -> (r: Option<Screen>)
    ensures
        r == screen_of(*c),
{
    let width = if c.screen_width == 0 {
        None
    } else {
        Some(c.screen_width)
    };
    let height = if c.screen_height == 0 {
        None
    } else {
        Some(c.screen_height)
    };
    let density = match number_text(c.screen_density.as_str()) {
        Some(_) => Some(c.screen_density.clone()),
        None => None,
    };
    let screen = Screen { width, height, density };
    if screen.width.is_some() || screen.height.is_some() || screen.density.is_some() {
        Some(screen)
    } else {
        None
    }
}

/// Builds the `context` object for an event's surroundings.
pub fn build_context(c: &EventContext) -> (r: Context)
    ensures
        r == context_of(*c),
{
    Context {
        campaign: build_campaign(&c.campaign),
        ip: non_empty(&c.client.ip),
        locale: non_empty(&c.client.locale),
        os: build_os(&c.client),
        page: build_page(&c.page),
        screen: build_screen(&c.client),
        timezone: non_empty(&c.client.timezone),
        user_agent: non_empty(&c.client.user_agent),
    }
}

/// Whatever the event, the `context` object built for it has no empty part.
pub proof fn lemma_context_has_no_empty_parts(c: EventContext)
    ensures
        no_empty_parts(context_of(c)),
{
}

/// A width or height as a JSON number.
pub open spec fn count_opt(o: Option<u32>) -> Option<Seq<char>> {
    match o {
        Some(n) => Some(decimal_text(n as nat)),
        None => None,
    }
}

/// A density as the JSON number it reads as.
pub open spec fn density_opt(o: Option<String>) -> Option<Seq<char>> {
    match o {
        Some(d) => json_number_text(d@),
        None => None,
    }
}

impl Page {
    pub open spec fn json(self) -> Seq<char> {
        object_text(
            opt_member("path"@, quoted_opt(self.path)) + opt_member(
                "referrer"@,
                quoted_opt(self.referrer),
            ) + opt_member("search"@, quoted_opt(self.search)) + opt_member(
                "title"@,
                quoted_opt(self.title),
            ) + opt_member("url"@, quoted_opt(self.url)),
        )
    }

    pub fn to_json(&self) -> (r: String)
        ensures
            r@ == self.json(),
    {
        let mut ms: Vec<String> = Vec::new();
        push_member(&mut ms, "path", quote_opt(&self.path));
        push_member(&mut ms, "referrer", quote_opt(&self.referrer));
        push_member(&mut ms, "search", quote_opt(&self.search));
        push_member(&mut ms, "title", quote_opt(&self.title));
        push_member(&mut ms, "url", quote_opt(&self.url));
        object(&ms)
    }
}

impl Campaign {
    pub open spec fn json(self) -> Seq<char> {
        object_text(
            opt_member("name"@, quoted_opt(self.name)) + opt_member(
                "source"@,
                quoted_opt(self.source),
            ) + opt_member("medium"@, quoted_opt(self.medium)) + opt_member(
                "term"@,
                quoted_opt(self.term),
            ) + opt_member("content"@, quoted_opt(self.content)),
        )
    }

    pub fn to_json(&self) -> (r: String)
        ensures
            r@ == self.json(),
    {
        let mut ms: Vec<String> = Vec::new();
        push_member(&mut ms, "name", quote_opt(&self.name));
        push_member(&mut ms, "source", quote_opt(&self.source));
        push_member(&mut ms, "medium", quote_opt(&self.medium));
        push_member(&mut ms, "term", quote_opt(&self.term));
        push_member(&mut ms, "content", quote_opt(&self.content));
        object(&ms)
    }
}

impl Os {
    pub open spec fn json(self) -> Seq<char> {
        object_text(
            opt_member("name"@, quoted_opt(self.name)) + opt_member(
                "version"@,
                quoted_opt(self.version),
            ),
        )
    }

    pub fn to_json(&self) -> (r: String)
        ensures
            r@ == self.json(),
    {
        let mut ms: Vec<String> = Vec::new();
        push_member(&mut ms, "name", quote_opt(&self.name));
        push_member(&mut ms, "version", quote_opt(&self.version));
        object(&ms)
    }
}

impl Screen {
    pub open spec fn json(self) -> Seq<char> {
        object_text(
            opt_member("width"@, count_opt(self.width)) + opt_member(
                "height"@,
                count_opt(self.height),
            ) + opt_member("density"@, density_opt(self.density)),
        )
    }

    pub fn to_json(&self) -> (r: String)
        ensures
            r@ == self.json(),
    {
        let mut ms: Vec<String> = Vec::new();
        push_member(&mut ms, "width", count_json(self.width));
        push_member(&mut ms, "height", count_json(self.height));
        let density = match &self.density {
            Some(d) => number_text(d.as_str()),
            None => None,
        };
        push_member(&mut ms, "density", density);
        object(&ms)
    }
}

fn count_json(o: Option<u32>) -> (r: Option<String>)
    ensures
        opt_view(r) == count_opt(o),
{
    match o {
        Some(n) => Some(decimal(n)),
        None => None,
    }
}

impl Context {
    pub open spec fn json(self) -> Seq<char> {
        object_text(
            opt_member(
                "campaign"@,
                match self.campaign {
                    Some(c) => Some(c.json()),
                    None => None,
                },
            ) + opt_member("ip"@, quoted_opt(self.ip)) + opt_member(
                "locale"@,
                quoted_opt(self.locale),
            ) + opt_member(
                "os"@,
                match self.os {
                    Some(o) => Some(o.json()),
                    None => None,
                },
            ) + opt_member(
                "page"@,
                match self.page {
                    Some(p) => Some(p.json()),
                    None => None,
                },
            ) + opt_member(
                "screen"@,
                match self.screen {
                    Some(s) => Some(s.json()),
                    None => None,
                },
            ) + opt_member("timezone"@, quoted_opt(self.timezone)) + opt_member(
                "userAgent"@,
                quoted_opt(self.user_agent),
            ),
        )
    }

    /// Writes the object as JSON text.
    pub fn to_json(&self) -> (r: String)
        ensures
            r@ == self.json(),
    {
        let mut ms: Vec<String> = Vec::new();
        let campaign = match &self.campaign {
            Some(c) => Some(c.to_json()),
            None => None,
        };
        push_member(&mut ms, "campaign", campaign);
        push_member(&mut ms, "ip", quote_opt(&self.ip));
        push_member(&mut ms, "locale", quote_opt(&self.locale));
        let os = match &self.os {
            Some(o) => Some(o.to_json()),
            None => None,
        };
        push_member(&mut ms, "os", os);
        let page = match &self.page {
            Some(p) => Some(p.to_json()),
            None => None,
        };
        push_member(&mut ms, "page", page);
        let screen = match &self.screen {
            Some(s) => Some(s.to_json()),
            None => None,
        };
        push_member(&mut ms, "screen", screen);
        push_member(&mut ms, "timezone", quote_opt(&self.timezone));
        push_member(&mut ms, "userAgent", quote_opt(&self.user_agent));
        object(&ms)
    }
}

} // verus!
