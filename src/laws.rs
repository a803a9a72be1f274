//! Properties that hold of every event and every set of credentials.
use vstd::prelude::*;

use crate::component::{page_model, page_result, track_result, user_result, RequestModel};
use crate::context::{count_opt, density_opt, no_empty_parts, Context};
use crate::credentials::dict_get;
use crate::error::SegmentError;
use crate::event::{Event, PageData};
use crate::json::{join, member_text, object_text, opt_member, quoted_opt};
use crate::segment_payload::base_payload;

verus! {

/// Credentials are checked before anything else, the project id first: when
/// the project id is missing every operation fails for that, when only the
/// write key is missing every operation fails for that, and when both are
/// present no operation fails for want of either.
pub proof fn lemma_credentials_checked_first(e: Event, creds: Seq<(String, String)>)
    ensures
        dict_get(creds, "segment_project_id"@) is None ==> {
            &&& page_result(e, creds) == Err::<RequestModel, SegmentError>(SegmentError::MissingProjectId)
            &&& track_result(e, creds) == Err::<RequestModel, SegmentError>(SegmentError::MissingProjectId)
            &&& user_result(e, creds) == Err::<RequestModel, SegmentError>(SegmentError::MissingProjectId)
        },
        dict_get(creds, "segment_project_id"@) is Some && dict_get(creds, "segment_write_key"@) is None
            ==> {
            &&& page_result(e, creds) == Err::<RequestModel, SegmentError>(SegmentError::MissingWriteKey)
            &&& track_result(e, creds) == Err::<RequestModel, SegmentError>(SegmentError::MissingWriteKey)
            &&& user_result(e, creds) == Err::<RequestModel, SegmentError>(SegmentError::MissingWriteKey)
        },
        dict_get(creds, "segment_project_id"@) is Some && dict_get(creds, "segment_write_key"@) is Some
            ==> {
            &&& page_result(e, creds) != Err::<RequestModel, SegmentError>(SegmentError::MissingProjectId)
            &&& page_result(e, creds) != Err::<RequestModel, SegmentError>(SegmentError::MissingWriteKey)
            &&& track_result(e, creds) != Err::<RequestModel, SegmentError>(SegmentError::MissingProjectId)
            &&& track_result(e, creds) != Err::<RequestModel, SegmentError>(SegmentError::MissingWriteKey)
            &&& user_result(e, creds) != Err::<RequestModel, SegmentError>(SegmentError::MissingProjectId)
            &&& user_result(e, creds) != Err::<RequestModel, SegmentError>(SegmentError::MissingWriteKey)
        },
{
}

/// The context of every document (the one track and identify send, and the
/// one page sends with the page data merged in) has no empty part: each
/// sub-object present holds at least one field, and each field present is
/// non-empty.
pub proof fn lemma_context_never_has_empty_objects(
    e: Event,
    d: PageData,
    project_id: String,
    timestamp: Seq<char>,
    event_type: Seq<char>,
)
    ensures
        no_empty_parts(base_payload(e, project_id, timestamp, event_type).context),
        no_empty_parts(
            page_model(e, d, base_payload(e, project_id, timestamp, event_type)).context,
        ),
{
}

spec fn all_nonempty(ms: Seq<Seq<char>>) -> bool {
    forall|i: int| 0 <= i < ms.len() ==> #[trigger] ms[i].len() > 0
}

proof fn lemma_join_of_members(ms: Seq<Seq<char>>)
    requires
        ms.len() > 0,
        all_nonempty(ms),
    ensures
        join(ms).len() > 0,
    decreases ms.len(),
{
    if ms.len() > 1 {
        lemma_join_of_members(ms.drop_last());
    }
}

proof fn lemma_opt_member(key: Seq<char>, value: Option<Seq<char>>)
    ensures
        all_nonempty(opt_member(key, value)),
        opt_member(key, value).len() == (if value is Some { 1int } else { 0int }),
{
    if let Some(v) = value {
        assert(member_text(key, v).len() > 0);
    }
}

proof fn lemma_concat(a: Seq<Seq<char>>, b: Seq<Seq<char>>)
    requires
        all_nonempty(a),
        all_nonempty(b),
    ensures
        all_nonempty(a + b),
{
    assert forall|i: int| 0 <= i < (a + b).len() implies #[trigger] (a + b)[i].len() > 0 by {
        if i >= a.len() {
            assert((a + b)[i] == b[i - a.len()]);
        }
    }
}

proof fn lemma_object(ms: Seq<Seq<char>>)
    requires
        ms.len() > 0,
        all_nonempty(ms),
    ensures
        object_text(ms).len() > 2,
{
    lemma_join_of_members(ms);
}

/// A context without empty parts writes none of its sub-objects as `{}`:
/// each one's JSON text holds more than its two braces.
pub proof fn lemma_no_empty_object_text(c: Context)
    requires
        no_empty_parts(c),
    ensures
        c.page matches Some(p) ==> p.json().len() > 2,
        c.campaign matches Some(k) ==> k.json().len() > 2,
        c.os matches Some(o) ==> o.json().len() > 2,
        c.screen matches Some(s) ==> s.json().len() > 2,
{
    if let Some(p) = c.page {
        let (a, b, d, e, f) = (
            opt_member("path"@, quoted_opt(p.path)),
            opt_member("referrer"@, quoted_opt(p.referrer)),
            opt_member("search"@, quoted_opt(p.search)),
            opt_member("title"@, quoted_opt(p.title)),
            opt_member("url"@, quoted_opt(p.url)),
        );
        lemma_opt_member("path"@, quoted_opt(p.path));
        lemma_opt_member("referrer"@, quoted_opt(p.referrer));
        lemma_opt_member("search"@, quoted_opt(p.search));
        lemma_opt_member("title"@, quoted_opt(p.title));
        lemma_opt_member("url"@, quoted_opt(p.url));
        lemma_concat(a, b);
        lemma_concat(a + b, d);
        lemma_concat(a + b + d, e);
        lemma_concat(a + b + d + e, f);
        lemma_object(a + b + d + e + f);
    }
    if let Some(k) = c.campaign {
        let (a, b, d, e, f) = (
            opt_member("name"@, quoted_opt(k.name)),
            opt_member("source"@, quoted_opt(k.source)),
            opt_member("medium"@, quoted_opt(k.medium)),
            opt_member("term"@, quoted_opt(k.term)),
            opt_member("content"@, quoted_opt(k.content)),
        );
        lemma_opt_member("name"@, quoted_opt(k.name));
        lemma_opt_member("source"@, quoted_opt(k.source));
        lemma_opt_member("medium"@, quoted_opt(k.medium));
        lemma_opt_member("term"@, quoted_opt(k.term));
        lemma_opt_member("content"@, quoted_opt(k.content));
        lemma_concat(a, b);
        lemma_concat(a + b, d);
        lemma_concat(a + b + d, e);
        lemma_concat(a + b + d + e, f);
        lemma_object(a + b + d + e + f);
    }
    if let Some(o) = c.os {
        let (a, b) = (
            opt_member("name"@, quoted_opt(o.name)),
            opt_member("version"@, quoted_opt(o.version)),
        );
        lemma_opt_member("name"@, quoted_opt(o.name));
        lemma_opt_member("version"@, quoted_opt(o.version));
        lemma_concat(a, b);
        lemma_object(a + b);
    }
    if let Some(s) = c.screen {
        let (a, b, d) = (
            opt_member("width"@, count_opt(s.width)),
            opt_member("height"@, count_opt(s.height)),
            opt_member("density"@, density_opt(s.density)),
        );
        lemma_opt_member("width"@, count_opt(s.width));
        lemma_opt_member("height"@, count_opt(s.height));
        lemma_opt_member("density"@, density_opt(s.density));
        lemma_concat(a, b);
        lemma_concat(a + b, d);
        lemma_object(a + b + d);
    }
}

} // verus!
