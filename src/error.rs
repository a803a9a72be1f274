use vstd::prelude::*;

verus! {

/// Why no request could be built for an event.
#[derive(Clone, Copy, Debug, PartialEq, Eq, Structural)]
pub enum SegmentError {
    /// The credentials hold no `segment_project_id`.
    MissingProjectId,
    /// The credentials hold no `segment_write_key`.
    MissingWriteKey,
    /// A page request was asked for an event that carries no page data.
    MissingPageData,
    /// A track request was asked for an event that carries no track data.
    MissingTrackData,
    /// An identify request was asked for an event that carries no user data.
    MissingUserData,
    /// The track event has an empty name.
    MissingTrackName,
    /// The user event has neither a user id nor an anonymous id.
    MissingUserIds,
    /// The event's timestamp lies outside the range of calendar dates.
    InvalidTimestamp,
}

impl SegmentError {
    /// The human-readable message of the error.
    pub open spec fn message_text(self) -> Seq<char> {
        match self {
            SegmentError::MissingProjectId => "Segment project id is required"@,
            SegmentError::MissingWriteKey => "Segment write key is required"@,
            SegmentError::MissingPageData => "Missing page data"@,
            SegmentError::MissingTrackData => "Missing track data"@,
            SegmentError::MissingUserData => "Missing user data"@,
            SegmentError::MissingTrackName => "Track is not set"@,
            SegmentError::MissingUserIds => "user_id or anonymous_id is not set"@,
            SegmentError::InvalidTimestamp => "Timestamp is out of range"@,
        }
    }

    /// The human-readable message of the error.
    pub fn message(&self) -> (r: String)
        ensures
            r@ == self.message_text(),
    {
        let text = match self {
            SegmentError::MissingProjectId => "Segment project id is required",
            SegmentError::MissingWriteKey => "Segment write key is required",
            SegmentError::MissingPageData => "Missing page data",
            SegmentError::MissingTrackData => "Missing track data",
            SegmentError::MissingUserData => "Missing user data",
            SegmentError::MissingTrackName => "Track is not set",
            SegmentError::MissingUserIds => "user_id or anonymous_id is not set",
            SegmentError::InvalidTimestamp => "Timestamp is out of range",
        };
        String::from_str(text)
    }
}

} // verus!
