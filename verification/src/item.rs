//! The record model: identifiers, the history item entity, and the
//! extensible payload capability.

use vstd::prelude::*;

verus! {

/// Identity of one persisted history item.
///
/// An opaque wrapper around a 64-bit signed integer, assigned by the backend
/// on insertion and never client-chosen for new records.
#[derive(Debug, Copy, Clone, PartialEq, Eq, Structural)]
pub struct HistoryItemId(pub(crate) i64);

impl View for HistoryItemId {
    type V = int;

    closed spec fn view(&self) -> int {
        self.0 as int
    }
}

impl HistoryItemId {
    /// Wraps a backend-assigned row identity.
    pub fn new(i: i64) -> (r: HistoryItemId)
        ensures
            r@ == i as int,
    {
        HistoryItemId(i)
    }

    /// The raw numeric value, for display and tests.
    pub fn raw(&self) -> (r: i64)
        ensures
            r as int == self@,
    {
        self.0
    }
}

/// Identity of one shell session, grouping the items run in it.
#[derive(Debug, Copy, Clone, PartialEq, Eq, Structural)]
pub struct HistorySessionId(pub(crate) i64);

impl View for HistorySessionId {
    type V = int;

    closed spec fn view(&self) -> int {
        self.0 as int
    }
}

impl HistorySessionId {
    /// Wraps a backend-allocated session identity.
    pub fn new(i: i64) -> (r: HistorySessionId)
        ensures
            r@ == i as int,
    {
        HistorySessionId(i)
    }

    /// The raw numeric value, for display and tests.
    pub fn raw(&self) -> (r: i64)
        ensures
            r as int == self@,
    {
        self.0
    }
}

/// Two item identities with the same numeric value are the same
/// identity.
pub proof fn lemma_item_id_view_injective(a: HistoryItemId, b: HistoryItemId)
    ensures
        a@ == b@ ==> a == b,
{
}

/// Two session identities with the same numeric value are the same
/// identity.
pub proof fn lemma_session_id_view_injective(a: HistorySessionId, b: HistorySessionId)
    ensures
        a@ == b@ ==> a == b,
{
}

/// The extensible payload capability: arbitrary additional context that can
/// be attached to a history item.
///
/// A payload must encode itself to a self-describing text representation and
/// decode from the same representation; decoding reports `None` where the
/// text cannot be understood.
pub trait HistoryItemExtraInfo: Sized {
    /// Encodes the payload as text for storage.
    fn encode_text(&self) -> String;

    /// Decodes a stored text; `None` means the text is not a valid encoding.
    fn decode_text(s: &str) -> Option<Self>;
}

/// The default payload: encodes as an explicit "no data" marker and decodes
/// by accepting and discarding any content.
///
/// This is the forward/backward-compatibility mechanism: old stores read by
/// new code, and unknown payload shapes read by old code, never fail.
#[derive(Default, Debug, Copy, Clone, PartialEq, Eq, Structural)]
pub struct Anything;

impl HistoryItemExtraInfo for Anything {
    fn encode_text(&self) -> (r: String)
        ensures
            r@ == "null"@,
    {
        "null".to_owned()
    }

    fn decode_text(s: &str) -> (r: Option<Anything>)
        ensures
            r == Some(Anything),
    {
        Some(Anything)
    }
}

/// One persisted record of an executed command plus optional metadata.
///
/// `command_line` is always present; every other field is optional and
/// independently absent. Instants and durations carry millisecond precision
/// as plain integers.
#[derive(Debug, Clone, PartialEq)]
pub struct HistoryItem<ExtraInfo: HistoryItemExtraInfo = Anything> {
    /// Primary key, unique across one history; absent until first persisted,
    /// present and immutable thereafter.
    pub id: Option<HistoryItemId>,
    /// When the command was started, in milliseconds since the epoch.
    pub start_timestamp: Option<i64>,
    /// The full command line as text.
    pub command_line: String,
    /// The session the command was run in.
    pub session_id: Option<HistorySessionId>,
    /// The hostname the command was run on.
    pub hostname: Option<String>,
    /// The working directory the command was run in.
    pub cwd: Option<String>,
    /// How long the command took to complete, in milliseconds.
    pub duration_ms: Option<u64>,
    /// The exit status of the command.
    pub exit_status: Option<i64>,
    /// Arbitrary additional context.
    pub more_info: Option<ExtraInfo>,
}

impl HistoryItem<Anything> {
    /// Creates a history item purely from the command line, with every other
    /// field absent.
    pub fn from_command_line(cmd: String) -> (r: HistoryItem<Anything>)
        ensures
            r.id is None,
            r.start_timestamp is None,
            r.command_line@ == cmd@,
            r.session_id is None,
            r.hostname is None,
            r.cwd is None,
            r.duration_ms is None,
            r.exit_status is None,
            r.more_info is None,
    {
        HistoryItem {
            id: None,
            start_timestamp: None,
            command_line: cmd,
            session_id: None,
            hostname: None,
            cwd: None,
            duration_ms: None,
            exit_status: None,
            more_info: None,
        }
    }
}

} // verus!
