//! Decoding one output line of the child into the fields the aggregator
//! reads.
//!
//! Each line is attempted as a JSON value; the aggregator only ever looks at
//! six string fields of it, so the decoder hands back exactly those, each
//! absent when the line does not carry it.  What a given line decodes to is
//! a function of the line alone; the library gives the decode results names
//! and states every caller's contract over those names.

use vstd::prelude::*;

verus! {

/// The fields the aggregator reads from one decoded event.  Each is absent
/// when the line's JSON does not carry a string at the expected place.
pub struct Event {
    /// "type" inside the nested "item" object.
    pub item_type: Option<String>,
    /// "text" inside the nested "item" object.
    pub item_text: Option<String>,
    /// Top-level "thread_id": the session identity.
    pub thread_id: Option<String>,
    /// Top-level "type": the event classification.
    pub event_type: Option<String>,
    /// "message" inside the nested "error" object.
    pub error_message: Option<String>,
    /// Top-level "message".
    pub message: Option<String>,
}

/// Mathematical image of an event.
#[verifier::ext_equal]
pub struct EventModel {
    pub item_type: Option<Seq<char>>,
    pub item_text: Option<Seq<char>>,
    pub thread_id: Option<Seq<char>>,
    pub event_type: Option<Seq<char>>,
    pub error_message: Option<Seq<char>>,
    pub message: Option<Seq<char>>,
}

impl View for Event {
    type V = EventModel;

    open spec fn view(&self) -> EventModel {
        EventModel {
            item_type: self.item_type.deep_view(),
            item_text: self.item_text.deep_view(),
            thread_id: self.thread_id.deep_view(),
            event_type: self.event_type.deep_view(),
            error_message: self.error_message.deep_view(),
            message: self.message.deep_view(),
        }
    }
}

/// Whether the line is well-formed JSON, i.e. the decoder accepts it.
pub uninterp spec fn json_ok(s: Seq<char>) -> bool;

/// The decoder's complaint on a line that is not well-formed JSON.
pub uninterp spec fn json_err_of(s: Seq<char>) -> Seq<char>;

/// The string at "item"."type" of the line's JSON, if any.
pub uninterp spec fn item_type_of(s: Seq<char>) -> Option<Seq<char>>;

/// The string at "item"."text" of the line's JSON, if any.
pub uninterp spec fn item_text_of(s: Seq<char>) -> Option<Seq<char>>;

/// The string at top-level "thread_id" of the line's JSON, if any.
pub uninterp spec fn thread_id_of(s: Seq<char>) -> Option<Seq<char>>;

/// The string at top-level "type" of the line's JSON, if any.
pub uninterp spec fn event_type_of(s: Seq<char>) -> Option<Seq<char>>;

/// The string at "error"."message" of the line's JSON, if any.
pub uninterp spec fn error_message_of(s: Seq<char>) -> Option<Seq<char>>;

/// The string at top-level "message" of the line's JSON, if any.
pub uninterp spec fn message_of(s: Seq<char>) -> Option<Seq<char>>;

/// The event a well-formed line decodes to.
pub open spec fn event_of(s: Seq<char>) -> EventModel {
    EventModel {
        item_type: item_type_of(s),
        item_text: item_text_of(s),
        thread_id: thread_id_of(s),
        event_type: event_type_of(s),
        error_message: error_message_of(s),
        message: message_of(s),
    }
}

/// Relies on serde_json: `from_str` parses the line into a JSON value and
/// returns `Err` exactly on malformed input, `Value::pointer` looks a value
/// up by path, and `Value::as_str` gives it back when it is a string.  All
/// three depend on their arguments alone.
#[verifier::external_body]
pub(crate) fn decode_line(line: &str) -> (r: Result<Event, String>)
    ensures
        r is Ok <==> json_ok(line@),
        r matches Ok(ev) ==> ev@.item_type == item_type_of(line@),
        r matches Ok(ev) ==> ev@.item_text == item_text_of(line@),
        r matches Ok(ev) ==> ev@.thread_id == thread_id_of(line@),
        r matches Ok(ev) ==> ev@.event_type == event_type_of(line@),
        r matches Ok(ev) ==> ev@.error_message == error_message_of(line@),
        r matches Ok(ev) ==> ev@.message == message_of(line@),
        r matches Err(e) ==> e@ == json_err_of(line@),
{
    match serde_json::from_str::<serde_json::Value>(line) {
        Ok(v) => Ok(Event {
            item_type: v.pointer("/item/type").and_then(serde_json::Value::as_str).map(str::to_string),
            item_text: v.pointer("/item/text").and_then(serde_json::Value::as_str).map(str::to_string),
            thread_id: v.pointer("/thread_id").and_then(serde_json::Value::as_str).map(str::to_string),
            event_type: v.pointer("/type").and_then(serde_json::Value::as_str).map(str::to_string),
            error_message: v.pointer("/error/message").and_then(serde_json::Value::as_str).map(str::to_string),
            message: v.pointer("/message").and_then(serde_json::Value::as_str).map(str::to_string),
        }),
        Err(e) => Err(e.to_string()),
    }
}

} // verus!
