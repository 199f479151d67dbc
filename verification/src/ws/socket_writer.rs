//! What is written to a connection: the tree once, and then every update.
use serde_json::Value;
use vstd::prelude::*;

use crate::bt::listener::Update;
use crate::json::{json_fields, json_object, json_string, json_text, json_to_string, json_view,
    JsonView};

verus! {

/// What a writer reacts to.
pub enum WriterEvent {
    /// The connection stands, and this is the tree.
    Connected(Value),
    /// The next update, or nothing when no more can come.
    Received(Option<Update>),
}

/// A message of the given type.
pub open spec fn message(kind: Seq<char>, value: JsonView) -> JsonView {
    JsonView::Object(map!["type"@ => JsonView::String(kind), "value"@ => value])
}

/// Writes to a connection.
pub struct SocketWriter {}

impl SocketWriter {
    /// The text of a message of the given type.
    pub fn message_text(kind: String, value: Value) -> (text: String)
        ensures
            text@ == json_text(message(kind@, json_view(value))),
    {
        let kind_field = (String::from_str("type"), json_string(kind));
        let value_field = (String::from_str("value"), value);
        let fields = vec![kind_field, value_field];
        proof {
            reveal_with_fuel(json_fields, 3);
            assert(fields@.drop_last() =~= seq![kind_field]);
        }
        let object = json_object(fields);
        assert(json_view(object) == message(kind@, json_view(value)));
        json_to_string(&object)
    }

    /// What has to be written next, if anything: the writer is finished when no more
    /// updates can come.
    pub fn run(event: WriterEvent) -> (text: Option<String>)
        ensures
            match event {
                WriterEvent::Connected(bt_export) => text is Some && text->0@ == json_text(
                    message("tree"@, json_view(bt_export)),
                ),
                WriterEvent::Received(Some(update)) => text is Some && text->0@ == json_text(
                    message("update"@, update.json()),
                ),
                WriterEvent::Received(None) => text is None,
            },
    {
        match event {
            WriterEvent::Connected(bt_export) => Some(
                SocketWriter::message_text(String::from_str("tree"), bt_export),
            ),
            WriterEvent::Received(Some(update)) => Some(
                SocketWriter::message_text(String::from_str("update"), update.to_json()),
            ),
            WriterEvent::Received(None) => None,
        }
    }
}

/// A message tells its type and holds its value untouched, and nothing else.
pub proof fn law_message_holds_its_value(kind: Seq<char>, value: JsonView)
    ensures
        message(kind, value) is Object,
        ({
            let fields = message(kind, value)->Object_0;
            &&& fields.dom() =~= set!["type"@, "value"@]
            &&& fields["type"@] == JsonView::String(kind)
            &&& fields["value"@] == value
        }),
{
    reveal_strlit("type");
    reveal_strlit("value");
    assert("type"@.len() == 4 && "value"@.len() == 5);
}

} // verus!
