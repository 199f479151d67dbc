//! What the outside gets to know of the nodes of a running tree.
use serde_json::Value;
use vstd::prelude::*;

use crate::bt::handle::{FutResponse, NodeError, NodeHandle, ParentMessage, Status};
use crate::json::{json_fields, json_object, json_string, json_view, JsonView};

verus! {

/// The state of a node, as seen from the outside.
#[derive(PartialEq, Eq, Structural, Debug, Clone, Copy)]
pub enum OuterStatus {
    Killed,
    Poisonend,
    Success,
    Failure,
    Running,
    Idle,
}

impl OuterStatus {
    /// The state in one word.
    pub open spec fn text(self) -> Seq<char> {
        match self {
            OuterStatus::Killed => "Killed"@,
            OuterStatus::Poisonend => "Poisonend"@,
            OuterStatus::Success => "Success"@,
            OuterStatus::Failure => "Failure"@,
            OuterStatus::Running => "Running"@,
            OuterStatus::Idle => "Idle"@,
        }
    }

    pub fn to_string(&self) -> (text: String)
        ensures
            text@ == self.text(),
    {
        match self {
            OuterStatus::Killed => String::from_str("Killed"),
            OuterStatus::Poisonend => String::from_str("Poisonend"),
            OuterStatus::Success => String::from_str("Success"),
            OuterStatus::Failure => String::from_str("Failure"),
            OuterStatus::Running => String::from_str("Running"),
            OuterStatus::Idle => String::from_str("Idle"),
        }
    }
}

/// A node's own status, as seen from the outside.
pub open spec fn outer_status(status: Status) -> OuterStatus {
    match status {
        Status::Success => OuterStatus::Success,
        Status::Failure => OuterStatus::Failure,
        Status::Running => OuterStatus::Running,
        Status::Idle => OuterStatus::Idle,
    }
}

impl vstd::std_specs::convert::FromSpecImpl<Status> for OuterStatus {
    open spec fn obeys_from_spec() -> bool {
        true
    }

    open spec fn from_spec(status: Status) -> OuterStatus {
        outer_status(status)
    }
}

impl From<Status> for OuterStatus {
    fn from(status: Status) -> (outer: OuterStatus) {
        match status {
            Status::Success => OuterStatus::Success,
            Status::Failure => OuterStatus::Failure,
            Status::Running => OuterStatus::Running,
            Status::Idle => OuterStatus::Idle,
        }
    }
}

/// The news of one node.
#[derive(PartialEq, Eq, Debug, Clone)]
pub struct Update {
    /// The identifier of the node.
    pub id: String,
    pub status: OuterStatus,
}

impl Update {
    pub fn new(id: String, status: OuterStatus) -> (update: Update)
        ensures
            update == (Update { id, status }),
    {
        Self { id, status }
    }

    /// The update as a JSON object.
    pub open spec fn json(self) -> JsonView {
        JsonView::Object(
            map![
                "id"@ => JsonView::String(self.id@),
                "status"@ => JsonView::String(self.status.text()),
            ],
        )
    }

    pub fn to_json(&self) -> (value: Value)
        ensures
            json_view(value) == self.json(),
    {
        let id = (String::from_str("id"), json_string(self.id.clone()));
        let status = (String::from_str("status"), json_string(self.status.to_string()));
        let fields = vec![id, status];
        proof {
            reveal_with_fuel(json_fields, 3);
            assert(fields@.drop_last() =~= seq![id]);
        }
        json_object(fields)
    }
}

/// The state that a message of a node shows to the outside, if it shows one.
pub open spec fn shown_status(msg: ParentMessage) -> Option<OuterStatus> {
    match msg {
        ParentMessage::RequestStart => None,
        ParentMessage::Status(status) => Some(outer_status(status)),
        ParentMessage::Poison(_) => Some(OuterStatus::Poisonend),
        ParentMessage::Killed => Some(OuterStatus::Killed),
    }
}

/// Listens to all the nodes of a tree.
#[derive(Debug)]
pub struct Listener {
    pub handles: Vec<NodeHandle>,
}

impl Listener {
    pub fn new(handles: Vec<NodeHandle>) -> (listener: Listener)
        ensures
            listener.handles == handles,
    {
        Self { handles }
    }

    /// Whether this is the news, if any, in a message of the node with the given index.
    pub open spec fn tells(
        self,
        msg: ParentMessage,
        handle_index: usize,
        news: Option<Update>,
    ) -> bool {
        match shown_status(msg) {
            Some(status) => news == Some(
                Update { id: self.handles@[handle_index as int].id, status },
            ),
            None => news is None,
        }
    }

    /// One turn of listening: the news in what was received, if there is any. An error
    /// ends the listening. No message comes from a parent.
    pub fn run_listeners(&self, response: Result<FutResponse, NodeError>) -> (result: Result<
        Option<Update>,
        NodeError,
    >)
        requires
            response matches Ok(FutResponse::Child(handle_index, _)) ==> handle_index
                < self.handles@.len(),
        ensures
            match response {
                Ok(FutResponse::Child(handle_index, msg)) => result is Ok && self.tells(
                    msg,
                    handle_index,
                    result->Ok_0,
                ),
                Ok(FutResponse::Parent(_)) => result == Ok::<Option<Update>, NodeError>(None),
                Err(err) => result == Err::<Option<Update>, NodeError>(err),
            },
    {
        match response {
            Ok(FutResponse::Child(handle_index, msg)) => Ok(self.process_msg(msg, handle_index)),
            Ok(FutResponse::Parent(_)) => Ok(None),
            Err(err) => Err(err),
        }
    }

    /// The news, if any, in a message of the node with the given index.
    pub fn process_msg(&self, msg: ParentMessage, handle_index: usize) -> (news: Option<Update>)
        requires
            handle_index < self.handles@.len(),
        ensures
            self.tells(msg, handle_index, news),
    {
        match msg {
            ParentMessage::RequestStart => None,
            ParentMessage::Status(status) => Some(
                self.update_status(handle_index, OuterStatus::from(status)),
            ),
            ParentMessage::Poison(_) => Some(
                self.update_status(handle_index, OuterStatus::Poisonend),
            ),
            ParentMessage::Killed => Some(self.update_status(handle_index, OuterStatus::Killed)),
        }
    }

    fn update_status(&self, handle_index: usize, status: OuterStatus) -> (update: Update)
        requires
            handle_index < self.handles@.len(),
        ensures
            update == (Update { id: self.handles@[handle_index as int].id, status }),
    {
        Update::new(self.handles[handle_index].id.clone(), status)
    }
}

/// The outside hears of everything that a node says of itself, and of nothing else: only
/// the request to be started makes no news, and two different states never look alike.
pub proof fn law_listener_tells_every_status(status: Status, other: Status, err: NodeError)
    ensures
        shown_status(ParentMessage::RequestStart) is None,
        shown_status(ParentMessage::Status(status)) is Some,
        shown_status(ParentMessage::Status(status)) == shown_status(ParentMessage::Status(other))
            ==> status == other,
        shown_status(ParentMessage::Poison(err)) == Some(OuterStatus::Poisonend),
        shown_status(ParentMessage::Killed) == Some(OuterStatus::Killed),
        shown_status(ParentMessage::Status(status)) != Some(OuterStatus::Poisonend),
        shown_status(ParentMessage::Status(status)) != Some(OuterStatus::Killed),
{
}

/// What the outside sees of a node is what the node said: each status under its own name,
/// poison and death under theirs.
pub proof fn law_news_is_what_the_node_said(status: Status)
    ensures
        shown_status(ParentMessage::Status(status)) is Some,
        ({
            let shown = shown_status(ParentMessage::Status(status))->0;
            &&& shown is Success <==> status is Success
            &&& shown is Failure <==> status is Failure
            &&& shown is Running <==> status is Running
            &&& shown is Idle <==> status is Idle
        }),
        outer_status(status) == shown_status(ParentMessage::Status(status))->0,
{
}

/// The news of a message names the node that sent it, and there is news in every message
/// but the request to be started.
pub proof fn law_news_names_its_node(
    listener: Listener,
    msg: ParentMessage,
    handle_index: usize,
    news: Option<Update>,
)
    requires
        listener.tells(msg, handle_index, news),
    ensures
        news is None <==> msg is RequestStart,
        news is Some ==> {
            &&& news->0.id == listener.handles@[handle_index as int].id
            &&& news->0.status is Killed <==> msg is Killed
            &&& news->0.status is Poisonend <==> msg is Poison
            &&& msg matches ParentMessage::Status(status) ==> news->0.status == outer_status(status)
        },
{
}

/// The JSON object of an update tells the identifier of the node and its state in one word,
/// and nothing else.
pub proof fn law_json_tells_all_of_an_update(update: Update)
    ensures
        update.json() is Object,
        ({
            let fields = update.json()->Object_0;
            &&& fields.dom() =~= set!["id"@, "status"@]
            &&& fields["id"@] == JsonView::String(update.id@)
            &&& fields["status"@] == JsonView::String(
                match update.status {
                    OuterStatus::Killed => "Killed"@,
                    OuterStatus::Poisonend => "Poisonend"@,
                    OuterStatus::Success => "Success"@,
                    OuterStatus::Failure => "Failure"@,
                    OuterStatus::Running => "Running"@,
                    OuterStatus::Idle => "Idle"@,
                },
            )
        }),
{
    reveal_strlit("id");
    reveal_strlit("status");
    assert("id"@.len() == 2 && "status"@.len() == 6);
}

} // verus!
