//! The messages that nodes exchange, the errors that end a node, and the handle
//! by which a node is known to its parent and to the tree.
use serde_json::Value;
use simple_xml_builder::XMLElement;
use vstd::prelude::*;

use crate::id::{fresh_id, is_node_id};
use crate::json::{json_fields, json_object, json_string, json_strings, json_view, JsonView};
use crate::xml::{xml_add_attribute, xml_element, xml_view, XmlView};

verus! {

/// What a node last reported of itself.
#[derive(PartialEq, Eq, Structural, Debug, Clone, Copy)]
pub enum Status {
    Success,
    Failure,
    Running,
    Idle,
}

impl Status {
    pub fn is_running(&self) -> (r: bool)
        ensures
            r == (*self is Running),
    {
        matches!(self, Status::Running)
    }

    pub fn is_failure(&self) -> (r: bool)
        ensures
            r == (*self is Failure),
    {
        matches!(self, Status::Failure)
    }

    pub fn is_idle(&self) -> (r: bool)
        ensures
            r == (*self is Idle),
    {
        matches!(self, Status::Idle)
    }

    pub fn is_succes(&self) -> (r: bool)
        ensures
            r == (*self is Success),
    {
        matches!(self, Status::Success)
    }
}

/// What a parent asks of a child.
#[derive(PartialEq, Eq, Structural, Debug, Clone, Copy)]
pub enum ChildMessage {
    Start,
    Stop,
    Kill,
}

impl ChildMessage {
    pub fn is_kill(&self) -> (r: bool)
        ensures
            r == (*self is Kill),
    {
        *self == ChildMessage::Kill
    }
}

/// What a child tells its parent.
#[derive(PartialEq, Eq, Debug, Clone)]
pub enum ParentMessage {
    RequestStart,
    Status(Status),
    Poison(NodeError),
    Killed,
}

/// Why nothing could be received from a broadcast channel.
#[derive(PartialEq, Eq, Structural, Debug, Clone, Copy)]
pub enum RecvError {
    /// Every sender is gone.
    Closed,
    /// The receiver was too slow, and this many messages are lost.
    Lagged(u64),
}

/// Why a shared value could not be read.
#[derive(PartialEq, Eq, Debug, Clone)]
pub enum ActorError {
    /// The value was never set; the text names its type.
    NoValueSet(String),
    /// Anything else, in words.
    Other(String),
}

/// Why a cache of a shared value could not be read.
#[derive(PartialEq, Eq, Structural, Debug, Clone, Copy)]
pub enum CacheRecvNewestError {
    /// The shared value is gone.
    Closed,
}

/// Why a node stops serving.
#[derive(PartialEq, Eq, Debug, Clone)]
pub enum NodeError {
    KillError,
    PoisonError(String),
    ExecutionError(String),
    TokioBroadcastSendError(String),
    TokioBroadcastRecvError(RecvError),
    TokioSendError,
    CacheError(CacheRecvNewestError),
    ActorError(ActorError),
}

impl NodeError {
    /// The error in words.
    pub open spec fn text(self) -> Seq<char> {
        match self {
            NodeError::KillError => "The node is killed"@,
            NodeError::PoisonError(cause) => "Poison error: "@ + cause@,
            NodeError::ExecutionError(cause) => "Execution error: "@ + cause@,
            NodeError::TokioBroadcastSendError(cause) => "Tokio broadcast send error: "@ + cause@,
            NodeError::TokioBroadcastRecvError(_) => "Tokio broadcast receiver error"@,
            NodeError::TokioSendError => "Tokio sender error"@,
            NodeError::CacheError(_) => "Cache Error"@,
            NodeError::ActorError(_) => "Actor Error"@,
        }
    }

    pub fn to_string(&self) -> (text: String)
        ensures
            text@ == self.text(),
    {
        match self {
            NodeError::KillError => String::from_str("The node is killed"),
            NodeError::PoisonError(cause) => String::from_str("Poison error: ").concat(
                cause.as_str(),
            ),
            NodeError::ExecutionError(cause) => String::from_str("Execution error: ").concat(
                cause.as_str(),
            ),
            NodeError::TokioBroadcastSendError(cause) => String::from_str(
                "Tokio broadcast send error: ",
            ).concat(cause.as_str()),
            NodeError::TokioBroadcastRecvError(_) => String::from_str(
                "Tokio broadcast receiver error",
            ),
            NodeError::TokioSendError => String::from_str("Tokio sender error"),
            NodeError::CacheError(_) => String::from_str("Cache Error"),
            NodeError::ActorError(_) => String::from_str("Actor Error"),
        }
    }
}

/// A message that a node has to send, as a result of what it just handled.
#[derive(PartialEq, Eq, Debug, Clone)]
pub enum Effect {
    NotifyParent(ParentMessage),
    /// To the child with this index, counted from zero.
    NotifyChild(usize, ChildMessage),
}

/// A message that reached a node with several children, with its origin.
#[derive(PartialEq, Eq, Debug, Clone)]
pub enum FutResponse {
    Parent(ChildMessage),
    /// From the child with this index, counted from zero.
    Child(usize, ParentMessage),
}

/// Whether a reaction hands back the messages, or the error, that it should.
pub open spec fn reacts(
    result: Result<Vec<Effect>, NodeError>,
    expected: Result<Seq<Effect>, NodeError>,
) -> bool {
    match expected {
        Ok(effects) => result is Ok && result->Ok_0@ =~= effects,
        Err(err) => result is Err && result->Err_0 == err,
    }
}

/// The message by which a broken node takes its parent down with it.
pub fn poison_parent(err: String) -> (msg: ParentMessage)
    ensures
        msg == ParentMessage::Poison(NodeError::PoisonError(err)),
{
    ParentMessage::Poison(NodeError::PoisonError(err))
}

/// Whether this is the last word of a node that stopped serving with an error: a
/// killed node acknowledges, poison is passed on as it came, and any other error
/// becomes poison with the error's text.
pub open spec fn is_exit_message(err: NodeError, msg: ParentMessage) -> bool {
    match err {
        NodeError::KillError => msg == ParentMessage::Killed,
        NodeError::PoisonError(cause) => msg == ParentMessage::Poison(
            NodeError::PoisonError(cause),
        ),
        _ => msg matches ParentMessage::Poison(NodeError::PoisonError(cause)) && cause@
            == err.text(),
    }
}

/// The last word of a node that stopped serving with an error.
pub fn exit_message(err: NodeError) -> (msg: ParentMessage)
    ensures
        is_exit_message(err, msg),
{
    match err {
        NodeError::KillError => ParentMessage::Killed,
        NodeError::PoisonError(cause) => poison_parent(cause),
        err => poison_parent(err.to_string()),
    }
}

/// What there is to know of a node without its descendants.
pub struct NodeView {
    pub element: Seq<char>,
    pub name: Seq<char>,
    pub id: Seq<char>,
    pub children_names: Seq<Seq<char>>,
    pub children_ids: Seq<Seq<char>>,
}

/// The texts in a list of strings.
pub open spec fn texts(strings: Seq<String>) -> Seq<Seq<char>> {
    strings.map_values(|s: String| s@)
}

/// The description by which a node is known to its parent and to the tree.
#[derive(Debug)]
pub struct NodeHandle {
    /// The kind of node.
    pub element: String,
    pub name: String,
    pub id: String,
    pub children_names: Vec<String>,
    pub children_ids: Vec<String>,
    /// The descendants, until somebody takes them.
    pub handles: Vec<NodeHandle>,
}

/// The nodes in a list of handles.
pub open spec fn nodes(handles: Seq<NodeHandle>) -> Seq<NodeView> {
    handles.map_values(|h: NodeHandle| h@)
}

impl View for NodeHandle {
    type V = NodeView;

    open spec fn view(&self) -> NodeView {
        NodeView {
            element: self.element@,
            name: self.name@,
            id: self.id@,
            children_names: texts(self.children_names@),
            children_ids: texts(self.children_ids@),
        }
    }
}

impl NodeHandle {
    /// The descendants of a node, and the node itself as the last.
    pub open spec fn subtree(self) -> Seq<NodeView> {
        nodes(self.handles@).push(self@)
    }

    /// Whether two handles describe the same node with the same descendants.
    pub open spec fn same(self, other: NodeHandle) -> bool
        decreases self,
    {
        &&& self@ == other@
        &&& self.handles@.len() == other.handles@.len()
        &&& forall|i: int|
            0 <= i < self.handles@.len() ==> (#[trigger] self.handles@[i]).same(other.handles@[i])
    }
}

impl Clone for NodeHandle {
    fn clone(&self) -> (handle: NodeHandle)
        ensures
            self.same(handle),
        decreases self,
    {
        let mut handles: Vec<NodeHandle> = Vec::new();
        let mut i: usize = 0;
        while i < self.handles.len()
            invariant
                i <= self.handles@.len(),
                handles@.len() == i,
                forall|j: int| 0 <= j < i ==> (#[trigger] self.handles@[j]).same(handles@[j]),
            decreases self.handles@.len() - i,
        {
            handles.push(self.handles[i].clone());
            i = i + 1;
        }
        let handle = NodeHandle {
            element: self.element.clone(),
            name: self.name.clone(),
            id: self.id.clone(),
            children_names: self.children_names.clone(),
            children_ids: self.children_ids.clone(),
            handles,
        };
        assert(texts(self.children_names@) =~= texts(handle.children_names@));
        assert(texts(self.children_ids@) =~= texts(handle.children_ids@));
        handle
    }
}

/// What the killing of a node goes through.
#[derive(PartialEq, Eq, Debug)]
pub enum KillEvent {
    /// The node is to be killed, and this many receivers listen to its handle.
    Begin(usize),
    /// The request was sent, or not.
    Sent(Result<(), NodeError>),
    /// This came back from the node.
    Heard(Result<ParentMessage, NodeError>),
}

/// What has to be done next to kill a node.
#[derive(PartialEq, Eq, Structural, Debug, Clone, Copy)]
pub enum KillAction {
    Send(ChildMessage),
    Listen,
    Finished,
}

impl NodeHandle {
    /// Makes the handle of a new node with the given identifier.
    pub fn with_id(
        id: String,
        element: String,
        name: String,
        children_names: Vec<String>,
        children_ids: Vec<String>,
        handles: Vec<NodeHandle>,
    ) -> (handle: NodeHandle)
        ensures
            handle == (NodeHandle { element, name, id, children_names, children_ids, handles }),
    {
        NodeHandle { element, name, id, children_names, children_ids, handles }
    }

    /// Makes the handle of a new node, with an identifier of its own.
    pub fn new(
        element: String,
        name: String,
        children_names: Vec<String>,
        children_ids: Vec<String>,
        handles: Vec<NodeHandle>,
    ) -> (handle: NodeHandle)
        ensures
            is_node_id(handle.id@),
            handle == (NodeHandle {
                element,
                name,
                id: handle.id,
                children_names,
                children_ids,
                handles,
            }),
    {
        NodeHandle::with_id(fresh_id(), element, name, children_names, children_ids, handles)
    }

    /// What to do next to kill this node. A node that nobody listens for, that cannot be
    /// reached, or whose channel is broken has exited already; one that acknowledges
    /// has exited now. Anything else it says is discarded.
    pub open spec fn kill_action(event: KillEvent) -> KillAction {
        match event {
            KillEvent::Begin(receivers) => if receivers > 0 {
                KillAction::Send(ChildMessage::Kill)
            } else {
                KillAction::Finished
            },
            KillEvent::Sent(Ok(_)) => KillAction::Listen,
            KillEvent::Sent(Err(_)) => KillAction::Finished,
            KillEvent::Heard(Ok(ParentMessage::Killed)) => KillAction::Finished,
            KillEvent::Heard(Err(NodeError::TokioBroadcastRecvError(_))) => KillAction::Finished,
            KillEvent::Heard(_) => KillAction::Listen,
        }
    }

    /// Kills the node, one step at a time.
    pub fn kill(&self, event: KillEvent) -> (action: KillAction)
        ensures
            action == Self::kill_action(event),
    {
        match event {
            KillEvent::Begin(receivers) => {
                if receivers > 0 {
                    KillAction::Send(ChildMessage::Kill)
                } else {
                    KillAction::Finished
                }
            },
            KillEvent::Sent(Ok(_)) => KillAction::Listen,
            KillEvent::Sent(Err(_)) => KillAction::Finished,
            KillEvent::Heard(Ok(ParentMessage::Killed)) => KillAction::Finished,
            KillEvent::Heard(Ok(_)) => KillAction::Listen,
            KillEvent::Heard(Err(NodeError::TokioBroadcastRecvError(_))) => KillAction::Finished,
            KillEvent::Heard(Err(_)) => KillAction::Listen,
        }
    }

    /// Takes the descendants out of the handle, and adds a copy of the handle itself.
    pub fn take_handles(&mut self) -> (handles: Vec<NodeHandle>)
        ensures
            nodes(handles@) == old(self).subtree(),
            handles@.drop_last() == old(self).handles@,
            handles@.last().handles@.len() == 0,
            final(self)@ == old(self)@,
            final(self).handles@.len() == 0,
    {
        let mut handles: Vec<NodeHandle> = Vec::new();
        std::mem::swap(&mut handles, &mut self.handles);
        handles.push(self.clone());
        assert(handles@.drop_last() =~= old(self).handles@);
        assert(nodes(handles@) =~= old(self).subtree());
        handles
    }

    /// The tag of a node in the Groot format, which knows conditions as decorators.
    pub open spec fn xml_tag(node: NodeView) -> Seq<char> {
        if node.element == "Condition"@ {
            "Decorator"@
        } else {
            node.element
        }
    }

    /// A node in the Groot format, without its children.
    pub open spec fn xml_of(node: NodeView) -> XmlView {
        XmlView {
            tag: Self::xml_tag(node),
            attributes: map!["name"@ => node.name],
            children: seq![],
            text: None,
        }
    }

    pub fn get_xml(&self) -> (element: XMLElement)
        ensures
            xml_view(element) == Self::xml_of(self@),
    {
        let tag = if self.element == String::from_str("Condition") {
            String::from_str("Decorator")
        } else {
            self.element.clone()
        };
        let mut element = xml_element(tag);
        xml_add_attribute(&mut element, "name", self.name.as_str());
        element
    }

    /// A node as a JSON object. A node without children has no list of children.
    pub open spec fn json_of(node: NodeView) -> JsonView {
        let plain = map![
            "id"@ => JsonView::String(node.id),
            "name"@ => JsonView::String(node.name),
            "type"@ => JsonView::String(node.element),
        ];
        if node.children_names.len() == 0 {
            JsonView::Object(plain)
        } else {
            JsonView::Object(
                plain.insert(
                    "children"@,
                    JsonView::Array(node.children_ids.map_values(|id: Seq<char>| JsonView::String(id))),
                ),
            )
        }
    }

    pub fn get_json(&self) -> (value: Value)
        ensures
            json_view(value) == Self::json_of(self@),
    {
        let id = (String::from_str("id"), json_string(self.id.clone()));
        let name = (String::from_str("name"), json_string(self.name.clone()));
        let element = (String::from_str("type"), json_string(self.element.clone()));
        if self.children_names.len() > 0 {
            let children = (String::from_str("children"), json_strings(&self.children_ids));
            let fields = vec![id, name, element, children];
            proof {
                reveal_with_fuel(json_fields, 5);
                assert(fields@.drop_last() =~= seq![id, name, element]);
                assert(fields@.drop_last().drop_last() =~= seq![id, name]);
                assert(fields@.drop_last().drop_last().drop_last() =~= seq![id]);
                assert(self@.children_ids.map_values(|id: Seq<char>| JsonView::String(id))
                    =~= self.children_ids@.map_values(|s: String| JsonView::String(s@)));
            }
            json_object(fields)
        } else {
            let fields = vec![id, name, element];
            proof {
                reveal_with_fuel(json_fields, 4);
                assert(fields@.drop_last() =~= seq![id, name]);
                assert(fields@.drop_last().drop_last() =~= seq![id]);
            }
            json_object(fields)
        }
    }
}

/// Whether a child of a node stands before it in a list of nodes.
pub open spec fn child_stands_before(list: Seq<NodeView>, p: int, k: int) -> bool {
    exists|q: int|
        0 <= q < p && (#[trigger] list[q]).name == list[p].children_names[k] && list[q].id
            == list[p].children_ids[k]
}

/// Whether every child of every node in a list stands in the list before its parent.
pub open spec fn children_first(list: Seq<NodeView>) -> bool {
    &&& forall|p: int|
        0 <= p < list.len() ==> (#[trigger] list[p]).children_names.len()
            == list[p].children_ids.len()
    &&& forall|p: int, k: int|
        0 <= p < list.len() && 0 <= k < list[p].children_names.len()
            ==> #[trigger] child_stands_before(list, p, k)
}

/// Whether a list of nodes consists of whole trees, one behind the other, whose roots have
/// the given names and identifiers.
pub open spec fn is_forest(list: Seq<NodeView>, names: Seq<Seq<char>>, ids: Seq<Seq<char>>) -> bool
    decreases list.len(), 1nat,
{
    if names.len() == 0 {
        list.len() == 0
    } else {
        exists|m: int|
            {
                &&& 0 <= m < list.len()
                &&& is_forest(#[trigger] list.take(m), names.drop_last(), ids.drop_last())
                &&& is_whole_tree(list.skip(m))
                &&& list.last().name == names.last()
                &&& list.last().id == ids.last()
            }
    }
}

/// Whether a list of nodes is one whole tree: the whole trees of the children of the last
/// node, in their order, and then that node itself.
pub open spec fn is_whole_tree(list: Seq<NodeView>) -> bool
    decreases list.len(), 0nat,
{
    &&& list.len() > 0
    &&& list.last().children_names.len() == list.last().children_ids.len()
    &&& is_forest(list.drop_last(), list.last().children_names, list.last().children_ids)
}

/// The subtrees of several nodes, one behind the other.
pub open spec fn subtrees(children: Seq<NodeHandle>) -> Seq<NodeView>
    decreases children.len(),
{
    if children.len() == 0 {
        seq![]
    } else {
        subtrees(children.drop_last()) + children.last().subtree()
    }
}

impl NodeHandle {
    /// Whether the handle holds all the descendants of its node.
    pub open spec fn wf(self) -> bool {
        is_whole_tree(self.subtree())
    }

    /// Whether the descendants that the handle holds hold none themselves.
    pub open spec fn is_flat(self) -> bool {
        forall|i: int|
            0 <= i < self.handles@.len() ==> (#[trigger] self.handles@[i]).handles@.len() == 0
    }

    /// Whether this is the handle of a node with the given children, fresh from its
    /// making: it holds their subtrees.
    pub open spec fn is_parent(
        self,
        element: Seq<char>,
        name: Seq<char>,
        children: Seq<NodeHandle>,
    ) -> bool {
        &&& is_node_id(self.id@)
        &&& self@ == (NodeView {
            element,
            name,
            id: self.id@,
            children_names: children.map_values(|c: NodeHandle| c.name@),
            children_ids: children.map_values(|c: NodeHandle| c.id@),
        })
        &&& nodes(self.handles@) == subtrees(children)
        &&& (forall|i: int| 0 <= i < children.len() ==> (#[trigger] children[i]).wf())
            ==> self.wf()
        &&& (forall|i: int| 0 <= i < children.len() ==> (#[trigger] children[i]).is_flat())
            ==> self.is_flat()
    }
}

proof fn lemma_children_first_add(a: Seq<NodeView>, b: Seq<NodeView>)
    requires
        children_first(a),
        children_first(b),
    ensures
        children_first(a + b),
{
    let list = a + b;
    assert forall|p: int| 0 <= p < list.len() implies (#[trigger] list[p]).children_names.len()
        == list[p].children_ids.len() by {
        if p < a.len() {
            assert(list[p] == a[p]);
        } else {
            assert(list[p] == b[p - a.len()]);
        }
    }
    assert forall|p: int, k: int|
        0 <= p < list.len() && 0 <= k < list[p].children_names.len() implies #[trigger] child_stands_before(
        list,
        p,
        k,
    ) by {
        if p < a.len() {
            assert(child_stands_before(a, p, k));
            let q = choose|q: int|
                0 <= q < p && (#[trigger] a[q]).name == a[p].children_names[k] && a[q].id
                    == a[p].children_ids[k];
            assert(list[q] == a[q]);
        } else {
            let r = p - a.len();
            assert(child_stands_before(b, r, k));
            let q = choose|q: int|
                0 <= q < r && (#[trigger] b[q]).name == b[r].children_names[k] && b[q].id
                    == b[r].children_ids[k];
            assert(list[q + a.len()] == b[q]);
        }
    }
}

proof fn lemma_forest(list: Seq<NodeView>, names: Seq<Seq<char>>, ids: Seq<Seq<char>>)
    requires
        is_forest(list, names, ids),
        names.len() == ids.len(),
    ensures
        children_first(list),
        forall|k: int|
            0 <= k < names.len() ==> exists|q: int|
                0 <= q < list.len() && (#[trigger] list[q]).name == #[trigger] names[k]
                    && list[q].id == ids[k],
    decreases list.len(), 1nat,
{
    if names.len() > 0 {
        let m = choose|m: int|
            {
                &&& 0 <= m < list.len()
                &&& is_forest(#[trigger] list.take(m), names.drop_last(), ids.drop_last())
                &&& is_whole_tree(list.skip(m))
                &&& list.last().name == names.last()
                &&& list.last().id == ids.last()
            };
        let front = list.take(m);
        lemma_forest(front, names.drop_last(), ids.drop_last());
        law_children_stand_first(list.skip(m));
        lemma_children_first_add(front, list.skip(m));
        assert(front + list.skip(m) =~= list);
        assert forall|k: int| 0 <= k < names.len() implies exists|q: int|
            0 <= q < list.len() && (#[trigger] list[q]).name == #[trigger] names[k] && list[q].id
                == ids[k] by {
            if k == names.len() - 1 {
                assert(list[list.len() - 1].name == names[k]);
            } else {
                assert(names.drop_last()[k] == names[k]);
                let q = choose|q: int|
                    0 <= q < front.len() && (#[trigger] front[q]).name == names.drop_last()[k]
                        && front[q].id == ids.drop_last()[k];
                assert(list[q] == front[q]);
            }
        }
    }
}

/// In a whole tree every child stands before its parent.
pub proof fn law_children_stand_first(list: Seq<NodeView>)
    requires
        is_whole_tree(list),
    ensures
        children_first(list),
    decreases list.len(), 0nat,
{
    let below = list.drop_last();
    let root = list.last();
    lemma_forest(below, root.children_names, root.children_ids);
    assert forall|p: int| 0 <= p < list.len() implies (#[trigger] list[p]).children_names.len()
        == list[p].children_ids.len() by {
        if p < below.len() {
            assert(list[p] == below[p]);
        }
    }
    assert forall|p: int, k: int|
        0 <= p < list.len() && 0 <= k < list[p].children_names.len() implies #[trigger] child_stands_before(
        list,
        p,
        k,
    ) by {
        if p < below.len() {
            assert(child_stands_before(below, p, k));
            let q = choose|q: int|
                0 <= q < p && (#[trigger] below[q]).name == below[p].children_names[k]
                    && below[q].id == below[p].children_ids[k];
            assert(list[q] == below[q]);
        } else {
            assert(root.children_names[k] == list[p].children_names[k]);
            let q = choose|q: int|
                0 <= q < below.len() && (#[trigger] below[q]).name == root.children_names[k]
                    && below[q].id == root.children_ids[k];
            assert(list[q] == below[q]);
        }
    }
}

proof fn lemma_subtrees_are_forest(children: Seq<NodeHandle>)
    requires
        forall|i: int| 0 <= i < children.len() ==> (#[trigger] children[i]).wf(),
    ensures
        is_forest(
            subtrees(children),
            children.map_values(|c: NodeHandle| c.name@),
            children.map_values(|c: NodeHandle| c.id@),
        ),
    decreases children.len(),
{
    if children.len() > 0 {
        let rest = children.drop_last();
        assert forall|i: int| 0 <= i < rest.len() implies (#[trigger] rest[i]).wf() by {
            assert(rest[i] == children[i]);
        }
        lemma_subtrees_are_forest(rest);
        assert(children[children.len() - 1].wf());
        let list = subtrees(children);
        let m = subtrees(rest).len() as int;
        assert(list.take(m) =~= subtrees(rest));
        assert(list.skip(m) =~= children.last().subtree());
        assert(children.map_values(|c: NodeHandle| c.name@).drop_last() =~= rest.map_values(
            |c: NodeHandle| c.name@,
        ));
        assert(children.map_values(|c: NodeHandle| c.id@).drop_last() =~= rest.map_values(
            |c: NodeHandle| c.id@,
        ));
        assert(list.last() == children.last()@);
    }
}

proof fn lemma_parent_is_wf(handle: NodeHandle, children: Seq<NodeHandle>)
    requires
        handle@.children_names == children.map_values(|c: NodeHandle| c.name@),
        handle@.children_ids == children.map_values(|c: NodeHandle| c.id@),
        nodes(handle.handles@) == subtrees(children),
        forall|i: int| 0 <= i < children.len() ==> (#[trigger] children[i]).wf(),
    ensures
        handle.wf(),
{
    lemma_subtrees_are_forest(children);
    assert(handle.subtree().drop_last() =~= subtrees(children));
}

impl NodeHandle {
    /// Makes the handle of a new node with the given children, and takes over their
    /// descendants.
    pub fn parent_of(element: String, name: String, children: Vec<NodeHandle>) -> (handle:
        NodeHandle)
        ensures
            handle.is_parent(element@, name@, children@),
    {
        let ghost given = children@;
        let mut children = children;
        let mut children_names: Vec<String> = Vec::new();
        let mut children_ids: Vec<String> = Vec::new();
        let mut handles: Vec<NodeHandle> = Vec::new();
        let mut i: usize = 0;
        assert(nodes(handles@) =~= subtrees(given.take(0)));
        while i < children.len()
            invariant
                i <= children@.len(),
                children@.len() == given.len(),
                children_names@.len() == i,
                children_ids@.len() == i,
                forall|j: int| 0 <= j < i ==> (#[trigger] children_names@[j])@ == given[j].name@,
                forall|j: int| 0 <= j < i ==> (#[trigger] children_ids@[j])@ == given[j].id@,
                forall|j: int| i <= j < given.len() ==> #[trigger] children@[j] == given[j],
                nodes(handles@) == subtrees(given.take(i as int)),
                (forall|j: int| 0 <= j < given.len() ==> (#[trigger] given[j]).is_flat()) ==> forall|
                    j: int,
                |
                    0 <= j < handles@.len() ==> (#[trigger] handles@[j]).handles@.len() == 0,
            decreases children@.len() - i,
        {
            children_names.push(children[i].name.clone());
            children_ids.push(children[i].id.clone());
            let mut taken = children[i].take_handles();
            proof {
                let upto = given.take(i + 1);
                assert(upto.drop_last() =~= given.take(i as int));
                assert(nodes(handles@ + taken@) =~= nodes(handles@) + nodes(taken@));
                assert(given[i as int].is_flat() ==> forall|j: int|
                    0 <= j < taken@.len() ==> (#[trigger] taken@[j]).handles@.len() == 0) by {
                    assert forall|j: int|
                        0 <= j < taken@.len() && given[i as int].is_flat() implies (
                    #[trigger] taken@[j]).handles@.len() == 0 by {
                        if j < taken@.len() - 1 {
                            assert(taken@[j] == taken@.drop_last()[j]);
                        }
                    }
                }
            }
            handles.append(&mut taken);
            i = i + 1;
        }
        let handle = NodeHandle::new(element, name, children_names, children_ids, handles);
        proof {
            assert(given.take(given.len() as int) =~= given);
            assert(handle@.children_names =~= given.map_values(|c: NodeHandle| c.name@));
            assert(handle@.children_ids =~= given.map_values(|c: NodeHandle| c.id@));
            if forall|i: int| 0 <= i < given.len() ==> (#[trigger] given[i]).wf() {
                lemma_parent_is_wf(handle, given);
            }
        }
        handle
    }
}

/// A reaction is what it should be if and only if it hands back the same messages in the
/// same order, or the same error.
pub proof fn law_reaction_is_exact(
    result: Result<Vec<Effect>, NodeError>,
    effects: Seq<Effect>,
    err: NodeError,
)
    ensures
        reacts(result, Ok(effects)) <==> result is Ok && result->Ok_0@ == effects,
        reacts(result, Err(err)) <==> result is Err && result->Err_0 == err,
{
}

/// An error names its kind, and then its cause word for word, if it has one.
pub proof fn law_error_names_its_cause(
    cause: String,
    lost: RecvError,
    cache: CacheRecvNewestError,
    actor: ActorError,
)
    ensures
        NodeError::PoisonError(cause).text() == "Poison error: "@ + cause@,
        NodeError::ExecutionError(cause).text() == "Execution error: "@ + cause@,
        NodeError::TokioBroadcastSendError(cause).text() == "Tokio broadcast send error: "@
            + cause@,
        NodeError::KillError.text() == "The node is killed"@,
        NodeError::TokioBroadcastRecvError(lost).text() == "Tokio broadcast receiver error"@,
        NodeError::TokioSendError.text() == "Tokio sender error"@,
        NodeError::CacheError(cache).text() == "Cache Error"@,
        NodeError::ActorError(actor).text() == "Actor Error"@,
{
}

/// The last word of a node is that it was killed, if it was. Poison is passed on with the
/// cause that it came with, and every other error becomes poison whose cause are the words
/// of the error.
pub proof fn law_last_word_of_a_node(err: NodeError, msg: ParentMessage)
    requires
        is_exit_message(err, msg),
    ensures
        msg is Killed <==> err is KillError,
        err !is KillError ==> {
            &&& msg is Poison
            &&& msg->Poison_0 is PoisonError
            &&& msg->Poison_0->PoisonError_0@ == match err {
                NodeError::PoisonError(cause) => cause@,
                _ => err.text(),
            }
        },
{
}

/// The killing of a node asks it to die, once, if anybody is there to hear it, and ends
/// only when the node has died or cannot be reached. Else it goes on listening.
pub proof fn law_killing_ends_with_the_node(event: KillEvent)
    ensures
        ({
            let action = NodeHandle::kill_action(event);
            let is_gone = match event {
                KillEvent::Begin(receivers) => receivers == 0,
                KillEvent::Sent(result) => result is Err,
                KillEvent::Heard(Ok(msg)) => msg is Killed,
                KillEvent::Heard(Err(err)) => err is TokioBroadcastRecvError,
            };
            &&& action is Finished <==> is_gone
            &&& action is Send <==> event is Begin && !is_gone
            &&& action is Send ==> action == KillAction::Send(ChildMessage::Kill)
            &&& action is Listen <==> event !is Begin && !is_gone
        }),
{
}

/// A node is drawn under its kind, but for a condition, which is drawn as a decorator. It
/// bears its name and nothing else.
pub proof fn law_node_is_drawn_as_its_kind(node: NodeView)
    ensures
        ({
            let xml = NodeHandle::xml_of(node);
            &&& node.element == "Condition"@ ==> xml.tag == "Decorator"@
            &&& node.element != "Condition"@ ==> xml.tag == node.element
            &&& node.element == "Action"@ || node.element == "Sequence"@ || node.element
                == "Fallback"@ || node.element == "Decorator"@ ==> xml.tag == node.element
            &&& xml.attributes.dom() =~= set!["name"@]
            &&& xml.attributes["name"@] == node.name
            &&& xml.children.len() == 0
            &&& xml.text is None
        }),
{
    reveal_strlit("Condition");
    reveal_strlit("Action");
    reveal_strlit("Sequence");
    reveal_strlit("Fallback");
    reveal_strlit("Decorator");
    assert("Condition"@.len() == 9 && "Action"@.len() == 6 && "Sequence"@.len() == 8
        && "Fallback"@.len() == 8);
    assert("Decorator"@[0] == 'D' && "Condition"@[0] == 'C');
}

/// The JSON object of a node tells its identifier, its name and its kind, and the
/// identifiers of its children in their order if it has any, and nothing else.
pub proof fn law_json_tells_all_of_a_node(node: NodeView, k: int)
    requires
        node.children_names.len() == node.children_ids.len(),
    ensures
        NodeHandle::json_of(node) is Object,
        ({
            let fields = NodeHandle::json_of(node)->Object_0;
            &&& fields["id"@] == JsonView::String(node.id)
            &&& fields["name"@] == JsonView::String(node.name)
            &&& fields["type"@] == JsonView::String(node.element)
            &&& node.children_ids.len() == 0 ==> fields.dom() =~= set!["id"@, "name"@, "type"@]
            &&& node.children_ids.len() > 0 ==> {
                &&& fields.dom() =~= set!["id"@, "name"@, "type"@, "children"@]
                &&& fields["children"@] is Array
                &&& fields["children"@]->Array_0.len() == node.children_ids.len()
                &&& 0 <= k < node.children_ids.len() ==> fields["children"@]->Array_0[k]
                    == JsonView::String(node.children_ids[k])
            }
        }),
{
    reveal_strlit("id");
    reveal_strlit("name");
    reveal_strlit("type");
    reveal_strlit("children");
    assert("id"@.len() == 2 && "name"@.len() == 4 && "type"@.len() == 4 && "children"@.len() == 8);
    assert("name"@[0] == 'n' && "type"@[0] == 't');
}

/// What a handle shows of its node is what stands in its fields.
pub proof fn law_handle_shows_its_fields(handle: NodeHandle, k: int)
    ensures
        handle@.element == handle.element@,
        handle@.name == handle.name@,
        handle@.id == handle.id@,
        handle@.children_names.len() == handle.children_names@.len(),
        handle@.children_ids.len() == handle.children_ids@.len(),
        0 <= k < handle.children_names@.len() ==> handle@.children_names[k]
            == handle.children_names@[k]@,
        0 <= k < handle.children_ids@.len() ==> handle@.children_ids[k]
            == handle.children_ids@[k]@,
{
}

/// The subtree of a handle consists of the nodes that it holds, in their order, and of its
/// own node at the end.
pub proof fn law_subtree_ends_with_its_node(handle: NodeHandle, i: int)
    ensures
        handle.subtree().len() == handle.handles@.len() + 1,
        handle.subtree().last() == handle@,
        0 <= i < handle.handles@.len() ==> handle.subtree()[i] == handle.handles@[i]@,
{
}

/// The nodes of a list of handles are those of the handles, in their order.
pub proof fn law_nodes_are_those_of_the_handles(handles: Seq<NodeHandle>, i: int)
    ensures
        nodes(handles).len() == handles.len(),
        0 <= i < handles.len() ==> nodes(handles)[i] == handles[i]@,
{
}

/// The subtrees of several nodes stand one behind the other, in the order of the nodes, each
/// of them whole.
pub proof fn law_subtrees_follow_each_other(
    first: Seq<NodeHandle>,
    child: NodeHandle,
    second: Seq<NodeHandle>,
)
    ensures
        subtrees(seq![]).len() == 0,
        subtrees(seq![child]) == child.subtree(),
        subtrees(first + second) == subtrees(first) + subtrees(second),
    decreases second.len(),
{
    assert(seq![child].drop_last() =~= seq![]);
    assert(subtrees(seq![]) + child.subtree() =~= child.subtree());
    if second.len() == 0 {
        assert(first + second =~= first);
        assert(subtrees(first) + subtrees(second) =~= subtrees(first));
    } else {
        law_subtrees_follow_each_other(first, child, second.drop_last());
        assert((first + second).drop_last() =~= first + second.drop_last());
        assert(subtrees(first) + subtrees(second) =~= subtrees(first) + subtrees(
            second.drop_last(),
        ) + second.last().subtree());
    }
}

/// A copy of a handle describes the same node, with the same descendants all the way down.
pub proof fn law_copy_is_the_same(handle: NodeHandle, copy: NodeHandle, i: int)
    requires
        handle.same(copy),
    ensures
        copy@ == handle@,
        copy.handles@.len() == handle.handles@.len(),
        copy.subtree() == handle.subtree(),
        0 <= i < handle.handles@.len() ==> handle.handles@[i].same(copy.handles@[i]),
{
    assert forall|j: int| 0 <= j < handle.handles@.len() implies handle.handles@[j]@
        == copy.handles@[j]@ by {
        assert(handle.handles@[j].same(copy.handles@[j]));
    }
    assert(copy.subtree() =~= handle.subtree());
}

/// The handle of a new node knows each of its children by name and by identifier, in the
/// order in which they were given, and has taken over what they held. Nobody below it
/// holds anything any more.
pub proof fn law_parent_knows_its_children(
    handle: NodeHandle,
    element: Seq<char>,
    name: Seq<char>,
    children: Seq<NodeHandle>,
    k: int,
)
    requires
        handle.is_parent(element, name, children),
    ensures
        handle.element@ == element,
        handle.name@ == name,
        handle.children_names@.len() == children.len(),
        handle.children_ids@.len() == children.len(),
        0 <= k < children.len() ==> handle.children_names@[k]@ == children[k].name@
            && handle.children_ids@[k]@ == children[k].id@,
        handle.subtree() == subtrees(children).push(handle@),
        (forall|i: int, j: int|
            0 <= i < children.len() && 0 <= j < children[i].handles@.len() ==> (
            #[trigger] children[i].handles@[j]).handles@.len() == 0) && 0 <= k
            < handle.handles@.len() ==> handle.handles@[k].handles@.len() == 0,
{
    assert(handle@.children_names.len() == handle.children_names@.len());
    assert(handle@.children_ids.len() == handle.children_ids@.len());
    if 0 <= k < children.len() {
        assert(handle@.children_names[k] == handle.children_names@[k]@);
        assert(handle@.children_ids[k] == handle.children_ids@[k]@);
    }
    if forall|i: int, j: int|
        0 <= i < children.len() && 0 <= j < children[i].handles@.len() ==> (
        #[trigger] children[i].handles@[j]).handles@.len() == 0 {
        assert forall|i: int| 0 <= i < children.len() implies (#[trigger] children[i]).is_flat() by {
            assert forall|j: int| 0 <= j < children[i].handles@.len() implies (
            #[trigger] children[i].handles@[j]).handles@.len() == 0 by {}
        }
        assert(handle.is_flat());
    }
}

/// A handle that holds all its descendants holds, before any node in it, each child of that
/// node, with the name and the identifier by which the node knows it.
pub proof fn law_whole_handle_holds_every_child(handle: NodeHandle, p: int, k: int)
    requires
        handle.wf(),
        0 <= p < handle.subtree().len(),
        0 <= k < handle.subtree()[p].children_names.len(),
    ensures
        ({
            let list = handle.subtree();
            &&& list[p].children_ids.len() == list[p].children_names.len()
            &&& exists|q: int|
                0 <= q < p && (#[trigger] list[q]).name == list[p].children_names[k] && list[q].id
                    == list[p].children_ids[k]
        }),
{
    law_children_stand_first(handle.subtree());
    assert(child_stands_before(handle.subtree(), p, k));
}

} // verus!
