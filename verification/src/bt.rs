//! Behavior trees and their nodes.
use serde_json::Value;
use simple_xml_builder::XMLElement;
use url::ParseError;
use vstd::prelude::*;

use crate::address::{parse_error_text, parse_error_to_string, parsed_url};
use crate::bt::action::ActionProcess;
use crate::bt::blocking_check::BlockingCheck;
use crate::bt::condition::ConditionProcess;
use crate::bt::fallback::Fallback;
use crate::bt::handle::{
    child_stands_before, children_first, is_exit_message, is_forest, is_whole_tree,
    law_children_stand_first, nodes, texts, ChildMessage, Effect, KillEvent, NodeError, NodeHandle, NodeView, ParentMessage, Status,
};
use crate::bt::loop_dec::LoopDecorator;
use crate::bt::sequence::SequenceProcess;
use crate::json::{json_array, json_fields, json_object, json_string, json_view, JsonView};
use crate::ws::socket_connector::SocketConnector;
use crate::xml::{xml_add_attribute, xml_add_child, xml_element, xml_view, XmlView};

pub mod action;
pub mod blocking_check;
pub mod condition;
pub mod fallback;
pub mod handle;
pub mod listener;
pub mod loop_dec;
pub mod sequence;

verus! {

/// How many messages a channel of a tree can hold.
pub const CHANNEL_SIZE: usize = 20;

/// The milliseconds between two runs of a tree.
pub const BT_LOOP_TIME: u64 = 1000;

/// What can go wrong with a tree as a whole.
#[derive(Debug)]
pub enum TreeError {
    /// The updates of the tree go elsewhere already.
    ReceiverTaken,
    /// Two nodes have one identifier.
    NonUniqueIds,
    /// A node could not be killed, for the reason that is given in words.
    ActiveNodes(String),
    /// The tree cannot be watched from there.
    InvalidUrl(ParseError),
}

impl TreeError {
    /// The error in words.
    pub open spec fn text(self) -> Seq<char> {
        match self {
            TreeError::ReceiverTaken => "Receiver already taken"@,
            TreeError::NonUniqueIds => "The behavior tree contained non-unique IDs"@,
            TreeError::ActiveNodes(cause) =>
                "Cannot safely rebuild behaviour tree with active nodes: "@ + cause@,
            TreeError::InvalidUrl(err) => parse_error_text(err),
        }
    }

    pub fn to_string(&self) -> (text: String)
        ensures
            text@ == self.text(),
    {
        match self {
            TreeError::ReceiverTaken => String::from_str("Receiver already taken"),
            TreeError::NonUniqueIds => String::from_str(
                "The behavior tree contained non-unique IDs",
            ),
            TreeError::ActiveNodes(cause) => String::from_str(
                "Cannot safely rebuild behaviour tree with active nodes: ",
            ).concat(cause.as_str()),
            TreeError::InvalidUrl(err) => parse_error_to_string(err),
        }
    }
}

/// Whether these two nodes in a list have one identifier.
pub open spec fn have_same_id(list: Seq<NodeView>, i: int, j: int) -> bool {
    0 <= i < j < list.len() && list[i].id == list[j].id
}

/// Whether any two nodes in a list have one identifier.
pub open spec fn repeats_id(list: Seq<NodeView>) -> bool {
    exists|i: int, j: int| #[trigger] have_same_id(list, i, j)
}

/// Whether a node is the first of its name in a list.
pub open spec fn is_first_named(list: Seq<NodeView>, i: int, name: Seq<char>) -> bool {
    &&& 0 <= i < list.len()
    &&& list[i].name == name
    &&& forall|j: int| 0 <= j < i ==> (#[trigger] list[j]).name != name
}

/// Where the first node of the given name stands in a list.
pub open spec fn first_named(list: Seq<NodeView>, name: Seq<char>) -> int {
    choose|i: int| is_first_named(list, i, name)
}

/// Whether this is the drawing of the node that goes by the given name in a list: a list
/// may hold several nodes of one name, and it is the first that is drawn.
pub open spec fn is_drawn_by_name(list: Seq<NodeView>, name: Seq<char>, xml: XmlView) -> bool
    decreases xml, 1nat,
{
    let i = first_named(list, name);
    is_first_named(list, i, name) && is_drawn(list, list[i], xml)
}

/// Whether this is the drawing of a node, with its descendants inside.
pub open spec fn is_drawn(list: Seq<NodeView>, node: NodeView, xml: XmlView) -> bool
    decreases xml, 0nat,
{
    &&& xml == (XmlView { children: xml.children, ..NodeHandle::xml_of(node) })
    &&& xml.children.len() == node.children_names.len()
    &&& forall|k: int|
        0 <= k < xml.children.len() ==> is_drawn_by_name(
            list,
            node.children_names[k],
            #[trigger] xml.children[k],
        )
}

proof fn lemma_first_named_exists(list: Seq<NodeView>, q: int, name: Seq<char>)
    requires
        0 <= q < list.len(),
        list[q].name == name,
    ensures
        is_first_named(list, first_named(list, name), name),
        first_named(list, name) <= q,
    decreases q,
{
    if forall|j: int| 0 <= j < q ==> (#[trigger] list[j]).name != name {
        assert(is_first_named(list, q, name));
    } else {
        let j = choose|j: int| 0 <= j < q && (#[trigger] list[j]).name == name;
        lemma_first_named_exists(list, j, name);
    }
}

/// A drawing of the node that stands at the given place.
spec fn draw(list: Seq<NodeView>, p: int) -> XmlView
    decreases p,
{
    XmlView {
        children: Seq::new(
            list[p].children_names.len(),
            |k: int|
                {
                    let i = first_named(list, list[p].children_names[k]);
                    if 0 <= i < p {
                        draw(list, i)
                    } else {
                        arbitrary()
                    }
                },
        ),
        ..NodeHandle::xml_of(list[p])
    }
}

proof fn lemma_draw(list: Seq<NodeView>, p: int)
    requires
        children_first(list),
        0 <= p < list.len(),
    ensures
        is_drawn(list, list[p], draw(list, p)),
    decreases p,
{
    let xml = draw(list, p);
    assert forall|k: int| 0 <= k < xml.children.len() implies is_drawn_by_name(
        list,
        list[p].children_names[k],
        #[trigger] xml.children[k],
    ) by {
        assert(child_stands_before(list, p, k));
        let q = choose|q: int|
            0 <= q < p && (#[trigger] list[q]).name == list[p].children_names[k] && list[q].id
                == list[p].children_ids[k];
        lemma_first_named_exists(list, q, list[p].children_names[k]);
        lemma_draw(list, first_named(list, list[p].children_names[k]));
    }
}

/// Whether a node has a drawing.
pub open spec fn has_drawing(list: Seq<NodeView>, node: NodeView) -> bool {
    exists|xml: XmlView| is_drawn(list, node, xml)
}

/// Whether a name leads to a node that is marked as good.
spec fn name_resolves(list: Seq<NodeView>, name: Seq<char>, good: Seq<bool>) -> bool {
    let i = first_named(list, name);
    is_first_named(list, i, name) && good[i]
}

/// Whether all the names lead to nodes that are marked as good.
spec fn names_resolve(list: Seq<NodeView>, names: Seq<Seq<char>>, good: Seq<bool>) -> bool {
    forall|k: int| 0 <= k < names.len() ==> name_resolves(list, #[trigger] names[k], good)
}

/// Whether every node is marked as good whose children are.
spec fn is_closed(list: Seq<NodeView>, good: Seq<bool>) -> bool {
    forall|i: int|
        0 <= i < list.len() && names_resolve(list, #[trigger] list[i].children_names, good)
            ==> good[i]
}

/// How many nodes are not marked as good.
spec fn misses(good: Seq<bool>) -> nat
    decreases good.len(),
{
    if good.len() == 0 {
        0
    } else {
        misses(good.drop_last()) + if good.last() {
            0nat
        } else {
            1nat
        }
    }
}

proof fn lemma_one_miss_less(good: Seq<bool>, i: int)
    requires
        0 <= i < good.len(),
        !good[i],
    ensures
        misses(good.update(i, true)) + 1 == misses(good),
    decreases good.len(),
{
    let marked = good.update(i, true);
    if i == good.len() - 1 {
        assert(marked.drop_last() =~= good.drop_last());
    } else {
        lemma_one_miss_less(good.drop_last(), i);
        assert(marked.drop_last() =~= good.drop_last().update(i, true));
    }
}

/// A node whose children can be drawn can be drawn.
proof fn lemma_resolved_is_drawable(list: Seq<NodeView>, node: NodeView, good: Seq<bool>)
    requires
        good.len() == list.len(),
        forall|i: int| 0 <= i < good.len() && #[trigger] good[i] ==> has_drawing(list, list[i]),
        names_resolve(list, node.children_names, good),
    ensures
        has_drawing(list, node),
{
    let xml = XmlView {
        children: Seq::new(
            node.children_names.len(),
            |k: int|
                choose|child: XmlView|
                    is_drawn(list, list[first_named(list, node.children_names[k])], child),
        ),
        ..NodeHandle::xml_of(node)
    };
    assert forall|k: int| 0 <= k < xml.children.len() implies is_drawn_by_name(
        list,
        node.children_names[k],
        #[trigger] xml.children[k],
    ) by {
        assert(name_resolves(list, node.children_names[k], good));
        let i = first_named(list, node.children_names[k]);
        assert(good[i]);
        assert(has_drawing(list, list[i]));
    }
    assert(is_drawn(list, node, xml));
}

/// When the marks are closed, the children of a node with a drawing are marked.
proof fn lemma_drawn_is_resolved(
    list: Seq<NodeView>,
    node: NodeView,
    good: Seq<bool>,
    xml: XmlView,
)
    requires
        is_closed(list, good),
        is_drawn(list, node, xml),
    ensures
        names_resolve(list, node.children_names, good),
    decreases xml,
{
    assert forall|k: int| 0 <= k < node.children_names.len() implies name_resolves(
        list,
        #[trigger] node.children_names[k],
        good,
    ) by {
        let name = node.children_names[k];
        assert(is_drawn_by_name(list, name, xml.children[k]));
        let i = first_named(list, name);
        lemma_drawn_is_resolved(list, list[i], good, xml.children[k]);
    }
}

/// What a run of a tree reacts to.
#[derive(PartialEq, Eq, Debug)]
pub enum RunEvent {
    /// The tree is to be run.
    Begin,
    /// The request to start was sent to the root, or not.
    Sent(Result<(), NodeError>),
    /// This came back from the root.
    Heard(Result<ParentMessage, NodeError>),
}

/// What a run of a tree has to do next.
#[derive(PartialEq, Eq, Debug)]
pub enum RunAction {
    /// Send this to the root.
    Send(ChildMessage),
    /// Listen to the root.
    Listen,
    /// The run is over.
    Finish(Result<Status, NodeError>),
}

/// A tree, with the receiving end of its updates.
#[derive(Debug)]
pub struct BehaviorTree<R> {
    pub name: String,
    pub root_node: NodeHandle,
    /// All the nodes, each behind its descendants.
    pub handles: Vec<NodeHandle>,
    /// The updates of the tree, until somebody takes them.
    pub rx: Option<R>,
}

impl<R> BehaviorTree<R> {
    /// The nodes of the tree.
    pub open spec fn nodes(self) -> Seq<NodeView> {
        nodes(self.handles@)
    }

    /// Whether the tree holds its root and all the descendants of it.
    pub open spec fn wf(self) -> bool {
        &&& is_whole_tree(self.nodes())
        &&& self.nodes().last() == self.root_node@
    }

    /// Whether the tree can be drawn: every name of a child leads to a node, and to no
    /// circle.
    pub open spec fn is_drawable(self) -> bool {
        has_drawing(self.nodes(), self.root_node@)
    }

    /// Whether this is the tree of a root, fresh from its making.
    pub open spec fn is_tree_of(self, root_node: NodeHandle, name: String, rx: R) -> bool {
        &&& self.name == name
        &&& self.root_node@ == root_node@
        &&& self.root_node.handles@.len() == 0
        &&& self.nodes() == root_node.subtree()
        &&& self.rx == Some(rx)
        &&& root_node.wf() ==> self.wf() && self.is_drawable()
        &&& root_node.is_flat() ==> forall|i: int|
            0 <= i < self.handles@.len() ==> (#[trigger] self.handles@[i]).handles@.len() == 0
    }

    /// Makes a tree of the given root and its descendants.
    pub fn new(root_node: NodeHandle, name: String, rx: R) -> (tree: BehaviorTree<R>)
        requires
            !repeats_id(root_node.subtree()),
        ensures
            tree.is_tree_of(root_node, name, rx),
    {
        match BehaviorTree::_new(root_node, name, rx) {
            Ok(tree) => tree,
            Err(_) => vstd::pervasive::unreached(),
        }
    }

    /// Makes a tree of the given root and its descendants, unless two of them have one
    /// identifier.
    pub fn _new(root_node: NodeHandle, name: String, rx: R) -> (result: Result<
        BehaviorTree<R>,
        TreeError,
    >)
        ensures
            if repeats_id(root_node.subtree()) {
                result matches Err(TreeError::NonUniqueIds)
            } else {
                result is Ok && result->Ok_0.is_tree_of(root_node, name, rx)
            },
    {
        let mut root_node = root_node;
        let handles = root_node.take_handles();
        assert(forall|i: int|
            0 <= i < handles@.len() - 1 ==> handles@.drop_last()[i] == #[trigger] handles@[i]);
        if let Err(err) = BehaviorTree::<R>::verify_unique_ids(&handles) {
            return Err(err);
        }
        let tree = BehaviorTree { name, root_node, handles, rx: Some(rx) };
        proof {
            if tree.wf() {
                law_whole_tree_is_drawable(tree);
            }
        }
        Ok(tree)
    }

    /// Takes the updates of the tree, which can be done once.
    pub fn take_rx(&mut self) -> (result: Result<R, TreeError>)
        ensures
            final(self).rx is None,
            final(self).name == old(self).name,
            final(self).root_node == old(self).root_node,
            final(self).handles == old(self).handles,
            match old(self).rx {
                Some(rx) => result == Ok::<R, TreeError>(rx),
                None => result matches Err(TreeError::ReceiverTaken),
            },
    {
        match self.rx.take() {
            Some(rx) => Ok(rx),
            None => Err(TreeError::ReceiverTaken),
        }
    }

    /// Prepares a connection by which the tree is watched. Whatever becomes of it, the
    /// updates are taken.
    pub fn connect(&mut self, socket_url: String) -> (result: Result<
        SocketConnector<R>,
        TreeError,
    >)
        ensures
            final(self).rx is None,
            final(self).name == old(self).name,
            final(self).root_node == old(self).root_node,
            final(self).handles == old(self).handles,
            match (old(self).rx, parsed_url(socket_url@)) {
                (None, _) => result matches Err(TreeError::ReceiverTaken),
                (Some(_), Err(err)) => result == Err::<SocketConnector<R>, TreeError>(
                    TreeError::InvalidUrl(err),
                ),
                (Some(rx), Ok(address)) => {
                    &&& result is Ok
                    &&& result->Ok_0.socket_url@ == address
                    &&& result->Ok_0.rx == rx
                    &&& json_view(result->Ok_0.bt_export) == old(self).json(old(self).name@)
                },
            },
    {
        let rx = match self.take_rx() {
            Ok(rx) => rx,
            Err(err) => return Err(err),
        };
        let bt_export = match self.export_json(self.name.clone()) {
            Ok(bt_export) => bt_export,
            Err(err) => return Err(err),
        };
        match SocketConnector::spawn(socket_url, rx, bt_export) {
            Ok(connector) => Ok(connector),
            Err(err) => Err(TreeError::InvalidUrl(err)),
        }
    }

    /// Fails if any two nodes in a list have one identifier.
    pub fn verify_unique_ids(handles: &Vec<NodeHandle>) -> (result: Result<(), TreeError>)
        ensures
            if repeats_id(nodes(handles@)) {
                result matches Err(TreeError::NonUniqueIds)
            } else {
                result is Ok
            },
    {
        let ghost list = nodes(handles@);
        let mut j: usize = 0;
        while j < handles.len()
            invariant
                list == nodes(handles@),
                j <= handles@.len(),
                forall|a: int, b: int| b < j ==> !#[trigger] have_same_id(list, a, b),
            decreases handles@.len() - j,
        {
            let mut i: usize = 0;
            while i < j
                invariant
                    list == nodes(handles@),
                    i <= j < handles@.len(),
                    forall|a: int, b: int| b < j ==> !#[trigger] have_same_id(list, a, b),
                    forall|a: int| a < i ==> !#[trigger] have_same_id(list, a, j as int),
                decreases j - i,
            {
                assert(list[i as int].id == handles@[i as int].id@);
                assert(list[j as int].id == handles@[j as int].id@);
                if handles[i].id == handles[j].id {
                    assert(have_same_id(list, i as int, j as int));
                    return Err(TreeError::NonUniqueIds);
                }
                i = i + 1;
            }
            j = j + 1;
        }
        Ok(())
    }

    /// What the end of a run leads to: a pause in milliseconds before the next run, or
    /// the end of it all.
    pub open spec fn next_run(result: Result<Status, NodeError>) -> Result<u64, NodeError> {
        match result {
            Ok(_) => Ok(BT_LOOP_TIME),
            Err(err) => Err(err),
        }
    }

    /// What the end of a run leads to: a pause in milliseconds before the next run, or
    /// the end of it all.
    pub fn _run(result: Result<Status, NodeError>) -> (next: Result<u64, NodeError>)
        ensures
            next == Self::next_run(result),
    {
        match result {
            Ok(_) => Ok(BT_LOOP_TIME),
            Err(err) => Err(err),
        }
    }

    /// The error with which runs that follow each other come to an end, if they do.
    pub open spec fn crash(runs: Seq<Result<Status, NodeError>>) -> Option<NodeError>
        decreases runs.len(),
    {
        if runs.len() == 0 {
            None
        } else {
            match Self::crash(runs.drop_last()) {
                Some(err) => Some(err),
                None => match Self::next_run(runs.last()) {
                    Ok(_) => None,
                    Err(err) => Some(err),
                },
            }
        }
    }

    /// Whether the end of it all means that the nodes have to be killed.
    pub open spec fn has_to_kill(result: Result<(), NodeError>) -> bool {
        result is Err
    }

    /// What is reported of the end of it all.
    pub open spec fn report(result: Result<(), NodeError>) -> Seq<char> {
        match result {
            Ok(_) => ""@,
            Err(err) => err.text(),
        }
    }

    /// What the end of it all leads to: whether the nodes have to be killed, and what is
    /// reported.
    pub fn run(result: Result<(), NodeError>) -> (end: (bool, String))
        ensures
            end.0 == Self::has_to_kill(result),
            end.1@ == Self::report(result),
    {
        match result {
            Ok(_) => (false, String::from_str("")),
            Err(err) => (true, err.to_string()),
        }
    }

    /// What comes of running the tree when the nodes have been killed or not: the report,
    /// or else the reason why they live on.
    pub open spec fn result_of_run(text: String, killed: Result<(), TreeError>) -> Result<
        String,
        TreeError,
    > {
        match killed {
            Ok(_) => Ok(text),
            Err(err) => Err(err),
        }
    }

    /// What comes of running the tree when the nodes have been killed or not.
    pub fn end_of_run(text: String, killed: Result<(), TreeError>) -> (result: Result<
        String,
        TreeError,
    >)
        ensures
            result == Self::result_of_run(text, killed),
    {
        match killed {
            Ok(_) => Ok(text),
            Err(err) => Err(err),
        }
    }

    /// The node that is to be killed when the one with the given index has been.
    pub open spec fn next_to_kill(self, index: usize) -> Option<usize> {
        if index + 1 < self.handles@.len() {
            Some((index + 1) as usize)
        } else {
            None
        }
    }

    /// The node whose turn it is to be killed after this many others, if the killing
    /// begins with the first and nothing goes wrong.
    pub open spec fn killed_after(self, others: nat) -> Option<usize>
        decreases others,
    {
        if others == 0 {
            Some(0)
        } else {
            match self.killed_after((others - 1) as nat) {
                Some(index) => self.next_to_kill(index),
                None => None,
            }
        }
    }

    /// Kills the nodes one after the other: the next node to be killed, if any is left,
    /// when the one with the given index has been killed or, for the reason that is given
    /// in words, has not.
    pub fn kill(&self, index: usize, result: Result<(), String>) -> (next: Result<
        Option<usize>,
        TreeError,
    >)
        requires
            index < self.handles@.len(),
        ensures
            match result {
                Ok(_) => next == Ok::<Option<usize>, TreeError>(self.next_to_kill(index)),
                Err(cause) => next == Err::<Option<usize>, TreeError>(
                    TreeError::ActiveNodes(cause),
                ),
            },
    {
        match result {
            Ok(_) => {
                if index < self.handles.len() - 1 {
                    Ok(Some(index + 1))
                } else {
                    Ok(None)
                }
            },
            Err(cause) => Err(TreeError::ActiveNodes(cause)),
        }
    }

    /// What a run of the tree has to do next: the root is started, and listened to until
    /// it succeeds or fails. Poison and death of the root are errors, and so is a root
    /// that cannot be reached.
    pub open spec fn run_action(event: RunEvent) -> RunAction {
        match event {
            RunEvent::Begin => RunAction::Send(ChildMessage::Start),
            RunEvent::Sent(Ok(_)) => RunAction::Listen,
            RunEvent::Sent(Err(err)) => RunAction::Finish(Err(err)),
            RunEvent::Heard(Ok(ParentMessage::Status(Status::Success))) => RunAction::Finish(
                Ok(Status::Success),
            ),
            RunEvent::Heard(Ok(ParentMessage::Status(Status::Failure))) => RunAction::Finish(
                Ok(Status::Failure),
            ),
            RunEvent::Heard(Ok(ParentMessage::Poison(err))) => RunAction::Finish(Err(err)),
            RunEvent::Heard(Ok(ParentMessage::Killed)) => RunAction::Finish(
                Err(NodeError::KillError),
            ),
            RunEvent::Heard(Ok(_)) => RunAction::Listen,
            RunEvent::Heard(Err(err)) => RunAction::Finish(Err(err)),
        }
    }

    /// Runs the tree, one step at a time.
    pub fn run_once(event: RunEvent) -> (action: RunAction)
        ensures
            action == Self::run_action(event),
    {
        match event {
            RunEvent::Begin => RunAction::Send(ChildMessage::Start),
            RunEvent::Sent(Ok(_)) => RunAction::Listen,
            RunEvent::Sent(Err(err)) => RunAction::Finish(Err(err)),
            RunEvent::Heard(Err(err)) => RunAction::Finish(Err(err)),
            RunEvent::Heard(Ok(msg)) => match msg {
                ParentMessage::Status(status) => match status {
                    Status::Success => RunAction::Finish(Ok(status)),
                    Status::Failure => RunAction::Finish(Ok(status)),
                    _ => RunAction::Listen,
                },
                ParentMessage::RequestStart => RunAction::Listen,
                ParentMessage::Poison(err) => RunAction::Finish(Err(err)),
                ParentMessage::Killed => RunAction::Finish(Err(NodeError::KillError)),
            },
        }
    }

    /// The file to which the tree is saved in the Groot format.
    pub fn xml_file_name(name: &String) -> (file: String)
        ensures
            file@ == name@ + ".xml"@,
    {
        name.clone().concat(".xml")
    }

    /// The file to which the tree is saved as JSON.
    pub fn json_file_name(name: &String) -> (file: String)
        ensures
            file@ == name@ + ".json"@,
    {
        name.clone().concat(".json")
    }

    /// Whether this is the tree in the Groot format, under the given name.
    pub open spec fn is_exported_as(self, name: Seq<char>, xml: XmlView) -> bool {
        exists|drawing: XmlView|
            {
                &&& #[trigger] is_drawn(self.nodes(), self.root_node@, drawing)
                &&& xml == (XmlView {
                    tag: "root"@,
                    attributes: map!["main_tree_to_execute"@ => "MainTree"@],
                    children: seq![
                        XmlView {
                            tag: name,
                            attributes: map!["ID"@ => "MainTree"@],
                            children: seq![drawing],
                            text: None,
                        },
                    ],
                    text: None,
                })
            }
    }

    /// The tree in the Groot format, under the given name.
    pub fn export_xml(&self, name: String) -> (result: Result<XMLElement, TreeError>)
        requires
            self.is_drawable(),
        ensures
            result is Ok,
            self.is_exported_as(name@, xml_view(result->Ok_0)),
    {
        let ghost drawing = choose|xml: XmlView| is_drawn(self.nodes(), self.root_node@, xml);
        let mut root = xml_element(String::from_str("root"));
        xml_add_attribute(&mut root, "main_tree_to_execute", "MainTree");
        let mut tree = xml_element(name);
        xml_add_attribute(&mut tree, "ID", "MainTree");

        let root_element = self.root_node.get_xml();
        let root_element = Self::add_children(
            &self.handles,
            root_element,
            &self.root_node.children_names,
            Ghost(drawing.children),
        );
        assert(xml_view(root_element) == drawing) by {
            assert(seq![] + drawing.children =~= drawing.children);
        }
        xml_add_child(&mut tree, root_element);
        xml_add_child(&mut root, tree);
        assert(xml_view(tree).children =~= seq![drawing]);
        assert(xml_view(root).children =~= seq![xml_view(tree)]);
        Ok(root)
    }

    /// Adds the children of the given names, with their descendants, to an element.
    fn add_children(
        handles: &Vec<NodeHandle>,
        element: XMLElement,
        children_names: &Vec<String>,
        Ghost(drawings): Ghost<Seq<XmlView>>,
    ) -> (expanded: XMLElement)
        requires
            xml_view(element).text is None,
            drawings.len() == children_names@.len(),
            forall|k: int|
                0 <= k < drawings.len() ==> is_drawn_by_name(
                    nodes(handles@),
                    children_names@[k]@,
                    #[trigger] drawings[k],
                ),
        ensures
            xml_view(expanded) == (XmlView {
                children: xml_view(element).children + drawings,
                ..xml_view(element)
            }),
        decreases drawings,
    {
        let ghost list = nodes(handles@);
        let ghost given = xml_view(element);
        let mut element = element;
        let mut i: usize = 0;
        assert(given.children + drawings.take(0) =~= given.children);
        while i < children_names.len()
            invariant
                list == nodes(handles@),
                i <= children_names@.len(),
                drawings.len() == children_names@.len(),
                forall|k: int|
                    0 <= k < drawings.len() ==> is_drawn_by_name(
                        list,
                        children_names@[k]@,
                        #[trigger] drawings[k],
                    ),
                given.text is None,
                xml_view(element) == (XmlView {
                    children: given.children + drawings.take(i as int),
                    ..given
                }),
            decreases children_names@.len() - i,
        {
            let ghost drawing = drawings[i as int];
            assert(is_drawn_by_name(list, children_names@[i as int]@, drawing));
            let child = match Self::position(handles, &children_names[i]) {
                Some(child) => child,
                None => vstd::pervasive::unreached(),
            };
            let el_base = handles[child].get_xml();
            let el_expanded = Self::add_children(
                handles,
                el_base,
                &handles[child].children_names,
                Ghost(drawing.children),
            );
            assert(seq![] + drawing.children =~= drawing.children);
            assert(xml_view(el_expanded) == drawing);
            xml_add_child(&mut element, el_expanded);
            assert(given.children + drawings.take(i + 1) =~= (given.children + drawings.take(
                i as int,
            )).push(drawing));
            i = i + 1;
        }
        assert(drawings.take(drawings.len() as int) =~= drawings);
        element
    }

    /// Finds the first node of the given name, if there is one.
    fn position(handles: &Vec<NodeHandle>, name: &String) -> (index: Option<usize>)
        ensures
            match index {
                Some(i) => i == first_named(nodes(handles@), name@) && is_first_named(
                    nodes(handles@),
                    i as int,
                    name@,
                ),
                None => forall|i: int| !is_first_named(nodes(handles@), i, name@),
            },
    {
        let ghost list = nodes(handles@);
        let mut i: usize = 0;
        while i < handles.len()
            invariant
                list == nodes(handles@),
                i <= handles@.len(),
                forall|j: int| 0 <= j < i ==> (#[trigger] list[j]).name != name@,
            decreases handles@.len() - i,
        {
            assert(list[i as int].name == handles@[i as int].name@);
            if handles[i].name == *name {
                assert(is_first_named(list, i as int, name@));
                return Some(i);
            }
            i = i + 1;
        }
        None
    }

    /// Whether all the names lead to nodes that can be drawn, given which of them can.
    fn resolves(handles: &Vec<NodeHandle>, names: &Vec<String>, good: &Vec<bool>) -> (r: bool)
        requires
            good@.len() == handles@.len(),
        ensures
            r == names_resolve(nodes(handles@), texts(names@), good@),
    {
        let ghost list = nodes(handles@);
        let mut k: usize = 0;
        while k < names.len()
            invariant
                list == nodes(handles@),
                good@.len() == handles@.len(),
                k <= names@.len(),
                forall|j: int|
                    0 <= j < k ==> name_resolves(list, #[trigger] texts(names@)[j], good@),
            decreases names@.len() - k,
        {
            assert(texts(names@)[k as int] == names@[k as int]@);
            match Self::position(handles, &names[k]) {
                Some(i) => {
                    if !good[i] {
                        return false;
                    }
                },
                None => return false,
            }
            k = k + 1;
        }
        true
    }

    /// Whether the tree can be drawn, and so exported in the Groot format.
    pub fn can_export_xml(&self) -> (r: bool)
        ensures
            r == self.is_drawable(),
    {
        let ghost list = self.nodes();
        let handles = &self.handles;
        let mut good: Vec<bool> = Vec::new();
        while good.len() < handles.len()
            invariant
                good@.len() <= handles@.len(),
                forall|i: int| 0 <= i < good@.len() ==> !#[trigger] good@[i],
            decreases handles@.len() - good@.len(),
        {
            good.push(false);
        }
        let mut changed = true;
        while changed
            invariant
                list == nodes(handles@),
                good@.len() == handles@.len(),
                forall|i: int|
                    0 <= i < good@.len() && #[trigger] good@[i] ==> has_drawing(list, list[i]),
                !changed ==> is_closed(list, good@),
            decreases misses(good@), changed as nat,
        {
            let ghost before = good@;
            changed = false;
            let mut i: usize = 0;
            while i < handles.len()
                invariant
                    list == nodes(handles@),
                    i <= handles@.len(),
                    good@.len() == handles@.len(),
                    forall|j: int|
                        0 <= j < good@.len() && #[trigger] good@[j] ==> has_drawing(list, list[j]),
                    if changed {
                        misses(good@) < misses(before)
                    } else {
                        &&& good@ == before
                        &&& forall|j: int|
                            0 <= j < i && names_resolve(
                                list,
                                #[trigger] list[j].children_names,
                                good@,
                            ) ==> good@[j]
                    },
                decreases handles@.len() - i,
            {
                assert(list[i as int].children_names == texts(handles@[i as int].children_names@));
                if !good[i] && Self::resolves(handles, &handles[i].children_names, &good) {
                    proof {
                        lemma_resolved_is_drawable(list, list[i as int], good@);
                        lemma_one_miss_less(good@, i as int);
                    }
                    good.set(i, true);
                    changed = true;
                }
                i = i + 1;
            }
        }
        let r = Self::resolves(handles, &self.root_node.children_names, &good);
        proof {
            if r {
                lemma_resolved_is_drawable(list, self.root_node@, good@);
            }
            if self.is_drawable() {
                let xml = choose|xml: XmlView| is_drawn(list, self.root_node@, xml);
                lemma_drawn_is_resolved(list, self.root_node@, good@, xml);
            }
        }
        r
    }

    /// The tree as a JSON object, under the given name.
    pub open spec fn json(self, name: Seq<char>) -> JsonView {
        JsonView::Object(
            map![
                "name"@ => JsonView::String(name),
                "rootNode"@ => JsonView::String(self.root_node.id@),
                "nodes"@ => JsonView::Array(
                    self.nodes().map_values(|node: NodeView| NodeHandle::json_of(node)),
                ),
            ],
        )
    }

    pub fn export_json(&self, name: String) -> (result: Result<Value, TreeError>)
        ensures
            result is Ok,
            json_view(result->Ok_0) == self.json(name@),
    {
        let mut descriptions: Vec<Value> = Vec::new();
        let mut i: usize = 0;
        while i < self.handles.len()
            invariant
                i <= self.handles@.len(),
                descriptions@.len() == i,
                forall|j: int|
                    0 <= j < i ==> json_view(#[trigger] descriptions@[j]) == NodeHandle::json_of(
                        self.handles@[j]@,
                    ),
            decreases self.handles@.len() - i,
        {
            descriptions.push(self.handles[i].get_json());
            i = i + 1;
        }
        assert(descriptions@.map_values(|v: Value| json_view(v)) =~= self.nodes().map_values(
            |node: NodeView| NodeHandle::json_of(node),
        ));
        let name = (String::from_str("name"), json_string(name));
        let root_node = (String::from_str("rootNode"), json_string(self.root_node.id.clone()));
        let node_description = (String::from_str("nodes"), json_array(descriptions));
        let fields = vec![name, root_node, node_description];
        proof {
            reveal_with_fuel(json_fields, 4);
            assert(fields@.drop_last() =~= seq![name, root_node]);
            assert(fields@.drop_last().drop_last() =~= seq![name]);
        }
        Ok(json_object(fields))
    }
}

/// A tree is refused if and only if any two of its nodes have one identifier.
pub proof fn law_unique_ids_are_accepted(list: Seq<NodeView>)
    ensures
        !repeats_id(list) <==> forall|i: int, j: int|
            0 <= i < j < list.len() ==> (#[trigger] list[i]).id != (#[trigger] list[j]).id,
{
    if !repeats_id(list) {
        assert forall|i: int, j: int| 0 <= i < j < list.len() implies (#[trigger] list[i]).id != (
        #[trigger] list[j]).id by {
            assert(!have_same_id(list, i, j));
        }
    }
}

/// A node has one drawing at most, and so a tree is exported in one way only.
pub proof fn law_drawing_is_unique(
    list: Seq<NodeView>,
    node: NodeView,
    first: XmlView,
    second: XmlView,
)
    requires
        is_drawn(list, node, first),
        is_drawn(list, node, second),
    ensures
        first == second,
    decreases first,
{
    assert forall|k: int| 0 <= k < first.children.len() implies first.children[k]
        == #[trigger] second.children[k] by {
        let name = node.children_names[k];
        assert(is_drawn_by_name(list, name, first.children[k]));
        assert(is_drawn_by_name(list, name, second.children[k]));
        law_drawing_is_unique(
            list,
            list[first_named(list, name)],
            first.children[k],
            second.children[k],
        );
    }
    assert(first.children =~= second.children);
}

/// Every tree that holds the descendants of its root can be exported.
pub proof fn law_whole_tree_is_drawable<R>(tree: BehaviorTree<R>)
    requires
        tree.wf(),
    ensures
        tree.is_drawable(),
{
    law_children_stand_first(tree.nodes());
    lemma_draw(tree.nodes(), tree.nodes().len() - 1);
}

/// Where no two nodes of a tree have one name, the name of a child leads to that child,
/// and so the drawing has the shape of the tree.
pub proof fn law_drawing_shows_the_children(list: Seq<NodeView>, p: int, k: int)
    requires
        children_first(list),
        has_distinct_names(list),
        0 <= p < list.len(),
        0 <= k < list[p].children_names.len(),
    ensures
        ({
            let i = first_named(list, list[p].children_names[k]);
            &&& is_first_named(list, i, list[p].children_names[k])
            &&& i < p
            &&& list[i].id == list[p].children_ids[k]
        }),
{
    assert(child_stands_before(list, p, k));
    let q = choose|q: int|
        0 <= q < p && (#[trigger] list[q]).name == list[p].children_names[k] && list[q].id
            == list[p].children_ids[k];
    let name = list[p].children_names[k];
    lemma_first_named_exists(list, q, name);
    let i = first_named(list, name);
    assert(list[i].name == name && list[q].name == name);
}

/// The names in a drawing, each behind those that are drawn inside.
pub open spec fn drawn_names(xml: XmlView) -> Seq<Seq<char>>
    decreases xml,
{
    drawn_names_of_all(xml.children).push(xml.attributes["name"@])
}

/// The names in several drawings, one behind the other.
pub open spec fn drawn_names_of_all(drawings: Seq<XmlView>) -> Seq<Seq<char>>
    decreases drawings,
{
    if drawings.len() == 0 {
        seq![]
    } else {
        drawn_names_of_all(drawings.subrange(0, drawings.len() - 1)) + drawn_names(
            drawings[drawings.len() - 1],
        )
    }
}

/// The names in a list of nodes.
pub open spec fn names(list: Seq<NodeView>) -> Seq<Seq<char>> {
    list.map_values(|node: NodeView| node.name)
}

/// Whether no two nodes in a list have one name.
pub open spec fn has_distinct_names(list: Seq<NodeView>) -> bool {
    forall|i: int, j: int|
        0 <= i < j < list.len() ==> (#[trigger] list[i]).name != (#[trigger] list[j]).name
}

proof fn lemma_drawn_forest(
    list: Seq<NodeView>,
    from: int,
    to: int,
    roots: Seq<Seq<char>>,
    ids: Seq<Seq<char>>,
    drawings: Seq<XmlView>,
)
    requires
        has_distinct_names(list),
        0 <= from <= to <= list.len(),
        is_forest(list.subrange(from, to), roots, ids),
        drawings.len() == roots.len(),
        forall|k: int|
            0 <= k < drawings.len() ==> is_drawn_by_name(list, roots[k], #[trigger] drawings[k]),
    ensures
        drawn_names_of_all(drawings) == names(list.subrange(from, to)),
    decreases to - from, 1nat,
{
    let part = list.subrange(from, to);
    if roots.len() == 0 {
        assert(names(part) =~= seq![]);
    } else {
        let m = choose|m: int|
            {
                &&& 0 <= m < part.len()
                &&& is_forest(#[trigger] part.take(m), roots.drop_last(), ids.drop_last())
                &&& is_whole_tree(part.skip(m))
                &&& part.last().name == roots.last()
                &&& part.last().id == ids.last()
            };
        let n = drawings.len() - 1;
        let rest = drawings.subrange(0, n);
        assert(part.take(m) =~= list.subrange(from, from + m));
        assert(part.skip(m) =~= list.subrange(from + m, to));
        assert forall|k: int| 0 <= k < rest.len() implies is_drawn_by_name(
            list,
            roots.drop_last()[k],
            #[trigger] rest[k],
        ) by {
            assert(rest[k] == drawings[k]);
        }
        lemma_drawn_forest(list, from, from + m, roots.drop_last(), ids.drop_last(), rest);
        assert(is_drawn_by_name(list, roots[n], drawings[n]));
        assert(list[to - 1] == part.last());
        lemma_first_named_exists(list, to - 1, roots[n]);
        assert(list[first_named(list, roots[n])].name == list[to - 1].name);
        lemma_drawn_tree(list, from + m, to, drawings[n]);
        assert(names(part) =~= names(list.subrange(from, from + m)) + names(
            list.subrange(from + m, to),
        ));
    }
}

proof fn lemma_drawn_tree(list: Seq<NodeView>, from: int, to: int, xml: XmlView)
    requires
        has_distinct_names(list),
        0 <= from < to <= list.len(),
        is_whole_tree(list.subrange(from, to)),
        is_drawn(list, list[to - 1], xml),
    ensures
        drawn_names(xml) == names(list.subrange(from, to)),
    decreases to - from, 0nat,
{
    let part = list.subrange(from, to);
    let root = list[to - 1];
    assert(part.last() == root);
    assert(part.drop_last() =~= list.subrange(from, to - 1));
    lemma_drawn_forest(
        list,
        from,
        to - 1,
        root.children_names,
        root.children_ids,
        xml.children,
    );
    assert(xml.attributes["name"@] == root.name);
    assert(names(part) =~= names(list.subrange(from, to - 1)).push(root.name));
}

/// Where no two nodes of a tree have one name, every node of the tree is drawn, and drawn
/// once: the names in the drawing, each behind those that are drawn inside, are those of
/// the nodes in their order.
pub proof fn law_drawing_holds_every_node_once<R>(tree: BehaviorTree<R>, xml: XmlView)
    requires
        tree.wf(),
        has_distinct_names(tree.nodes()),
        is_drawn(tree.nodes(), tree.root_node@, xml),
    ensures
        drawn_names(xml) == names(tree.nodes()),
        drawn_names(xml).no_duplicates(),
{
    let list = tree.nodes();
    assert(list.subrange(0, list.len() as int) =~= list);
    lemma_drawn_tree(list, 0, list.len() as int, xml);
    assert forall|i: int, j: int| 0 <= i < names(list).len() && 0 <= j < names(list).len() && i
        != j implies names(list)[i] != names(list)[j] by {
        if i < j {
            assert(list[i].name != list[j].name);
        } else {
            assert(list[j].name != list[i].name);
        }
    }
}

/// Every identifier that stands in the JSON form of a tree, as that of the root or of a
/// child, is that of a node which is described there.
pub proof fn law_json_describes_every_child<R>(tree: BehaviorTree<R>, p: int, k: int)
    requires
        tree.wf(),
        0 <= p < tree.nodes().len(),
        0 <= k < tree.nodes()[p].children_ids.len(),
    ensures
        exists|q: int|
            0 <= q < p && (#[trigger] tree.nodes()[q]).id == tree.nodes()[p].children_ids[k],
        exists|q: int|
            0 <= q < tree.nodes().len() && (#[trigger] tree.nodes()[q]).id == tree.root_node.id@,
{
    let list = tree.nodes();
    law_children_stand_first(list);
    assert(child_stands_before(list, p, k));
    assert(list[list.len() - 1].id == tree.root_node.id@);
}

/// A run ends well if and only if the root reports an end, and with the status that it
/// reports.
pub proof fn law_run_ends_with_the_root<R>(event: RunEvent, status: Status)
    ensures
        BehaviorTree::<R>::run_action(event) == RunAction::Finish(Ok(status)) <==> event
            == RunEvent::Heard(Ok(ParentMessage::Status(status))) && (status is Success
            || status is Failure),
{
}

/// A tree runs until something breaks: every run that ends with a status is followed by
/// another one after the pause, whatever the status. When a run or the listening breaks,
/// the nodes are killed, and what comes of it is the error in words, which is never empty,
/// or the reason why the killing failed.
pub proof fn law_tree_runs_until_an_error<R>(
    runs: Seq<Result<Status, NodeError>>,
    err: NodeError,
    text: String,
    killed: Result<(), TreeError>,
)
    requires
        forall|i: int| 0 <= i < runs.len() ==> #[trigger] runs[i] is Ok,
        text@ == BehaviorTree::<R>::report(Err(err)),
    ensures
        forall|i: int|
            0 <= i < runs.len() ==> BehaviorTree::<R>::next_run(#[trigger] runs[i]) == Ok::<
                u64,
                NodeError,
            >(BT_LOOP_TIME),
        BehaviorTree::<R>::crash(runs) is None,
        BehaviorTree::<R>::crash(runs.push(Err(err))) == Some(err),
        BehaviorTree::<R>::has_to_kill(Err(err)),
        match killed {
            Ok(_) => {
                &&& BehaviorTree::<R>::result_of_run(text, killed) == Ok::<String, TreeError>(text)
                &&& text@ == err.text()
                &&& text@.len() > 0
            },
            Err(cause) => BehaviorTree::<R>::result_of_run(text, killed) == Err::<
                String,
                TreeError,
            >(cause),
        },
    decreases runs.len(),
{
    if runs.len() > 0 {
        assert forall|i: int| 0 <= i < runs.len() - 1 implies #[trigger] runs.drop_last()[i] is Ok by {
            assert(runs[i] is Ok);
        }
        law_tree_runs_until_an_error::<R>(runs.drop_last(), err, text, killed);
        assert(runs[runs.len() - 1] is Ok);
    }
    assert(runs.push(Err(err)).drop_last() =~= runs);
    reveal_strlit("The node is killed");
    reveal_strlit("Poison error: ");
    reveal_strlit("Execution error: ");
    reveal_strlit("Tokio broadcast send error: ");
    reveal_strlit("Tokio broadcast receiver error");
    reveal_strlit("Tokio sender error");
    reveal_strlit("Cache Error");
    reveal_strlit("Actor Error");
}

/// Whoever listens to its parent dies when it is told to, and acknowledges it, which ends
/// the killing.
pub proof fn law_kill_is_acknowledged(
    action: ActionProcess,
    sequence: SequenceProcess,
    fallback: Fallback,
    condition: ConditionProcess,
    check: BlockingCheck,
    repeat: LoopDecorator,
    msg: ParentMessage,
)
    ensures
        action.reply_to_parent(ChildMessage::Kill) == Err::<Seq<Effect>, NodeError>(
            NodeError::KillError,
        ),
        sequence.reply_to_parent(ChildMessage::Kill) == Err::<Seq<Effect>, NodeError>(
            NodeError::KillError,
        ),
        fallback.reply_to_parent(ChildMessage::Kill) == Err::<Seq<Effect>, NodeError>(
            NodeError::KillError,
        ),
        condition.reply_to_parent(ChildMessage::Kill) == Err::<Seq<Effect>, NodeError>(
            NodeError::KillError,
        ),
        check.reply_to_parent(ChildMessage::Kill) == Err::<Seq<Effect>, NodeError>(
            NodeError::KillError,
        ),
        repeat.reply_to_parent(ChildMessage::Kill) == Err::<Seq<Effect>, NodeError>(
            NodeError::KillError,
        ),
        is_exit_message(NodeError::KillError, msg) || ActionProcess::is_exit_message(
            NodeError::KillError,
            msg,
        ) ==> NodeHandle::kill_action(KillEvent::Heard(Ok(msg))) is Finished,
{
}

/// Every node of a tree is killed, one after the other in the order in which the tree
/// holds them, and so no node before its children. Behind the last one the killing ends.
pub proof fn law_every_node_is_killed<R>(tree: BehaviorTree<R>, p: nat)
    requires
        0 < tree.handles@.len() <= usize::MAX,
        p <= tree.handles@.len(),
    ensures
        tree.killed_after(p) == if p < tree.handles@.len() {
            Some(p as usize)
        } else {
            None
        },
        tree.wf() && p < tree.handles@.len() ==> forall|k: int|
            0 <= k < tree.nodes()[p as int].children_names.len()
                ==> #[trigger] child_stands_before(tree.nodes(), p as int, k),
    decreases p,
{
    if p > 0 {
        law_every_node_is_killed(tree, (p - 1) as nat);
    }
    if tree.wf() {
        law_children_stand_first(tree.nodes());
    }
}

/// Killing goes through the tree as a whole and not from child to parent: that a child
/// was killed changes nothing for a node that listens to it.
pub proof fn law_killed_child_is_ignored(
    sequence: SequenceProcess,
    fallback: Fallback,
    condition: ConditionProcess,
    check: BlockingCheck,
    repeat: LoopDecorator,
    child_index: usize,
)
    ensures
        ({
            let nothing = Ok::<Seq<Effect>, NodeError>(seq![]);
            &&& sequence.reply_to_child(ParentMessage::Killed, child_index) == nothing
            &&& sequence.after_child(ParentMessage::Killed, child_index) == sequence
            &&& fallback.reply_to_child(ParentMessage::Killed, child_index) == nothing
            &&& fallback.after_child(ParentMessage::Killed, child_index) == fallback
            &&& condition.reply_to_child(ParentMessage::Killed) == nothing
            &&& condition.after_child(ParentMessage::Killed) == condition
            &&& check.reply_to_child(ParentMessage::Killed) == nothing
            &&& check.after_child(ParentMessage::Killed) == check
            &&& repeat.reply_to_child(ParentMessage::Killed) == nothing
            &&& repeat.after_child(ParentMessage::Killed) == repeat
        }),
{
}

/// A condition, a blocking check or a loop that is not running answers the request to
/// stop at once, so that its parent does not wait in vain.
pub proof fn law_idle_node_answers_a_stop(
    condition: ConditionProcess,
    check: BlockingCheck,
    repeat: LoopDecorator,
)
    requires
        condition.status !is Running,
        check.status !is Running,
        repeat.status !is Running,
    ensures
        ({
            let failure = Ok::<Seq<Effect>, NodeError>(
                seq![Effect::NotifyParent(ParentMessage::Status(Status::Failure))],
            );
            &&& condition.reply_to_parent(ChildMessage::Stop) == failure
            &&& condition.after_parent(ChildMessage::Stop).status is Failure
            &&& check.reply_to_parent(ChildMessage::Stop) == failure
            &&& check.after_parent(ChildMessage::Stop).status is Failure
            &&& repeat.reply_to_parent(ChildMessage::Stop) == failure
            &&& repeat.after_parent(ChildMessage::Stop).status is Failure
        }),
{
}

/// Poison travels up the tree unchanged: every node that listens to a poisoned child
/// ends with the child's error, and poisons its parent with that error in turn. When it
/// comes to the root, it ends the run.
pub proof fn law_poison_travels_up<R>(
    sequence: SequenceProcess,
    fallback: Fallback,
    condition: ConditionProcess,
    check: BlockingCheck,
    repeat: LoopDecorator,
    child_index: usize,
    cause: String,
    msg: ParentMessage,
)
    requires
        is_exit_message(NodeError::PoisonError(cause), msg),
    ensures
        ({
            let poison = ParentMessage::Poison(NodeError::PoisonError(cause));
            let end = Err::<Seq<Effect>, NodeError>(NodeError::PoisonError(cause));
            &&& sequence.reply_to_child(poison, child_index) == end
            &&& fallback.reply_to_child(poison, child_index) == end
            &&& condition.reply_to_child(poison) == end
            &&& check.reply_to_child(poison) == end
            &&& repeat.reply_to_child(poison) == end
            &&& msg == poison
            &&& BehaviorTree::<R>::run_action(RunEvent::Heard(Ok(poison))) == RunAction::Finish(
                Err(NodeError::PoisonError(cause)),
            )
        }),
{
}

/// An error of a tree is put into fixed words, followed by the cause if it has one. An
/// address that is no good is reported in the words of the parser.
pub proof fn law_tree_error_names_its_cause(cause: String, err: ParseError)
    ensures
        TreeError::ReceiverTaken.text() == "Receiver already taken"@,
        TreeError::NonUniqueIds.text() == "The behavior tree contained non-unique IDs"@,
        TreeError::ActiveNodes(cause).text()
            == "Cannot safely rebuild behaviour tree with active nodes: "@ + cause@,
        TreeError::InvalidUrl(err).text() == parse_error_text(err),
{
}

/// A run starts the root once and then listens. It breaks with the error that keeps the
/// root from being reached or heard, with the poison of the root, or with its death, and
/// with nothing else.
pub proof fn law_run_breaks_with_the_root<R>(event: RunEvent, err: NodeError)
    ensures
        ({
            let action = BehaviorTree::<R>::run_action(event);
            &&& event is Begin <==> action is Send
            &&& action is Send ==> action == RunAction::Send(ChildMessage::Start)
            &&& event matches RunEvent::Sent(result) ==> (action is Listen <==> result is Ok)
            &&& action == RunAction::Finish(Err(err)) <==> {
                ||| event == RunEvent::Sent(Err(err))
                ||| event == RunEvent::Heard(Err(err))
                ||| event == RunEvent::Heard(Ok(ParentMessage::Poison(err)))
                ||| event == RunEvent::Heard(Ok(ParentMessage::Killed)) && err is KillError
            }
            &&& event matches RunEvent::Heard(Ok(msg)) ==> (action is Listen <==> {
                ||| msg is RequestStart
                ||| msg == ParentMessage::Status(Status::Running)
                ||| msg == ParentMessage::Status(Status::Idle)
            })
        }),
{
}

/// A name leads to the first node that bears it, and to no other.
pub proof fn law_name_leads_to_the_first_node(
    list: Seq<NodeView>,
    name: Seq<char>,
    xml: XmlView,
    i: int,
)
    ensures
        is_drawn_by_name(list, name, xml) ==> exists|j: int|
            0 <= j < list.len() && #[trigger] list[j].name == name,
        0 <= i < list.len() && list[i].name == name && (forall|j: int|
            0 <= j < i ==> #[trigger] list[j].name != name) ==> (is_drawn_by_name(list, name, xml)
            <==> is_drawn(list, list[i], xml)),
{
    if is_drawn_by_name(list, name, xml) {
        assert(list[first_named(list, name)].name == name);
    }
    if 0 <= i < list.len() && list[i].name == name && (forall|j: int|
        0 <= j < i ==> #[trigger] list[j].name != name) {
        assert(is_first_named(list, i, name));
        let first = first_named(list, name);
        assert(is_first_named(list, first, name));
        assert(list[first].name == name);
    }
}

/// A drawing of a node bears the kind and the name of the node, and holds one drawing for
/// each child, in the order of the children, of the node that the child's name leads to.
pub proof fn law_drawing_mirrors_the_node(list: Seq<NodeView>, node: NodeView, xml: XmlView)
    ensures
        is_drawn(list, node, xml) <==> {
            &&& xml.tag == if node.element == "Condition"@ {
                "Decorator"@
            } else {
                node.element
            }
            &&& xml.attributes == map!["name"@ => node.name]
            &&& xml.text is None
            &&& xml.children.len() == node.children_names.len()
            &&& forall|k: int|
                0 <= k < xml.children.len() ==> is_drawn_by_name(
                    list,
                    node.children_names[k],
                    #[trigger] xml.children[k],
                )
        },
{
}

/// A tree in which the name of a child leads nowhere cannot be drawn, if that child is one
/// of the root.
pub proof fn law_missing_child_cannot_be_drawn<R>(tree: BehaviorTree<R>, k: int)
    requires
        0 <= k < tree.root_node@.children_names.len(),
        forall|i: int|
            0 <= i < tree.nodes().len() ==> #[trigger] tree.nodes()[i].name
                != tree.root_node@.children_names[k],
    ensures
        !tree.is_drawable(),
{
    if tree.is_drawable() {
        let xml = choose|xml: XmlView| is_drawn(tree.nodes(), tree.root_node@, xml);
        let name = tree.root_node@.children_names[k];
        assert(is_drawn_by_name(tree.nodes(), name, xml.children[k]));
        assert(tree.nodes()[first_named(tree.nodes(), name)].name == name);
    }
}

/// Whatever has a drawing can be drawn.
pub proof fn law_what_is_drawn_is_drawable<R>(tree: BehaviorTree<R>, xml: XmlView)
    requires
        is_drawn(tree.nodes(), tree.root_node@, xml),
    ensures
        tree.is_drawable(),
{
}

/// The export of a tree is the drawing of its root, inside an element of the given name
/// that is marked as the main tree, inside the root of the document.
pub proof fn law_export_holds_the_drawing<R>(tree: BehaviorTree<R>, name: Seq<char>, xml: XmlView)
    requires
        tree.is_exported_as(name, xml),
    ensures
        xml.tag == "root"@,
        xml.attributes == map!["main_tree_to_execute"@ => "MainTree"@],
        xml.text is None,
        xml.children.len() == 1,
        xml.children[0].tag == name,
        xml.children[0].attributes == map!["ID"@ => "MainTree"@],
        xml.children[0].text is None,
        xml.children[0].children.len() == 1,
        is_drawn(tree.nodes(), tree.root_node@, xml.children[0].children[0]),
{
}

/// The JSON object of a tree tells the given name, the identifier of the root, and all that
/// there is to tell of each node, in the order of the nodes, and nothing else.
pub proof fn law_json_tells_all_of_a_tree<R>(tree: BehaviorTree<R>, name: Seq<char>, p: int)
    ensures
        tree.json(name) is Object,
        ({
            let fields = tree.json(name)->Object_0;
            &&& fields.dom() =~= set!["name"@, "rootNode"@, "nodes"@]
            &&& fields["name"@] == JsonView::String(name)
            &&& fields["rootNode"@] == JsonView::String(tree.root_node.id@)
            &&& fields["nodes"@] is Array
            &&& fields["nodes"@]->Array_0.len() == tree.handles@.len()
            &&& 0 <= p < tree.handles@.len() ==> fields["nodes"@]->Array_0[p]
                == NodeHandle::json_of(tree.handles@[p]@)
        }),
{
    reveal_strlit("name");
    reveal_strlit("rootNode");
    reveal_strlit("nodes");
    assert("name"@.len() == 4 && "rootNode"@.len() == 8 && "nodes"@.len() == 5);
}

/// A new tree holds what its root held, in the same order, and the root behind it. Its name
/// and its updates are those that it was given.
pub proof fn law_new_tree_holds_its_root<R>(
    tree: BehaviorTree<R>,
    root_node: NodeHandle,
    name: String,
    rx: R,
    i: int,
)
    requires
        tree.is_tree_of(root_node, name, rx),
    ensures
        tree.name == name,
        tree.rx == Some(rx),
        tree.root_node@ == root_node@,
        tree.root_node.handles@.len() == 0,
        tree.handles@.len() == root_node.handles@.len() + 1,
        tree.handles@.last()@ == root_node@,
        0 <= i < root_node.handles@.len() ==> tree.handles@[i]@ == root_node.handles@[i]@,
        root_node.wf() ==> tree.wf() && tree.is_drawable(),
        (forall|j: int|
            0 <= j < root_node.handles@.len() ==> (#[trigger] root_node.handles@[j]).handles@.len()
                == 0) && 0 <= i < tree.handles@.len() ==> tree.handles@[i].handles@.len() == 0,
{
    assert(tree.nodes().len() == tree.handles@.len());
    let n = root_node.handles@.len() as int;
    assert(tree.nodes()[n] == root_node@);
    assert(tree.nodes()[n] == tree.handles@[n]@);
    if 0 <= i < n {
        assert(tree.nodes()[i] == root_node.subtree()[i]);
        assert(tree.nodes()[i] == tree.handles@[i]@);
    }
}

} // verus!
