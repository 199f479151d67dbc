//! Trees as a whole, and what is told of them.
use behavior_tree::bt::handle::{
    ChildMessage, FutResponse, NodeError, NodeHandle, ParentMessage, RecvError, Status,
};
use behavior_tree::bt::listener::{Listener, OuterStatus};
use behavior_tree::bt::{RunAction, RunEvent, TreeError};
use behavior_tree::ws::socket_connector::SocketConnector;
use behavior_tree::ws::socket_writer::{SocketWriter, WriterEvent};
use behavior_tree::{BehaviorTree, Sequence, Update};
use url::ParseError;

type Tree = BehaviorTree<&'static str>;

fn text(s: &str) -> String {
    s.to_string()
}

fn node(id: &str, name: &str) -> NodeHandle {
    NodeHandle::with_id(text(id), text("Action"), text(name), vec![], vec![], vec![])
}

fn group(id: &str, name: &str, children: Vec<NodeHandle>) -> NodeHandle {
    let names = children.iter().map(|child| child.name.clone()).collect();
    let ids = children.iter().map(|child| child.id.clone()).collect();
    let mut handles = vec![];
    for mut child in children {
        handles.extend(child.take_handles());
    }
    NodeHandle::with_id(text(id), text("Sequence"), text(name), names, ids, handles)
}

fn tree(root: NodeHandle) -> Tree {
    Tree::new(root, text("bt"), "updates")
}

fn drawing(tree: &Tree) -> Vec<String> {
    assert!(tree.can_export_xml());
    let xml = tree.export_xml(text("T")).unwrap().to_string();
    xml.lines().skip(3).map(|line| line.trim().to_string()).collect()
}

#[test]
fn identifiers_must_differ() {
    let twins = group("3", "s", vec![node("1", "a"), node("1", "b")]);
    let refused = Tree::_new(twins, text("bt"), "updates");
    assert!(matches!(refused, Err(TreeError::NonUniqueIds)));
    let apart = group("3", "s", vec![node("1", "a"), node("2", "b"), node("1", "c")]);
    let refused = Tree::_new(apart, text("bt"), "updates");
    assert!(matches!(refused, Err(TreeError::NonUniqueIds)));
    let like_parent = group("1", "s", vec![node("1", "a"), node("2", "b")]);
    let err = Tree::_new(like_parent, text("bt"), "updates").unwrap_err();
    assert_eq!(err.to_string(), "The behavior tree contained non-unique IDs");
    let distinct = group("4", "s", vec![node("1", "a"), node("2", "b"), node("3", "c")]);
    assert!(Tree::_new(distinct, text("bt"), "updates").is_ok());
    assert!(Tree::verify_unique_ids(&vec![]).is_ok());
    assert!(Tree::verify_unique_ids(&vec![node("1", "a")]).is_ok());
    let list = vec![node("a", "x"), node("b", "y"), node("a", "z")];
    assert!(matches!(Tree::verify_unique_ids(&list), Err(TreeError::NonUniqueIds)));
}

#[test]
fn new_tree_holds_all_nodes() {
    let inner = group("4", "inner", vec![node("1", "a"), node("2", "b")]);
    let tree = tree(group("5", "outer", vec![inner, node("3", "c")]));
    let ids: Vec<&str> = tree.handles.iter().map(|handle| handle.id.as_str()).collect();
    assert_eq!(ids, vec!["1", "2", "4", "3", "5"]);
    assert_eq!(tree.name, "bt");
    assert_eq!(tree.root_node.id, "5");
    assert!(tree.root_node.handles.is_empty());
    assert!(tree.handles.iter().all(|handle| handle.handles.is_empty()));
}

#[test]
fn tree_as_json() {
    let tree = tree(group("2", "s", vec![node("1", "a")]));
    assert_eq!(
        tree.export_json(text("T")).unwrap().to_string(),
        "{\"name\":\"T\",\"nodes\":[{\"id\":\"1\",\"name\":\"a\",\"type\":\"Action\"},\
         {\"children\":[\"1\"],\"id\":\"2\",\"name\":\"s\",\"type\":\"Sequence\"}],\
         \"rootNode\":\"2\"}"
    );
}

#[test]
fn drawing_has_the_shape_of_the_tree() {
    let inner = group("4", "inner", vec![node("1", "a"), node("2", "b")]);
    let tree = tree(group("5", "outer", vec![inner, node("3", "c")]));
    assert_eq!(
        drawing(&tree),
        vec![
            "<Sequence name=\"outer\">",
            "<Sequence name=\"inner\">",
            "<Action name=\"a\" />",
            "<Action name=\"b\" />",
            "</Sequence>",
            "<Action name=\"c\" />",
            "</Sequence>",
            "</T>",
            "</root>",
        ]
    );
}

// With distinct names every node is drawn once, in the order of the nodes if one reads
// each element where it ends.
#[test]
fn drawing_holds_every_node() {
    let inner = group("4", "inner", vec![node("1", "a"), node("2", "b")]);
    let other = group("7", "other", vec![node("6", "d")]);
    let tree = tree(group("5", "outer", vec![inner, node("3", "c"), other]));
    let mut open: Vec<String> = vec![];
    let mut ended: Vec<String> = vec![];
    for line in drawing(&tree) {
        let name = line.split('"').nth(1).map(text);
        match name {
            Some(name) if line.ends_with("/>") => ended.push(name),
            Some(name) => open.push(name),
            None => ended.extend(open.pop()),
        }
    }
    let names: Vec<String> = tree.handles.iter().map(|handle| handle.name.clone()).collect();
    assert_eq!(names.len(), 7);
    assert_eq!(ended, names);
}

// Of several nodes with one name the first is drawn.
#[test]
fn drawing_goes_by_name() {
    let first = group("3", "x", vec![node("1", "a")]);
    let tree = tree(group("5", "s", vec![first, node("4", "x")]));
    assert_eq!(
        drawing(&tree)[..7],
        [
            "<Sequence name=\"s\">",
            "<Sequence name=\"x\">",
            "<Action name=\"a\" />",
            "</Sequence>",
            "<Sequence name=\"x\">",
            "<Action name=\"a\" />",
            "</Sequence>",
        ]
    );
}

#[test]
fn incomplete_tree_cannot_be_drawn() {
    let mut root = group("2", "s", vec![node("1", "a")]);
    root.take_handles();
    assert!(!tree(root).can_export_xml());
    // A circle of names cannot be drawn either.
    let looped = NodeHandle::with_id(
        text("1"),
        text("Sequence"),
        text("s"),
        vec![text("s")],
        vec![text("1")],
        vec![],
    );
    assert!(!tree(looped).can_export_xml());
    assert!(tree(node("1", "a")).can_export_xml());
}

#[test]
fn receiver_is_taken_once() {
    let mut tree = tree(node("1", "a"));
    assert_eq!(tree.take_rx().unwrap(), "updates");
    let err = tree.take_rx().unwrap_err();
    assert_eq!(err.to_string(), "Receiver already taken");
    let result = tree.connect(text("ws://localhost"));
    assert!(matches!(result, Err(TreeError::ReceiverTaken)));
}

#[test]
fn connection_is_prepared() {
    let mut first = tree(node("1", "a"));
    let connector = first.connect(text("WS://Localhost:80/x y")).unwrap();
    assert_eq!(connector.socket_url, "ws://localhost/x%20y");
    assert_eq!(connector.bt_export, first.export_json(text("bt")).unwrap());
    assert!(first.rx.is_none());
    // The receiver is gone even if the address is no good.
    let mut second = tree(node("1", "a"));
    let result = second.connect(text("localhost"));
    let err = result.map(|_| ()).unwrap_err();
    assert!(matches!(err, TreeError::InvalidUrl(ParseError::RelativeUrlWithoutBase)));
    assert_eq!(err.to_string(), "relative URL without a base");
    let err = TreeError::InvalidUrl(ParseError::InvalidPort);
    assert_eq!(err.to_string(), "invalid port number");
    assert!(second.rx.is_none());
    assert_eq!(SocketConnector::<u8>::wait_for_connect(false), Some(3));
    assert_eq!(SocketConnector::<u8>::wait_for_connect(true), None);
}

#[test]
fn run_of_a_tree() {
    let heard = |msg: ParentMessage| Tree::run_once(RunEvent::Heard(Ok(msg)));
    assert_eq!(Tree::run_once(RunEvent::Begin), RunAction::Send(ChildMessage::Start));
    assert_eq!(Tree::run_once(RunEvent::Sent(Ok(()))), RunAction::Listen);
    let unsent = RunEvent::Sent(Err(NodeError::TokioSendError));
    assert_eq!(Tree::run_once(unsent), RunAction::Finish(Err(NodeError::TokioSendError)));
    for status in [Status::Success, Status::Failure] {
        assert_eq!(heard(ParentMessage::Status(status)), RunAction::Finish(Ok(status)));
    }
    for status in [Status::Running, Status::Idle] {
        assert_eq!(heard(ParentMessage::Status(status)), RunAction::Listen);
    }
    assert_eq!(heard(ParentMessage::RequestStart), RunAction::Listen);
    let poison = || NodeError::PoisonError(text("bad"));
    assert_eq!(heard(ParentMessage::Poison(poison())), RunAction::Finish(Err(poison())));
    let killed = RunAction::Finish(Err(NodeError::KillError));
    assert_eq!(heard(ParentMessage::Killed), killed);
    let lost = || NodeError::TokioBroadcastRecvError(RecvError::Closed);
    let result = Tree::run_once(RunEvent::Heard(Err(lost())));
    assert_eq!(result, RunAction::Finish(Err(lost())));
}

#[test]
fn runs_follow_each_other() {
    assert_eq!(Tree::_run(Ok(Status::Failure)), Ok(1000));
    assert_eq!(Tree::_run(Err(NodeError::KillError)), Err(NodeError::KillError));
    assert_eq!(Tree::run(Ok(())), (false, text("")));
    assert_eq!(Tree::run(Err(NodeError::KillError)), (true, text("The node is killed")));
    // The report is handed out unless the killing failed.
    let report = || text("The node is killed");
    assert_eq!(Tree::end_of_run(report(), Ok(())).unwrap(), "The node is killed");
    let alive = Err(TreeError::ActiveNodes(text("busy")));
    let err = Tree::end_of_run(report(), alive).unwrap_err();
    assert!(matches!(err, TreeError::ActiveNodes(cause) if cause == "busy"));
}

#[test]
fn nodes_are_killed_in_order() {
    let (seq, _) = Sequence::new(vec![node("1", "a"), node("2", "b")]);
    let tree = tree(seq);
    assert_eq!(tree.kill(0, Ok(())).unwrap(), Some(1));
    assert_eq!(tree.kill(1, Ok(())).unwrap(), Some(2));
    assert_eq!(tree.kill(2, Ok(())).unwrap(), None);
    let err = tree.kill(0, Err(text("TokioSendError"))).unwrap_err();
    assert_eq!(
        err.to_string(),
        "Cannot safely rebuild behaviour tree with active nodes: TokioSendError"
    );
    assert!(matches!(err, TreeError::ActiveNodes(_)));
}

#[test]
fn listener_tells_the_news() {
    let listener = Listener::new(vec![node("1", "a"), node("2", "b")]);
    let news = |msg: ParentMessage| listener.process_msg(msg, 1);
    let update = |status: OuterStatus| Some(Update::new(text("2"), status));
    assert_eq!(news(ParentMessage::RequestStart), None);
    let statuses = [
        (Status::Success, OuterStatus::Success),
        (Status::Failure, OuterStatus::Failure),
        (Status::Running, OuterStatus::Running),
        (Status::Idle, OuterStatus::Idle),
    ];
    for (status, outer) in statuses {
        assert_eq!(OuterStatus::from(status), outer);
        assert_eq!(news(ParentMessage::Status(status)), update(outer));
    }
    let poison = ParentMessage::Poison(NodeError::PoisonError(text("bad")));
    assert_eq!(news(poison), update(OuterStatus::Poisonend));
    assert_eq!(news(ParentMessage::Killed), update(OuterStatus::Killed));
    let turn = listener.run_listeners(Ok(FutResponse::Child(0, ParentMessage::Killed)));
    assert_eq!(turn, Ok(Some(Update::new(text("1"), OuterStatus::Killed))));
    let parent = listener.run_listeners(Ok(FutResponse::Parent(ChildMessage::Start)));
    assert_eq!(parent, Ok(None));
    let lost = || NodeError::TokioBroadcastRecvError(RecvError::Lagged(9));
    assert_eq!(listener.run_listeners(Err(lost())), Err(lost()));
}

#[test]
fn update_as_json() {
    let words = [
        (OuterStatus::Killed, "Killed"),
        (OuterStatus::Poisonend, "Poisonend"),
        (OuterStatus::Success, "Success"),
        (OuterStatus::Failure, "Failure"),
        (OuterStatus::Running, "Running"),
        (OuterStatus::Idle, "Idle"),
    ];
    for (status, word) in words {
        let update = Update::new(text("7"), status);
        let expected = format!("{{\"id\":\"7\",\"status\":\"{}\"}}", word);
        assert_eq!(update.to_json().to_string(), expected);
    }
}

#[test]
fn messages_to_the_outside() {
    let tree = tree(node("1", "a"));
    let export = tree.export_json(text("T")).unwrap();
    assert_eq!(
        SocketWriter::run(WriterEvent::Connected(export)).unwrap(),
        "{\"type\":\"tree\",\"value\":{\"name\":\"T\",\"nodes\":[{\"id\":\"1\",\"name\":\"a\",\
         \"type\":\"Action\"}],\"rootNode\":\"1\"}}"
    );
    let update = Update::new(text("a\"b"), OuterStatus::Running);
    assert_eq!(
        SocketWriter::run(WriterEvent::Received(Some(update))).unwrap(),
        "{\"type\":\"update\",\"value\":{\"id\":\"a\\\"b\",\"status\":\"Running\"}}"
    );
    assert_eq!(SocketWriter::run(WriterEvent::Received(None)), None);
}
