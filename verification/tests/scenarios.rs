//! Whole trees, served by a small scheduler with a clock of its own.
use std::cell::{Cell, RefCell};
use std::collections::{HashMap, VecDeque};
use std::rc::Rc;

use behavior_tree::bt::action::{ActionEvent, ActionProcess};
use behavior_tree::bt::blocking_check::{CheckEvent, CheckPhase, CheckStage};
use behavior_tree::bt::condition::{ConditionEvent, ConditionProcess, Phase};
use behavior_tree::bt::handle::{
    exit_message, ActorError, ChildMessage, Effect, FutResponse, KillAction, KillEvent, NodeError,
    ParentMessage, RecvError, Status,
};
use behavior_tree::bt::listener::{Listener, OuterStatus};
use behavior_tree::bt::loop_dec::{LoopEvent, LoopPhase};
use behavior_tree::bt::sequence::SequenceProcess;
use behavior_tree::bt::{RunAction, RunEvent};
use behavior_tree::{
    Action, BehaviorTree, BlockingAction, BlockingCheck, BlockingFallback, BlockingSequence,
    Condition, Evaluator, Executor, Failure, Fallback, LoopDecorator, NodeHandle,
    OneTimeCondition, Sequence, Success, Wait,
};

// A value that conditions watch.
struct Handle<V> {
    value: Rc<RefCell<Option<V>>>,
    version: Rc<Cell<u64>>,
}

impl<V: Clone + 'static> Handle<V> {
    fn new() -> Self {
        Handle { value: Rc::new(RefCell::new(None)), version: Rc::new(Cell::new(0)) }
    }

    fn new_from(value: V) -> Self {
        Handle { value: Rc::new(RefCell::new(Some(value))), version: Rc::new(Cell::new(0)) }
    }

    fn clone(&self) -> Self {
        Handle { value: self.value.clone(), version: self.version.clone() }
    }

    fn set(&self, value: V) {
        *self.value.borrow_mut() = Some(value);
        self.version.set(self.version.get() + 1);
    }

    // Sets the value at some later time.
    fn set_at(&self, at: u64, value: V) -> (u64, Box<dyn Fn()>) {
        let handle = self.clone();
        (at, Box::new(move || handle.set(value.clone())))
    }

    fn watch<T: Evaluator<V> + 'static>(&self, mut evaluator: T, delay: u64) -> Watch {
        let value = self.value.clone();
        Watch {
            version: self.version.clone(),
            seen: self.version.get(),
            verdict: Box::new(move || {
                let current = value.borrow().clone();
                current.map(|v| evaluator.evaluate(v))
            }),
            delay,
            due: None,
        }
    }

    fn watch_only(&self) -> Watch {
        let value = self.value.clone();
        Watch {
            version: self.version.clone(),
            seen: self.version.get(),
            verdict: Box::new(move || value.borrow().as_ref().map(|_| Ok(true))),
            delay: 0,
            due: None,
        }
    }
}

struct Watch {
    version: Rc<Cell<u64>>,
    seen: u64,
    verdict: Box<dyn FnMut() -> Option<Result<bool, String>>>,
    delay: u64,
    due: Option<u64>,
}

// Work that takes some time: the outcome comes after that many milliseconds.
struct Work {
    executor: Box<dyn FnMut() -> Result<bool, String>>,
    duration: Box<dyn FnMut() -> Option<u64>>,
    due: Option<u64>,
    busy: bool,
}

enum Proc {
    Action(ActionProcess, Work),
    Sequence(SequenceProcess),
    Fallback(Fallback),
    Condition(ConditionProcess, Watch),
    Check(BlockingCheck, Watch),
    Loop(LoopDecorator, Option<u64>),
}

struct Node {
    id: String,
    children: Vec<String>,
    proc: Proc,
}

// A node with all its descendants, before it is put into a tree.
struct Part {
    handle: NodeHandle,
    nodes: Vec<Node>,
}

impl Part {
    fn leaf(handle: NodeHandle, proc: Proc) -> Part {
        let node = Node { id: handle.id.clone(), children: vec![], proc };
        Part { handle, nodes: vec![node] }
    }

    fn parent(handle: NodeHandle, mut below: Vec<Node>, proc: Proc) -> Part {
        let node = Node { id: handle.id.clone(), children: handle.children_ids.clone(), proc };
        below.push(node);
        Part { handle, nodes: below }
    }
}

fn split(parts: Vec<Part>) -> (Vec<NodeHandle>, Vec<Node>) {
    let mut handles = vec![];
    let mut nodes = vec![];
    for part in parts {
        handles.push(part.handle);
        nodes.extend(part.nodes);
    }
    (handles, nodes)
}

// An action whose outcome is fixed, or depends on how often it was executed.
struct MockAction {
    name: String,
    calls: i32,
    succeed: bool,
    throw_error: bool,
    fail_on_twice: bool,
}

impl MockAction {
    fn named(id: i32, succeed: bool, throw_error: bool, fail_on_twice: bool) -> MockAction {
        MockAction { name: id.to_string(), calls: 0, succeed, throw_error, fail_on_twice }
    }

    fn new(id: i32) -> Part {
        action(MockAction::named(id, true, false, false), false, Some(500))
    }

    fn new_failing(id: i32) -> Part {
        action(MockAction::named(id, false, false, false), false, Some(500))
    }

    fn new_error(id: i32) -> Part {
        action(MockAction::named(id, true, true, false), false, Some(500))
    }

    fn new_loop(id: i32) -> Part {
        action(MockAction::named(id, true, false, false), false, None)
    }

    fn fail_on_twice(id: i32) -> Part {
        action(MockAction::named(id, true, false, true), false, Some(500))
    }
}

impl Executor for MockAction {
    fn get_name(&self) -> String {
        self.name.clone()
    }

    fn execute(&mut self) -> Result<bool, String> {
        self.calls += 1;
        if self.throw_error {
            Err("Some testing error!".to_string())
        } else if self.fail_on_twice {
            Ok(self.calls < 2)
        } else {
            Ok(self.succeed)
        }
    }
}

struct MockBlockingAction {}

impl MockBlockingAction {
    fn new(id: i32) -> Part {
        action(MockAction::named(id, true, false, false), true, Some(500))
    }

    fn new_error(id: i32) -> Part {
        action(MockAction::named(id, true, true, false), true, Some(500))
    }
}

fn action<T: Executor + 'static>(inner: T, blocking: bool, duration: Option<u64>) -> Part {
    let (handle, process) =
        if blocking { BlockingAction::new(&inner) } else { Action::new(&inner) };
    Part::leaf(handle, Proc::Action(process, work(inner, duration)))
}

fn work<T: Executor + 'static>(mut inner: T, duration: Option<u64>) -> Work {
    Work {
        executor: Box::new(move || inner.execute()),
        duration: Box::new(move || duration),
        due: None,
        busy: false,
    }
}

// Succeeds once, and fails at once whenever it is executed again.
struct MockRunBlockingOnce {
    name: String,
}

impl MockRunBlockingOnce {
    fn new(id: i32) -> Part {
        let inner = MockRunBlockingOnce { name: id.to_string() };
        let (handle, process) = BlockingAction::new(&inner);
        let called = Rc::new(Cell::new(false));
        let was_called = Rc::new(Cell::new(false));
        let (c1, w1) = (called.clone(), was_called.clone());
        let work = Work {
            duration: Box::new(move || {
                w1.set(c1.get());
                c1.set(true);
                if w1.get() { Some(0) } else { Some(500) }
            }),
            executor: Box::new(move || Ok(!was_called.get())),
            due: None,
            busy: false,
        };
        Part::leaf(handle, Proc::Action(process, work))
    }
}

impl Executor for MockRunBlockingOnce {
    fn get_name(&self) -> String {
        self.name.clone()
    }

    fn execute(&mut self) -> Result<bool, String> {
        Ok(true)
    }
}

// A test that takes its time.
struct MockAsyncCondition {}

impl Evaluator<i32> for MockAsyncCondition {
    fn get_name(&self) -> String {
        "Mock async condition".to_string()
    }

    fn evaluate(&mut self, _val: i32) -> Result<bool, String> {
        Ok(true)
    }
}

// A test that breaks.
struct BrokenCondition {}

impl Evaluator<i32> for BrokenCondition {
    fn get_name(&self) -> String {
        "broken".to_string()
    }

    fn evaluate(&mut self, _val: i32) -> Result<bool, String> {
        Err("no verdict".to_string())
    }
}

fn condition<V, F>(name: &str, handle: Handle<V>, function: F, child: Part) -> Part
where
    V: Clone + 'static,
    F: Fn(V) -> bool + 'static,
{
    let (node, process, evaluator) = Condition::new(name.to_string(), function, child.handle);
    Part::parent(node, child.nodes, Proc::Condition(process, handle.watch(evaluator, 0)))
}

fn condition_from<T: Evaluator<i32> + 'static>(
    evaluator: T,
    delay: u64,
    handle: Handle<i32>,
    child: Part,
) -> Part {
    let (node, process) = Condition::new_from(&evaluator, child.handle);
    Part::parent(node, child.nodes, Proc::Condition(process, handle.watch(evaluator, delay)))
}

fn one_time_condition<V, F>(name: &str, handle: Handle<V>, function: F) -> Part
where
    V: Clone + 'static,
    F: Fn(V) -> bool + 'static,
{
    let (node, process, evaluator) = OneTimeCondition::new(name.to_string(), function);
    Part::leaf(node, Proc::Condition(process, handle.watch(evaluator, 0)))
}

fn blocking_check<V: Clone + 'static>(name: &str, handle: Handle<V>, child: Part) -> Part {
    let (node, process) = BlockingCheck::new(name.to_string(), child.handle);
    Part::parent(node, child.nodes, Proc::Check(process, handle.watch_only()))
}

fn loop_decorator(name: &str, child: Part, pause_millis: u64) -> Part {
    let (node, process) = LoopDecorator::new(name.to_string(), child.handle, pause_millis);
    Part::parent(node, child.nodes, Proc::Loop(process, None))
}

fn sequence(parts: Vec<Part>) -> Part {
    let (handles, nodes) = split(parts);
    let (handle, process) = Sequence::new(handles);
    Part::parent(handle, nodes, Proc::Sequence(process))
}

fn blocking_sequence(parts: Vec<Part>) -> Part {
    let (handles, nodes) = split(parts);
    let (handle, process) = BlockingSequence::new(handles);
    Part::parent(handle, nodes, Proc::Sequence(process))
}

fn fallback(parts: Vec<Part>) -> Part {
    let (handles, nodes) = split(parts);
    let (handle, process) = Fallback::new(handles);
    Part::parent(handle, nodes, Proc::Fallback(process))
}

fn blocking_fallback(parts: Vec<Part>) -> Part {
    let (handles, nodes) = split(parts);
    let (handle, process) = BlockingFallback::new(handles);
    Part::parent(handle, nodes, Proc::Fallback(process))
}

fn success() -> Part {
    let (handle, process, executor) = Success::new();
    Part::leaf(handle, Proc::Action(process, work(executor, Some(0))))
}

fn failure() -> Part {
    let (handle, process, executor) = Failure::new();
    Part::leaf(handle, Proc::Action(process, work(executor, Some(0))))
}

fn wait(millis: u64) -> Part {
    let (handle, process, executor) = Wait::new(std::time::Duration::from_millis(millis));
    let duration: u64 = executor.duration.as_millis().try_into().unwrap();
    Part::leaf(handle, Proc::Action(process, work(executor, Some(duration))))
}

type Setter = (u64, Box<dyn Fn()>);

// A tree, its nodes, and the messages that are on their way.
struct Sim {
    tree: BehaviorTree<&'static str>,
    nodes: Vec<Node>,
    alive: Vec<bool>,
    from_parent: Vec<VecDeque<ChildMessage>>,
    // What each node said and its parent has not read yet.
    to_parent: Vec<VecDeque<ParentMessage>>,
    // Everything that was said, with the index of the node.
    said: Vec<(usize, ParentMessage)>,
    now: u64,
    setters: Vec<Setter>,
}

impl Sim {
    fn new(part: Part) -> Sim {
        let n = part.nodes.len();
        let tree = BehaviorTree::new(part.handle, "test".to_string(), "updates");
        // The nodes stand in the order of the handles.
        for (handle, node) in tree.handles.iter().zip(part.nodes.iter()) {
            assert_eq!(handle.id, node.id);
        }
        assert_eq!(tree.handles.len(), n);
        Sim {
            tree,
            nodes: part.nodes,
            alive: vec![true; n],
            from_parent: (0..n).map(|_| VecDeque::new()).collect(),
            to_parent: (0..n).map(|_| VecDeque::new()).collect(),
            said: vec![],
            now: 0,
            setters: vec![],
        }
    }

    fn root(&self) -> usize {
        self.nodes.len() - 1
    }

    fn index(&self, id: &str) -> usize {
        self.nodes.iter().position(|node| node.id == id).unwrap()
    }

    fn child(&self, node: usize, child: usize) -> usize {
        self.index(&self.nodes[node].children[child])
    }

    fn say(&mut self, node: usize, msg: ParentMessage) {
        self.said.push((node, msg.clone()));
        self.to_parent[node].push_back(msg);
    }

    fn heard(&mut self, node: usize, child: usize) -> Option<Result<ParentMessage, NodeError>> {
        let index = self.child(node, child);
        match self.to_parent[index].pop_front() {
            Some(msg) => Some(Ok(msg)),
            None if !self.alive[index] => {
                Some(Err(NodeError::TokioBroadcastRecvError(RecvError::Closed)))
            }
            None => None,
        }
    }

    // Performs what a turn led to.
    fn finish(&mut self, node: usize, result: Result<Vec<Effect>, NodeError>) {
        let mut end = None;
        match result {
            Ok(effects) => {
                for effect in effects {
                    match effect {
                        Effect::NotifyParent(msg) => self.say(node, msg),
                        Effect::NotifyChild(child, msg) => {
                            let index = self.child(node, child);
                            if self.alive[index] {
                                self.from_parent[index].push_back(msg);
                            } else {
                                end = Some(NodeError::TokioBroadcastSendError("closed".to_string()));
                                break;
                            }
                        }
                    }
                }
            }
            Err(err) => end = Some(err),
        }
        if let Some(err) = end {
            let msg = match &self.nodes[node].proc {
                Proc::Action(..) => ActionProcess::serve(err),
                _ => exit_message(err),
            };
            self.say(node, msg);
            self.alive[node] = false;
        }
    }

    // Lets a node take one turn, if there is anything for it to do.
    fn turn(&mut self, node: usize) -> bool {
        if !self.alive[node] {
            return false;
        }
        let now = self.now;
        let from_parent = self.from_parent[node].front().copied();
        let child = match &self.nodes[node].proc {
            Proc::Condition(process, _) => process.child,
            Proc::Check(..) | Proc::Loop(..) => true,
            _ => false,
        };
        let result = match &mut self.nodes[node].proc {
            Proc::Action(process, work) => {
                if let Some(msg) = from_parent {
                    let busy = process.blocking && process.status.is_running();
                    self.from_parent[node].pop_front();
                    if !busy {
                        work.busy = false;
                    }
                    process._serve(ActionEvent::Parent(Ok(msg)))
                } else if process.status.is_running() {
                    if !work.busy {
                        work.busy = true;
                        work.due = (work.duration)().map(|duration| now + duration);
                    }
                    match work.due {
                        Some(due) if due <= now => {
                            work.busy = false;
                            let outcome = (work.executor)();
                            process._serve(ActionEvent::Executed(outcome))
                        }
                        _ => return false,
                    }
                } else {
                    return false;
                }
            }
            Proc::Sequence(_) | Proc::Fallback(_) => {
                let response = if let Some(msg) = from_parent {
                    self.from_parent[node].pop_front();
                    Some(FutResponse::Parent(msg))
                } else {
                    let mut found = None;
                    for i in 0..self.nodes[node].children.len() {
                        let index = self.child(node, i);
                        if let Some(msg) = self.to_parent[index].pop_front() {
                            found = Some(FutResponse::Child(i, msg));
                            break;
                        }
                    }
                    found
                };
                let response = match response {
                    Some(response) => Ok(response),
                    None => return false,
                };
                match &mut self.nodes[node].proc {
                    Proc::Sequence(process) => {
                        assert!(process.accepts(&response));
                        process._serve(response)
                    }
                    Proc::Fallback(process) => {
                        assert!(process.accepts(&response));
                        process._serve(response)
                    }
                    _ => unreachable!(),
                }
            }
            Proc::Condition(process, watch) => {
                let phase = process.phase;
                let event = match phase {
                    Phase::Fetching(_) => match (watch.verdict)() {
                        Some(_) => Some(ConditionEvent::Fetched(Ok(()))),
                        None => {
                            let unset = ActorError::NoValueSet("value".to_string());
                            Some(ConditionEvent::Fetched(Err(unset)))
                        }
                    },
                    Phase::Evaluating(_) => {
                        let due = *watch.due.get_or_insert(now + watch.delay);
                        if due <= now {
                            watch.due = None;
                            Some(ConditionEvent::Evaluated((watch.verdict)().unwrap()))
                        } else {
                            None
                        }
                    }
                    Phase::Serving if from_parent.is_some() => {
                        self.from_parent[node].pop_front();
                        Some(ConditionEvent::Parent(Ok(from_parent.unwrap())))
                    }
                    Phase::Serving if watch.version.get() > watch.seen => {
                        watch.seen = watch.version.get();
                        Some(ConditionEvent::Value(Ok(())))
                    }
                    Phase::Serving | Phase::Stopping => None,
                };
                let event = match event {
                    Some(event) => event,
                    None if !child => return false,
                    None if phase == Phase::Stopping => match self.heard(node, 0) {
                        Some(msg) => ConditionEvent::Child(msg),
                        None => return false,
                    },
                    None if phase == Phase::Serving => match self.heard(node, 0) {
                        Some(Ok(msg)) => ConditionEvent::Child(Ok(msg)),
                        _ => return false,
                    },
                    None => return false,
                };
                match &mut self.nodes[node].proc {
                    Proc::Condition(process, _) => process._serve(event),
                    _ => unreachable!(),
                }
            }
            Proc::Check(process, watch) => {
                let phase = process.phase;
                let event = match phase {
                    CheckPhase::Evaluating(_, CheckStage::Get) => match (watch.verdict)() {
                        Some(_) => Some(CheckEvent::Got(Ok(()))),
                        None => {
                            let unset = ActorError::NoValueSet("value".to_string());
                            Some(CheckEvent::Got(Err(unset)))
                        }
                    },
                    CheckPhase::Evaluating(_, CheckStage::Subscribe) => {
                        watch.seen = watch.version.get();
                        Some(CheckEvent::Subscribed(Ok(())))
                    }
                    CheckPhase::Evaluating(_, CheckStage::Receive) => {
                        if watch.version.get() == watch.seen {
                            return false;
                        }
                        watch.seen = watch.version.get();
                        Some(CheckEvent::Received(Ok(())))
                    }
                    CheckPhase::Serving if from_parent.is_some() => {
                        self.from_parent[node].pop_front();
                        Some(CheckEvent::Parent(Ok(from_parent.unwrap())))
                    }
                    _ => None,
                };
                let event = match event {
                    Some(event) => event,
                    None => match self.heard(node, 0) {
                        Some(Err(_)) if phase == CheckPhase::Serving => return false,
                        Some(msg) => CheckEvent::Child(msg),
                        None => return false,
                    },
                };
                match &mut self.nodes[node].proc {
                    Proc::Check(process, _) => process._serve(event),
                    _ => unreachable!(),
                }
            }
            Proc::Loop(process, due) => {
                let phase = process.phase;
                let event = match phase {
                    LoopPhase::Pausing => {
                        let at = *due.get_or_insert(now + process.pause_millis);
                        if at > now {
                            return false;
                        }
                        *due = None;
                        Some(LoopEvent::Paused)
                    }
                    LoopPhase::Serving if from_parent.is_some() => {
                        self.from_parent[node].pop_front();
                        Some(LoopEvent::Parent(Ok(from_parent.unwrap())))
                    }
                    _ => None,
                };
                let event = match event {
                    Some(event) => event,
                    None => match self.heard(node, 0) {
                        Some(Err(_)) if phase == LoopPhase::Serving => return false,
                        Some(msg) => LoopEvent::Child(msg),
                        None => return false,
                    },
                };
                match &mut self.nodes[node].proc {
                    Proc::Loop(process, _) => process._serve(event),
                    _ => unreachable!(),
                }
            }
        };
        self.finish(node, result);
        true
    }

    // When the next thing happens by itself.
    fn next_time(&self) -> Option<u64> {
        let mut times: Vec<u64> = self.setters.iter().map(|setter| setter.0).collect();
        for (node, alive) in self.nodes.iter().zip(self.alive.iter()) {
            if !alive {
                continue;
            }
            match &node.proc {
                Proc::Action(process, work) if process.status.is_running() && work.busy => {
                    times.extend(work.due)
                }
                Proc::Condition(_, watch) => times.extend(watch.due),
                Proc::Loop(_, due) => times.extend(*due),
                _ => {}
            }
        }
        times.into_iter().min()
    }

    // Serves the nodes until the root has something to say, or the time is over.
    fn serve(&mut self, limit: u64) -> Option<ParentMessage> {
        loop {
            let mut idle = true;
            for node in 0..self.nodes.len() {
                if self.turn(node) {
                    idle = false;
                }
            }
            let root = self.root();
            if let Some(msg) = self.to_parent[root].pop_front() {
                return Some(msg);
            }
            if idle {
                match self.next_time() {
                    Some(time) if time <= limit => {
                        self.now = self.now.max(time);
                        let now = self.now;
                        let (due, later): (Vec<Setter>, Vec<Setter>) =
                            self.setters.drain(..).partition(|setter| setter.0 <= now);
                        self.setters = later;
                        for (_, set) in due {
                            set();
                        }
                    }
                    _ => {
                        self.now = limit;
                        return None;
                    }
                }
            }
        }
    }

    fn run_until(&mut self, limit: u64) -> Option<Result<Status, NodeError>> {
        let mut action = BehaviorTree::<&'static str>::run_once(RunEvent::Begin);
        loop {
            let event = match action {
                RunAction::Send(msg) => {
                    let root = self.root();
                    self.from_parent[root].push_back(msg);
                    RunEvent::Sent(Ok(()))
                }
                RunAction::Listen => match self.serve(limit) {
                    Some(msg) => RunEvent::Heard(Ok(msg)),
                    None => return None,
                },
                RunAction::Finish(result) => return Some(result),
            };
            action = BehaviorTree::<&'static str>::run_once(event);
        }
    }

    fn run_once(&mut self) -> Result<Status, NodeError> {
        self.run_until(self.now + 100_000).unwrap()
    }

    fn kill(&mut self) {
        let mut index = 0;
        loop {
            let receivers = if self.alive[index] { 1 } else { 0 };
            let mark = self.said.len();
            let mut action = self.tree.handles[index].kill(KillEvent::Begin(receivers));
            let mut read = mark;
            loop {
                let event = match action {
                    KillAction::Send(msg) => {
                        self.from_parent[index].push_back(msg);
                        KillEvent::Sent(Ok(()))
                    }
                    KillAction::Listen => {
                        while read < self.said.len() && self.said[read].0 != index {
                            read += 1;
                        }
                        if read < self.said.len() {
                            read += 1;
                            KillEvent::Heard(Ok(self.said[read - 1].1.clone()))
                        } else {
                            assert!((0..self.nodes.len()).any(|node| self.turn(node)));
                            continue;
                        }
                    }
                    KillAction::Finished => break,
                };
                action = self.tree.handles[index].kill(event);
            }
            match self.tree.kill(index, Ok(())).unwrap() {
                Some(next) => index = next,
                None => break,
            }
        }
    }
}

fn is_poison(result: &Result<Status, NodeError>) -> bool {
    matches!(result, Err(NodeError::PoisonError(_)))
}

fn dummy_bt() -> Sim {
    let handle = Handle::new_from(-1);
    let action1 = MockAction::new(1);
    let cond1 = condition("cond1", handle.clone(), |i: i32| i > 0, action1);
    let seq = sequence(vec![cond1]);
    let action2 = MockAction::new_failing(2);
    let fb = fallback(vec![seq, action2]);
    Sim::new(fb)
}

#[test]
fn test_save_xml_export() {
    let bt = dummy_bt();
    let res = bt.tree.export_xml("Test_BT".to_string());
    assert!(res.is_ok());
    let file = BehaviorTree::<&'static str>::xml_file_name(&"Test_BT".to_string());
    assert_eq!(file, "Test_BT.xml");
}

#[test]
fn test_save_json_export() {
    let bt = dummy_bt();
    let res = bt.tree.export_json("Test_BT".to_string());
    assert!(res.is_ok());
    let file = BehaviorTree::<&'static str>::json_file_name(&"Test_BT".to_string());
    assert_eq!(file, "Test_BT.json");
}

#[test]
fn test_export_xml() {
    let bt = dummy_bt();
    let res = bt.tree.export_xml("Test_BT".to_string());
    assert!(res.is_ok());
    let text = res.unwrap().to_string();
    let lines: Vec<&str> = text.lines().map(|line| line.trim()).collect();
    assert_eq!(
        lines,
        vec![
            "<?xml version = \"1.0\" encoding = \"UTF-8\"?>",
            "<root main_tree_to_execute=\"MainTree\">",
            "<Test_BT ID=\"MainTree\">",
            "<Fallback name=\"default_fallback\">",
            "<Sequence name=\"default_sequence\">",
            "<Decorator name=\"cond1\">",
            "<Action name=\"1\" />",
            "</Decorator>",
            "</Sequence>",
            "<Action name=\"2\" />",
            "</Fallback>",
            "</Test_BT>",
            "</root>",
        ]
    );
}

#[test]
fn test_export_json() {
    let bt = dummy_bt();
    let res = bt.tree.export_json("Test_BT".to_string());
    assert!(res.is_ok());
    let value = res.unwrap();
    assert_eq!(value["name"], "Test_BT");
    assert_eq!(value["rootNode"], bt.tree.root_node.id.as_str());
    let nodes = value["nodes"].as_array().unwrap();
    assert_eq!(nodes.len(), 5);
    for (node, handle) in nodes.iter().zip(bt.tree.handles.iter()) {
        assert_eq!(node["id"], handle.id.as_str());
        assert_eq!(node["name"], handle.name.as_str());
        assert_eq!(node["type"], handle.element.as_str());
    }
    assert!(nodes[0].get("children").is_none());
    assert_eq!(nodes[1]["children"][0], nodes[0]["id"]);
    assert_eq!(nodes[4]["children"][0], nodes[2]["id"]);
    assert_eq!(nodes[4]["children"][1], nodes[3]["id"]);
}

#[test]
fn test_websocket_connection() {
    let mut bt = dummy_bt();
    let export = bt.tree.export_json("test".to_string()).unwrap();
    let connector = bt.tree.connect(format!("ws://{}:{}", "localhost", 4012)).unwrap();
    assert_eq!(connector.socket_url, "ws://localhost:4012/");
    assert_eq!(connector.rx, "updates");
    assert_eq!(connector.bt_export, export);
}

#[test]
fn test_killing_bt() {
    let handle = Handle::new_from(-1);
    let action = MockAction::new(1);
    let cond = condition("1", handle.clone(), |i: i32| i > 0, action);
    let mut bt = Sim::new(cond);

    // The tree fails, and would run again only after a pause.
    assert_eq!(bt.run_until(200), Some(Ok(Status::Failure)));
    bt.kill();
    assert_eq!(bt.alive, vec![false, false]);

    // Nobody reacts to the value any more.
    let mark = bt.said.len();
    handle.set(1);
    assert_eq!(bt.serve(1000), Some(ParentMessage::Killed));
    assert_eq!(bt.serve(1000), None);
    assert_eq!(bt.said.len(), mark);
}

#[test]
fn test_poison_while_stopping() {
    let handle = Handle::new_from(1);
    let action1 = MockBlockingAction::new_error(1);
    let cond1 = condition("1", handle.clone(), |i: i32| i > 0, action1);
    let mut bt = Sim::new(cond1);
    bt.setters = vec![handle.set_at(200, -1)];
    let res = bt.run_once();
    assert!(is_poison(&res));
    assert_eq!(
        res.unwrap_err().to_string(),
        "Poison error: Execution error: Execution error: Some testing error!"
    );
}

#[test]
fn test_sequence_request_start_while_failed() {
    let handle = Handle::new_from(-1);
    let action1 = MockAction::new(1);
    let cond1 = condition("1", handle.clone(), |i: i32| i > 0, action1);
    let seq = sequence(vec![cond1]);
    let action2 = MockAction::new_failing(2);
    let fb = fallback(vec![seq, action2]);
    let mut bt = Sim::new(fb);
    assert_eq!(bt.tree.handles.len(), 5);
    bt.setters = vec![handle.set_at(200, 1)];
    assert_eq!(bt.run_once(), Ok(Status::Success));
}

#[test]
fn test_force_action_completion() {
    let handle = Handle::new_from(1);
    let action1 = MockBlockingAction::new(1);
    let cond1 = condition("1", handle.clone(), |x| x > 0, action1);
    let mut bt = Sim::new(cond1);
    bt.setters = vec![handle.set_at(200, -1)];
    assert_eq!(bt.run_once(), Ok(Status::Success));
}

#[test]
fn test_auto_success() {
    let handle = Handle::new_from(1);
    let action1 = success();
    let cond1 = condition("1", handle.clone(), |x| x > 0, action1);
    let mut bt = Sim::new(cond1);
    assert_eq!(bt.run_once(), Ok(Status::Success));
}

#[test]
fn test_auto_failure() {
    let handle = Handle::new_from(1);
    let action1 = failure();
    let cond1 = condition("1", handle.clone(), |x| x > 0, action1);
    let mut bt = Sim::new(cond1);
    assert_eq!(bt.run_once(), Ok(Status::Failure));
}

#[test]
fn test_prohibit_double_blocking_execution() {
    let handle = Handle::new_from(1);
    let action1 = MockRunBlockingOnce::new(1);
    let cond1 = condition("1", handle.clone(), |x| x > 0, action1);
    let mut bt = Sim::new(cond1);
    bt.setters = vec![handle.set_at(200, -1)];
    assert_eq!(bt.run_once(), Ok(Status::Success));
}

#[test]
fn test_listen_rx() {
    let handle = Handle::new_from(1);
    let action1 = MockAction::new(1);
    let cond1 = condition("1", handle.clone(), |x| x > 0, action1);
    let mut bt = Sim::new(cond1);
    bt.run_once().unwrap();

    // The listener hears the second run, which is over before a third one begins.
    let mark = bt.said.len();
    let result = bt.run_until(bt.now + 1000).unwrap();
    let pause = BehaviorTree::<&'static str>::_run(result).unwrap();
    assert_eq!(pause, 1000);
    assert_eq!(bt.serve(bt.now + 500), None);

    assert_eq!(bt.tree.take_rx().unwrap(), "updates");
    let goal_updates = vec![
        OuterStatus::Running,
        OuterStatus::Running,
        OuterStatus::Success,
        OuterStatus::Success,
    ];
    let listener = Listener::new(bt.tree.handles.clone());
    let mut all_updates = vec![];
    for (node, msg) in bt.said.drain(mark..) {
        if let Some(update) = listener.run_listeners(Ok(FutResponse::Child(node, msg))).unwrap() {
            assert_eq!(update.id, bt.tree.handles[node].id);
            all_updates.push(update.status);
        }
    }
    assert_eq!(all_updates, goal_updates);
}

#[test]
fn test_blocking_no_val_received() {
    let handle = Handle::<i32>::new();
    let action1 = MockAction::new(1);
    let cond1 = blocking_check("1", handle.clone(), action1);
    let mut bt = Sim::new(cond1);
    assert!(bt.run_until(1000).is_none());
}

#[test]
fn test_loop_does_not_exit() {
    let action1 = MockAction::new(1);
    let bt_loop = loop_decorator("1", action1, 100);
    let mut bt = Sim::new(bt_loop);
    assert!(bt.run_until(1000).is_none());
}

#[test]
fn test_loop_is_stopped() {
    let handle = Handle::<i32>::new_from(1);
    let action1 = MockAction::new(1);
    let bt_loop = loop_decorator("1", action1, 100);
    let cond1 = condition("1", handle.clone(), |x| x > 0, bt_loop);
    let mut bt = Sim::new(cond1);
    assert_eq!(bt.tree.handles.len(), 3);
    bt.setters = vec![handle.set_at(200, -1)];
    assert_eq!(bt.run_until(1000), Some(Ok(Status::Failure)));
}

#[test]
fn test_blocking_some_val_received() {
    let handle = Handle::<i32>::new();
    let action1 = MockAction::new(1);
    let cond1 = blocking_check("1", handle.clone(), action1);
    let mut bt = Sim::new(cond1);
    bt.setters = vec![handle.set_at(200, -1)];
    assert_eq!(bt.run_until(1200), Some(Ok(Status::Success)));
}

#[test]
fn test_async_condition() {
    let handle: Handle<i32> = Handle::new_from(1);
    let action1 = MockAction::new(1);
    let cond1 = condition_from(MockAsyncCondition {}, 500, handle, action1);
    let mut bt = Sim::new(cond1);
    assert_eq!(bt.run_once(), Ok(Status::Success));
}

#[test]
fn test_if_val_exists() {
    let handle: Handle<i32> = Handle::new();
    let action1 = MockAction::new(1);
    let cond1 = condition("1", handle, |_| true, action1);
    let mut bt = Sim::new(cond1);
    assert_eq!(bt.run_once(), Ok(Status::Failure));
}

#[test]
fn test_if_vec_not_empty() {
    let handle: Handle<Vec<i32>> = Handle::new_from(vec![]);
    let action1 = MockAction::new(1);
    let cond1 = condition("1", handle, |x: Vec<i32>| !x.is_empty(), action1);
    let mut bt = Sim::new(cond1);
    assert_eq!(bt.run_once(), Ok(Status::Failure));
}

#[test]
fn test_if_map_not_empty() {
    let handle: Handle<HashMap<&str, i32>> = Handle::new_from(HashMap::new());
    let action1 = MockAction::new(1);
    let cond1 = condition("1", handle, |x: HashMap<&str, i32>| !x.is_empty(), action1);
    let mut bt = Sim::new(cond1);
    assert_eq!(bt.run_once(), Ok(Status::Failure));
}

#[test]
fn test_simple_sequence() {
    let handle = Handle::new_from(1);
    let action1 = MockAction::new(1);
    let action2 = MockAction::new(2);
    let cond1 = condition("1", handle, |i: i32| i > 0, action1);
    let seq = sequence(vec![cond1, action2]);
    let mut bt = Sim::new(seq);
    assert_eq!(bt.tree.handles.len(), 4);
    assert_eq!(bt.run_once(), Ok(Status::Success));
}

#[test]
fn test_simple_fallback_plan_a() {
    let handle = Handle::new_from(1);
    let action1 = MockAction::new(1);
    let action2 = MockAction::new(2);
    let cond1 = condition("1", handle, |i: i32| i > 0, action1);
    let fb = fallback(vec![cond1, action2]);
    let mut bt = Sim::new(fb);
    assert_eq!(bt.tree.handles.len(), 4);
    assert_eq!(bt.run_once(), Ok(Status::Success));
}

#[test]
fn test_finish_stopped_sequence_with_last_blocking_action() {
    let handle = Handle::new_from(1);
    let action1 = MockAction::new(1);
    let action2 = MockBlockingAction::new(2);
    let seq = sequence(vec![action1, action2]);
    let cond1 = condition("1", handle.clone(), |i: i32| i > 0, seq);
    let mut bt = Sim::new(cond1);
    bt.setters = vec![handle.set_at(600, -1)];
    assert_eq!(bt.run_once(), Ok(Status::Success));
}

#[test]
fn test_blocking_sequence_finish_seq() {
    let handle = Handle::new_from(1);
    let action1 = MockAction::new(1);
    let action2 = MockAction::new(2);
    let seq = blocking_sequence(vec![action1, action2]);
    let cond1 = condition("1", handle.clone(), |i: i32| i > 0, seq);
    let mut bt = Sim::new(cond1);
    bt.setters = vec![handle.set_at(200, -1)];
    assert_eq!(bt.run_once(), Ok(Status::Success));
}

#[test]
fn test_blocking_sequence_failure() {
    let handle = Handle::new_from(1);
    let action1 = MockAction::new_failing(1);
    let action2 = MockAction::new(2);
    let seq = blocking_sequence(vec![action1, action2]);
    let cond1 = condition("1", handle.clone(), |i: i32| i > 0, seq);
    let mut bt = Sim::new(cond1);
    bt.setters = vec![handle.set_at(200, -1)];
    assert_eq!(bt.run_once(), Ok(Status::Failure));
}

#[test]
fn test_blocking_fallback_finish_fallback() {
    let handle = Handle::new_from(1);
    let action1 = MockAction::new_failing(1);
    let action2 = MockAction::new(2);
    let fb = blocking_fallback(vec![action1, action2]);
    let cond1 = condition("1", handle.clone(), |i: i32| i > 0, fb);
    let mut bt = Sim::new(cond1);
    bt.setters = vec![handle.set_at(200, -1)];
    assert_eq!(bt.run_once(), Ok(Status::Success));
}

#[test]
fn test_blocking_fallback_early_success() {
    let handle = Handle::new_from(1);
    let action1 = MockAction::new(1);
    let action2 = MockAction::new_failing(2);
    let fb = blocking_fallback(vec![action1, action2]);
    let cond1 = condition("1", handle.clone(), |i: i32| i > 0, fb);
    let mut bt = Sim::new(cond1);
    bt.setters = vec![handle.set_at(200, -1)];
    assert_eq!(bt.run_once(), Ok(Status::Success));
}

#[test]
fn test_one_time_condition() {
    let handle = Handle::new_from(1);
    let action1 = MockAction::new(1);
    let cond1 = one_time_condition("1", handle.clone(), |i: i32| i > 0);
    let seq = sequence(vec![cond1, action1]);
    let mut bt = Sim::new(seq);
    bt.setters = vec![handle.set_at(200, -1)];
    assert_eq!(bt.run_once(), Ok(Status::Success));
}

#[test]
fn test_simple_fallback_plan_b() {
    let handle = Handle::new_from(-1);
    let action1 = MockAction::new(1);
    let action2 = MockAction::new(2);
    let cond1 = condition("1", handle, |i: i32| i > 0, action1);
    let fb = fallback(vec![cond1, action2]);
    let mut bt = Sim::new(fb);
    assert_eq!(bt.run_once(), Ok(Status::Success));
}

#[test]
fn test_double_condition_sequence() {
    let handle1 = Handle::new_from(1);
    let handle2: Handle<i32> = Handle::new_from(-1);
    let action1 = MockAction::new(1);
    let action2 = MockAction::new(2);
    let cond2 = condition("2", handle2, |i: i32| i > 0, action1);
    let cond1 = condition("1", handle1, |i: i32| i > 0, cond2);
    let seq = sequence(vec![cond1, action2]);
    let mut bt = Sim::new(seq);
    assert_eq!(bt.tree.handles.len(), 5);
    assert_eq!(bt.run_once(), Ok(Status::Failure));
}

#[test]
fn test_later_fail_of_sequence() {
    let handle = Handle::new_from(-1);
    let action1 = MockAction::new(1);
    let action2 = MockAction::new(2);
    let cond1 = condition("1", handle.clone(), |i: i32| i > 0, action2);
    let seq = sequence(vec![action1, cond1]);
    let mut bt = Sim::new(seq);
    assert_eq!(bt.tree.handles.len(), 4);
    assert_eq!(bt.run_once(), Ok(Status::Failure));
}

#[test]
fn test_simple_sequence_with_subscribe() {
    let handle = Handle::new_from(1);
    let action1 = MockAction::new(1);
    let action2 = MockAction::new(2);
    let cond1 = condition("1", handle.clone(), |i: i32| i > 0, action1);
    let seq = sequence(vec![cond1, action2]);
    let mut bt = Sim::new(seq);
    bt.setters = vec![handle.set_at(200, -1)];
    assert_eq!(bt.run_once(), Ok(Status::Failure));
}

#[test]
fn test_vec_not_empty_with_subscribe() {
    let handle1: Handle<Vec<i32>> = Handle::new_from(vec![]);
    let handle2 = Handle::new_from(1);
    let action1 = MockAction::new(1);
    let action2 = MockAction::new(2);
    let cond1 = condition("1", handle1.clone(), |x: Vec<i32>| !x.is_empty(), action1);
    let cond2 = condition("1", handle2.clone(), |i: i32| i > 0, action2);
    let fb = fallback(vec![cond1, cond2]);
    let mut bt = Sim::new(fb);
    assert_eq!(bt.tree.handles.len(), 5);
    bt.setters = vec![handle1.set_at(200, vec![i32::default()]), handle2.set_at(400, -1)];
    assert_eq!(bt.run_once(), Ok(Status::Success));
}

#[test]
fn test_fallback_switch_to_prio() {
    let handle = Handle::new_from(-1);
    let action1 = MockAction::new(1);
    let action2 = MockAction::new(2);
    let cond1 = condition("1", handle.clone(), |i: i32| i > 0, action1);
    let fb = fallback(vec![cond1, action2]);
    let mut bt = Sim::new(fb);
    bt.setters = vec![handle.set_at(200, 1)];
    assert_eq!(bt.run_once(), Ok(Status::Success));
    // The first plan was taken up at that moment, and ran for its whole time.
    assert_eq!(bt.now, 700);
}

#[test]
fn test_double_condition_sequence_with_subscribe() {
    let handle1 = Handle::new_from(1);
    let handle2 = Handle::new_from(1);
    let action1 = MockAction::new(1);
    let action2 = MockAction::new(2);
    let cond2 = condition("2", handle2.clone(), |i: i32| i > 0, action1);
    let cond1 = condition("1", handle1, |i: i32| i > 0, cond2);
    let seq = sequence(vec![cond1, action2]);
    let mut bt = Sim::new(seq);
    assert_eq!(bt.tree.handles.len(), 5);
    bt.setters = vec![handle2.set_at(200, -1)];
    assert_eq!(bt.run_once(), Ok(Status::Failure));
}

#[test]
fn test_conditional_sequence_with_subscribe() {
    let handle = Handle::new_from(1);
    let action1 = MockAction::new(1);
    let action2 = MockAction::new(2);
    let seq = sequence(vec![action1, action2]);
    let cond1 = condition("1", handle.clone(), |i: i32| i > 0, seq);
    let mut bt = Sim::new(cond1);
    assert_eq!(bt.tree.handles.len(), 4);
    bt.setters = vec![handle.set_at(200, -1)];
    assert_eq!(bt.run_once(), Ok(Status::Failure));
}

#[test]
fn test_failed_fallback_with_delayed_child_request() {
    let handle1 = Handle::new_from(1);
    let handle2 = Handle::new_from(-1);
    let action1 = MockAction::new(1);
    let cond2 = condition("2", handle2.clone(), |i: i32| i > 0, action1);
    let action2 = MockAction::new(2);
    let fb2 = fallback(vec![cond2, action2]);
    let cond1 = condition("1", handle1.clone(), |i: i32| i > 0, fb2);
    let action3 = MockAction::new(3);
    let fb1 = fallback(vec![cond1, action3]);
    let mut bt = Sim::new(fb1);
    assert_eq!(bt.tree.handles.len(), 7);
    bt.setters = vec![handle1.set_at(200, -1), handle2.set_at(400, 1)];
    assert_eq!(bt.run_once(), Ok(Status::Success));
}

#[test]
fn test_prohibited_fallback() {
    let handle1 = Handle::new_from(1);
    let handle2 = Handle::new_from(1);
    let action1 = MockAction::new(1);
    let cond2 = condition("2", handle2.clone(), |i: i32| i > 0, action1);
    let action2 = MockAction::new(2);
    let fb = fallback(vec![cond2, action2]);
    let cond1 = condition("1", handle1.clone(), |i: i32| i > 0, fb);
    let mut bt = Sim::new(cond1);
    assert_eq!(bt.tree.handles.len(), 5);
    bt.setters = vec![handle1.set_at(200, -1)];
    assert_eq!(bt.run_once(), Ok(Status::Failure));
}

#[test]
fn test_double_request_start_before_failing_fallback() {
    let handle1 = Handle::new_from(1);
    let handle2 = Handle::new_from(-1);
    let handle3 = Handle::new_from(1);
    let action1 = MockAction::new(1);
    let cond2 = condition("2", handle2.clone(), |i: i32| i > 0, action1);
    let cond1 = condition("1", handle1, |i: i32| i > 0, cond2);
    let action2 = MockAction::new(2);
    let cond3 = condition("3", handle3.clone(), |i: i32| i > 0, action2);
    let fb = fallback(vec![cond1, cond3]);
    let mut bt = Sim::new(fb);
    assert_eq!(bt.tree.handles.len(), 6);
    bt.setters = vec![handle2.set_at(200, 1), handle3.set_at(400, -1)];
    assert_eq!(bt.run_once(), Ok(Status::Success));
}

#[test]
fn test_seq_listen_childs() {
    let nr_of_actions: i32 = 5;
    let mut children = vec![];
    for i in 0..nr_of_actions {
        children.push(MockAction::new(i));
    }
    let mut bt = Sim::new(sequence(children));

    // The sequence itself is not served: its children are started from here, in order,
    // each when the one before it has succeeded.
    let mut result = vec![];
    let seq = bt.root();
    for i in 0..5 {
        let child = bt.child(seq, i);
        bt.from_parent[child].push_back(ChildMessage::Start);
        loop {
            if !(0..5).any(|node| bt.turn(node)) {
                bt.now = bt.next_time().unwrap();
            }
            let said = bt.said.last().cloned();
            if let Some((node, ParentMessage::Status(Status::Success))) = said {
                result.push(node);
                bt.said.clear();
                break;
            }
        }
    }
    let expected: Vec<usize> = vec![0, 1, 2, 3, 4];
    assert_eq!(result, expected);
}

// What the whole tree reports when an action breaks.
#[test]
fn error_in_action_is_reported() {
    let seq = sequence(vec![MockAction::new(1), MockAction::new_error(2)]);
    let looped = loop_decorator("loop", seq, 10);
    let check = blocking_check("check", Handle::new_from(1), looped);
    let fb = fallback(vec![check, MockAction::new(3)]);
    let mut bt = Sim::new(fb);
    let result = bt.run_once();
    assert!(is_poison(&result));
    let end = BehaviorTree::<&'static str>::_run(result);
    let (kill, report) = BehaviorTree::<&'static str>::run(end.map(|_| ()));
    assert!(kill);
    assert_eq!(report, "Poison error: Execution error: Execution error: Some testing error!");
    bt.kill();
    assert!(bt.alive.iter().all(|alive| !alive));
}

// A test that breaks ends the tree as well.
#[test]
fn error_in_condition_is_reported() {
    let cond = condition_from(BrokenCondition {}, 0, Handle::new_from(1), MockAction::new(1));
    let mut bt = Sim::new(cond);
    let result = bt.run_once();
    assert_eq!(result.unwrap_err().to_string(), "Poison error: Execution error: no verdict");
}

#[test]
fn loop_keeps_starting_its_child() {
    let mut bt = Sim::new(loop_decorator("loop", MockAction::fail_on_twice(1), 100));
    assert!(bt.run_until(1750).is_none());
    let starts = bt.said.iter().filter(|(node, msg)| {
        *node == 0 && *msg == ParentMessage::Status(Status::Running)
    });
    // At 0, 600 and 1200.
    assert_eq!(starts.count(), 3);
}

#[test]
fn endless_action_is_stopped() {
    let handle = Handle::new_from(1);
    let cond = condition("1", handle.clone(), |i: i32| i > 0, MockAction::new_loop(1));
    let mut bt = Sim::new(cond);
    bt.setters = vec![handle.set_at(300, 0)];
    assert_eq!(bt.run_once(), Ok(Status::Failure));
    assert_eq!(bt.now, 300);
}

#[test]
fn waiting_takes_its_time() {
    let mut bt = Sim::new(sequence(vec![wait(250), success(), wait(100)]));
    assert_eq!(bt.run_once(), Ok(Status::Success));
    assert_eq!(bt.now, 350);
}

#[test]
fn running_tree_is_killed() {
    let handle = Handle::new_from(1);
    let cond = condition("1", handle.clone(), |i: i32| i > 0, MockBlockingAction::new(1));
    let seq = blocking_sequence(vec![cond, MockAction::new(2)]);
    let fb = blocking_fallback(vec![seq, loop_decorator("2", MockAction::new(3), 10)]);
    let check = blocking_check("3", handle.clone(), fb);
    let mut bt = Sim::new(check);
    assert!(bt.run_until(100).is_none());
    bt.kill();
    assert!(bt.alive.iter().all(|alive| !alive));
    let killed = bt.said.iter().filter(|(_, msg)| *msg == ParentMessage::Killed);
    assert_eq!(killed.count(), bt.nodes.len());
}

#[test]
fn tree_runs_again_with_the_same_nodes() {
    let mut bt = Sim::new(sequence(vec![MockAction::new(1), MockAction::fail_on_twice(2)]));
    assert_eq!(bt.run_once(), Ok(Status::Success));
    assert_eq!(bt.run_once(), Ok(Status::Failure));
}
