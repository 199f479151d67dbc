//! Single nodes, one reaction at a time.
use behavior_tree::bt::action::{ActionEvent, ActionProcess, Heard};
use behavior_tree::bt::blocking_check::{CheckEvent, CheckPhase, CheckPurpose, CheckStage};
use behavior_tree::bt::condition::{ConditionEvent, ConditionProcess, Phase, Purpose};
use behavior_tree::bt::handle::{
    exit_message, poison_parent, ActorError, CacheRecvNewestError, ChildMessage, Effect,
    FutResponse, KillAction, KillEvent, NodeError, ParentMessage, RecvError, Status,
};
use behavior_tree::bt::loop_dec::{LoopEvent, LoopPhase};
use behavior_tree::bt::sequence::SequenceProcess;
use behavior_tree::{
    Action, BlockingAction, BlockingCheck, Condition, Evaluator, Executor, Failure, Fallback,
    LoopDecorator, NodeHandle, OneTimeCondition, Sequence, Success, Wait,
};

fn text(s: &str) -> String {
    s.to_string()
}

fn to_parent(status: Status) -> Effect {
    Effect::NotifyParent(ParentMessage::Status(status))
}

fn request_start() -> Effect {
    Effect::NotifyParent(ParentMessage::RequestStart)
}

fn start(child: usize) -> Effect {
    Effect::NotifyChild(child, ChildMessage::Start)
}

fn stop(child: usize) -> Effect {
    Effect::NotifyChild(child, ChildMessage::Stop)
}

fn says(status: Status) -> ParentMessage {
    ParentMessage::Status(status)
}

fn leaf(name: &str) -> NodeHandle {
    NodeHandle::new(text("Action"), text(name), vec![], vec![], vec![])
}

fn poison() -> NodeError {
    NodeError::PoisonError(text("bad"))
}

#[test]
fn statuses_are_told_apart() {
    assert!(Status::Success.is_succes());
    assert!(Status::Failure.is_failure());
    assert!(Status::Running.is_running());
    assert!(Status::Idle.is_idle());
    assert!(!Status::Success.is_failure());
    assert!(!Status::Idle.is_running());
    assert!(!Status::Running.is_idle());
    assert!(!Status::Failure.is_succes());
    assert!(ChildMessage::Kill.is_kill());
    assert!(!ChildMessage::Stop.is_kill());
}

#[test]
fn errors_are_put_into_words() {
    let words = vec![
        (NodeError::KillError, "The node is killed"),
        (NodeError::PoisonError(text("x")), "Poison error: x"),
        (NodeError::ExecutionError(text("x")), "Execution error: x"),
        (NodeError::TokioBroadcastSendError(text("x")), "Tokio broadcast send error: x"),
        (NodeError::TokioBroadcastRecvError(RecvError::Lagged(3)), "Tokio broadcast receiver error"),
        (NodeError::TokioSendError, "Tokio sender error"),
        (NodeError::CacheError(CacheRecvNewestError::Closed), "Cache Error"),
        (NodeError::ActorError(ActorError::Other(text("x"))), "Actor Error"),
    ];
    for (err, expected) in words {
        assert_eq!(err.to_string(), expected);
    }
}

#[test]
fn last_words_of_a_node() {
    assert_eq!(exit_message(NodeError::KillError), ParentMessage::Killed);
    assert_eq!(exit_message(poison()), ParentMessage::Poison(poison()));
    let err = NodeError::ActorError(ActorError::NoValueSet(text("i32")));
    assert_eq!(exit_message(err), poison_parent(text("Actor Error")));
    // An action wraps poison like any other error.
    assert_eq!(ActionProcess::serve(NodeError::KillError), ParentMessage::Killed);
    assert_eq!(ActionProcess::serve(poison()), poison_parent(text("Poison error: bad")));
}

#[test]
fn killing_a_node() {
    let handle = leaf("a");
    assert_eq!(handle.kill(KillEvent::Begin(0)), KillAction::Finished);
    assert_eq!(handle.kill(KillEvent::Begin(2)), KillAction::Send(ChildMessage::Kill));
    assert_eq!(handle.kill(KillEvent::Sent(Ok(()))), KillAction::Listen);
    let unsent = KillEvent::Sent(Err(NodeError::TokioBroadcastSendError(text("closed"))));
    assert_eq!(handle.kill(unsent), KillAction::Finished);
    assert_eq!(handle.kill(KillEvent::Heard(Ok(ParentMessage::Killed))), KillAction::Finished);
    assert_eq!(handle.kill(KillEvent::Heard(Ok(says(Status::Success)))), KillAction::Listen);
    let closed = NodeError::TokioBroadcastRecvError(RecvError::Closed);
    assert_eq!(handle.kill(KillEvent::Heard(Err(closed))), KillAction::Finished);
    assert_eq!(handle.kill(KillEvent::Heard(Err(poison()))), KillAction::Listen);
}

#[test]
fn identifiers_have_their_shape() {
    let a = leaf("a").id;
    let b = leaf("b").id;
    assert_ne!(a, b);
    for id in [a, b] {
        assert_eq!(id.len(), 36);
        let groups: Vec<&str> = id.split('-').collect();
        let lengths: Vec<usize> = groups.iter().map(|group| group.len()).collect();
        assert_eq!(lengths, vec![8, 4, 4, 4, 12]);
        assert!(groups.iter().all(|group| {
            group.chars().all(|c| c.is_ascii_digit() || ('a'..='f').contains(&c))
        }));
        assert!(groups[2].starts_with('1'));
        assert_eq!(groups[4], "010203040506");
    }
}

#[test]
fn handles_move_up() {
    let (seq, process) = Sequence::new(vec![leaf("a"), leaf("b")]);
    assert_eq!(process.children, 2);
    assert_eq!(seq.name, "default_sequence");
    assert_eq!(seq.children_names, vec!["a", "b"]);
    let (mut looped, _) = LoopDecorator::new(text("again"), seq.clone(), 5);
    assert_eq!(looped.element, "Decorator");
    assert_eq!(looped.children_ids, vec![seq.id.clone()]);
    let taken = looped.take_handles();
    let names: Vec<&str> = taken.iter().map(|handle| handle.name.as_str()).collect();
    assert_eq!(names, vec!["a", "b", "default_sequence", "again"]);
    assert!(taken.iter().all(|handle| handle.handles.is_empty()));
    assert!(looped.handles.is_empty());
    // What was taken is gone.
    assert_eq!(looped.take_handles().len(), 1);
}

#[test]
fn node_as_xml() {
    let line = |handle: &NodeHandle| handle.get_xml().to_string().lines().last().unwrap().to_string();
    assert_eq!(line(&leaf("a")), "<Action name=\"a\" />");
    let (cond, _, _) = Condition::new(text("c"), |i: i32| i > 0, leaf("a"));
    assert_eq!(cond.element, "Condition");
    assert_eq!(line(&cond), "<Decorator name=\"c\" />");
}

#[test]
fn node_as_json() {
    let a = NodeHandle::with_id(text("1"), text("Action"), text("a"), vec![], vec![], vec![]);
    assert_eq!(a.get_json().to_string(), "{\"id\":\"1\",\"name\":\"a\",\"type\":\"Action\"}");
    let names = vec![text("a"), text("b")];
    let ids = vec![text("1"), text("2")];
    let seq = NodeHandle::with_id(text("3"), text("Sequence"), text("s"), names, ids, vec![]);
    assert_eq!(
        seq.get_json().to_string(),
        "{\"children\":[\"1\",\"2\"],\"id\":\"3\",\"name\":\"s\",\"type\":\"Sequence\"}"
    );
}

fn sequence(children: usize, blocking: bool) -> SequenceProcess {
    SequenceProcess::_new(text("s"), children, blocking)
}

fn parent(msg: ChildMessage) -> Result<FutResponse, NodeError> {
    Ok(FutResponse::Parent(msg))
}

fn child(index: usize, msg: ParentMessage) -> Result<FutResponse, NodeError> {
    Ok(FutResponse::Child(index, msg))
}

#[test]
fn sequence_runs_its_children_in_order() {
    let mut seq = sequence(2, false);
    let begin = seq._serve(parent(ChildMessage::Start)).unwrap();
    assert_eq!(begin, vec![to_parent(Status::Running), start(0)]);
    assert_eq!(seq._serve(child(0, says(Status::Running))).unwrap(), vec![]);
    assert_eq!(seq._serve(child(0, says(Status::Success))).unwrap(), vec![start(1)]);
    let end = seq._serve(child(1, says(Status::Success))).unwrap();
    assert_eq!(end, vec![to_parent(Status::Success)]);
    assert_eq!(seq.status, Status::Success);
}

#[test]
fn sequence_fails_with_its_child() {
    let mut seq = sequence(3, false);
    seq._serve(parent(ChildMessage::Start)).unwrap();
    let end = seq._serve(child(0, says(Status::Failure))).unwrap();
    assert_eq!(end, vec![to_parent(Status::Failure)]);
    // Only a failed sequence hands on that a child wants to start.
    let request = seq._serve(child(0, ParentMessage::RequestStart)).unwrap();
    assert_eq!(request, vec![request_start()]);
    seq._serve(parent(ChildMessage::Start)).unwrap();
    assert_eq!(seq._serve(child(0, ParentMessage::RequestStart)).unwrap(), vec![]);
}

#[test]
fn stopped_sequence_waits_for_its_child() {
    // With the first child still at work, it fails whatever the child comes to.
    let mut seq = sequence(2, false);
    seq._serve(parent(ChildMessage::Start)).unwrap();
    assert_eq!(seq._serve(parent(ChildMessage::Stop)).unwrap(), vec![stop(0)]);
    assert_eq!(seq.status, Status::Idle);
    let end = seq._serve(child(0, says(Status::Success))).unwrap();
    assert_eq!(end, vec![to_parent(Status::Failure)]);
    // With the last child, it may still succeed.
    let mut seq = sequence(1, false);
    seq._serve(parent(ChildMessage::Start)).unwrap();
    seq._serve(parent(ChildMessage::Stop)).unwrap();
    let end = seq._serve(child(0, says(Status::Success))).unwrap();
    assert_eq!(end, vec![to_parent(Status::Success)]);
}

#[test]
fn blocking_sequence_goes_on() {
    let mut seq = sequence(2, true);
    seq._serve(parent(ChildMessage::Start)).unwrap();
    assert_eq!(seq._serve(parent(ChildMessage::Stop)).unwrap(), vec![]);
    assert_eq!(seq.status, Status::Running);
    assert_eq!(seq._serve(parent(ChildMessage::Kill)), Err(NodeError::KillError));
}

#[test]
fn sequence_ends_with_an_error() {
    let mut seq = sequence(2, false);
    assert_eq!(seq._serve(child(1, ParentMessage::Poison(poison()))), Err(poison()));
    assert_eq!(seq._serve(child(1, ParentMessage::Killed)).unwrap(), vec![]);
    let lost = NodeError::TokioBroadcastRecvError(RecvError::Closed);
    let result = seq._serve(Err(NodeError::TokioBroadcastRecvError(RecvError::Closed)));
    assert_eq!(result, Err(lost));
}

#[test]
fn sequence_tells_what_it_cannot_take() {
    let mut seq = sequence(2, false);
    assert!(!sequence(0, false).accepts(&parent(ChildMessage::Start)));
    assert!(sequence(0, false).accepts(&parent(ChildMessage::Stop)));
    assert!(seq.accepts(&child(2, says(Status::Running))));
    seq._serve(parent(ChildMessage::Start)).unwrap();
    // The last child cannot be through while the first is running.
    assert!(!seq.accepts(&child(1, says(Status::Success))));
    assert!(seq.accepts(&child(1, says(Status::Failure))));
    assert!(seq.accepts(&child(0, says(Status::Success))));
    assert!(seq.accepts(&Err(NodeError::KillError)));
}

#[test]
fn fallback_tries_one_after_the_other() {
    let mut fb = Fallback::_new(text("f"), 2, false);
    let begin = fb._serve(parent(ChildMessage::Start)).unwrap();
    assert_eq!(begin, vec![to_parent(Status::Running), start(0)]);
    assert_eq!(fb._serve(child(0, says(Status::Failure))).unwrap(), vec![start(1)]);
    let end = fb._serve(child(1, says(Status::Failure))).unwrap();
    assert_eq!(end, vec![to_parent(Status::Failure)]);
    let request = fb._serve(child(1, ParentMessage::RequestStart)).unwrap();
    assert_eq!(request, vec![request_start()]);
    fb._serve(parent(ChildMessage::Start)).unwrap();
    let end = fb._serve(child(0, says(Status::Success))).unwrap();
    assert_eq!(end, vec![to_parent(Status::Success)]);
}

#[test]
fn fallback_switches_to_an_earlier_child() {
    let mut fb = Fallback::_new(text("f"), 3, false);
    fb._serve(parent(ChildMessage::Start)).unwrap();
    fb._serve(child(0, says(Status::Failure))).unwrap();
    // A later child has to wait.
    assert_eq!(fb._serve(child(2, ParentMessage::RequestStart)).unwrap(), vec![]);
    assert_eq!(fb._serve(child(0, ParentMessage::RequestStart)).unwrap(), vec![stop(1)]);
    assert_eq!(fb.prio_child_on_hold, Some(0));
    assert_eq!(fb._serve(child(1, says(Status::Failure))).unwrap(), vec![start(0)]);
    assert_eq!(fb.prio_child_on_hold, None);
    assert_eq!(fb.running_child, Some(0));
}

#[test]
fn stopped_fallback_waits_for_its_child() {
    let mut fb = Fallback::_new(text("f"), 2, false);
    fb._serve(parent(ChildMessage::Start)).unwrap();
    assert_eq!(fb._serve(parent(ChildMessage::Stop)).unwrap(), vec![stop(0)]);
    let end = fb._serve(child(0, says(Status::Failure))).unwrap();
    assert_eq!(end, vec![to_parent(Status::Failure)]);
    let mut fb = Fallback::_new(text("f"), 2, true);
    fb._serve(parent(ChildMessage::Start)).unwrap();
    assert_eq!(fb._serve(parent(ChildMessage::Stop)).unwrap(), vec![]);
    assert_eq!(fb.status, Status::Running);
}

#[test]
fn fallback_ends_with_an_error() {
    let mut fb = Fallback::_new(text("f"), 2, true);
    assert!(!Fallback::_new(text("f"), 0, true).accepts(&parent(ChildMessage::Start)));
    assert!(fb.accepts(&child(0, says(Status::Failure))));
    assert_eq!(fb._serve(parent(ChildMessage::Kill)), Err(NodeError::KillError));
    assert_eq!(fb._serve(child(0, ParentMessage::Poison(poison()))), Err(poison()));
    assert_eq!(fb._serve(Err(poison())), Err(poison()));
}

// A fallback that is stopped while an earlier child is on hold keeps it on hold.
#[test]
fn child_stays_on_hold() {
    let mut fb = Fallback::_new(text("f"), 2, false);
    fb._serve(parent(ChildMessage::Start)).unwrap();
    fb._serve(child(0, says(Status::Failure))).unwrap();
    fb._serve(child(0, ParentMessage::RequestStart)).unwrap();
    fb._serve(parent(ChildMessage::Stop)).unwrap();
    fb._serve(child(1, says(Status::Failure))).unwrap();
    assert_eq!(fb.status, Status::Failure);
    fb._serve(parent(ChildMessage::Start)).unwrap();
    assert_eq!(fb._serve(child(0, says(Status::Failure))).unwrap(), vec![start(0)]);
}

fn served(process: &mut ConditionProcess, event: ConditionEvent) -> Vec<Effect> {
    process._serve(event).unwrap()
}

#[test]
fn condition_tests_before_it_starts() {
    let mut cond = ConditionProcess::_new(text("c"), true);
    let begin = ConditionEvent::Parent(Ok(ChildMessage::Start));
    assert_eq!(served(&mut cond, begin), vec![]);
    assert_eq!(cond.phase, Phase::Fetching(Purpose::Start));
    assert_eq!(served(&mut cond, ConditionEvent::Fetched(Ok(()))), vec![]);
    assert_eq!(cond.phase, Phase::Evaluating(Purpose::Start));
    let run = served(&mut cond, ConditionEvent::Evaluated(Ok(true)));
    assert_eq!(run, vec![to_parent(Status::Running), start(0)]);
    assert_eq!(cond.status, Status::Running);
    assert!(cond.prev_evaluation);
    let end = served(&mut cond, ConditionEvent::Child(Ok(says(Status::Success))));
    assert_eq!(end, vec![to_parent(Status::Success)]);
}

#[test]
fn condition_without_child_ends_at_once() {
    let mut cond = ConditionProcess::_new(text("c"), false);
    served(&mut cond, ConditionEvent::Parent(Ok(ChildMessage::Start)));
    served(&mut cond, ConditionEvent::Fetched(Ok(())));
    let end = served(&mut cond, ConditionEvent::Evaluated(Ok(true)));
    assert_eq!(end, vec![to_parent(Status::Running), to_parent(Status::Success)]);
    served(&mut cond, ConditionEvent::Parent(Ok(ChildMessage::Start)));
    served(&mut cond, ConditionEvent::Fetched(Ok(())));
    let end = served(&mut cond, ConditionEvent::Evaluated(Ok(false)));
    assert_eq!(end, vec![to_parent(Status::Failure)]);
}

#[test]
fn condition_watches_the_value() {
    let mut cond = ConditionProcess::_new(text("c"), true);
    // Nobody cares before it has been started.
    assert_eq!(served(&mut cond, ConditionEvent::Value(Ok(()))), vec![]);
    assert_eq!(cond.phase, Phase::Serving);
    served(&mut cond, ConditionEvent::Parent(Ok(ChildMessage::Start)));
    served(&mut cond, ConditionEvent::Fetched(Ok(())));
    served(&mut cond, ConditionEvent::Evaluated(Ok(true)));
    // A value that passes changes nothing.
    served(&mut cond, ConditionEvent::Value(Ok(())));
    assert_eq!(served(&mut cond, ConditionEvent::Evaluated(Ok(true))), vec![]);
    // One that does not pass stops the child.
    served(&mut cond, ConditionEvent::Value(Ok(())));
    assert_eq!(served(&mut cond, ConditionEvent::Evaluated(Ok(false))), vec![stop(0)]);
    assert_eq!(cond.phase, Phase::Stopping);
    assert_eq!(served(&mut cond, ConditionEvent::Child(Ok(says(Status::Running)))), vec![]);
    let end = served(&mut cond, ConditionEvent::Child(Ok(says(Status::Failure))));
    assert_eq!(end, vec![to_parent(Status::Failure)]);
    // The next one that passes is reported.
    served(&mut cond, ConditionEvent::Value(Ok(())));
    assert_eq!(cond.phase, Phase::Evaluating(Purpose::FailedValue));
    let request = served(&mut cond, ConditionEvent::Evaluated(Ok(true)));
    assert_eq!(request, vec![request_start()]);
    assert_eq!(served(&mut cond, ConditionEvent::Value(Ok(()))), vec![]);
    assert_eq!(cond.phase, Phase::Serving);
}

#[test]
fn condition_asks_for_its_child() {
    let mut cond = ConditionProcess::_new(text("c"), true);
    assert_eq!(served(&mut cond, ConditionEvent::Parent(Ok(ChildMessage::Stop))), vec![to_parent(Status::Failure)]);
    served(&mut cond, ConditionEvent::Child(Ok(ParentMessage::RequestStart)));
    assert_eq!(cond.phase, Phase::Fetching(Purpose::ChildRequest));
    served(&mut cond, ConditionEvent::Fetched(Ok(())));
    let request = served(&mut cond, ConditionEvent::Evaluated(Ok(true)));
    assert_eq!(request, vec![request_start()]);
    served(&mut cond, ConditionEvent::Child(Ok(ParentMessage::RequestStart)));
    served(&mut cond, ConditionEvent::Fetched(Ok(())));
    assert_eq!(served(&mut cond, ConditionEvent::Evaluated(Ok(false))), vec![]);
}

#[test]
fn condition_without_value_fails() {
    let mut cond = ConditionProcess::_new(text("c"), true);
    served(&mut cond, ConditionEvent::Parent(Ok(ChildMessage::Start)));
    let unset = ConditionEvent::Fetched(Err(ActorError::NoValueSet(text("i32"))));
    assert_eq!(served(&mut cond, unset), vec![to_parent(Status::Failure)]);
    assert_eq!(cond.status, Status::Failure);
}

#[test]
fn condition_ends_with_an_error() {
    let mut cond = ConditionProcess::_new(text("c"), true);
    let kill = ConditionEvent::Parent(Ok(ChildMessage::Kill));
    assert_eq!(cond._serve(kill), Err(NodeError::KillError));
    let poisoned = ConditionEvent::Child(Ok(ParentMessage::Poison(poison())));
    assert_eq!(cond._serve(poisoned), Err(poison()));
    // Lost messages are no error while serving.
    assert_eq!(cond._serve(ConditionEvent::Parent(Err(RecvError::Lagged(1)))), Ok(vec![]));
    assert_eq!(cond._serve(ConditionEvent::Child(Err(poison()))), Ok(vec![]));
    cond._serve(ConditionEvent::Parent(Ok(ChildMessage::Start))).unwrap();
    let other = ConditionEvent::Fetched(Err(ActorError::Other(text("gone"))));
    let gone = NodeError::ActorError(ActorError::Other(text("gone")));
    assert_eq!(cond._serve(other), Err(gone));
    cond._serve(ConditionEvent::Fetched(Ok(()))).unwrap();
    let broken = ConditionEvent::Evaluated(Err(text("no verdict")));
    assert_eq!(cond._serve(broken), Err(NodeError::ExecutionError(text("no verdict"))));
    cond._serve(ConditionEvent::Evaluated(Ok(true))).unwrap();
    cond._serve(ConditionEvent::Parent(Ok(ChildMessage::Stop))).unwrap();
    // While stopping, they are.
    assert_eq!(cond._serve(ConditionEvent::Child(Err(poison()))), Err(poison()));
    let poisoned = ConditionEvent::Child(Ok(ParentMessage::Poison(poison())));
    assert_eq!(cond._serve(poisoned), Err(poison()));
}

#[test]
fn closure_is_a_test() {
    let (handle, process, mut evaluator) = OneTimeCondition::new(text("big"), |i: i32| i > 10);
    assert_eq!(handle.name, "big");
    assert_eq!(process.name, "big");
    assert!(!process.child);
    assert_eq!(evaluator.get_name(), "big");
    assert_eq!(evaluator.evaluate(11), Ok(true));
    assert_eq!(evaluator.evaluate(10), Ok(false));
    let (handle, process) = OneTimeCondition::new_from(&evaluator);
    assert_eq!(handle.element, "Condition");
    assert!(handle.children_ids.is_empty());
    assert!(!process.prev_evaluation);
}

#[test]
fn blocking_check_waits_for_a_value() {
    let (_, mut check) = BlockingCheck::new(text("b"), leaf("a"));
    let begin = check._serve(CheckEvent::Parent(Ok(ChildMessage::Start))).unwrap();
    assert_eq!(begin, vec![to_parent(Status::Running)]);
    let unset = CheckEvent::Got(Err(ActorError::NoValueSet(text("i32"))));
    assert_eq!(check._serve(unset), Ok(vec![]));
    assert_eq!(check._serve(CheckEvent::Subscribed(Ok(()))), Ok(vec![]));
    assert_eq!(check._serve(CheckEvent::Received(Err(RecvError::Lagged(4)))), Ok(vec![]));
    assert_eq!(check.phase, CheckPhase::Evaluating(CheckPurpose::Start, CheckStage::Receive));
    assert_eq!(check._serve(CheckEvent::Received(Ok(()))), Ok(vec![start(0)]));
    // It is running, so there is nothing to start.
    assert_eq!(check._serve(CheckEvent::Parent(Ok(ChildMessage::Start))), Ok(vec![]));
    let end = check._serve(CheckEvent::Child(Ok(says(Status::Failure)))).unwrap();
    assert_eq!(end, vec![to_parent(Status::Failure)]);
    check._serve(CheckEvent::Child(Ok(ParentMessage::RequestStart))).unwrap();
    assert_eq!(check._serve(CheckEvent::Got(Ok(()))), Ok(vec![request_start()]));
    check._serve(CheckEvent::Parent(Ok(ChildMessage::Start))).unwrap();
    assert_eq!(check._serve(CheckEvent::Got(Ok(()))), Ok(vec![start(0)]));
    // A running check has no use for the request.
    check._serve(CheckEvent::Child(Ok(ParentMessage::RequestStart))).unwrap();
    assert_eq!(check._serve(CheckEvent::Got(Ok(()))), Ok(vec![]));
}

#[test]
fn blocking_check_stops_with_its_child() {
    let mut check = BlockingCheck::_new(text("b"));
    let at_once = check._serve(CheckEvent::Parent(Ok(ChildMessage::Stop))).unwrap();
    assert_eq!(at_once, vec![to_parent(Status::Failure)]);
    check._serve(CheckEvent::Parent(Ok(ChildMessage::Start))).unwrap();
    check._serve(CheckEvent::Got(Ok(()))).unwrap();
    assert_eq!(check._serve(CheckEvent::Parent(Ok(ChildMessage::Stop))), Ok(vec![stop(0)]));
    // Poison does not count while stopping.
    let poisoned = CheckEvent::Child(Ok(ParentMessage::Poison(poison())));
    assert_eq!(check._serve(poisoned), Ok(vec![]));
    let end = check._serve(CheckEvent::Child(Ok(says(Status::Success)))).unwrap();
    assert_eq!(end, vec![to_parent(Status::Success)]);
}

#[test]
fn blocking_check_ends_with_an_error() {
    let mut check = BlockingCheck::_new(text("b"));
    let kill = CheckEvent::Parent(Ok(ChildMessage::Kill));
    assert_eq!(check._serve(kill), Err(NodeError::KillError));
    let poisoned = CheckEvent::Child(Ok(ParentMessage::Poison(poison())));
    assert_eq!(check._serve(poisoned), Err(poison()));
    assert_eq!(check._serve(CheckEvent::Child(Err(poison()))), Ok(vec![]));
    assert_eq!(check._serve(CheckEvent::Parent(Err(RecvError::Closed))), Ok(vec![]));
    check._serve(CheckEvent::Parent(Ok(ChildMessage::Start))).unwrap();
    let gone = || ActorError::Other(text("gone"));
    assert_eq!(check._serve(CheckEvent::Got(Err(gone()))), Err(NodeError::ActorError(gone())));
    check._serve(CheckEvent::Got(Err(ActorError::NoValueSet(text("i32"))))).unwrap();
    let result = check._serve(CheckEvent::Subscribed(Err(gone())));
    assert_eq!(result, Err(NodeError::ActorError(gone())));
    // Here even a missing value is an error.
    let result = check._serve(CheckEvent::Subscribed(Err(ActorError::NoValueSet(text("i32")))));
    assert_eq!(result, Err(NodeError::ActorError(ActorError::NoValueSet(text("i32")))));
}

#[test]
fn loop_starts_over() {
    let (_, mut again) = LoopDecorator::new(text("l"), leaf("a"), 70);
    assert_eq!(again.pause_millis, 70);
    let begin = again._serve(LoopEvent::Parent(Ok(ChildMessage::Start))).unwrap();
    assert_eq!(begin, vec![to_parent(Status::Running), start(0)]);
    for end in [Status::Success, Status::Failure] {
        assert_eq!(again._serve(LoopEvent::Child(Ok(says(end)))), Ok(vec![]));
        assert_eq!(again.phase, LoopPhase::Pausing);
        assert_eq!(again._serve(LoopEvent::Paused), Ok(vec![start(0)]));
        assert_eq!(again.status, Status::Running);
    }
    assert_eq!(again._serve(LoopEvent::Child(Ok(ParentMessage::RequestStart))), Ok(vec![]));
    assert_eq!(again._serve(LoopEvent::Parent(Ok(ChildMessage::Stop))), Ok(vec![stop(0)]));
    let poisoned = LoopEvent::Child(Ok(ParentMessage::Poison(poison())));
    assert_eq!(again._serve(poisoned), Ok(vec![]));
    let end = again._serve(LoopEvent::Child(Ok(says(Status::Failure)))).unwrap();
    assert_eq!(end, vec![to_parent(Status::Failure)]);
    let request = again._serve(LoopEvent::Child(Ok(ParentMessage::RequestStart))).unwrap();
    assert_eq!(request, vec![request_start()]);
}

#[test]
fn loop_ends_with_an_error() {
    let mut again = LoopDecorator::_new(text("l"), 0);
    let at_once = again._serve(LoopEvent::Parent(Ok(ChildMessage::Stop))).unwrap();
    assert_eq!(at_once, vec![to_parent(Status::Failure)]);
    let kill = LoopEvent::Parent(Ok(ChildMessage::Kill));
    assert_eq!(again._serve(kill), Err(NodeError::KillError));
    let poisoned = LoopEvent::Child(Ok(ParentMessage::Poison(poison())));
    assert_eq!(again._serve(poisoned), Err(poison()));
    assert_eq!(again._serve(LoopEvent::Child(Err(poison()))), Ok(vec![]));
    again._serve(LoopEvent::Parent(Ok(ChildMessage::Start))).unwrap();
    again._serve(LoopEvent::Parent(Ok(ChildMessage::Stop))).unwrap();
    assert_eq!(again._serve(LoopEvent::Child(Err(poison()))), Err(poison()));
}

struct Named {}

impl Executor for Named {
    fn get_name(&self) -> String {
        text("work")
    }

    fn execute(&mut self) -> Result<bool, String> {
        Ok(true)
    }
}

#[test]
fn action_reports_its_outcome() {
    let (handle, mut action) = Action::new(&Named {});
    assert_eq!((handle.element.as_str(), handle.name.as_str()), ("Action", "work"));
    assert_eq!(action.name, "work");
    for (success, end) in [(true, Status::Success), (false, Status::Failure)] {
        let begin = action._serve(ActionEvent::Parent(Ok(ChildMessage::Start))).unwrap();
        assert_eq!(begin, vec![to_parent(Status::Running)]);
        let done = action._serve(ActionEvent::Executed(Ok(success))).unwrap();
        assert_eq!(done, vec![to_parent(end)]);
        assert_eq!(action.status, end);
    }
}

#[test]
fn action_is_stopped() {
    let (_, mut action) = Action::new(&Named {});
    action._serve(ActionEvent::Parent(Ok(ChildMessage::Start))).unwrap();
    let stopped = action._serve(ActionEvent::Parent(Ok(ChildMessage::Stop))).unwrap();
    assert_eq!(stopped, vec![to_parent(Status::Failure)]);
    // It can be told to start while it is running.
    action._serve(ActionEvent::Parent(Ok(ChildMessage::Start))).unwrap();
    let again = action._serve(ActionEvent::Parent(Ok(ChildMessage::Start))).unwrap();
    assert_eq!(again, vec![to_parent(Status::Running)]);
}

#[test]
fn blocking_action_is_not_disturbed() {
    let (_, mut action) = BlockingAction::new(&Named {});
    assert_eq!(action._serve(ActionEvent::Parent(Ok(ChildMessage::Stop))), Ok(vec![]));
    assert_eq!(action.status, Status::Idle);
    action._serve(ActionEvent::Parent(Ok(ChildMessage::Start))).unwrap();
    for msg in [ChildMessage::Start, ChildMessage::Stop] {
        assert_eq!(action._serve(ActionEvent::Parent(Ok(msg))), Ok(vec![]));
        assert_eq!(action.status, Status::Running);
    }
    // It finishes what it began.
    let done = action._serve(ActionEvent::Executed(Ok(true))).unwrap();
    assert_eq!(done, vec![to_parent(Status::Success)]);
    action._serve(ActionEvent::Parent(Ok(ChildMessage::Start))).unwrap();
    let kill = ActionEvent::Parent(Ok(ChildMessage::Kill));
    assert_eq!(action._serve(kill), Err(NodeError::KillError));
}

#[test]
fn killed_child_is_ignored() {
    let killed = || ParentMessage::Killed;
    assert_eq!(sequence(1, false)._serve(child(0, killed())), Ok(vec![]));
    assert_eq!(Fallback::_new(text("f"), 1, false)._serve(child(0, killed())), Ok(vec![]));
    let mut cond = ConditionProcess::_new(text("c"), true);
    assert_eq!(cond._serve(ConditionEvent::Child(Ok(killed()))), Ok(vec![]));
    assert_eq!(cond.status, Status::Idle);
    let mut check = BlockingCheck::_new(text("b"));
    assert_eq!(check._serve(CheckEvent::Child(Ok(killed()))), Ok(vec![]));
    let mut again = LoopDecorator::_new(text("l"), 0);
    assert_eq!(again._serve(LoopEvent::Child(Ok(killed()))), Ok(vec![]));
    assert_eq!(again.phase, LoopPhase::Serving);
}

#[test]
fn action_that_hears_nothing() {
    let hear = ActionProcess::listen_for_parent_msg;
    assert_eq!(hear(true, true, Ok(ChildMessage::Stop)), Heard::Ignored);
    assert_eq!(hear(true, false, Ok(ChildMessage::Stop)), Heard::Message(ChildMessage::Stop));
    assert_eq!(hear(false, true, Ok(ChildMessage::Start)), Heard::Message(ChildMessage::Start));
    assert_eq!(hear(true, true, Ok(ChildMessage::Kill)), Heard::Message(ChildMessage::Kill));
    assert_eq!(hear(false, false, Err(RecvError::Closed)), Heard::Nothing);
    let (_, mut action) = Action::new(&Named {});
    action._serve(ActionEvent::Parent(Ok(ChildMessage::Start))).unwrap();
    assert_eq!(action._serve(ActionEvent::Parent(Err(RecvError::Lagged(2)))), Ok(vec![]));
    assert!(action.deaf);
    let done = action._serve(ActionEvent::Executed(Ok(true))).unwrap();
    assert_eq!(done, vec![to_parent(Status::Success)]);
    assert!(!action.deaf);
}

#[test]
fn broken_action() {
    let (_, mut action) = Action::new(&Named {});
    action._serve(ActionEvent::Parent(Ok(ChildMessage::Start))).unwrap();
    let err = action._serve(ActionEvent::Executed(Err(text("out of fuel")))).unwrap_err();
    assert_eq!(err, NodeError::ExecutionError(text("Execution error: out of fuel")));
    let expected = "Execution error: Execution error: out of fuel";
    assert_eq!(ActionProcess::serve(err), poison_parent(text(expected)));
    let outcome = ActionProcess::execute(Err(text("x")));
    assert_eq!(outcome, Err(NodeError::ExecutionError(text("x"))));
    assert_eq!(ActionProcess::execute(Ok(false)), Ok(false));
}

#[test]
fn ready_made_executors() {
    let (handle, process, mut executor) = Success::new();
    assert_eq!((handle.name.as_str(), process.blocking), ("SUCCESS", false));
    assert_eq!(executor.get_name(), "SUCCESS");
    assert_eq!(executor.execute(), Ok(true));
    let (handle, _, mut executor) = Failure::new();
    assert_eq!(handle.name, "FAILURE");
    assert_eq!(executor.execute(), Ok(false));
    let duration = std::time::Duration::from_millis(3);
    let (handle, _, mut executor) = Wait::new(duration);
    assert_eq!(handle.name, "Waiting");
    assert_eq!(executor.duration, duration);
    assert_eq!(executor.execute(), Ok(true));
}
