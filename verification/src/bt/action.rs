//! An action does the work of a tree: it runs what its executor has to do.
use std::time::Duration;
use vstd::prelude::*;

use crate::bt::handle::{
    poison_parent, reacts, ChildMessage, Effect, NodeError, NodeHandle, ParentMessage, RecvError,
    Status,
};

verus! {

/// The work of an action.
pub trait Executor {
    fn get_name(&self) -> (name: String);

    /// Does the work, which succeeds, fails, or breaks with an error.
    fn execute(&mut self) -> (result: Result<bool, String>);
}

/// An action that can be stopped while it is running.
pub struct Action {}

impl Action {
    pub fn new<T: Executor>(inner: &T) -> (node: (NodeHandle, ActionProcess))
        ensures
            call_ensures(T::get_name, (inner,), node.1.name),
            node.0.is_parent("Action"@, node.1.name@, seq![]),
            node.1.is_new(node.1.name@, false),
    {
        ActionProcess::new(inner, false)
    }
}

/// An action that cannot be stopped while it is running.
pub struct BlockingAction {}

impl BlockingAction {
    pub fn new<T: Executor>(inner: &T) -> (node: (NodeHandle, ActionProcess))
        ensures
            call_ensures(T::get_name, (inner,), node.1.name),
            node.0.is_parent("Action"@, node.1.name@, seq![]),
            node.1.is_new(node.1.name@, true),
    {
        ActionProcess::new(inner, true)
    }
}

/// What an action reacts to.
#[derive(PartialEq, Eq, Debug)]
pub enum ActionEvent {
    Parent(Result<ChildMessage, RecvError>),
    /// The executor is done.
    Executed(Result<bool, String>),
}

/// What becomes of something received from the parent.
#[derive(PartialEq, Eq, Structural, Debug, Clone, Copy)]
pub enum Heard {
    /// The message has to be handled.
    Message(ChildMessage),
    /// The message is left aside, and the action goes on listening.
    Ignored,
    /// Nothing was received, and the action stops listening.
    Nothing,
}

/// The state of an action.
#[derive(Debug)]
pub struct ActionProcess {
    pub name: String,
    pub blocking: bool,
    pub status: Status,
    /// Whether the action has stopped listening to its parent until its executor is done.
    pub deaf: bool,
}

impl ActionProcess {
    /// Whether this is what the action waits for. The executor works only while the
    /// action is running.
    pub open spec fn awaits(self, event: ActionEvent) -> bool {
        match event {
            ActionEvent::Parent(_) => !self.deaf,
            ActionEvent::Executed(_) => self.status is Running,
        }
    }

    /// Whether nothing has happened to this action yet.
    pub open spec fn is_new(self, name: Seq<char>, blocking: bool) -> bool {
        &&& self.name@ == name
        &&& self.blocking == blocking
        &&& self.status is Idle
        &&& !self.deaf
    }

    /// Whether the action is not to be disturbed.
    pub open spec fn is_busy(self) -> bool {
        self.status is Running && self.blocking
    }

    /// The state after a message of the parent.
    pub open spec fn after_parent(self, msg: ChildMessage) -> Self {
        match msg {
            ChildMessage::Start if !self.is_busy() => ActionProcess {
                status: Status::Running,
                ..self
            },
            ChildMessage::Stop if !self.blocking => ActionProcess {
                status: Status::Failure,
                ..self
            },
            _ => self,
        }
    }

    /// What a message of the parent leads to. A blocking action has nothing to say when
    /// it is told to stop.
    pub open spec fn reply_to_parent(self, msg: ChildMessage) -> Result<Seq<Effect>, NodeError> {
        match msg {
            ChildMessage::Start if !self.is_busy() => Ok(
                seq![Effect::NotifyParent(ParentMessage::Status(Status::Running))],
            ),
            ChildMessage::Stop if !self.blocking => Ok(
                seq![Effect::NotifyParent(ParentMessage::Status(Status::Failure))],
            ),
            ChildMessage::Kill => Err(NodeError::KillError),
            _ => Ok(seq![]),
        }
    }

    /// The status in which the executor leaves the action.
    pub open spec fn outcome(success: bool) -> Status {
        if success {
            Status::Success
        } else {
            Status::Failure
        }
    }

    /// Makes an action for the given executor: the handle by which others know it, and
    /// the process that has to be served.
    pub fn new<T: Executor>(inner: &T, blocking: bool) -> (node: (NodeHandle, ActionProcess))
        ensures
            call_ensures(T::get_name, (inner,), node.1.name),
            node.0.is_parent("Action"@, node.1.name@, seq![]),
            node.1.is_new(node.1.name@, blocking),
    {
        Self::with_name(inner.get_name(), blocking)
    }

    /// Makes an action for an executor of the given name.
    pub fn with_name(name: String, blocking: bool) -> (node: (NodeHandle, ActionProcess))
        ensures
            node.0.is_parent("Action"@, name@, seq![]),
            node.1.name == name,
            node.1.is_new(name@, blocking),
    {
        let process = Self::_new(name.clone(), blocking);
        let children: Vec<NodeHandle> = vec![];
        assert(children@ =~= seq![]);
        (NodeHandle::parent_of(String::from_str("Action"), name, children), process)
    }

    pub fn _new(name: String, blocking: bool) -> (process: Self)
        ensures
            process == (ActionProcess { name, blocking, status: Status::Idle, deaf: false }),
    {
        Self { name, blocking, status: Status::Idle, deaf: false }
    }

    fn update_status(&mut self, status: Status) -> (effect: Effect)
        ensures
            *final(self) == (ActionProcess { status, ..*old(self) }),
            effect == Effect::NotifyParent(ParentMessage::Status(status)),
    {
        self.status = status;
        Effect::NotifyParent(ParentMessage::Status(status))
    }

    /// Handles a message of the parent.
    pub fn process_msg_from_parent(&mut self, msg: ChildMessage) -> (result: Result<
        Vec<Effect>,
        NodeError,
    >)
        ensures
            *final(self) == old(self).after_parent(msg),
            reacts(result, old(self).reply_to_parent(msg)),
    {
        if msg.is_kill() {
            return Err(NodeError::KillError);
        }
        if self.status.is_running() && self.blocking {
            return Ok(vec![]);
        }
        match msg {
            ChildMessage::Start => Ok(vec![self.update_status(Status::Running)]),
            ChildMessage::Stop => {
                if !self.blocking {
                    return Ok(vec![self.update_status(Status::Failure)]);
                }
                Ok(vec![])
            },
            ChildMessage::Kill => Ok(vec![]),
        }
    }

    /// The outcome of the executor in the terms of a node.
    pub fn execute(result: Result<bool, String>) -> (outcome: Result<bool, NodeError>)
        ensures
            match result {
                Ok(success) => outcome == Ok::<bool, NodeError>(success),
                Err(cause) => outcome == Err::<bool, NodeError>(NodeError::ExecutionError(cause)),
            },
    {
        match result {
            Ok(success) => Ok(success),
            Err(cause) => Err(NodeError::ExecutionError(cause)),
        }
    }

    /// Decides what becomes of something received from the parent: a running action that
    /// is blocking cares for nothing but the request to die.
    pub fn listen_for_parent_msg(
        is_blocking: bool,
        is_running: bool,
        received: Result<ChildMessage, RecvError>,
    ) -> (heard: Heard)
        ensures
            heard == (match received {
                Ok(msg) => if is_running && is_blocking && msg !is Kill {
                    Heard::Ignored
                } else {
                    Heard::Message(msg)
                },
                Err(_) => Heard::Nothing,
            }),
    {
        match received {
            Ok(msg) => {
                if is_running && is_blocking && !msg.is_kill() {
                    Heard::Ignored
                } else {
                    Heard::Message(msg)
                }
            },
            Err(_) => Heard::Nothing,
        }
    }

    /// The state after one turn.
    pub open spec fn after_turn(self, event: ActionEvent) -> Self {
        match event {
            ActionEvent::Parent(Ok(msg)) => self.after_parent(msg),
            ActionEvent::Parent(Err(_)) => ActionProcess { deaf: true, ..self },
            ActionEvent::Executed(Ok(success)) => ActionProcess {
                status: Self::outcome(success),
                deaf: false,
                ..self
            },
            ActionEvent::Executed(Err(_)) => ActionProcess { deaf: false, ..self },
        }
    }

    /// Whether this is what one turn leads to.
    pub open spec fn replies_to_turn(
        self,
        event: ActionEvent,
        result: Result<Vec<Effect>, NodeError>,
    ) -> bool {
        match event {
            ActionEvent::Parent(Ok(msg)) => reacts(result, self.reply_to_parent(msg)),
            ActionEvent::Parent(Err(_)) => reacts(result, Ok(seq![])),
            ActionEvent::Executed(Ok(success)) => reacts(
                result,
                Ok(
                    seq![Effect::NotifyParent(ParentMessage::Status(Self::outcome(success)))],
                ),
            ),
            ActionEvent::Executed(Err(cause)) => match result {
                Err(NodeError::ExecutionError(text)) => text@ == "Execution error: "@ + cause@,
                _ => false,
            },
        }
    }

    /// One turn of serving: handles what comes first, a message of the parent or the end
    /// of the executor's work. An error ends the action.
    pub fn _serve(&mut self, event: ActionEvent) -> (result: Result<Vec<Effect>, NodeError>)
        requires
            old(self).awaits(event),
        ensures
            *final(self) == old(self).after_turn(event),
            old(self).replies_to_turn(event, result),
    {
        match event {
            ActionEvent::Parent(received) => {
                let heard = Self::listen_for_parent_msg(
                    self.blocking,
                    self.status.is_running(),
                    received,
                );
                match heard {
                    Heard::Message(msg) => self.process_msg_from_parent(msg),
                    Heard::Ignored => Ok(vec![]),
                    Heard::Nothing => {
                        self.deaf = true;
                        Ok(vec![])
                    },
                }
            },
            ActionEvent::Executed(result) => {
                self.deaf = false;
                match Self::execute(result) {
                    Ok(true) => Ok(vec![self.update_status(Status::Success)]),
                    Ok(false) => Ok(vec![self.update_status(Status::Failure)]),
                    Err(err) => Err(NodeError::ExecutionError(err.to_string())),
                }
            },
        }
    }

    /// Whether this is the last word of an action that stopped serving with an error: a
    /// killed one acknowledges, any other error becomes poison with the error's text.
    pub open spec fn is_exit_message(err: NodeError, msg: ParentMessage) -> bool {
        match err {
            NodeError::KillError => msg == ParentMessage::Killed,
            _ => match msg {
                ParentMessage::Poison(NodeError::PoisonError(cause)) => cause@ == err.text(),
                _ => false,
            },
        }
    }

    /// The last word of an action that stopped serving with an error.
    pub fn serve(err: NodeError) -> (msg: ParentMessage)
        ensures
            Self::is_exit_message(err, msg),
    {
        match err {
            NodeError::KillError => ParentMessage::Killed,
            err => poison_parent(err.to_string()),
        }
    }
}

/// An executor that lets time pass.
pub struct Wait {
    pub name: String,
    pub duration: Duration,
}

impl Wait {
    pub fn new(duration: Duration) -> (node: (NodeHandle, ActionProcess, Wait))
        ensures
            node.0.is_parent("Action"@, "Waiting"@, seq![]),
            node.1.is_new("Waiting"@, false),
            node.2.name@ == "Waiting"@,
            node.2.duration == duration,
    {
        let executor = Wait { name: String::from_str("Waiting"), duration };
        let (handle, process) = Action::new(&executor);
        (handle, process, executor)
    }
}

impl Executor for Wait {
    fn get_name(&self) -> (name: String)
        ensures
            name == self.name,
    {
        self.name.clone()
    }

    /// What comes of it when the time is over.
    fn execute(&mut self) -> (result: Result<bool, String>)
        ensures
            result == Ok::<bool, String>(true),
            *final(self) == *old(self),
    {
        Ok(true)
    }
}

/// An executor that succeeds at once.
pub struct Success {
    pub name: String,
}

impl Success {
    pub fn new() -> (node: (NodeHandle, ActionProcess, Success))
        ensures
            node.0.is_parent("Action"@, "SUCCESS"@, seq![]),
            node.1.is_new("SUCCESS"@, false),
            node.2.name@ == "SUCCESS"@,
    {
        let executor = Success { name: String::from_str("SUCCESS") };
        let (handle, process) = Action::new(&executor);
        (handle, process, executor)
    }
}

impl Executor for Success {
    fn get_name(&self) -> (name: String)
        ensures
            name == self.name,
    {
        self.name.clone()
    }

    fn execute(&mut self) -> (result: Result<bool, String>)
        ensures
            result == Ok::<bool, String>(true),
            *final(self) == *old(self),
    {
        Ok(true)
    }
}

/// An executor that fails at once.
pub struct Failure {
    pub name: String,
}

impl Failure {
    pub fn new() -> (node: (NodeHandle, ActionProcess, Failure))
        ensures
            node.0.is_parent("Action"@, "FAILURE"@, seq![]),
            node.1.is_new("FAILURE"@, false),
            node.2.name@ == "FAILURE"@,
    {
        let executor = Failure { name: String::from_str("FAILURE") };
        let (handle, process) = Action::new(&executor);
        (handle, process, executor)
    }
}

impl Executor for Failure {
    fn get_name(&self) -> (name: String)
        ensures
            name == self.name,
    {
        self.name.clone()
    }

    fn execute(&mut self) -> (result: Result<bool, String>)
        ensures
            result == Ok::<bool, String>(false),
            *final(self) == *old(self),
    {
        Ok(false)
    }
}

/// A running action that is blocking cannot be disturbed: whatever its parent says short
/// of killing it, it stays as it is and does not answer.
pub proof fn law_blocking_action_ignores_parent(process: ActionProcess, msg: ChildMessage)
    requires
        process.is_busy(),
        msg !is Kill,
    ensures
        process.after_parent(msg) == process,
        process.reply_to_parent(msg) == Ok::<Seq<Effect>, NodeError>(seq![]),
{
}

/// The state of an action after its parent said all this.
pub open spec fn told(process: ActionProcess, msgs: Seq<ChildMessage>) -> ActionProcess
    decreases msgs.len(),
{
    if msgs.len() == 0 {
        process
    } else {
        told(process, msgs.drop_last()).after_turn(ActionEvent::Parent(Ok(msgs.last())))
    }
}

/// A blocking action is allowed to finish: however often its parent tells it to stop or to
/// start while it is running, its executor stays at work, and how that ends is how the
/// action ends.
pub proof fn law_blocking_action_finishes(
    process: ActionProcess,
    msgs: Seq<ChildMessage>,
    success: bool,
)
    requires
        process.is_busy(),
        !msgs.contains(ChildMessage::Kill),
    ensures
        told(process, msgs) == process,
        process.awaits(ActionEvent::Executed(Ok(success))),
        process.after_turn(ActionEvent::Executed(Ok(success))).status
            == ActionProcess::outcome(success),
    decreases msgs.len(),
{
    if msgs.len() > 0 {
        assert(msgs[msgs.len() - 1] == msgs.last());
        assert forall|i: int| 0 <= i < msgs.len() - 1 implies msgs.drop_last()[i]
            != ChildMessage::Kill by {
            assert(msgs[i] != ChildMessage::Kill);
        }
        law_blocking_action_finishes(process, msgs.drop_last(), success);
    }
}

/// An action that is not blocking fails as soon as it is told to stop, and its executor
/// is not waited for.
pub proof fn law_action_stops_at_once(process: ActionProcess, result: Result<bool, String>)
    requires
        !process.blocking,
    ensures
        ({
            let stopped = process.after_parent(ChildMessage::Stop);
            &&& stopped.status is Failure
            &&& process.reply_to_parent(ChildMessage::Stop) == Ok::<Seq<Effect>, NodeError>(
                seq![Effect::NotifyParent(ParentMessage::Status(Status::Failure))],
            )
            &&& !stopped.awaits(ActionEvent::Executed(result))
        }),
{
}

/// An action that is started runs, and ends as its executor does: whatever the result,
/// the parent hears `Running`, and then how it ended.
pub proof fn law_action_reports_outcome(
    process: ActionProcess,
    success: bool,
    begun: Result<Vec<Effect>, NodeError>,
    ended: Result<Vec<Effect>, NodeError>,
)
    requires
        !process.is_busy(),
        process.replies_to_turn(ActionEvent::Parent(Ok(ChildMessage::Start)), begun),
        process.after_parent(ChildMessage::Start).replies_to_turn(
            ActionEvent::Executed(Ok(success)),
            ended,
        ),
    ensures
        ({
            let running = process.after_turn(ActionEvent::Parent(Ok(ChildMessage::Start)));
            let done = running.after_turn(ActionEvent::Executed(Ok(success)));
            let answer = ActionProcess::outcome(success);
            &&& running.awaits(ActionEvent::Executed(Ok(success)))
            &&& done.status == answer
            &&& begun is Ok
            &&& begun->Ok_0@ == seq![
                Effect::NotifyParent(ParentMessage::Status(Status::Running)),
            ]
            &&& ended is Ok
            &&& ended->Ok_0@ == seq![Effect::NotifyParent(ParentMessage::Status(answer))]
        }),
{
}

/// An action whose executor breaks poisons its parent with the cause.
pub proof fn law_action_error_is_poison(
    process: ActionProcess,
    cause: String,
    result: Result<Vec<Effect>, NodeError>,
    msg: ParentMessage,
)
    requires
        process.status is Running,
        process.replies_to_turn(ActionEvent::Executed(Err(cause)), result),
        result is Err ==> ActionProcess::is_exit_message(result->Err_0, msg),
    ensures
        match msg {
            ParentMessage::Poison(NodeError::PoisonError(text)) => text@ == "Execution error: "@
                + ("Execution error: "@ + cause@),
            _ => false,
        },
{
}

/// An action that is told to start runs, whatever happened before, unless it is blocking
/// and runs already. What it is made of never changes.
pub proof fn law_action_starts_whenever_it_is_told(
    process: ActionProcess,
    result: Result<Vec<Effect>, NodeError>,
)
    requires
        process.replies_to_turn(ActionEvent::Parent(Ok(ChildMessage::Start)), result),
    ensures
        ({
            let after = process.after_turn(ActionEvent::Parent(Ok(ChildMessage::Start)));
            &&& after == (ActionProcess { status: Status::Running, ..process })
            &&& result is Ok
            &&& result->Ok_0@ == if process.status is Running && process.blocking {
                seq![]
            } else {
                seq![Effect::NotifyParent(ParentMessage::Status(Status::Running))]
            }
        }),
{
}

/// An action that is told to stop fails if it is not blocking, and does nothing at all if
/// it is.
pub proof fn law_only_blocking_actions_ignore_a_stop(
    process: ActionProcess,
    result: Result<Vec<Effect>, NodeError>,
)
    requires
        process.replies_to_turn(ActionEvent::Parent(Ok(ChildMessage::Stop)), result),
    ensures
        ({
            let after = process.after_turn(ActionEvent::Parent(Ok(ChildMessage::Stop)));
            &&& result is Ok
            &&& if process.blocking {
                &&& after == process
                &&& result->Ok_0@.len() == 0
            } else {
                &&& after == (ActionProcess { status: Status::Failure, ..process })
                &&& result->Ok_0@ == seq![
                    Effect::NotifyParent(ParentMessage::Status(Status::Failure)),
                ]
            }
        }),
{
}

/// The request to die ends every action, also a blocking one that runs.
pub proof fn law_every_action_dies_when_told(
    process: ActionProcess,
    result: Result<Vec<Effect>, NodeError>,
)
    requires
        process.replies_to_turn(ActionEvent::Parent(Ok(ChildMessage::Kill)), result),
    ensures
        result is Err,
        result->Err_0 is KillError,
        process.after_turn(ActionEvent::Parent(Ok(ChildMessage::Kill))) == process,
{
}

/// An action ends as its executor does, and breaks with it. Then it listens to its parent
/// again, if it had stopped to.
pub proof fn law_action_ends_with_its_executor(
    process: ActionProcess,
    success: bool,
    cause: String,
    done: Result<Vec<Effect>, NodeError>,
    broken: Result<Vec<Effect>, NodeError>,
)
    requires
        process.replies_to_turn(ActionEvent::Executed(Ok(success)), done),
        process.replies_to_turn(ActionEvent::Executed(Err(cause)), broken),
    ensures
        ({
            let answer = if success {
                Status::Success
            } else {
                Status::Failure
            };
            &&& process.after_turn(ActionEvent::Executed(Ok(success))) == (ActionProcess {
                status: answer,
                deaf: false,
                ..process
            })
            &&& done is Ok
            &&& done->Ok_0@ == seq![Effect::NotifyParent(ParentMessage::Status(answer))]
            &&& process.after_turn(ActionEvent::Executed(Err(cause))) == (ActionProcess {
                deaf: false,
                ..process
            })
            &&& broken is Err
            &&& broken->Err_0 is ExecutionError
            &&& broken->Err_0->ExecutionError_0@ == "Execution error: "@ + cause@
        }),
{
}

/// An action that could not hear its parent says nothing, goes on with its work, and does
/// not listen until that is done. A running action waits for its executor, and no other
/// does.
pub proof fn law_deaf_action_goes_on(
    process: ActionProcess,
    missed: RecvError,
    received: Result<ChildMessage, RecvError>,
    outcome: Result<bool, String>,
    result: Result<Vec<Effect>, NodeError>,
)
    requires
        process.replies_to_turn(ActionEvent::Parent(Err(missed)), result),
    ensures
        ({
            let after = process.after_turn(ActionEvent::Parent(Err(missed)));
            &&& after == (ActionProcess { deaf: true, ..process })
            &&& result is Ok
            &&& result->Ok_0@.len() == 0
            &&& !after.awaits(ActionEvent::Parent(received))
            &&& process.awaits(ActionEvent::Parent(received)) <==> !process.deaf
            &&& process.awaits(ActionEvent::Executed(outcome)) <==> process.status is Running
        }),
{
}

/// One turn of an action that hears its parent is the handling of one message.
pub proof fn law_action_turn_is_one_message(
    process: ActionProcess,
    msg: ChildMessage,
    result: Result<Vec<Effect>, NodeError>,
)
    ensures
        process.after_turn(ActionEvent::Parent(Ok(msg))) == process.after_parent(msg),
        process.replies_to_turn(ActionEvent::Parent(Ok(msg)), result) <==> reacts(
            result,
            process.reply_to_parent(msg),
        ),
{
}

/// The last word of an action is that it was killed, if it was, and else poison with the
/// words of the error, whatever the error is.
pub proof fn law_last_word_of_an_action(err: NodeError, msg: ParentMessage)
    requires
        ActionProcess::is_exit_message(err, msg),
    ensures
        msg is Killed <==> err is KillError,
        err !is KillError ==> {
            &&& msg is Poison
            &&& msg->Poison_0 is PoisonError
            &&& msg->Poison_0->PoisonError_0@ == err.text()
        },
{
}

/// A new action is idle and listens.
pub proof fn law_new_action_is_idle(process: ActionProcess, name: Seq<char>, blocking: bool)
    requires
        process.is_new(name, blocking),
    ensures
        process.name@ == name,
        process.blocking == blocking,
        process.status is Idle,
        !process.deaf,
{
}

} // verus!
