//! A blocking check holds its child back until a shared value is set.
use vstd::prelude::*;

use crate::bt::handle::{
    reacts, ActorError, ChildMessage, Effect, NodeError, NodeHandle, ParentMessage, RecvError,
    Status,
};

verus! {

/// Why a blocking check waits for the value.
#[derive(PartialEq, Eq, Structural, Debug, Clone, Copy)]
pub enum CheckPurpose {
    /// The parent asked it to start.
    Start,
    /// The child asks to be started.
    ChildRequest,
}

/// How far a blocking check is in waiting for the value.
#[derive(PartialEq, Eq, Structural, Debug, Clone, Copy)]
pub enum CheckStage {
    /// The current value has to be fetched.
    Get,
    /// There is none, and new values have to be subscribed to.
    Subscribe,
    /// The next value has to be received.
    Receive,
}

/// What a blocking check waits for.
#[derive(PartialEq, Eq, Structural, Debug, Clone, Copy)]
pub enum CheckPhase {
    /// For a message of the parent or the child.
    Serving,
    /// For the value to be set.
    Evaluating(CheckPurpose, CheckStage),
    /// For the child to confirm that it stopped.
    Stopping,
}

/// What a blocking check reacts to.
#[derive(PartialEq, Eq, Debug)]
pub enum CheckEvent {
    Parent(Result<ChildMessage, RecvError>),
    Child(Result<ParentMessage, NodeError>),
    /// The current value was fetched.
    Got(Result<(), ActorError>),
    /// New values were subscribed to.
    Subscribed(Result<(), ActorError>),
    /// The next value was received.
    Received(Result<(), RecvError>),
}

/// The state of a blocking check.
#[derive(Debug)]
pub struct BlockingCheck {
    pub name: String,
    pub status: Status,
    pub phase: CheckPhase,
}

impl BlockingCheck {
    /// A check that is starting runs already, and only a running one waits for its child
    /// to stop.
    pub open spec fn wf(self) -> bool {
        match self.phase {
            CheckPhase::Evaluating(CheckPurpose::Start, _) => self.status is Running,
            CheckPhase::Stopping => self.status is Running,
            _ => true,
        }
    }

    /// Whether this is what the check waits for.
    pub open spec fn awaits(self, event: CheckEvent) -> bool {
        match event {
            CheckEvent::Parent(_) => self.phase is Serving,
            CheckEvent::Child(_) => self.phase is Serving || self.phase is Stopping,
            CheckEvent::Got(_) => self.phase matches CheckPhase::Evaluating(_, CheckStage::Get),
            CheckEvent::Subscribed(_) => self.phase matches CheckPhase::Evaluating(
                _,
                CheckStage::Subscribe,
            ),
            CheckEvent::Received(_) => self.phase matches CheckPhase::Evaluating(
                _,
                CheckStage::Receive,
            ),
        }
    }

    /// Whether nothing has happened to this check yet.
    pub open spec fn is_new(self, name: Seq<char>) -> bool {
        &&& self.name@ == name
        &&& self.status is Idle
        &&& self.phase is Serving
    }

    /// The state after a message of the parent.
    pub open spec fn after_parent(self, msg: ChildMessage) -> Self {
        match msg {
            ChildMessage::Start if self.status !is Running => BlockingCheck {
                status: Status::Running,
                phase: CheckPhase::Evaluating(CheckPurpose::Start, CheckStage::Get),
                ..self
            },
            ChildMessage::Stop => if self.status is Running {
                BlockingCheck { phase: CheckPhase::Stopping, ..self }
            } else {
                BlockingCheck { status: Status::Failure, ..self }
            },
            _ => self,
        }
    }

    /// What a message of the parent leads to. A check that is not running fails at once
    /// when it is told to stop, so that its parent does not wait.
    pub open spec fn reply_to_parent(self, msg: ChildMessage) -> Result<Seq<Effect>, NodeError> {
        match msg {
            ChildMessage::Start => if self.status is Running {
                Ok(seq![])
            } else {
                Ok(seq![Effect::NotifyParent(ParentMessage::Status(Status::Running))])
            },
            ChildMessage::Stop => if self.status is Running {
                Ok(seq![Effect::NotifyChild(0, ChildMessage::Stop)])
            } else {
                Ok(seq![Effect::NotifyParent(ParentMessage::Status(Status::Failure))])
            },
            ChildMessage::Kill => Err(NodeError::KillError),
        }
    }

    /// The state after a message of the child.
    pub open spec fn after_child(self, msg: ParentMessage) -> Self {
        match msg {
            ParentMessage::RequestStart => BlockingCheck {
                phase: CheckPhase::Evaluating(CheckPurpose::ChildRequest, CheckStage::Get),
                ..self
            },
            ParentMessage::Status(Status::Success) => BlockingCheck {
                status: Status::Success,
                ..self
            },
            ParentMessage::Status(Status::Failure) => BlockingCheck {
                status: Status::Failure,
                ..self
            },
            _ => self,
        }
    }

    /// What a message of the child leads to.
    pub open spec fn reply_to_child(self, msg: ParentMessage) -> Result<Seq<Effect>, NodeError> {
        match msg {
            ParentMessage::Status(Status::Success) => Ok(
                seq![Effect::NotifyParent(ParentMessage::Status(Status::Success))],
            ),
            ParentMessage::Status(Status::Failure) => Ok(
                seq![Effect::NotifyParent(ParentMessage::Status(Status::Failure))],
            ),
            ParentMessage::Poison(err) => Err(err),
            _ => Ok(seq![]),
        }
    }

    /// The state after the child said something while it is expected to stop.
    pub open spec fn after_stopping(self, msg: Result<ParentMessage, NodeError>) -> Self {
        match msg {
            Ok(ParentMessage::Status(Status::Success)) => BlockingCheck {
                status: Status::Success,
                phase: CheckPhase::Serving,
                ..self
            },
            Ok(ParentMessage::Status(Status::Failure)) => BlockingCheck {
                status: Status::Failure,
                phase: CheckPhase::Serving,
                ..self
            },
            _ => self,
        }
    }

    /// What the words of a child that is expected to stop lead to: its final status is
    /// passed on, and no other message counts.
    pub open spec fn reply_to_stopping(self, msg: Result<ParentMessage, NodeError>) -> Result<
        Seq<Effect>,
        NodeError,
    > {
        match msg {
            Ok(ParentMessage::Status(Status::Success)) => Ok(
                seq![Effect::NotifyParent(ParentMessage::Status(Status::Success))],
            ),
            Ok(ParentMessage::Status(Status::Failure)) => Ok(
                seq![Effect::NotifyParent(ParentMessage::Status(Status::Failure))],
            ),
            Ok(_) => Ok(seq![]),
            Err(err) => Err(err),
        }
    }

    /// What follows when the value is set: the child is started, or its request is
    /// passed on by a check that has failed.
    pub open spec fn reply_to_set_value(self, purpose: CheckPurpose) -> Seq<Effect> {
        match purpose {
            CheckPurpose::Start => seq![Effect::NotifyChild(0, ChildMessage::Start)],
            CheckPurpose::ChildRequest => if self.status is Failure {
                seq![Effect::NotifyParent(ParentMessage::RequestStart)]
            } else {
                seq![]
            },
        }
    }

    /// Whether this event shows that the value is set.
    pub open spec fn shows_value(event: CheckEvent) -> bool {
        match event {
            CheckEvent::Got(Ok(_)) => true,
            CheckEvent::Received(Ok(_)) => true,
            _ => false,
        }
    }

    /// The error of reading the value that this event brings. That the value is not set
    /// yet, or that one was missed, is none.
    pub open spec fn reading_error(event: CheckEvent) -> Option<ActorError> {
        match event {
            CheckEvent::Got(Err(ActorError::NoValueSet(_))) => None,
            CheckEvent::Got(Err(err)) => Some(err),
            CheckEvent::Subscribed(Err(err)) => Some(err),
            _ => None,
        }
    }

    /// The state after a step in waiting for the value.
    pub open spec fn after_reading(self, purpose: CheckPurpose, event: CheckEvent) -> Self {
        if Self::shows_value(event) {
            BlockingCheck { phase: CheckPhase::Serving, ..self }
        } else if Self::reading_error(event) is Some {
            self
        } else {
            match event {
                CheckEvent::Got(_) => BlockingCheck {
                    phase: CheckPhase::Evaluating(purpose, CheckStage::Subscribe),
                    ..self
                },
                CheckEvent::Subscribed(_) => BlockingCheck {
                    phase: CheckPhase::Evaluating(purpose, CheckStage::Receive),
                    ..self
                },
                _ => self,
            }
        }
    }

    /// What a step in waiting for the value leads to.
    pub open spec fn reply_to_reading(self, purpose: CheckPurpose, event: CheckEvent) -> Result<
        Seq<Effect>,
        NodeError,
    > {
        match Self::reading_error(event) {
            Some(err) => Err(NodeError::ActorError(err)),
            None => if Self::shows_value(event) {
                Ok(self.reply_to_set_value(purpose))
            } else {
                Ok(seq![])
            },
        }
    }

    /// Makes a blocking check before the given child: the handle by which others know
    /// it, and the process that has to be served.
    pub fn new(name: String, child: NodeHandle) -> (node: (NodeHandle, BlockingCheck))
        ensures
            node.0.is_parent("Decorator"@, name@, seq![child]),
            node.1.is_new(name@),
    {
        let process = Self::_new(name.clone());
        let children = vec![child];
        assert(children@ =~= seq![child]);
        (NodeHandle::parent_of(String::from_str("Decorator"), name, children), process)
    }

    pub fn _new(name: String) -> (process: Self)
        ensures
            process == (BlockingCheck { name, status: Status::Idle, phase: CheckPhase::Serving }),
            process.wf(),
    {
        Self { name, status: Status::Idle, phase: CheckPhase::Serving }
    }

    fn update_status(&mut self, status: Status) -> (effect: Effect)
        ensures
            *final(self) == (BlockingCheck { status, ..*old(self) }),
            effect == Effect::NotifyParent(ParentMessage::Status(status)),
    {
        self.status = status;
        Effect::NotifyParent(ParentMessage::Status(status))
    }

    /// Begins to start: the check is running, but its child has to wait for the value.
    fn start_workflow(&mut self) -> (effects: Vec<Effect>)
        ensures
            *final(self) == old(self).after_parent(ChildMessage::Start),
            reacts(Ok(effects), old(self).reply_to_parent(ChildMessage::Start)),
    {
        if !self.status.is_running() {
            self.phase = CheckPhase::Evaluating(CheckPurpose::Start, CheckStage::Get);
            vec![self.update_status(Status::Running)]
        } else {
            vec![]
        }
    }

    /// Begins to stop, or fails at once if nothing is running.
    fn stop_workflow(&mut self) -> (effects: Vec<Effect>)
        ensures
            *final(self) == old(self).after_parent(ChildMessage::Stop),
            reacts(Ok(effects), old(self).reply_to_parent(ChildMessage::Stop)),
    {
        if self.status.is_running() {
            self.phase = CheckPhase::Stopping;
            vec![Effect::NotifyChild(0, ChildMessage::Stop)]
        } else {
            vec![self.update_status(Status::Failure)]
        }
    }

    /// Handles a message of the parent.
    pub fn process_msg_from_parent(&mut self, msg: ChildMessage) -> (result: Result<
        Vec<Effect>,
        NodeError,
    >)
        requires
            old(self).phase is Serving,
        ensures
            final(self).wf(),
            *final(self) == old(self).after_parent(msg),
            reacts(result, old(self).reply_to_parent(msg)),
    {
        match msg {
            ChildMessage::Start => Ok(self.start_workflow()),
            ChildMessage::Stop => Ok(self.stop_workflow()),
            ChildMessage::Kill => Err(NodeError::KillError),
        }
    }

    /// Handles a message of the child.
    pub fn process_msg_from_child(&mut self, msg: ParentMessage) -> (result: Result<
        Vec<Effect>,
        NodeError,
    >)
        requires
            old(self).phase is Serving,
        ensures
            final(self).wf(),
            *final(self) == old(self).after_child(msg),
            reacts(result, old(self).reply_to_child(msg)),
    {
        match msg {
            ParentMessage::RequestStart => {
                self.phase = CheckPhase::Evaluating(CheckPurpose::ChildRequest, CheckStage::Get);
            },
            ParentMessage::Status(Status::Success) => {
                return Ok(vec![self.update_status(Status::Success)]);
            },
            ParentMessage::Status(Status::Failure) => {
                return Ok(vec![self.update_status(Status::Failure)]);
            },
            ParentMessage::Status(_) => {},
            ParentMessage::Poison(err) => return Err(err),
            ParentMessage::Killed => {},
        }
        Ok(vec![])
    }

    /// Goes on when the value is set.
    fn conclude(&mut self, purpose: CheckPurpose) -> (effects: Vec<Effect>)
        ensures
            *final(self) == (BlockingCheck { phase: CheckPhase::Serving, ..*old(self) }),
            effects@ == old(self).reply_to_set_value(purpose),
    {
        self.phase = CheckPhase::Serving;
        match purpose {
            CheckPurpose::Start => vec![Effect::NotifyChild(0, ChildMessage::Start)],
            CheckPurpose::ChildRequest => {
                if self.status.is_failure() {
                    vec![Effect::NotifyParent(ParentMessage::RequestStart)]
                } else {
                    vec![]
                }
            },
        }
    }

    /// Takes a step in waiting for the value: a value that is there will do, else the
    /// next one that comes in.
    pub fn evaluate(&mut self, event: CheckEvent) -> (result: Result<Vec<Effect>, NodeError>)
        requires
            old(self).wf(),
            old(self).phase is Evaluating,
            old(self).awaits(event),
        ensures
            final(self).wf(),
            *final(self) == old(self).after_reading(old(self).phase->Evaluating_0, event),
            reacts(result, old(self).reply_to_reading(old(self).phase->Evaluating_0, event)),
    {
        if let CheckPhase::Evaluating(purpose, _) = self.phase {
            match event {
                CheckEvent::Got(Ok(_)) => return Ok(self.conclude(purpose)),
                CheckEvent::Got(Err(ActorError::NoValueSet(_))) => {
                    self.phase = CheckPhase::Evaluating(purpose, CheckStage::Subscribe);
                },
                CheckEvent::Got(Err(err)) => return Err(NodeError::ActorError(err)),
                CheckEvent::Subscribed(Ok(_)) => {
                    self.phase = CheckPhase::Evaluating(purpose, CheckStage::Receive);
                },
                CheckEvent::Subscribed(Err(err)) => return Err(NodeError::ActorError(err)),
                CheckEvent::Received(Ok(_)) => return Ok(self.conclude(purpose)),
                CheckEvent::Received(Err(_)) => {},
                CheckEvent::Parent(_) | CheckEvent::Child(_) => {},
            }
        }
        Ok(vec![])
    }

    /// Handles what the child says while it is expected to stop.
    pub fn confirm_stop(&mut self, msg: Result<ParentMessage, NodeError>) -> (result: Result<
        Vec<Effect>,
        NodeError,
    >)
        requires
            old(self).wf(),
            old(self).phase is Stopping,
        ensures
            final(self).wf(),
            *final(self) == old(self).after_stopping(msg),
            reacts(result, old(self).reply_to_stopping(msg)),
    {
        match msg {
            Ok(ParentMessage::Status(Status::Failure)) => {
                self.phase = CheckPhase::Serving;
                Ok(vec![self.update_status(Status::Failure)])
            },
            Ok(ParentMessage::Status(Status::Success)) => {
                self.phase = CheckPhase::Serving;
                Ok(vec![self.update_status(Status::Success)])
            },
            Ok(_) => Ok(vec![]),
            Err(err) => Err(err),
        }
    }

    /// The state after one turn.
    pub open spec fn after_turn(self, event: CheckEvent) -> Self {
        match event {
            CheckEvent::Parent(Ok(msg)) => self.after_parent(msg),
            CheckEvent::Parent(Err(_)) => self,
            CheckEvent::Child(msg) => match self.phase {
                CheckPhase::Stopping => self.after_stopping(msg),
                _ => match msg {
                    Ok(msg) => self.after_child(msg),
                    Err(_) => self,
                },
            },
            event => self.after_reading(self.phase->Evaluating_0, event),
        }
    }

    /// What one turn leads to.
    pub open spec fn reply_to_turn(self, event: CheckEvent) -> Result<Seq<Effect>, NodeError> {
        match event {
            CheckEvent::Parent(Ok(msg)) => self.reply_to_parent(msg),
            CheckEvent::Parent(Err(_)) => Ok(seq![]),
            CheckEvent::Child(msg) => match self.phase {
                CheckPhase::Stopping => self.reply_to_stopping(msg),
                _ => match msg {
                    Ok(msg) => self.reply_to_child(msg),
                    Err(_) => Ok(seq![]),
                },
            },
            event => self.reply_to_reading(self.phase->Evaluating_0, event),
        }
    }

    /// One turn of serving: handles the first thing that happens of those that the phase
    /// names. An error ends the check. That nothing could be received from the parent or
    /// the child is no error, except from a child that is expected to stop.
    pub fn _serve(&mut self, event: CheckEvent) -> (result: Result<Vec<Effect>, NodeError>)
        requires
            old(self).wf(),
            old(self).awaits(event),
        ensures
            final(self).wf(),
            *final(self) == old(self).after_turn(event),
            reacts(result, old(self).reply_to_turn(event)),
    {
        match event {
            CheckEvent::Parent(Ok(msg)) => self.process_msg_from_parent(msg),
            CheckEvent::Parent(Err(_)) => Ok(vec![]),
            CheckEvent::Child(msg) => match self.phase {
                CheckPhase::Stopping => self.confirm_stop(msg),
                _ => match msg {
                    Ok(msg) => self.process_msg_from_child(msg),
                    Err(_) => Ok(vec![]),
                },
            },
            event => self.evaluate(event),
        }
    }
}

/// The child of a blocking check is started only when the value is set.
pub proof fn law_blocking_check_guards_child(process: BlockingCheck, event: CheckEvent)
    requires
        process.wf(),
        process.awaits(event),
    ensures
        match process.reply_to_turn(event) {
            Ok(effects) => effects.contains(Effect::NotifyChild(0, ChildMessage::Start)) ==> {
                &&& process.phase matches CheckPhase::Evaluating(CheckPurpose::Start, _)
                &&& BlockingCheck::shows_value(event)
            },
            Err(_) => true,
        },
{
}

/// A blocking check that finds no value goes on running in silence until one comes in,
/// however many are missed, and then starts its child.
pub proof fn law_blocking_check_waits(
    process: BlockingCheck,
    missing: String,
    missed: RecvError,
)
    requires
        process.phase is Serving,
        process.status !is Running,
    ensures
        ({
            let start = CheckEvent::Parent(Ok(ChildMessage::Start));
            let unset = CheckEvent::Got(Err(ActorError::NoValueSet(missing)));
            let asked = process.after_turn(start);
            let unset_seen = asked.after_turn(unset);
            let waiting = unset_seen.after_turn(CheckEvent::Subscribed(Ok(())));
            let nothing = Ok::<Seq<Effect>, NodeError>(seq![]);
            let child_starts = Ok::<Seq<Effect>, NodeError>(
                seq![Effect::NotifyChild(0, ChildMessage::Start)],
            );
            let running = BlockingCheck { status: Status::Running, ..process };
            &&& process.reply_to_turn(start) == Ok::<Seq<Effect>, NodeError>(
                seq![Effect::NotifyParent(ParentMessage::Status(Status::Running))],
            )
            &&& asked.reply_to_turn(CheckEvent::Got(Ok(()))) == child_starts
            &&& asked.after_turn(CheckEvent::Got(Ok(()))) == running
            &&& asked.reply_to_turn(unset) == nothing
            &&& unset_seen.reply_to_turn(CheckEvent::Subscribed(Ok(()))) == nothing
            &&& waiting.reply_to_turn(CheckEvent::Received(Err(missed))) == nothing
            &&& waiting.after_turn(CheckEvent::Received(Err(missed))) == waiting
            &&& waiting.reply_to_turn(CheckEvent::Received(Ok(()))) == child_starts
            &&& waiting.after_turn(CheckEvent::Received(Ok(()))) == running
        }),
{
}

/// A running blocking check that is told to stop passes the request on, and ends as the
/// child does.
pub proof fn law_blocking_check_stop_is_confirmed(process: BlockingCheck, success: bool)
    requires
        process.phase is Serving,
        process.status is Running,
    ensures
        ({
            let stop = CheckEvent::Parent(Ok(ChildMessage::Stop));
            let stopped = process.after_turn(stop);
            let answer = if success {
                Status::Success
            } else {
                Status::Failure
            };
            let end = CheckEvent::Child(Ok(ParentMessage::Status(answer)));
            &&& process.reply_to_turn(stop) == Ok::<Seq<Effect>, NodeError>(
                seq![Effect::NotifyChild(0, ChildMessage::Stop)],
            )
            &&& stopped.awaits(end)
            &&& stopped.reply_to_turn(end) == Ok::<Seq<Effect>, NodeError>(
                seq![Effect::NotifyParent(ParentMessage::Status(answer))],
            )
            &&& stopped.after_turn(end) == (BlockingCheck { status: answer, ..process })
        }),
{
}

/// What makes a blocking check go on: short of an end, what a child says of itself, and that it was
/// killed, neither moves the blocking check nor makes it speak. Nor does it, while the blocking check is
/// being served, that something could not be received.
pub proof fn law_blocking_check_waits_for_an_end(
    process: BlockingCheck,
    running: bool,
    missed: RecvError,
    lost: NodeError,
)
    requires
        process.phase is Serving,
    ensures
        ({
            let status = if running {
                Status::Running
            } else {
                Status::Idle
            };
            let says = CheckEvent::Child(Ok(ParentMessage::Status(status)));
            let dies = CheckEvent::Child(Ok(ParentMessage::Killed));
            let nothing = Ok::<Seq<Effect>, NodeError>(seq![]);
            &&& process.reply_to_turn(says) == nothing
            &&& process.after_turn(says) == process
            &&& process.reply_to_turn(dies) == nothing
            &&& process.after_turn(dies) == process
            &&& process.reply_to_turn(CheckEvent::Parent(Err(missed))) == nothing
            &&& process.after_turn(CheckEvent::Parent(Err(missed))) == process
            &&& process.reply_to_turn(CheckEvent::Child(Err(lost))) == nothing
            &&& process.after_turn(CheckEvent::Child(Err(lost))) == process
        }),
{
}

/// The request to die and the poison of the child end a blocking check, with the error that each of
/// them stands for.
pub proof fn law_blocking_check_ends_with_the_error(process: BlockingCheck, err: NodeError)
    requires
        process.phase is Serving,
    ensures
        process.reply_to_turn(CheckEvent::Parent(Ok(ChildMessage::Kill))) == Err::<Seq<Effect>, NodeError>(
            NodeError::KillError,
        ),
        process.after_turn(CheckEvent::Parent(Ok(ChildMessage::Kill))) == process,
        process.reply_to_turn(CheckEvent::Child(Ok(ParentMessage::Poison(err)))) == Err::<Seq<Effect>, NodeError>(err),
        process.after_turn(CheckEvent::Child(Ok(ParentMessage::Poison(err)))) == process,
{
}

/// A blocking check that waits for its child to stop takes the first end that the child reports for
/// its own, hears nothing else, and breaks if the child cannot be heard.
pub proof fn law_stopping_blocking_check_waits_for_the_end(
    process: BlockingCheck,
    msg: ParentMessage,
    success: bool,
    lost: NodeError,
)
    requires
        process.phase is Stopping,
    ensures
        ({
            let answer = if success {
                Status::Success
            } else {
                Status::Failure
            };
            let end = CheckEvent::Child(Ok(ParentMessage::Status(answer)));
            let other = CheckEvent::Child(Ok(msg));
            &&& process.awaits(end)
            &&& process.reply_to_turn(end) == Ok::<Seq<Effect>, NodeError>(
                seq![Effect::NotifyParent(ParentMessage::Status(answer))],
            )
            &&& process.after_turn(end) == (BlockingCheck {
                status: answer,
                phase: CheckPhase::Serving,
                ..process
            })
            &&& msg != ParentMessage::Status(Status::Success) && msg != ParentMessage::Status(
                Status::Failure,
            ) ==> {
                &&& process.reply_to_turn(other) == Ok::<Seq<Effect>, NodeError>(seq![])
                &&& process.after_turn(other) == process
            }
            &&& process.reply_to_turn(CheckEvent::Child(Err(lost))) == Err::<Seq<Effect>, NodeError>(lost)
            &&& process.after_turn(CheckEvent::Child(Err(lost))) == process
        }),
{
}

/// A blocking check says of itself what it is: a status that it reports last is the one that it has
/// from then on, and it takes on no other in silence.
pub proof fn law_blocking_check_reports_its_status(process: BlockingCheck, event: CheckEvent, status: Status)
    requires
        process.wf(),
        process.awaits(event),
    ensures
        ({
            let after = process.after_turn(event);
            let reported = Effect::NotifyParent(ParentMessage::Status(status));
            &&& after.name == process.name
            &&& match process.reply_to_turn(event) {
                Ok(effects) => {
                    &&& effects.len() > 0 && effects.last() == reported ==> after.status == status
                    &&& after.status == status && process.status != status ==> effects.contains(
                        reported,
                    )
                },
                Err(_) => after.status == process.status,
            }
        }),
{
    if let Ok(effects) = process.reply_to_turn(event) {
        let reported = Effect::NotifyParent(ParentMessage::Status(status));
        if effects.len() > 0 && effects[0] == reported {
            assert(effects.contains(reported));
        }
        if effects.len() > 1 && effects[1] == reported {
            assert(effects.contains(reported));
        }
    }
}

/// One turn of a blocking check that is being served is the handling of one message: of the parent,
/// or of the child.
pub proof fn law_blocking_check_turn_is_one_message(
    process: BlockingCheck,
    from_parent: ChildMessage,
    from_child: ParentMessage,
)
    requires
        process.phase is Serving,
    ensures
        process.after_turn(CheckEvent::Parent(Ok(from_parent))) == process.after_parent(from_parent),
        process.reply_to_turn(CheckEvent::Parent(Ok(from_parent))) == process.reply_to_parent(
            from_parent,
        ),
        process.after_turn(CheckEvent::Child(Ok(from_child))) == process.after_child(from_child),
        process.reply_to_turn(CheckEvent::Child(Ok(from_child))) == process.reply_to_child(from_child),
{
}

/// A blocking check that waits for its child to stop listens to nobody else, and handles one message
/// of the child in one turn.
pub proof fn law_stopping_blocking_check_listens_to_its_child(
    process: BlockingCheck,
    received: Result<ChildMessage, RecvError>,
    msg: Result<ParentMessage, NodeError>,
)
    requires
        process.phase is Stopping,
    ensures
        process.awaits(CheckEvent::Child(msg)),
        !process.awaits(CheckEvent::Parent(received)),
        process.after_turn(CheckEvent::Child(msg)) == process.after_stopping(msg),
        process.reply_to_turn(CheckEvent::Child(msg)) == process.reply_to_stopping(msg),
{
}

/// A blocking check that is being served listens to its parent and to its child.
pub proof fn law_served_blocking_check_listens(
    process: BlockingCheck,
    from_parent: Result<ChildMessage, RecvError>,
    from_child: Result<ParentMessage, NodeError>,
)
    requires
        process.phase is Serving,
    ensures
        process.awaits(CheckEvent::Parent(from_parent)),
        process.awaits(CheckEvent::Child(from_child)),
{
}

/// A blocking check that is not running says that it runs as soon as it is told to start,
/// and then waits for the value. One that runs takes no notice.
pub proof fn law_blocking_check_starts_by_reading(process: BlockingCheck)
    requires
        process.phase is Serving,
    ensures
        ({
            let start = CheckEvent::Parent(Ok(ChildMessage::Start));
            &&& process.status !is Running ==> {
                &&& process.reply_to_turn(start) == Ok::<Seq<Effect>, NodeError>(
                    seq![Effect::NotifyParent(ParentMessage::Status(Status::Running))],
                )
                &&& process.after_turn(start) == (BlockingCheck {
                    status: Status::Running,
                    phase: CheckPhase::Evaluating(CheckPurpose::Start, CheckStage::Get),
                    ..process
                })
            }
            &&& process.status is Running ==> {
                &&& process.reply_to_turn(start) == Ok::<Seq<Effect>, NodeError>(seq![])
                &&& process.after_turn(start) == process
            }
        }),
{
}

/// A blocking check that is told to stop stops its child if it is running, and fails at
/// once if not.
pub proof fn law_blocking_check_stops_its_child(process: BlockingCheck)
    requires
        process.phase is Serving,
    ensures
        ({
            let stop = CheckEvent::Parent(Ok(ChildMessage::Stop));
            &&& process.status is Running ==> {
                &&& process.reply_to_turn(stop) == Ok::<Seq<Effect>, NodeError>(
                    seq![Effect::NotifyChild(0, ChildMessage::Stop)],
                )
                &&& process.after_turn(stop) == (BlockingCheck {
                    phase: CheckPhase::Stopping,
                    ..process
                })
            }
            &&& process.status !is Running ==> {
                &&& process.reply_to_turn(stop) == Ok::<Seq<Effect>, NodeError>(
                    seq![Effect::NotifyParent(ParentMessage::Status(Status::Failure))],
                )
                &&& process.after_turn(stop) == (BlockingCheck {
                    status: Status::Failure,
                    ..process
                })
            }
        }),
{
}

/// A blocking check ends as its child does.
pub proof fn law_blocking_check_ends_with_its_child(process: BlockingCheck, success: bool)
    requires
        process.phase is Serving,
    ensures
        ({
            let answer = if success {
                Status::Success
            } else {
                Status::Failure
            };
            let end = CheckEvent::Child(Ok(ParentMessage::Status(answer)));
            &&& process.reply_to_turn(end) == Ok::<Seq<Effect>, NodeError>(
                seq![Effect::NotifyParent(ParentMessage::Status(answer))],
            )
            &&& process.after_turn(end) == (BlockingCheck { status: answer, ..process })
        }),
{
}

/// The child of a blocking check asks in vain until the value is set. Then the request is
/// handed on by a check that has failed, and by no other.
pub proof fn law_blocking_check_reads_before_it_hands_on(process: BlockingCheck)
    requires
        process.phase is Serving,
    ensures
        ({
            let request = CheckEvent::Child(Ok(ParentMessage::RequestStart));
            let reading = BlockingCheck {
                phase: CheckPhase::Evaluating(CheckPurpose::ChildRequest, CheckStage::Get),
                ..process
            };
            let receiving = BlockingCheck {
                phase: CheckPhase::Evaluating(CheckPurpose::ChildRequest, CheckStage::Receive),
                ..process
            };
            let handed_on = Ok::<Seq<Effect>, NodeError>(
                if process.status is Failure {
                    seq![Effect::NotifyParent(ParentMessage::RequestStart)]
                } else {
                    seq![]
                },
            );
            &&& process.reply_to_turn(request) == Ok::<Seq<Effect>, NodeError>(seq![])
            &&& process.after_turn(request) == reading
            &&& reading.reply_to_turn(CheckEvent::Got(Ok(()))) == handed_on
            &&& reading.after_turn(CheckEvent::Got(Ok(()))) == process
            &&& receiving.reply_to_turn(CheckEvent::Received(Ok(()))) == handed_on
            &&& receiving.after_turn(CheckEvent::Received(Ok(()))) == process
        }),
{
}

/// While a blocking check reads the value, it asks for the current one, then for a
/// subscription, and then for the next one, of which any number may be missed. For
/// whatever reason it reads, that there is no current value is no error, and every other
/// error ends it. Nobody is listened to meanwhile.
pub proof fn law_blocking_check_reads_step_by_step(
    process: BlockingCheck,
    purpose: CheckPurpose,
    missing: String,
    cause: String,
    err: ActorError,
    missed: RecvError,
    from_parent: Result<ChildMessage, RecvError>,
    from_child: Result<ParentMessage, NodeError>,
)
    ensures
        ({
            let get = BlockingCheck {
                phase: CheckPhase::Evaluating(purpose, CheckStage::Get),
                ..process
            };
            let subscribe = BlockingCheck {
                phase: CheckPhase::Evaluating(purpose, CheckStage::Subscribe),
                ..process
            };
            let receive = BlockingCheck {
                phase: CheckPhase::Evaluating(purpose, CheckStage::Receive),
                ..process
            };
            let unset = CheckEvent::Got(Err(ActorError::NoValueSet(missing)));
            let broken = CheckEvent::Got(Err(ActorError::Other(cause)));
            let nothing = Ok::<Seq<Effect>, NodeError>(seq![]);
            &&& get.awaits(unset) && get.awaits(CheckEvent::Got(Ok(())))
            &&& get.reply_to_turn(unset) == nothing
            &&& get.after_turn(unset) == subscribe
            &&& get.reply_to_turn(broken) == Err::<Seq<Effect>, NodeError>(NodeError::ActorError(ActorError::Other(cause)))
            &&& get.after_turn(broken) == get
            &&& subscribe.awaits(CheckEvent::Subscribed(Ok(())))
            &&& subscribe.reply_to_turn(CheckEvent::Subscribed(Ok(()))) == nothing
            &&& subscribe.after_turn(CheckEvent::Subscribed(Ok(()))) == receive
            &&& subscribe.reply_to_turn(CheckEvent::Subscribed(Err(err))) == Err::<Seq<Effect>, NodeError>(
                NodeError::ActorError(err),
            )
            &&& subscribe.after_turn(CheckEvent::Subscribed(Err(err))) == subscribe
            &&& receive.awaits(CheckEvent::Received(Ok(())))
            &&& receive.reply_to_turn(CheckEvent::Received(Err(missed))) == nothing
            &&& receive.after_turn(CheckEvent::Received(Err(missed))) == receive
            &&& !get.awaits(CheckEvent::Parent(from_parent)) && !get.awaits(
                CheckEvent::Child(from_child),
            )
            &&& !subscribe.awaits(CheckEvent::Parent(from_parent)) && !subscribe.awaits(
                CheckEvent::Child(from_child),
            )
            &&& !receive.awaits(CheckEvent::Parent(from_parent)) && !receive.awaits(
                CheckEvent::Child(from_child),
            )
        }),
{
}

/// A blocking check that reads the value in order to start takes one turn for one step,
/// and starts its child in the step that shows the value.
pub proof fn law_blocking_check_starts_its_child_with_the_value(process: BlockingCheck)
    requires
        process.status is Running,
    ensures
        ({
            let get = BlockingCheck {
                phase: CheckPhase::Evaluating(CheckPurpose::Start, CheckStage::Get),
                ..process
            };
            let receive = BlockingCheck {
                phase: CheckPhase::Evaluating(CheckPurpose::Start, CheckStage::Receive),
                ..process
            };
            let served = BlockingCheck { phase: CheckPhase::Serving, ..process };
            let child_starts = Ok::<Seq<Effect>, NodeError>(seq![Effect::NotifyChild(0, ChildMessage::Start)]);
            &&& get.wf() && receive.wf()
            &&& get.reply_to_turn(CheckEvent::Got(Ok(()))) == child_starts
            &&& get.after_turn(CheckEvent::Got(Ok(()))) == served
            &&& receive.reply_to_turn(CheckEvent::Received(Ok(()))) == child_starts
            &&& receive.after_turn(CheckEvent::Received(Ok(()))) == served
        }),
{
}

/// One turn of a blocking check that reads the value is one step in reading.
pub proof fn law_blocking_check_turn_is_one_step(
    process: BlockingCheck,
    purpose: CheckPurpose,
    stage: CheckStage,
    event: CheckEvent,
)
    requires
        process.phase == CheckPhase::Evaluating(purpose, stage),
        process.awaits(event),
    ensures
        process.after_turn(event) == process.after_reading(purpose, event),
        process.reply_to_turn(event) == process.reply_to_reading(purpose, event),
{
}

/// A new blocking check is idle and ready to be served.
pub proof fn law_new_blocking_check_is_idle(process: BlockingCheck, name: Seq<char>)
    requires
        process.is_new(name),
    ensures
        process.name@ == name,
        process.status is Idle,
        process.phase is Serving,
        process.wf(),
{
}

} // verus!
