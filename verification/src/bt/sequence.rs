//! A sequence runs its children one after the other, and succeeds when all of
//! them have.
use vstd::prelude::*;

use crate::bt::handle::{
    reacts, ChildMessage, Effect, FutResponse, NodeError, NodeHandle, ParentMessage, Status,
};

verus! {

/// A sequence that stops when it is told to.
pub struct Sequence {}

impl Sequence {
    pub fn new(children: Vec<NodeHandle>) -> (node: (NodeHandle, SequenceProcess))
        ensures
            node.0.is_parent("Sequence"@, "default_sequence"@, children@),
            node.1.is_new("default_sequence"@, children@.len(), false),
    {
        SequenceProcess::new(children, String::from_str("default_sequence"), false)
    }

    pub fn new_with_name(name: String, children: Vec<NodeHandle>) -> (node: (
        NodeHandle,
        SequenceProcess,
    ))
        ensures
            node.0.is_parent("Sequence"@, name@, children@),
            node.1.is_new(name@, children@.len(), false),
    {
        SequenceProcess::new(children, name, false)
    }
}

/// A sequence that runs to its end once it is started.
pub struct BlockingSequence {}

impl BlockingSequence {
    pub fn new(children: Vec<NodeHandle>) -> (node: (NodeHandle, SequenceProcess))
        ensures
            node.0.is_parent("Sequence"@, "default_sequence"@, children@),
            node.1.is_new("default_sequence"@, children@.len(), true),
    {
        SequenceProcess::new(children, String::from_str("default_sequence"), true)
    }

    pub fn new_with_name(name: String, children: Vec<NodeHandle>) -> (node: (
        NodeHandle,
        SequenceProcess,
    ))
        ensures
            node.0.is_parent("Sequence"@, name@, children@),
            node.1.is_new(name@, children@.len(), true),
    {
        SequenceProcess::new(children, name, true)
    }
}

/// The state of a sequence.
#[derive(Debug)]
pub struct SequenceProcess {
    pub name: String,
    /// The number of children.
    pub children: usize,
    /// The child that was started last.
    pub running_child: Option<usize>,
    pub status: Status,
    /// Whether a running sequence ignores the request to stop.
    pub blocking: bool,
}

impl SequenceProcess {
    /// A started child is one of the children, and a running sequence has started
    /// one.
    pub open spec fn wf(self) -> bool {
        &&& self.running_child matches Some(child) ==> child < self.children
        &&& self.status is Running ==> self.running_child is Some
    }

    /// Whether nothing has happened to this sequence yet.
    pub open spec fn is_new(self, name: Seq<char>, children: nat, blocking: bool) -> bool {
        &&& self.name@ == name
        &&& self.children == children
        &&& self.running_child is None
        &&& self.status is Idle
        &&& self.blocking == blocking
    }

    /// Whether the child that was started last is the last of all.
    pub open spec fn at_last_child(self) -> bool {
        self.running_child matches Some(child) && child == self.children - 1
    }

    /// Whether this message of this child leads to no child that does not exist: the
    /// successor of a successful child is started, and so the last child must not
    /// succeed while an earlier one is running.
    pub open spec fn can_hear(self, msg: ParentMessage, child_index: usize) -> bool {
        msg == ParentMessage::Status(Status::Success) && self.status is Running
            && !self.at_last_child() ==> child_index < self.children - 1
    }

    /// The state after a message of the parent.
    pub open spec fn after_parent(self, msg: ChildMessage) -> Self {
        match msg {
            ChildMessage::Start if !(self.status is Running) => SequenceProcess {
                status: Status::Running,
                running_child: Some(0),
                ..self
            },
            ChildMessage::Stop if self.status is Running && !self.blocking => SequenceProcess {
                status: Status::Idle,
                ..self
            },
            _ => self,
        }
    }

    /// What a message of the parent leads to.
    pub open spec fn reply_to_parent(self, msg: ChildMessage) -> Result<Seq<Effect>, NodeError> {
        match msg {
            ChildMessage::Start if !(self.status is Running) => Ok(
                seq![
                    Effect::NotifyParent(ParentMessage::Status(Status::Running)),
                    Effect::NotifyChild(0, ChildMessage::Start),
                ],
            ),
            ChildMessage::Stop if self.status is Running && !self.blocking => Ok(
                seq![Effect::NotifyChild(self.running_child->0, ChildMessage::Stop)],
            ),
            ChildMessage::Kill => Err(NodeError::KillError),
            _ => Ok(seq![]),
        }
    }

    /// The status that a sequence takes on when a child reports success: it goes on
    /// running until the last child is through. One that was told to stop confirms
    /// with success only if there was nothing left to do.
    pub open spec fn status_after_success(self) -> Status {
        match self.status {
            Status::Running => if self.at_last_child() {
                Status::Success
            } else {
                Status::Running
            },
            Status::Idle => if self.at_last_child() {
                Status::Success
            } else {
                Status::Failure
            },
            status => status,
        }
    }

    /// The state after a message of a child.
    pub open spec fn after_child(self, msg: ParentMessage, child_index: usize) -> Self {
        match msg {
            ParentMessage::Status(Status::Success) => SequenceProcess {
                status: self.status_after_success(),
                running_child: if self.status is Running && !self.at_last_child() {
                    Some((child_index + 1) as usize)
                } else {
                    self.running_child
                },
                ..self
            },
            ParentMessage::Status(Status::Failure) => SequenceProcess {
                status: Status::Failure,
                ..self
            },
            _ => self,
        }
    }

    /// What a message of a child leads to.
    pub open spec fn reply_to_child(self, msg: ParentMessage, child_index: usize) -> Result<
        Seq<Effect>,
        NodeError,
    > {
        match msg {
            ParentMessage::RequestStart if self.status is Failure => Ok(
                seq![Effect::NotifyParent(ParentMessage::RequestStart)],
            ),
            ParentMessage::Status(Status::Success) if self.status is Running
                && !self.at_last_child() => Ok(
                seq![Effect::NotifyChild((child_index + 1) as usize, ChildMessage::Start)],
            ),
            ParentMessage::Status(Status::Success) if self.status is Running || self.status is Idle => Ok(
                seq![Effect::NotifyParent(ParentMessage::Status(self.status_after_success()))],
            ),
            ParentMessage::Status(Status::Failure) => Ok(
                seq![Effect::NotifyParent(ParentMessage::Status(Status::Failure))],
            ),
            ParentMessage::Poison(err) => Err(err),
            _ => Ok(seq![]),
        }
    }

    /// Makes a sequence of the given children: the handle by which others know it, and
    /// the process that has to be served.
    pub fn new(children: Vec<NodeHandle>, name: String, blocking: bool) -> (node: (
        NodeHandle,
        SequenceProcess,
    ))
        ensures
            node.0.is_parent("Sequence"@, name@, children@),
            node.1.is_new(name@, children@.len(), blocking),
    {
        let process = Self::_new(name.clone(), children.len(), blocking);
        (NodeHandle::parent_of(String::from_str("Sequence"), name, children), process)
    }

    pub fn _new(name: String, children: usize, blocking: bool) -> (process: Self)
        ensures
            process == (SequenceProcess {
                name,
                children,
                running_child: None,
                status: Status::Idle,
                blocking,
            }),
            process.wf(),
    {
        Self { name, children, running_child: None, status: Status::Idle, blocking }
    }

    fn update_status(&mut self, status: Status) -> (effect: Effect)
        ensures
            *final(self) == (SequenceProcess { status, ..*old(self) }),
            effect == Effect::NotifyParent(ParentMessage::Status(status)),
    {
        self.status = status;
        Effect::NotifyParent(ParentMessage::Status(status))
    }

    fn start_child(&mut self, child_index: usize) -> (effect: Effect)
        ensures
            *final(self) == (SequenceProcess { running_child: Some(child_index), ..*old(self) }),
            effect == Effect::NotifyChild(child_index, ChildMessage::Start),
    {
        self.running_child = Some(child_index);
        Effect::NotifyChild(child_index, ChildMessage::Start)
    }

    /// Handles a message of the parent.
    pub fn process_msg_from_parent(&mut self, msg: ChildMessage) -> (result: Result<
        Vec<Effect>,
        NodeError,
    >)
        requires
            old(self).wf(),
            msg is Start ==> old(self).children > 0,
        ensures
            final(self).wf(),
            *final(self) == old(self).after_parent(msg),
            reacts(result, old(self).reply_to_parent(msg)),
    {
        match msg {
            ChildMessage::Start => {
                if !self.status.is_running() {
                    return Ok(vec![self.update_status(Status::Running), self.start_child(0)]);
                }
            },
            ChildMessage::Stop => {
                if self.status.is_running() && !self.blocking {
                    if let Some(child_index) = self.running_child {
                        self.status = Status::Idle;
                        return Ok(vec![Effect::NotifyChild(child_index, ChildMessage::Stop)]);
                    }
                }
            },
            ChildMessage::Kill => return Err(NodeError::KillError),
        }
        Ok(vec![])
    }

    /// Handles a message of a child.
    pub fn process_msg_from_child(&mut self, msg: ParentMessage, child_index: usize) -> (result:
        Result<Vec<Effect>, NodeError>)
        requires
            old(self).wf(),
            old(self).can_hear(msg, child_index),
        ensures
            final(self).wf(),
            *final(self) == old(self).after_child(msg, child_index),
            reacts(result, old(self).reply_to_child(msg, child_index)),
    {
        match msg {
            ParentMessage::RequestStart => {
                if self.status.is_failure() {
                    return Ok(vec![Effect::NotifyParent(ParentMessage::RequestStart)]);
                }
            },
            ParentMessage::Status(Status::Success) => {
                if self.status.is_running() {
                    if let Some(current_child_index) = self.running_child {
                        if current_child_index < self.children - 1 {
                            return Ok(vec![self.start_child(child_index + 1)]);
                        } else {
                            return Ok(vec![self.update_status(Status::Success)]);
                        }
                    }
                } else if self.status.is_idle() {
                    // The sequence was stopped, and its parent waits for confirmation
                    let finished = match self.running_child {
                        Some(current_child_index) => current_child_index == self.children - 1,
                        None => false,
                    };
                    if finished {
                        return Ok(vec![self.update_status(Status::Success)]);
                    } else {
                        return Ok(vec![self.update_status(Status::Failure)]);
                    }
                }
            },
            ParentMessage::Status(Status::Failure) => {
                return Ok(vec![self.update_status(Status::Failure)]);
            },
            ParentMessage::Status(_) => {},
            ParentMessage::Poison(err) => return Err(err),
            ParentMessage::Killed => {},
        }
        Ok(vec![])
    }

    /// Whether this turn leads to no child that does not exist.
    pub open spec fn can_take(self, response: Result<FutResponse, NodeError>) -> bool {
        match response {
            Ok(FutResponse::Parent(msg)) => msg is Start ==> self.children > 0,
            Ok(FutResponse::Child(child_index, msg)) => self.can_hear(msg, child_index),
            Err(_) => true,
        }
    }

    /// Whether this turn leads to no child that does not exist.
    pub fn accepts(&self, response: &Result<FutResponse, NodeError>) -> (r: bool)
        ensures
            r == self.can_take(*response),
    {
        match response {
            Ok(FutResponse::Parent(ChildMessage::Start)) => self.children > 0,
            Ok(FutResponse::Parent(_)) => true,
            Ok(FutResponse::Child(child_index, ParentMessage::Status(Status::Success))) => {
                let at_last_child = match self.running_child {
                    Some(current_child_index) => self.children > 0 && current_child_index
                        == self.children - 1,
                    None => false,
                };
                !self.status.is_running() || at_last_child || (self.children > 0 && *child_index
                    < self.children - 1)
            },
            Ok(FutResponse::Child(..)) => true,
            Err(_) => true,
        }
    }

    /// The state after one turn.
    pub open spec fn after_turn(self, response: Result<FutResponse, NodeError>) -> Self {
        match response {
            Ok(FutResponse::Parent(msg)) => self.after_parent(msg),
            Ok(FutResponse::Child(child_index, msg)) => self.after_child(msg, child_index),
            Err(_) => self,
        }
    }

    /// What one turn leads to.
    pub open spec fn reply_to_turn(self, response: Result<FutResponse, NodeError>) -> Result<
        Seq<Effect>,
        NodeError,
    > {
        match response {
            Ok(FutResponse::Parent(msg)) => self.reply_to_parent(msg),
            Ok(FutResponse::Child(child_index, msg)) => self.reply_to_child(msg, child_index),
            Err(err) => Err(err),
        }
    }

    /// One turn of serving: handles the first message that arrived, from the parent or
    /// from any child. An error ends the sequence.
    pub fn _serve(&mut self, response: Result<FutResponse, NodeError>) -> (result: Result<
        Vec<Effect>,
        NodeError,
    >)
        requires
            old(self).wf(),
            old(self).can_take(response),
        ensures
            final(self).wf(),
            *final(self) == old(self).after_turn(response),
            reacts(result, old(self).reply_to_turn(response)),
    {
        match response {
            Ok(FutResponse::Parent(msg)) => self.process_msg_from_parent(msg),
            Ok(FutResponse::Child(child_index, msg)) => self.process_msg_from_child(
                msg,
                child_index,
            ),
            Err(err) => Err(err),
        }
    }

    /// The state after a start, followed by the answers of the first children in their
    /// order: each child that was started reports success or failure.
    pub open spec fn played(self, answers: Seq<bool>) -> Self
        decreases answers.len(),
    {
        if answers.len() == 0 {
            self.after_parent(ChildMessage::Start)
        } else {
            let before = self.played(answers.drop_last());
            if before.status is Running {
                let status = if answers.last() {
                    Status::Success
                } else {
                    Status::Failure
                };
                before.after_child(ParentMessage::Status(status), before.running_child->0)
            } else {
                before
            }
        }
    }
}

/// A sequence is the conjunction of its children: it runs them in order, goes on
/// for as long as they succeed, succeeds when all of them have and fails with the
/// first that fails.
pub proof fn law_sequence_is_conjunction(process: SequenceProcess, answers: Seq<bool>)
    requires
        process.wf(),
        process.status !is Running,
        0 < process.children,
        answers.len() <= process.children,
    ensures
        process.played(answers).wf(),
        process.played(answers).children == process.children,
        answers.contains(false) ==> process.played(answers).status is Failure,
        !answers.contains(false) && answers.len() == process.children ==> process.played(
            answers,
        ).status is Success,
        !answers.contains(false) && answers.len() < process.children ==> {
            &&& process.played(answers).status is Running
            &&& process.played(answers).running_child == Some(answers.len() as usize)
        },
    decreases answers.len(),
{
    if answers.len() > 0 {
        let earlier = answers.drop_last();
        law_sequence_is_conjunction(process, earlier);
        assert(answers == earlier.push(answers.last()));
        if earlier.contains(false) {
            let i = choose|i: int| 0 <= i < earlier.len() && earlier[i] == false;
            assert(answers[i] == false);
        } else if !answers.last() {
            assert(answers[answers.len() - 1] == false);
        } else {
            assert(!answers.contains(false)) by {
                if answers.contains(false) {
                    let i = choose|i: int| 0 <= i < answers.len() && answers[i] == false;
                    assert(earlier[i] == false);
                }
            }
        }
    }
}

/// A sequence reports success only when its last child has just succeeded.
pub proof fn law_sequence_success_needs_last_child(
    process: SequenceProcess,
    response: Result<FutResponse, NodeError>,
)
    ensures
        match process.reply_to_turn(response) {
            Ok(effects) => effects.contains(
                Effect::NotifyParent(ParentMessage::Status(Status::Success)),
            ) ==> {
                &&& process.at_last_child()
                &&& response matches Ok(FutResponse::Child(_, msg))
                &&& msg == ParentMessage::Status(Status::Success)
            },
            Err(_) => true,
        },
{
}

/// A blocking sequence that runs cannot be stopped: the request changes nothing.
pub proof fn law_blocking_sequence_ignores_stop(process: SequenceProcess)
    requires
        process.blocking,
    ensures
        process.after_parent(ChildMessage::Stop) == process,
        process.reply_to_parent(ChildMessage::Stop) == Ok::<Seq<Effect>, NodeError>(seq![]),
{
}

/// A running sequence that may be stopped passes the request to the child that runs,
/// and answers its parent as soon as that child has come to an end: with success if
/// the last child succeeded, with failure otherwise.
pub proof fn law_sequence_stop_is_confirmed(
    process: SequenceProcess,
    child_index: usize,
    success: bool,
)
    requires
        process.wf(),
        process.status is Running,
        !process.blocking,
        process.running_child == Some(child_index),
    ensures
        process.reply_to_parent(ChildMessage::Stop) == Ok::<Seq<Effect>, NodeError>(
            seq![Effect::NotifyChild(child_index, ChildMessage::Stop)],
        ),
        ({
            let stopped = process.after_parent(ChildMessage::Stop);
            let answer = if success {
                Status::Success
            } else {
                Status::Failure
            };
            let confirmed = if success && process.at_last_child() {
                Status::Success
            } else {
                Status::Failure
            };
            &&& stopped.can_hear(ParentMessage::Status(answer), child_index)
            &&& stopped.reply_to_child(ParentMessage::Status(answer), child_index) == Ok::<
                Seq<Effect>,
                NodeError,
            >(seq![Effect::NotifyParent(ParentMessage::Status(confirmed))])
            &&& stopped.after_child(ParentMessage::Status(answer), child_index).status == confirmed
        }),
{
}

/// A sequence that is not running is started from the beginning, whatever happened before:
/// it tells its parent that it runs and starts its first child. One that runs takes no
/// notice.
pub proof fn law_sequence_starts_with_its_first_child(process: SequenceProcess)
    ensures
        ({
            let start = Ok::<FutResponse, NodeError>(FutResponse::Parent(ChildMessage::Start));
            &&& process.status !is Running ==> {
                &&& process.reply_to_turn(start) == Ok::<Seq<Effect>, NodeError>(
                    seq![
                        Effect::NotifyParent(ParentMessage::Status(Status::Running)),
                        Effect::NotifyChild(0, ChildMessage::Start),
                    ],
                )
                &&& process.after_turn(start) == (SequenceProcess {
                    status: Status::Running,
                    running_child: Some(0),
                    ..process
                })
            }
            &&& process.status is Running ==> {
                &&& process.reply_to_turn(start) == Ok::<Seq<Effect>, NodeError>(seq![])
                &&& process.after_turn(start) == process
            }
        }),
{
}

/// A sequence hands on the request to stop to the child that runs, and to no other, if it
/// runs and may be stopped. Its parent has to wait for the answer. Else nothing happens.
pub proof fn law_sequence_stops_its_running_child(process: SequenceProcess, child_index: usize)
    requires
        process.wf(),
    ensures
        ({
            let stop = Ok::<FutResponse, NodeError>(FutResponse::Parent(ChildMessage::Stop));
            &&& process.status is Running && !process.blocking && process.running_child == Some(
                child_index,
            ) ==> {
                &&& process.reply_to_turn(stop) == Ok::<Seq<Effect>, NodeError>(
                    seq![Effect::NotifyChild(child_index, ChildMessage::Stop)],
                )
                &&& process.after_turn(stop) == (SequenceProcess { status: Status::Idle, ..process })
            }
            &&& process.status !is Running || process.blocking ==> {
                &&& process.reply_to_turn(stop) == Ok::<Seq<Effect>, NodeError>(seq![])
                &&& process.after_turn(stop) == process
            }
        }),
{
}

/// What a child says of itself short of an end, and that it was killed, neither moves a
/// sequence nor makes it speak.
pub proof fn law_sequence_waits_for_an_end(process: SequenceProcess, child_index: usize, running: bool)
    ensures
        ({
            let status = if running {
                Status::Running
            } else {
                Status::Idle
            };
            let says = Ok::<FutResponse, NodeError>(
                FutResponse::Child(child_index, ParentMessage::Status(status)),
            );
            let dies = Ok::<FutResponse, NodeError>(FutResponse::Child(child_index, ParentMessage::Killed));
            &&& process.reply_to_turn(says) == Ok::<Seq<Effect>, NodeError>(seq![])
            &&& process.after_turn(says) == process
            &&& process.reply_to_turn(dies) == Ok::<Seq<Effect>, NodeError>(seq![])
            &&& process.after_turn(dies) == process
        }),
{
}

/// The request to die, the poison of any child and a message that could not be received
/// end a sequence, with the error that each of them stands for.
pub proof fn law_sequence_ends_with_the_error(process: SequenceProcess, child_index: usize, err: NodeError)
    ensures
        process.reply_to_turn(Ok(FutResponse::Parent(ChildMessage::Kill))) == Err::<Seq<Effect>, NodeError>(
            NodeError::KillError,
        ),
        process.reply_to_turn(Ok(FutResponse::Child(child_index, ParentMessage::Poison(err))))
            == Err::<Seq<Effect>, NodeError>(err),
        process.reply_to_turn(Err(err)) == Err::<Seq<Effect>, NodeError>(err),
        process.after_turn(Ok(FutResponse::Parent(ChildMessage::Kill))) == process,
        process.after_turn(Ok(FutResponse::Child(child_index, ParentMessage::Poison(err))))
            == process,
        process.after_turn(Err(err)) == process,
{
}

/// A sequence says of itself what it is: a status that it reports is the one that it has
/// from then on, and it takes on no other in silence, except that it stands idle after a
/// stop until its child has answered. What it is made of never changes.
pub proof fn law_sequence_reports_its_status(
    process: SequenceProcess,
    response: Result<FutResponse, NodeError>,
    status: Status,
)
    requires
        process.wf(),
        process.can_take(response),
    ensures
        ({
            let after = process.after_turn(response);
            &&& after.name == process.name
            &&& after.children == process.children
            &&& after.blocking == process.blocking
            &&& match process.reply_to_turn(response) {
                Ok(effects) => {
                    &&& effects.contains(Effect::NotifyParent(ParentMessage::Status(status)))
                        ==> after.status == status
                    &&& after.status == status && process.status != status ==> {
                        ||| effects.contains(Effect::NotifyParent(ParentMessage::Status(status)))
                        ||| status is Idle && response == Ok::<FutResponse, NodeError>(
                            FutResponse::Parent(ChildMessage::Stop),
                        )
                    }
                },
                Err(_) => after == process,
            }
        }),
{
    let reported = Effect::NotifyParent(ParentMessage::Status(process.after_turn(response).status));
    if let Ok(effects) = process.reply_to_turn(response) {
        if effects.len() > 0 && effects[0] == reported {
            assert(effects.contains(reported));
        }
    }
}

/// The child that a sequence starts is the one that it holds for running: whoever is started
/// is the running child of a running sequence afterwards, and no child becomes the running
/// one without being started.
pub proof fn law_sequence_starts_its_running_child(
    process: SequenceProcess,
    response: Result<FutResponse, NodeError>,
    child_index: usize,
)
    requires
        process.wf(),
        process.can_take(response),
    ensures
        ({
            let after = process.after_turn(response);
            let start = Effect::NotifyChild(child_index, ChildMessage::Start);
            match process.reply_to_turn(response) {
                Ok(effects) => {
                    &&& effects.contains(start) ==> after.status is Running && after.running_child
                        == Some(child_index)
                    &&& after.running_child == Some(child_index) && process.running_child != Some(
                        child_index,
                    ) ==> effects.contains(start)
                    &&& effects.contains(start) ==> child_index < process.children
                },
                Err(_) => after.running_child == process.running_child,
            }
        }),
{
    let start = Effect::NotifyChild(child_index, ChildMessage::Start);
    if let Ok(effects) = process.reply_to_turn(response) {
        if effects.len() == 1 && effects[0] == start {
            assert(effects.contains(start));
        }
        if effects.len() == 2 && effects[1] == start {
            assert(effects.contains(start));
        }
    }
}

/// One turn of a sequence is the handling of one message: of the parent, or of a child.
pub proof fn law_sequence_turn_is_one_message(
    process: SequenceProcess,
    from_parent: ChildMessage,
    from_child: ParentMessage,
    child_index: usize,
)
    ensures
        process.after_turn(Ok(FutResponse::Parent(from_parent))) == process.after_parent(
            from_parent,
        ),
        process.reply_to_turn(Ok(FutResponse::Parent(from_parent))) == process.reply_to_parent(
            from_parent,
        ),
        process.after_turn(Ok(FutResponse::Child(child_index, from_child)))
            == process.after_child(from_child, child_index),
        process.reply_to_turn(Ok(FutResponse::Child(child_index, from_child)))
            == process.reply_to_child(from_child, child_index),
{
}

/// A new sequence is idle, has started no child, and is ready to be served.
pub proof fn law_new_sequence_is_idle(process: SequenceProcess, name: Seq<char>, children: nat, blocking: bool)
    requires
        process.is_new(name, children, blocking),
    ensures
        process.name@ == name,
        process.children == children,
        process.blocking == blocking,
        process.status is Idle,
        process.running_child is None,
        process.wf(),
{
}

/// When a child has succeeded, a running sequence starts the one behind it, and has
/// succeeded itself if the last child was running. One that was told to stop takes the
/// success for its own only if the last child was running, and fails else. One that is
/// through already does not care.
pub proof fn law_sequence_goes_on_after_success(
    process: SequenceProcess,
    child_index: usize,
    current: usize,
)
    requires
        process.wf(),
        process.running_child == Some(current),
        process.can_take(
            Ok(FutResponse::Child(child_index, ParentMessage::Status(Status::Success))),
        ),
    ensures
        ({
            let success = Ok::<FutResponse, NodeError>(
                FutResponse::Child(child_index, ParentMessage::Status(Status::Success)),
            );
            let next = (child_index + 1) as usize;
            let succeeds = Ok::<Seq<Effect>, NodeError>(
                seq![Effect::NotifyParent(ParentMessage::Status(Status::Success))],
            );
            let fails = Ok::<Seq<Effect>, NodeError>(
                seq![Effect::NotifyParent(ParentMessage::Status(Status::Failure))],
            );
            let is_last = current + 1 == process.children;
            let reply = process.reply_to_turn(success);
            let after = process.after_turn(success);
            &&& process.status is Running && !is_last ==> {
                &&& next == child_index + 1 < process.children
                &&& reply == Ok::<Seq<Effect>, NodeError>(seq![Effect::NotifyChild(next, ChildMessage::Start)])
                &&& after == (SequenceProcess { running_child: Some(next), ..process })
            }
            &&& (process.status is Running || process.status is Idle) && is_last ==> {
                &&& reply == succeeds
                &&& after == (SequenceProcess { status: Status::Success, ..process })
            }
            &&& process.status is Idle && !is_last ==> {
                &&& reply == fails
                &&& after == (SequenceProcess { status: Status::Failure, ..process })
            }
            &&& process.status is Success || process.status is Failure ==> {
                &&& reply == Ok::<Seq<Effect>, NodeError>(seq![])
                &&& after == process
            }
        }),
{
}

/// A success that reaches an idle sequence which never started a child is no success of
/// the sequence.
pub proof fn law_unstarted_sequence_does_not_succeed(process: SequenceProcess, child_index: usize)
    requires
        process.status is Idle,
        process.running_child is None,
    ensures
        ({
            let success = Ok::<FutResponse, NodeError>(
                FutResponse::Child(child_index, ParentMessage::Status(Status::Success)),
            );
            &&& process.reply_to_turn(success) == Ok::<Seq<Effect>, NodeError>(
                seq![Effect::NotifyParent(ParentMessage::Status(Status::Failure))],
            )
            &&& process.after_turn(success) == (SequenceProcess {
                status: Status::Failure,
                ..process
            })
        }),
{
}

/// A sequence fails as soon as any child does, and starts no other.
pub proof fn law_sequence_fails_with_any_child(process: SequenceProcess, child_index: usize)
    ensures
        ({
            let failure = Ok::<FutResponse, NodeError>(
                FutResponse::Child(child_index, ParentMessage::Status(Status::Failure)),
            );
            &&& process.reply_to_turn(failure) == Ok::<Seq<Effect>, NodeError>(
                seq![Effect::NotifyParent(ParentMessage::Status(Status::Failure))],
            )
            &&& process.after_turn(failure) == (SequenceProcess {
                status: Status::Failure,
                ..process
            })
        }),
{
}

/// That a child asks to be started is handed on by a sequence that has failed, and by no
/// other, and changes nothing.
pub proof fn law_failed_sequence_hands_on_requests(process: SequenceProcess, child_index: usize)
    ensures
        ({
            let request = Ok::<FutResponse, NodeError>(
                FutResponse::Child(child_index, ParentMessage::RequestStart),
            );
            &&& process.after_turn(request) == process
            &&& process.reply_to_turn(request) == Ok::<Seq<Effect>, NodeError>(
                if process.status is Failure {
                    seq![Effect::NotifyParent(ParentMessage::RequestStart)]
                } else {
                    seq![]
                },
            )
        }),
{
}

/// All that a sequence can be asked, it can take, but for a start without children and a
/// success that has no child behind it.
pub proof fn law_sequence_takes_every_message(
    process: SequenceProcess,
    response: Result<FutResponse, NodeError>,
)
    requires
        process.wf(),
        0 < process.children,
        response matches Ok(FutResponse::Child(child_index, _)) ==> child_index
            < process.children - 1 || process.running_child == Some(child_index),
    ensures
        process.can_take(response),
        response matches Ok(FutResponse::Child(child_index, msg)) ==> process.can_hear(
            msg,
            child_index,
        ),
{
}

/// All that a sequence says, from the start on, while the first children answer one after
/// the other.
pub open spec fn sequence_transcript(process: SequenceProcess, answers: Seq<bool>) -> Seq<Effect>
    decreases answers.len(),
{
    if answers.len() == 0 {
        process.reply_to_turn(Ok(FutResponse::Parent(ChildMessage::Start)))->Ok_0
    } else {
        let before = process.played(answers.drop_last());
        let status = if answers.last() {
            Status::Success
        } else {
            Status::Failure
        };
        let answer = FutResponse::Child(
            before.running_child->0,
            ParentMessage::Status(status),
        );
        sequence_transcript(process, answers.drop_last()) + before.reply_to_turn(Ok(answer))->Ok_0
    }
}

/// A sequence tells its parent that it runs, starts every child in turn, each once and
/// none left out, and tells its parent how it ended: with the first failure, or with
/// success behind the last child.
pub proof fn law_sequence_starts_every_child_in_turn(process: SequenceProcess, answers: Seq<bool>)
    requires
        process.wf(),
        process.status !is Running,
        0 < process.children,
        answers.len() <= process.children,
        answers.len() > 0 ==> !answers.drop_last().contains(false),
    ensures
        ({
            let running = Effect::NotifyParent(ParentMessage::Status(Status::Running));
            let n = answers.len();
            let upto = if n > 0 && (!answers.last() || n == process.children) {
                n
            } else {
                n + 1
            };
            let starts = Seq::new(
                upto,
                |i: int| Effect::NotifyChild(i as usize, ChildMessage::Start),
            );
            let said = sequence_transcript(process, answers);
            if n > 0 && !answers.last() {
                said == seq![running] + starts + seq![
                    Effect::NotifyParent(ParentMessage::Status(Status::Failure)),
                ]
            } else if n == process.children {
                said == seq![running] + starts + seq![
                    Effect::NotifyParent(ParentMessage::Status(Status::Success)),
                ]
            } else {
                said == seq![running] + starts
            }
        }),
    decreases answers.len(),
{
    if answers.len() > 0 {
        let earlier = answers.drop_last();
        let n = earlier.len();
        assert(n > 0 ==> !earlier.drop_last().contains(false)) by {
            if n > 0 && earlier.drop_last().contains(false) {
                let i = choose|i: int|
                    0 <= i < earlier.drop_last().len() && earlier.drop_last()[i] == false;
                assert(earlier[i] == false);
            }
        }
        if n > 0 {
            assert(earlier[n - 1] == earlier.last());
        }
        law_sequence_starts_every_child_in_turn(process, earlier);
        law_sequence_is_conjunction(process, earlier);
        let starts = Seq::new(
            n + 1,
            |i: int| Effect::NotifyChild(i as usize, ChildMessage::Start),
        );
        let more = Seq::new(
            n + 2,
            |i: int| Effect::NotifyChild(i as usize, ChildMessage::Start),
        );
        assert(more =~= starts.push(Effect::NotifyChild((n + 1) as usize, ChildMessage::Start)));
    }
}

/// A sequence that is through, with success or with failure, takes no notice of the success of a
/// child.
pub proof fn law_finished_sequence_ignores_success(process: SequenceProcess, child_index: usize)
    requires
        process.status is Success || process.status is Failure,
    ensures
        ({
            let late = Ok::<FutResponse, NodeError>(
                FutResponse::Child(child_index, ParentMessage::Status(Status::Success)),
            );
            &&& process.reply_to_turn(late) == Ok::<Seq<Effect>, NodeError>(seq![])
            &&& process.after_turn(late) == process
        }),
{
}

} // verus!
