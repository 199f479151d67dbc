//! A fallback tries its children one after the other, and succeeds with the first
//! that does. A child that comes earlier takes precedence over one that comes later.
use vstd::prelude::*;

use crate::bt::handle::{
    reacts, ChildMessage, Effect, FutResponse, NodeError, NodeHandle, ParentMessage, Status,
};

verus! {

/// A fallback that runs to its end once it is started.
pub struct BlockingFallback {}

impl BlockingFallback {
    pub fn new(children: Vec<NodeHandle>) -> (node: (NodeHandle, Fallback))
        ensures
            node.0.is_parent("Fallback"@, "default_fallback"@, children@),
            node.1.is_new("default_fallback"@, children@.len(), true),
    {
        Fallback::_init(children, String::from_str("default_fallback"), true)
    }

    pub fn new_with_name(name: String, children: Vec<NodeHandle>) -> (node: (NodeHandle, Fallback))
        ensures
            node.0.is_parent("Fallback"@, name@, children@),
            node.1.is_new(name@, children@.len(), true),
    {
        Fallback::_init(children, name, true)
    }
}

/// The state of a fallback. One made by `Fallback` itself stops when it is told to.
#[derive(Debug)]
pub struct Fallback {
    pub name: String,
    /// The number of children.
    pub children: usize,
    /// The child that was started last.
    pub running_child: Option<usize>,
    /// The child that is started as soon as the running child has failed.
    pub prio_child_on_hold: Option<usize>,
    pub status: Status,
    /// Whether a running fallback ignores the request to stop.
    pub blocking: bool,
}

impl Fallback {
    /// A started child and one on hold are among the children, and a running fallback
    /// has started one.
    pub open spec fn wf(self) -> bool {
        &&& self.running_child matches Some(child) ==> child < self.children
        &&& self.prio_child_on_hold matches Some(child) ==> child < self.children
        &&& self.status is Running ==> self.running_child is Some
    }

    /// Whether nothing has happened to this fallback yet.
    pub open spec fn is_new(self, name: Seq<char>, children: nat, blocking: bool) -> bool {
        &&& self.name@ == name
        &&& self.children == children
        &&& self.running_child is None
        &&& self.prio_child_on_hold is None
        &&& self.status is Idle
        &&& self.blocking == blocking
    }

    /// The state after a message of the parent.
    pub open spec fn after_parent(self, msg: ChildMessage) -> Self {
        match msg {
            ChildMessage::Start if self.status !is Running => Fallback {
                status: Status::Running,
                running_child: Some(0),
                ..self
            },
            ChildMessage::Stop if self.status is Running && !self.blocking => Fallback {
                status: Status::Idle,
                ..self
            },
            _ => self,
        }
    }

    /// What a message of the parent leads to.
    pub open spec fn reply_to_parent(self, msg: ChildMessage) -> Result<Seq<Effect>, NodeError> {
        match msg {
            ChildMessage::Start if self.status !is Running => Ok(
                seq![
                    Effect::NotifyParent(ParentMessage::Status(Status::Running)),
                    Effect::NotifyChild(0, ChildMessage::Start),
                ],
            ),
            ChildMessage::Stop if self.status is Running && !self.blocking => Ok(
                seq![Effect::NotifyChild(self.running_child->0, ChildMessage::Stop)],
            ),
            ChildMessage::Kill => Err(NodeError::KillError),
            _ => Ok(seq![]),
        }
    }

    /// Whether a request to start pushes the running child aside: it comes from a
    /// child that is no later than the running one.
    pub open spec fn takes_precedence(self, child_index: usize) -> bool {
        &&& self.status is Running
        &&& self.running_child matches Some(current)
        &&& child_index <= current
    }

    /// The child that a running fallback turns to when a child has failed: the one on
    /// hold, else the next one.
    pub open spec fn next_child(self) -> Option<usize> {
        if self.prio_child_on_hold is Some {
            self.prio_child_on_hold
        } else if self.running_child matches Some(current) && current < self.children - 1 {
            Some((self.running_child->0 + 1) as usize)
        } else {
            None
        }
    }

    /// The state after a message of a child.
    pub open spec fn after_child(self, msg: ParentMessage, child_index: usize) -> Self {
        match msg {
            ParentMessage::RequestStart if self.takes_precedence(child_index) => Fallback {
                prio_child_on_hold: Some(child_index),
                ..self
            },
            ParentMessage::Status(Status::Success) => Fallback { status: Status::Success, ..self },
            ParentMessage::Status(Status::Failure) => match self.status {
                Status::Running => match self.next_child() {
                    Some(next) => Fallback {
                        running_child: Some(next),
                        prio_child_on_hold: None,
                        ..self
                    },
                    None => Fallback { status: Status::Failure, ..self },
                },
                Status::Idle => Fallback { status: Status::Failure, ..self },
                _ => self,
            },
            _ => self,
        }
    }

    /// What a message of a child leads to.
    pub open spec fn reply_to_child(self, msg: ParentMessage, child_index: usize) -> Result<
        Seq<Effect>,
        NodeError,
    > {
        match msg {
            ParentMessage::RequestStart if self.status is Failure => Ok(
                seq![Effect::NotifyParent(ParentMessage::RequestStart)],
            ),
            ParentMessage::RequestStart if self.takes_precedence(child_index) => Ok(
                seq![Effect::NotifyChild(self.running_child->0, ChildMessage::Stop)],
            ),
            ParentMessage::Status(Status::Success) => Ok(
                seq![Effect::NotifyParent(ParentMessage::Status(Status::Success))],
            ),
            ParentMessage::Status(Status::Failure) => match self.status {
                Status::Running => match self.next_child() {
                    Some(next) => Ok(seq![Effect::NotifyChild(next, ChildMessage::Start)]),
                    None => Ok(seq![Effect::NotifyParent(ParentMessage::Status(Status::Failure))]),
                },
                Status::Idle => Ok(
                    seq![Effect::NotifyParent(ParentMessage::Status(Status::Failure))],
                ),
                _ => Ok(seq![]),
            },
            ParentMessage::Poison(err) => Err(err),
            _ => Ok(seq![]),
        }
    }

    pub fn new(children: Vec<NodeHandle>) -> (node: (NodeHandle, Fallback))
        ensures
            node.0.is_parent("Fallback"@, "default_fallback"@, children@),
            node.1.is_new("default_fallback"@, children@.len(), false),
    {
        Self::_init(children, String::from_str("default_fallback"), false)
    }

    pub fn new_with_name(name: String, children: Vec<NodeHandle>) -> (node: (NodeHandle, Fallback))
        ensures
            node.0.is_parent("Fallback"@, name@, children@),
            node.1.is_new(name@, children@.len(), false),
    {
        Self::_init(children, name, false)
    }

    /// Makes a fallback of the given children: the handle by which others know it, and
    /// the process that has to be served.
    pub fn _init(children: Vec<NodeHandle>, name: String, blocking: bool) -> (node: (
        NodeHandle,
        Fallback,
    ))
        ensures
            node.0.is_parent("Fallback"@, name@, children@),
            node.1.is_new(name@, children@.len(), blocking),
    {
        let process = Self::_new(name.clone(), children.len(), blocking);
        (NodeHandle::parent_of(String::from_str("Fallback"), name, children), process)
    }

    pub fn _new(name: String, children: usize, blocking: bool) -> (process: Self)
        ensures
            process == (Fallback {
                name,
                children,
                running_child: None,
                prio_child_on_hold: None,
                status: Status::Idle,
                blocking,
            }),
            process.wf(),
    {
        Self {
            name,
            children,
            running_child: None,
            prio_child_on_hold: None,
            status: Status::Idle,
            blocking,
        }
    }

    fn update_status(&mut self, status: Status) -> (effect: Effect)
        ensures
            *final(self) == (Fallback { status, ..*old(self) }),
            effect == Effect::NotifyParent(ParentMessage::Status(status)),
    {
        self.status = status;
        Effect::NotifyParent(ParentMessage::Status(status))
    }

    fn start_child(&mut self, child_index: usize) -> (effect: Effect)
        ensures
            *final(self) == (Fallback { running_child: Some(child_index), ..*old(self) }),
            effect == Effect::NotifyChild(child_index, ChildMessage::Start),
    {
        self.running_child = Some(child_index);
        Effect::NotifyChild(child_index, ChildMessage::Start)
    }

    /// Handles a message of the parent.
    pub fn process_msg_from_parent(&mut self, msg: ChildMessage) -> (result: Result<
        Vec<Effect>,
        NodeError,
    >)
        requires
            old(self).wf(),
            msg is Start ==> old(self).children > 0,
        ensures
            final(self).wf(),
            *final(self) == old(self).after_parent(msg),
            reacts(result, old(self).reply_to_parent(msg)),
    {
        match msg {
            ChildMessage::Start => {
                if !self.status.is_running() {
                    return Ok(vec![self.update_status(Status::Running), self.start_child(0)]);
                }
            },
            ChildMessage::Stop => {
                if self.status.is_running() && !self.blocking {
                    if let Some(child_index) = self.running_child {
                        self.status = Status::Idle;
                        return Ok(vec![Effect::NotifyChild(child_index, ChildMessage::Stop)]);
                    }
                }
            },
            ChildMessage::Kill => return Err(NodeError::KillError),
        }
        Ok(vec![])
    }

    /// Handles a message of a child.
    pub fn process_msg_from_child(&mut self, msg: ParentMessage, child_index: usize) -> (result:
        Result<Vec<Effect>, NodeError>)
        requires
            old(self).wf(),
        ensures
            final(self).wf(),
            *final(self) == old(self).after_child(msg, child_index),
            reacts(result, old(self).reply_to_child(msg, child_index)),
    {
        match msg {
            ParentMessage::RequestStart => match self.status {
                Status::Failure => {
                    return Ok(vec![Effect::NotifyParent(ParentMessage::RequestStart)]);
                },
                Status::Running => {
                    if let Some(current_child_index) = self.running_child {
                        if child_index <= current_child_index {
                            // The new child waits until the current one has failed
                            self.prio_child_on_hold = Some(child_index);
                            return Ok(
                                vec![Effect::NotifyChild(current_child_index, ChildMessage::Stop)],
                            );
                        }
                    }
                },
                Status::Idle | Status::Success => {},
            },
            ParentMessage::Status(Status::Success) => {
                return Ok(vec![self.update_status(Status::Success)]);
            },
            ParentMessage::Status(Status::Failure) => {
                if self.status.is_running() {
                    if let Some(prio_child_index) = self.prio_child_on_hold {
                        self.prio_child_on_hold = None;
                        return Ok(vec![self.start_child(prio_child_index)]);
                    } else if let Some(current_child_index) = self.running_child {
                        if current_child_index < self.children - 1 {
                            return Ok(vec![self.start_child(current_child_index + 1)]);
                        } else {
                            return Ok(vec![self.update_status(Status::Failure)]);
                        }
                    }
                } else if self.status.is_idle() {
                    // The fallback was stopped, and its parent waits for confirmation
                    return Ok(vec![self.update_status(Status::Failure)]);
                }
            },
            ParentMessage::Status(_) => {},
            ParentMessage::Poison(err) => return Err(err),
            ParentMessage::Killed => {},
        }
        Ok(vec![])
    }

    /// Whether this turn leads to no child that does not exist.
    pub open spec fn can_take(self, response: Result<FutResponse, NodeError>) -> bool {
        match response {
            Ok(FutResponse::Parent(msg)) => msg is Start ==> self.children > 0,
            Ok(FutResponse::Child(_, _)) => true,
            Err(_) => true,
        }
    }

    /// Whether this turn leads to no child that does not exist.
    pub fn accepts(&self, response: &Result<FutResponse, NodeError>) -> (r: bool)
        ensures
            r == self.can_take(*response),
    {
        match response {
            Ok(FutResponse::Parent(ChildMessage::Start)) => self.children > 0,
            Ok(FutResponse::Parent(_)) => true,
            Ok(FutResponse::Child(..)) => true,
            Err(_) => true,
        }
    }

    /// The state after one turn.
    pub open spec fn after_turn(self, response: Result<FutResponse, NodeError>) -> Self {
        match response {
            Ok(FutResponse::Parent(msg)) => self.after_parent(msg),
            Ok(FutResponse::Child(child_index, msg)) => self.after_child(msg, child_index),
            Err(_) => self,
        }
    }

    /// What one turn leads to.
    pub open spec fn reply_to_turn(self, response: Result<FutResponse, NodeError>) -> Result<
        Seq<Effect>,
        NodeError,
    > {
        match response {
            Ok(FutResponse::Parent(msg)) => self.reply_to_parent(msg),
            Ok(FutResponse::Child(child_index, msg)) => self.reply_to_child(msg, child_index),
            Err(err) => Err(err),
        }
    }

    /// One turn of serving: handles the first message that arrived, from the parent or
    /// from any child. An error ends the fallback.
    pub fn _serve(&mut self, response: Result<FutResponse, NodeError>) -> (result: Result<
        Vec<Effect>,
        NodeError,
    >)
        requires
            old(self).wf(),
            old(self).can_take(response),
        ensures
            final(self).wf(),
            *final(self) == old(self).after_turn(response),
            reacts(result, old(self).reply_to_turn(response)),
    {
        match response {
            Ok(FutResponse::Parent(msg)) => self.process_msg_from_parent(msg),
            Ok(FutResponse::Child(child_index, msg)) => self.process_msg_from_child(
                msg,
                child_index,
            ),
            Err(err) => Err(err),
        }
    }

    /// The state after a start, followed by the answers of the first children in their
    /// order: each child that was started reports success or failure.
    pub open spec fn played(self, answers: Seq<bool>) -> Self
        decreases answers.len(),
    {
        if answers.len() == 0 {
            self.after_parent(ChildMessage::Start)
        } else {
            let before = self.played(answers.drop_last());
            if before.status is Running {
                let status = if answers.last() {
                    Status::Success
                } else {
                    Status::Failure
                };
                before.after_child(ParentMessage::Status(status), before.running_child->0)
            } else {
                before
            }
        }
    }
}

/// A fallback is the disjunction of its children: it tries them in order, goes on
/// for as long as they fail, fails when all of them have and succeeds with the first
/// that succeeds. This is so when no child is left on hold from an earlier run.
pub proof fn law_fallback_is_disjunction(process: Fallback, answers: Seq<bool>)
    requires
        process.wf(),
        process.status !is Running,
        process.prio_child_on_hold is None,
        0 < process.children,
        answers.len() <= process.children,
    ensures
        process.played(answers).wf(),
        process.played(answers).children == process.children,
        process.played(answers).prio_child_on_hold is None,
        answers.contains(true) ==> process.played(answers).status is Success,
        !answers.contains(true) && answers.len() == process.children ==> process.played(
            answers,
        ).status is Failure,
        !answers.contains(true) && answers.len() < process.children ==> {
            &&& process.played(answers).status is Running
            &&& process.played(answers).running_child == Some(answers.len() as usize)
        },
    decreases answers.len(),
{
    if answers.len() > 0 {
        let earlier = answers.drop_last();
        law_fallback_is_disjunction(process, earlier);
        assert(answers == earlier.push(answers.last()));
        if earlier.contains(true) {
            let i = choose|i: int| 0 <= i < earlier.len() && earlier[i] == true;
            assert(answers[i] == true);
        } else if answers.last() {
            assert(answers[answers.len() - 1] == true);
        } else {
            assert(!answers.contains(true)) by {
                if answers.contains(true) {
                    let i = choose|i: int| 0 <= i < answers.len() && answers[i] == true;
                    assert(earlier[i] == true);
                }
            }
        }
    }
}

/// A fallback reports success exactly when a child does.
pub proof fn law_fallback_success_is_a_childs(
    process: Fallback,
    response: Result<FutResponse, NodeError>,
)
    ensures
        match process.reply_to_turn(response) {
            Ok(effects) => effects.contains(
                Effect::NotifyParent(ParentMessage::Status(Status::Success)),
            ) <==> (response matches Ok(FutResponse::Child(_, msg)) && msg
                == ParentMessage::Status(Status::Success)),
            Err(_) => true,
        },
{
    let success = Effect::NotifyParent(ParentMessage::Status(Status::Success));
    assert(seq![success][0] == success);
}

/// A blocking fallback that runs cannot be stopped: the request changes nothing.
pub proof fn law_blocking_fallback_ignores_stop(process: Fallback)
    requires
        process.blocking,
    ensures
        process.after_parent(ChildMessage::Stop) == process,
        process.reply_to_parent(ChildMessage::Stop) == Ok::<Seq<Effect>, NodeError>(seq![]),
{
}

/// A running fallback that may be stopped passes the request to the child that runs,
/// and answers its parent with the status with which that child comes to an end. No
/// other child is tried any more.
pub proof fn law_fallback_stop_is_confirmed(
    process: Fallback,
    child_index: usize,
    success: bool,
)
    requires
        process.wf(),
        process.status is Running,
        !process.blocking,
        process.running_child == Some(child_index),
    ensures
        process.reply_to_parent(ChildMessage::Stop) == Ok::<Seq<Effect>, NodeError>(
            seq![Effect::NotifyChild(child_index, ChildMessage::Stop)],
        ),
        ({
            let stopped = process.after_parent(ChildMessage::Stop);
            let answer = if success {
                Status::Success
            } else {
                Status::Failure
            };
            &&& stopped.reply_to_child(ParentMessage::Status(answer), child_index) == Ok::<
                Seq<Effect>,
                NodeError,
            >(seq![Effect::NotifyParent(ParentMessage::Status(answer))])
            &&& stopped.after_child(ParentMessage::Status(answer), child_index).status == answer
        }),
{
}

/// A running fallback switches to a child that asks to start and comes no later than
/// the running one: the running child is stopped, and when it has failed the other one
/// is started, without a word to the parent. A request of a later child has no effect.
pub proof fn law_fallback_switches_to_priority(process: Fallback, current: usize, prio: usize)
    requires
        process.wf(),
        process.status is Running,
        process.running_child == Some(current),
        prio < process.children,
    ensures
        prio <= current ==> {
            let held = process.after_child(ParentMessage::RequestStart, prio);
            let failed = ParentMessage::Status(Status::Failure);
            &&& process.reply_to_child(ParentMessage::RequestStart, prio) == Ok::<
                Seq<Effect>,
                NodeError,
            >(seq![Effect::NotifyChild(current, ChildMessage::Stop)])
            &&& held.reply_to_child(failed, current) == Ok::<Seq<Effect>, NodeError>(
                seq![Effect::NotifyChild(prio, ChildMessage::Start)],
            )
            &&& held.after_child(failed, current) == (Fallback {
                running_child: Some(prio),
                prio_child_on_hold: None,
                ..process
            })
        },
        prio > current ==> {
            &&& process.reply_to_child(ParentMessage::RequestStart, prio) == Ok::<
                Seq<Effect>,
                NodeError,
            >(seq![])
            &&& process.after_child(ParentMessage::RequestStart, prio) == process
        },
{
}

/// A fallback that is not running is started from the beginning, whatever happened before:
/// it tells its parent that it runs and starts its first child. One that runs takes no
/// notice.
pub proof fn law_fallback_starts_with_its_first_child(process: Fallback)
    ensures
        ({
            let start = Ok::<FutResponse, NodeError>(FutResponse::Parent(ChildMessage::Start));
            &&& process.status !is Running ==> {
                &&& process.reply_to_turn(start) == Ok::<Seq<Effect>, NodeError>(
                    seq![
                        Effect::NotifyParent(ParentMessage::Status(Status::Running)),
                        Effect::NotifyChild(0, ChildMessage::Start),
                    ],
                )
                &&& process.after_turn(start) == (Fallback {
                    status: Status::Running,
                    running_child: Some(0),
                    ..process
                })
            }
            &&& process.status is Running ==> {
                &&& process.reply_to_turn(start) == Ok::<Seq<Effect>, NodeError>(seq![])
                &&& process.after_turn(start) == process
            }
        }),
{
}

/// A fallback hands on the request to stop to the child that runs, and to no other, if it
/// runs and may be stopped. Its parent has to wait for the answer. Else nothing happens.
pub proof fn law_fallback_stops_its_running_child(process: Fallback, child_index: usize)
    requires
        process.wf(),
    ensures
        ({
            let stop = Ok::<FutResponse, NodeError>(FutResponse::Parent(ChildMessage::Stop));
            &&& process.status is Running && !process.blocking && process.running_child == Some(
                child_index,
            ) ==> {
                &&& process.reply_to_turn(stop) == Ok::<Seq<Effect>, NodeError>(
                    seq![Effect::NotifyChild(child_index, ChildMessage::Stop)],
                )
                &&& process.after_turn(stop) == (Fallback { status: Status::Idle, ..process })
            }
            &&& process.status !is Running || process.blocking ==> {
                &&& process.reply_to_turn(stop) == Ok::<Seq<Effect>, NodeError>(seq![])
                &&& process.after_turn(stop) == process
            }
        }),
{
}

/// What a child says of itself short of an end, and that it was killed, neither moves a
/// fallback nor makes it speak.
pub proof fn law_fallback_waits_for_an_end(process: Fallback, child_index: usize, running: bool)
    ensures
        ({
            let status = if running {
                Status::Running
            } else {
                Status::Idle
            };
            let says = Ok::<FutResponse, NodeError>(
                FutResponse::Child(child_index, ParentMessage::Status(status)),
            );
            let dies = Ok::<FutResponse, NodeError>(FutResponse::Child(child_index, ParentMessage::Killed));
            &&& process.reply_to_turn(says) == Ok::<Seq<Effect>, NodeError>(seq![])
            &&& process.after_turn(says) == process
            &&& process.reply_to_turn(dies) == Ok::<Seq<Effect>, NodeError>(seq![])
            &&& process.after_turn(dies) == process
        }),
{
}

/// The request to die, the poison of any child and a message that could not be received
/// end a fallback, with the error that each of them stands for.
pub proof fn law_fallback_ends_with_the_error(process: Fallback, child_index: usize, err: NodeError)
    ensures
        process.reply_to_turn(Ok(FutResponse::Parent(ChildMessage::Kill))) == Err::<Seq<Effect>, NodeError>(
            NodeError::KillError,
        ),
        process.reply_to_turn(Ok(FutResponse::Child(child_index, ParentMessage::Poison(err))))
            == Err::<Seq<Effect>, NodeError>(err),
        process.reply_to_turn(Err(err)) == Err::<Seq<Effect>, NodeError>(err),
        process.after_turn(Ok(FutResponse::Parent(ChildMessage::Kill))) == process,
        process.after_turn(Ok(FutResponse::Child(child_index, ParentMessage::Poison(err))))
            == process,
        process.after_turn(Err(err)) == process,
{
}

/// A fallback says of itself what it is: a status that it reports is the one that it has
/// from then on, and it takes on no other in silence, except that it stands idle after a
/// stop until its child has answered. What it is made of never changes.
pub proof fn law_fallback_reports_its_status(
    process: Fallback,
    response: Result<FutResponse, NodeError>,
    status: Status,
)
    requires
        process.wf(),
        process.can_take(response),
    ensures
        ({
            let after = process.after_turn(response);
            &&& after.name == process.name
            &&& after.children == process.children
            &&& after.blocking == process.blocking
            &&& match process.reply_to_turn(response) {
                Ok(effects) => {
                    &&& effects.contains(Effect::NotifyParent(ParentMessage::Status(status)))
                        ==> after.status == status
                    &&& after.status == status && process.status != status ==> {
                        ||| effects.contains(Effect::NotifyParent(ParentMessage::Status(status)))
                        ||| status is Idle && response == Ok::<FutResponse, NodeError>(
                            FutResponse::Parent(ChildMessage::Stop),
                        )
                    }
                },
                Err(_) => after == process,
            }
        }),
{
    let reported = Effect::NotifyParent(ParentMessage::Status(process.after_turn(response).status));
    if let Ok(effects) = process.reply_to_turn(response) {
        if effects.len() > 0 && effects[0] == reported {
            assert(effects.contains(reported));
        }
    }
}

/// The child that a fallback starts is the one that it holds for running: whoever is started
/// is the running child of a running fallback afterwards, and no child becomes the running
/// one without being started.
pub proof fn law_fallback_starts_its_running_child(
    process: Fallback,
    response: Result<FutResponse, NodeError>,
    child_index: usize,
)
    requires
        process.wf(),
        process.can_take(response),
    ensures
        ({
            let after = process.after_turn(response);
            let start = Effect::NotifyChild(child_index, ChildMessage::Start);
            match process.reply_to_turn(response) {
                Ok(effects) => {
                    &&& effects.contains(start) ==> after.status is Running && after.running_child
                        == Some(child_index)
                    &&& after.running_child == Some(child_index) && process.running_child != Some(
                        child_index,
                    ) ==> effects.contains(start)
                    &&& effects.contains(start) ==> child_index < process.children
                },
                Err(_) => after.running_child == process.running_child,
            }
        }),
{
    let start = Effect::NotifyChild(child_index, ChildMessage::Start);
    if let Ok(effects) = process.reply_to_turn(response) {
        if effects.len() == 1 && effects[0] == start {
            assert(effects.contains(start));
        }
        if effects.len() == 2 && effects[1] == start {
            assert(effects.contains(start));
        }
    }
}

/// One turn of a fallback is the handling of one message: of the parent, or of a child.
pub proof fn law_fallback_turn_is_one_message(
    process: Fallback,
    from_parent: ChildMessage,
    from_child: ParentMessage,
    child_index: usize,
)
    ensures
        process.after_turn(Ok(FutResponse::Parent(from_parent))) == process.after_parent(
            from_parent,
        ),
        process.reply_to_turn(Ok(FutResponse::Parent(from_parent))) == process.reply_to_parent(
            from_parent,
        ),
        process.after_turn(Ok(FutResponse::Child(child_index, from_child)))
            == process.after_child(from_child, child_index),
        process.reply_to_turn(Ok(FutResponse::Child(child_index, from_child)))
            == process.reply_to_child(from_child, child_index),
{
}

/// A new fallback is idle, has started no child, and is ready to be served.
pub proof fn law_new_fallback_is_idle(process: Fallback, name: Seq<char>, children: nat, blocking: bool)
    requires
        process.is_new(name, children, blocking),
    ensures
        process.name@ == name,
        process.children == children,
        process.blocking == blocking,
        process.status is Idle,
        process.running_child is None,
        process.wf(),
{
}

/// When a child of a running fallback has failed, the child on hold is started and is not
/// on hold any more. If none is on hold, the child behind the running one is started, and
/// if there is none, the fallback has failed. One that was told to stop has failed too.
/// One that is through already does not care.
pub proof fn law_fallback_goes_on_after_failure(
    process: Fallback,
    child_index: usize,
    current: usize,
)
    requires
        process.wf(),
        process.running_child == Some(current),
    ensures
        ({
            let failure = Ok::<FutResponse, NodeError>(
                FutResponse::Child(child_index, ParentMessage::Status(Status::Failure)),
            );
            let next = (current + 1) as usize;
            let fails = Ok::<Seq<Effect>, NodeError>(
                seq![Effect::NotifyParent(ParentMessage::Status(Status::Failure))],
            );
            let is_last = current + 1 == process.children;
            let reply = process.reply_to_turn(failure);
            let after = process.after_turn(failure);
            &&& process.status is Running ==> match process.prio_child_on_hold {
                Some(held) => {
                    &&& reply == Ok::<Seq<Effect>, NodeError>(seq![Effect::NotifyChild(held, ChildMessage::Start)])
                    &&& after == (Fallback {
                        running_child: Some(held),
                        prio_child_on_hold: None,
                        ..process
                    })
                },
                None => if is_last {
                    &&& reply == fails
                    &&& after == (Fallback { status: Status::Failure, ..process })
                } else {
                    &&& next == current + 1 < process.children
                    &&& reply == Ok::<Seq<Effect>, NodeError>(seq![Effect::NotifyChild(next, ChildMessage::Start)])
                    &&& after == (Fallback { running_child: Some(next), ..process })
                },
            }
            &&& process.status is Idle ==> {
                &&& reply == fails
                &&& after == (Fallback { status: Status::Failure, ..process })
            }
            &&& process.status is Success || process.status is Failure ==> {
                &&& reply == Ok::<Seq<Effect>, NodeError>(seq![])
                &&& after == process
            }
        }),
{
}

/// A failure that reaches a fallback which never started a child is confirmed, if the
/// fallback is idle.
pub proof fn law_unstarted_fallback_confirms_failure(process: Fallback, child_index: usize)
    requires
        process.status is Idle,
    ensures
        ({
            let failure = Ok::<FutResponse, NodeError>(
                FutResponse::Child(child_index, ParentMessage::Status(Status::Failure)),
            );
            &&& process.reply_to_turn(failure) == Ok::<Seq<Effect>, NodeError>(
                seq![Effect::NotifyParent(ParentMessage::Status(Status::Failure))],
            )
            &&& process.after_turn(failure) == (Fallback { status: Status::Failure, ..process })
        }),
{
}

/// A fallback succeeds as soon as any child does, and starts no other.
pub proof fn law_fallback_succeeds_with_any_child(process: Fallback, child_index: usize)
    ensures
        ({
            let success = Ok::<FutResponse, NodeError>(
                FutResponse::Child(child_index, ParentMessage::Status(Status::Success)),
            );
            &&& process.reply_to_turn(success) == Ok::<Seq<Effect>, NodeError>(
                seq![Effect::NotifyParent(ParentMessage::Status(Status::Success))],
            )
            &&& process.after_turn(success) == (Fallback { status: Status::Success, ..process })
        }),
{
}

/// That a child asks to be started is handed on by a fallback that has failed. A running
/// one stops the running child and keeps the other on hold, if that stands no later. In
/// every other case the request has no effect.
pub proof fn law_fallback_weighs_requests(process: Fallback, child_index: usize)
    requires
        process.wf(),
    ensures
        ({
            let request = Ok::<FutResponse, NodeError>(
                FutResponse::Child(child_index, ParentMessage::RequestStart),
            );
            let reply = process.reply_to_turn(request);
            let after = process.after_turn(request);
            match (process.status, process.running_child) {
                (Status::Failure, _) => {
                    &&& reply == Ok::<Seq<Effect>, NodeError>(seq![Effect::NotifyParent(ParentMessage::RequestStart)])
                    &&& after == process
                },
                (Status::Running, Some(current)) => if child_index <= current {
                    &&& reply == Ok::<Seq<Effect>, NodeError>(seq![Effect::NotifyChild(current, ChildMessage::Stop)])
                    &&& after == (Fallback { prio_child_on_hold: Some(child_index), ..process })
                } else {
                    &&& reply == Ok::<Seq<Effect>, NodeError>(seq![])
                    &&& after == process
                },
                _ => {
                    &&& reply == Ok::<Seq<Effect>, NodeError>(seq![])
                    &&& after == process
                },
            }
        }),
{
}

/// A child is put on hold and taken off it by nothing else than its request and a failure.
pub proof fn law_fallback_keeps_child_on_hold(
    process: Fallback,
    response: Result<FutResponse, NodeError>,
)
    requires
        process.after_turn(response).prio_child_on_hold != process.prio_child_on_hold,
    ensures
        process.status is Running,
        match response {
            Ok(FutResponse::Child(child_index, msg)) => {
                ||| msg == ParentMessage::Status(Status::Failure) && process.after_turn(
                    response,
                ).prio_child_on_hold is None
                ||| msg is RequestStart && process.after_turn(response).prio_child_on_hold == Some(
                    child_index,
                )
            },
            _ => false,
        },
{
}

/// All that a fallback can be asked, it can take, but for a start without children.
pub proof fn law_fallback_takes_every_message(
    process: Fallback,
    response: Result<FutResponse, NodeError>,
)
    requires
        0 < process.children || response != Ok::<FutResponse, NodeError>(
            FutResponse::Parent(ChildMessage::Start),
        ),
    ensures
        process.can_take(response),
{
}

/// All that a fallback says, from the start on, while the first children answer one after
/// the other.
pub open spec fn fallback_transcript(process: Fallback, answers: Seq<bool>) -> Seq<Effect>
    decreases answers.len(),
{
    if answers.len() == 0 {
        process.reply_to_turn(Ok(FutResponse::Parent(ChildMessage::Start)))->Ok_0
    } else {
        let before = process.played(answers.drop_last());
        let status = if answers.last() {
            Status::Success
        } else {
            Status::Failure
        };
        let answer = FutResponse::Child(
            before.running_child->0,
            ParentMessage::Status(status),
        );
        fallback_transcript(process, answers.drop_last()) + before.reply_to_turn(Ok(answer))->Ok_0
    }
}

/// A fallback tells its parent that it runs, tries every child in turn, each once and none
/// left out, and tells its parent how it ended: with the first success, or with failure
/// behind the last child. This is so when no child is left on hold from an earlier run.
pub proof fn law_fallback_tries_every_child_in_turn(process: Fallback, answers: Seq<bool>)
    requires
        process.wf(),
        process.status !is Running,
        process.prio_child_on_hold is None,
        0 < process.children,
        answers.len() <= process.children,
        answers.len() > 0 ==> !answers.drop_last().contains(true),
    ensures
        ({
            let running = Effect::NotifyParent(ParentMessage::Status(Status::Running));
            let n = answers.len();
            let upto = if n > 0 && (answers.last() || n == process.children) {
                n
            } else {
                n + 1
            };
            let starts = Seq::new(
                upto,
                |i: int| Effect::NotifyChild(i as usize, ChildMessage::Start),
            );
            let said = fallback_transcript(process, answers);
            if n > 0 && answers.last() {
                said == seq![running] + starts + seq![
                    Effect::NotifyParent(ParentMessage::Status(Status::Success)),
                ]
            } else if n == process.children {
                said == seq![running] + starts + seq![
                    Effect::NotifyParent(ParentMessage::Status(Status::Failure)),
                ]
            } else {
                said == seq![running] + starts
            }
        }),
    decreases answers.len(),
{
    if answers.len() > 0 {
        let earlier = answers.drop_last();
        let n = earlier.len();
        assert(n > 0 ==> !earlier.drop_last().contains(true)) by {
            if n > 0 && earlier.drop_last().contains(true) {
                let i = choose|i: int|
                    0 <= i < earlier.drop_last().len() && earlier.drop_last()[i] == true;
                assert(earlier[i] == true);
            }
        }
        if n > 0 {
            assert(earlier[n - 1] == earlier.last());
        }
        law_fallback_tries_every_child_in_turn(process, earlier);
        law_fallback_is_disjunction(process, earlier);
        let starts = Seq::new(
            n + 1,
            |i: int| Effect::NotifyChild(i as usize, ChildMessage::Start),
        );
        let more = Seq::new(
            n + 2,
            |i: int| Effect::NotifyChild(i as usize, ChildMessage::Start),
        );
        assert(more =~= starts.push(Effect::NotifyChild((n + 1) as usize, ChildMessage::Start)));
    }
}

/// A fallback that is through, with success or with failure, takes no notice of the failure of a
/// child.
pub proof fn law_finished_fallback_ignores_failure(process: Fallback, child_index: usize)
    requires
        process.status is Success || process.status is Failure,
    ensures
        ({
            let late = Ok::<FutResponse, NodeError>(
                FutResponse::Child(child_index, ParentMessage::Status(Status::Failure)),
            );
            &&& process.reply_to_turn(late) == Ok::<Seq<Effect>, NodeError>(seq![])
            &&& process.after_turn(late) == process
        }),
{
}

} // verus!
