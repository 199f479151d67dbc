//! A loop starts its child over and over again, until it is told to stop.
use vstd::prelude::*;

use crate::bt::handle::{
    reacts, ChildMessage, Effect, NodeError, NodeHandle, ParentMessage, RecvError, Status,
};

verus! {

/// What a loop waits for.
#[derive(PartialEq, Eq, Structural, Debug, Clone, Copy)]
pub enum LoopPhase {
    /// For a message of the parent or the child.
    Serving,
    /// For the pause between two runs of the child to be over.
    Pausing,
    /// For the child to confirm that it stopped.
    Stopping,
}

/// What a loop reacts to.
#[derive(PartialEq, Eq, Debug)]
pub enum LoopEvent {
    Parent(Result<ChildMessage, RecvError>),
    Child(Result<ParentMessage, NodeError>),
    /// The pause is over.
    Paused,
}

/// The state of a loop.
#[derive(Debug)]
pub struct LoopDecorator {
    pub name: String,
    pub status: Status,
    /// How long to wait between two runs of the child.
    pub pause_millis: u64,
    pub phase: LoopPhase,
}

impl LoopDecorator {
    /// Only a running loop waits for its child to stop.
    pub open spec fn wf(self) -> bool {
        self.phase is Stopping ==> self.status is Running
    }

    /// Whether this is what the loop waits for.
    pub open spec fn awaits(self, event: LoopEvent) -> bool {
        match event {
            LoopEvent::Parent(_) => self.phase is Serving,
            LoopEvent::Child(_) => self.phase is Serving || self.phase is Stopping,
            LoopEvent::Paused => self.phase is Pausing,
        }
    }

    /// Whether nothing has happened to this loop yet.
    pub open spec fn is_new(self, name: Seq<char>, pause_millis: u64) -> bool {
        &&& self.name@ == name
        &&& self.status is Idle
        &&& self.pause_millis == pause_millis
        &&& self.phase is Serving
    }

    /// The state after a message of the parent.
    pub open spec fn after_parent(self, msg: ChildMessage) -> Self {
        match msg {
            ChildMessage::Start => LoopDecorator { status: Status::Running, ..self },
            ChildMessage::Stop => if self.status is Running {
                LoopDecorator { phase: LoopPhase::Stopping, ..self }
            } else {
                LoopDecorator { status: Status::Failure, ..self }
            },
            ChildMessage::Kill => self,
        }
    }

    /// What a message of the parent leads to. A loop that is not running fails at once
    /// when it is told to stop, so that its parent does not wait.
    pub open spec fn reply_to_parent(self, msg: ChildMessage) -> Result<Seq<Effect>, NodeError> {
        match msg {
            ChildMessage::Start => if self.status is Running {
                Ok(seq![])
            } else {
                Ok(
                    seq![
                        Effect::NotifyParent(ParentMessage::Status(Status::Running)),
                        Effect::NotifyChild(0, ChildMessage::Start),
                    ],
                )
            },
            ChildMessage::Stop => if self.status is Running {
                Ok(seq![Effect::NotifyChild(0, ChildMessage::Stop)])
            } else {
                Ok(seq![Effect::NotifyParent(ParentMessage::Status(Status::Failure))])
            },
            ChildMessage::Kill => Err(NodeError::KillError),
        }
    }

    /// The state after a message of the child: a child that came to an end, be it with
    /// success or failure, is started again after a pause.
    pub open spec fn after_child(self, msg: ParentMessage) -> Self {
        match msg {
            ParentMessage::Status(Status::Success) | ParentMessage::Status(
                Status::Failure,
            ) => LoopDecorator { phase: LoopPhase::Pausing, ..self },
            _ => self,
        }
    }

    /// What a message of the child leads to.
    pub open spec fn reply_to_child(self, msg: ParentMessage) -> Result<Seq<Effect>, NodeError> {
        match msg {
            ParentMessage::RequestStart if self.status is Failure => Ok(
                seq![Effect::NotifyParent(ParentMessage::RequestStart)],
            ),
            ParentMessage::Poison(err) => Err(err),
            _ => Ok(seq![]),
        }
    }

    /// The state after the child said something while it is expected to stop.
    pub open spec fn after_stopping(self, msg: Result<ParentMessage, NodeError>) -> Self {
        match msg {
            Ok(ParentMessage::Status(Status::Success)) => LoopDecorator {
                status: Status::Success,
                phase: LoopPhase::Serving,
                ..self
            },
            Ok(ParentMessage::Status(Status::Failure)) => LoopDecorator {
                status: Status::Failure,
                phase: LoopPhase::Serving,
                ..self
            },
            _ => self,
        }
    }

    /// What the words of a child that is expected to stop lead to: its final status is
    /// passed on, and no other message counts.
    pub open spec fn reply_to_stopping(self, msg: Result<ParentMessage, NodeError>) -> Result<
        Seq<Effect>,
        NodeError,
    > {
        match msg {
            Ok(ParentMessage::Status(Status::Success)) => Ok(
                seq![Effect::NotifyParent(ParentMessage::Status(Status::Success))],
            ),
            Ok(ParentMessage::Status(Status::Failure)) => Ok(
                seq![Effect::NotifyParent(ParentMessage::Status(Status::Failure))],
            ),
            Ok(_) => Ok(seq![]),
            Err(err) => Err(err),
        }
    }

    /// Makes a loop around the given child: the handle by which others know it, and the
    /// process that has to be served.
    pub fn new(name: String, child: NodeHandle, pause_millis: u64) -> (node: (
        NodeHandle,
        LoopDecorator,
    ))
        ensures
            node.0.is_parent("Decorator"@, name@, seq![child]),
            node.1.is_new(name@, pause_millis),
    {
        let process = Self::_new(name.clone(), pause_millis);
        let children = vec![child];
        assert(children@ =~= seq![child]);
        (NodeHandle::parent_of(String::from_str("Decorator"), name, children), process)
    }

    pub fn _new(name: String, pause_millis: u64) -> (process: Self)
        ensures
            process == (LoopDecorator {
                name,
                status: Status::Idle,
                pause_millis,
                phase: LoopPhase::Serving,
            }),
            process.wf(),
    {
        Self { name, status: Status::Idle, pause_millis, phase: LoopPhase::Serving }
    }

    fn update_status(&mut self, status: Status) -> (effect: Effect)
        ensures
            *final(self) == (LoopDecorator { status, ..*old(self) }),
            effect == Effect::NotifyParent(ParentMessage::Status(status)),
    {
        self.status = status;
        Effect::NotifyParent(ParentMessage::Status(status))
    }

    /// Begins to stop, or fails at once if nothing is running.
    fn stop_workflow(&mut self) -> (effects: Vec<Effect>)
        ensures
            *final(self) == old(self).after_parent(ChildMessage::Stop),
            Ok::<Seq<Effect>, NodeError>(effects@) == old(self).reply_to_parent(ChildMessage::Stop),
    {
        if self.status.is_running() {
            self.phase = LoopPhase::Stopping;
            let effects = vec![Effect::NotifyChild(0, ChildMessage::Stop)];
            assert(effects@ =~= seq![Effect::NotifyChild(0, ChildMessage::Stop)]);
            effects
        } else {
            let effects = vec![self.update_status(Status::Failure)];
            assert(effects@ =~= seq![Effect::NotifyParent(ParentMessage::Status(Status::Failure))]);
            effects
        }
    }

    /// Handles a message of the parent.
    pub fn process_msg_from_parent(&mut self, msg: ChildMessage) -> (result: Result<
        Vec<Effect>,
        NodeError,
    >)
        requires
            old(self).phase is Serving,
        ensures
            final(self).wf(),
            *final(self) == old(self).after_parent(msg),
            reacts(result, old(self).reply_to_parent(msg)),
    {
        match msg {
            ChildMessage::Start => {
                if !self.status.is_running() {
                    return Ok(
                        vec![
                            self.update_status(Status::Running),
                            Effect::NotifyChild(0, ChildMessage::Start),
                        ],
                    );
                }
                Ok(vec![])
            },
            ChildMessage::Stop => Ok(self.stop_workflow()),
            ChildMessage::Kill => Err(NodeError::KillError),
        }
    }

    /// Handles a message of the child.
    pub fn process_msg_from_child(&mut self, msg: ParentMessage) -> (result: Result<
        Vec<Effect>,
        NodeError,
    >)
        requires
            old(self).phase is Serving,
        ensures
            final(self).wf(),
            *final(self) == old(self).after_child(msg),
            reacts(result, old(self).reply_to_child(msg)),
    {
        match msg {
            ParentMessage::RequestStart => {
                if self.status.is_failure() {
                    return Ok(vec![Effect::NotifyParent(ParentMessage::RequestStart)]);
                }
            },
            ParentMessage::Status(Status::Success) | ParentMessage::Status(Status::Failure) => {
                self.phase = LoopPhase::Pausing;
            },
            ParentMessage::Status(_) => {},
            ParentMessage::Poison(err) => return Err(err),
            ParentMessage::Killed => {},
        }
        Ok(vec![])
    }

    /// Starts the child again when the pause is over.
    pub fn resume(&mut self) -> (effect: Effect)
        requires
            old(self).phase is Pausing,
        ensures
            final(self).wf(),
            *final(self) == (LoopDecorator { phase: LoopPhase::Serving, ..*old(self) }),
            effect == Effect::NotifyChild(0, ChildMessage::Start),
    {
        self.phase = LoopPhase::Serving;
        Effect::NotifyChild(0, ChildMessage::Start)
    }

    /// Handles what the child says while it is expected to stop.
    pub fn confirm_stop(&mut self, msg: Result<ParentMessage, NodeError>) -> (result: Result<
        Vec<Effect>,
        NodeError,
    >)
        requires
            old(self).wf(),
            old(self).phase is Stopping,
        ensures
            final(self).wf(),
            *final(self) == old(self).after_stopping(msg),
            reacts(result, old(self).reply_to_stopping(msg)),
    {
        match msg {
            Ok(ParentMessage::Status(Status::Failure)) => {
                self.phase = LoopPhase::Serving;
                Ok(vec![self.update_status(Status::Failure)])
            },
            Ok(ParentMessage::Status(Status::Success)) => {
                self.phase = LoopPhase::Serving;
                Ok(vec![self.update_status(Status::Success)])
            },
            Ok(_) => Ok(vec![]),
            Err(err) => Err(err),
        }
    }

    /// The state after one turn.
    pub open spec fn after_turn(self, event: LoopEvent) -> Self {
        match event {
            LoopEvent::Parent(Ok(msg)) => self.after_parent(msg),
            LoopEvent::Parent(Err(_)) => self,
            LoopEvent::Child(msg) => match self.phase {
                LoopPhase::Stopping => self.after_stopping(msg),
                _ => match msg {
                    Ok(msg) => self.after_child(msg),
                    Err(_) => self,
                },
            },
            LoopEvent::Paused => LoopDecorator { phase: LoopPhase::Serving, ..self },
        }
    }

    /// What one turn leads to.
    pub open spec fn reply_to_turn(self, event: LoopEvent) -> Result<Seq<Effect>, NodeError> {
        match event {
            LoopEvent::Parent(Ok(msg)) => self.reply_to_parent(msg),
            LoopEvent::Parent(Err(_)) => Ok(seq![]),
            LoopEvent::Child(msg) => match self.phase {
                LoopPhase::Stopping => self.reply_to_stopping(msg),
                _ => match msg {
                    Ok(msg) => self.reply_to_child(msg),
                    Err(_) => Ok(seq![]),
                },
            },
            LoopEvent::Paused => Ok(seq![Effect::NotifyChild(0, ChildMessage::Start)]),
        }
    }

    /// One turn of serving: handles the first thing that happens of those that the phase
    /// names. An error ends the loop. That nothing could be received from the parent or
    /// the child is no error, except from a child that is expected to stop.
    pub fn _serve(&mut self, event: LoopEvent) -> (result: Result<Vec<Effect>, NodeError>)
        requires
            old(self).wf(),
            old(self).awaits(event),
        ensures
            final(self).wf(),
            *final(self) == old(self).after_turn(event),
            reacts(result, old(self).reply_to_turn(event)),
    {
        match event {
            LoopEvent::Parent(Ok(msg)) => self.process_msg_from_parent(msg),
            LoopEvent::Parent(Err(_)) => Ok(vec![]),
            LoopEvent::Child(msg) => match self.phase {
                LoopPhase::Stopping => self.confirm_stop(msg),
                _ => match msg {
                    Ok(msg) => self.process_msg_from_child(msg),
                    Err(_) => Ok(vec![]),
                },
            },
            LoopEvent::Paused => Ok(vec![self.resume()]),
        }
    }
}

/// A running loop does not end by itself: whatever its child comes to, the loop says
/// nothing, goes on running, and starts the child again after the pause.
pub proof fn law_loop_repeats(process: LoopDecorator, success: bool)
    requires
        process.phase is Serving,
        process.status is Running,
    ensures
        ({
            let answer = if success {
                Status::Success
            } else {
                Status::Failure
            };
            let end = LoopEvent::Child(Ok(ParentMessage::Status(answer)));
            let pausing = process.after_turn(end);
            &&& process.reply_to_turn(end) == Ok::<Seq<Effect>, NodeError>(seq![])
            &&& pausing.awaits(LoopEvent::Paused)
            &&& pausing.reply_to_turn(LoopEvent::Paused) == Ok::<Seq<Effect>, NodeError>(
                seq![Effect::NotifyChild(0, ChildMessage::Start)],
            )
            &&& pausing.after_turn(LoopEvent::Paused) == process
        }),
{
}

/// A running loop reports an end only after its parent told it to stop: in every other
/// phase no status but `Running` reaches the parent.
pub proof fn law_loop_ends_only_on_stop(process: LoopDecorator, event: LoopEvent, status: Status)
    requires
        process.wf(),
        process.awaits(event),
        process.status is Running,
        process.phase !is Stopping,
    ensures
        match process.reply_to_turn(event) {
            Ok(effects) => !effects.contains(Effect::NotifyParent(ParentMessage::Status(status))),
            Err(_) => true,
        },
        process.after_turn(event).status is Running,
{
}

/// A running loop that is told to stop passes the request on, and ends as the child
/// does.
pub proof fn law_loop_stop_is_confirmed(process: LoopDecorator, success: bool)
    requires
        process.phase is Serving,
        process.status is Running,
    ensures
        ({
            let stop = LoopEvent::Parent(Ok(ChildMessage::Stop));
            let stopped = process.after_turn(stop);
            let answer = if success {
                Status::Success
            } else {
                Status::Failure
            };
            let end = LoopEvent::Child(Ok(ParentMessage::Status(answer)));
            &&& process.reply_to_turn(stop) == Ok::<Seq<Effect>, NodeError>(
                seq![Effect::NotifyChild(0, ChildMessage::Stop)],
            )
            &&& stopped.awaits(end)
            &&& stopped.reply_to_turn(end) == Ok::<Seq<Effect>, NodeError>(
                seq![Effect::NotifyParent(ParentMessage::Status(answer))],
            )
            &&& stopped.after_turn(end) == (LoopDecorator { status: answer, ..process })
        }),
{
}

/// What makes a loop go on: short of an end, what a child says of itself, and that it was
/// killed, neither moves the loop nor makes it speak. Nor does it, while the loop is
/// being served, that something could not be received.
pub proof fn law_loop_waits_for_an_end(
    process: LoopDecorator,
    running: bool,
    missed: RecvError,
    lost: NodeError,
)
    requires
        process.phase is Serving,
    ensures
        ({
            let status = if running {
                Status::Running
            } else {
                Status::Idle
            };
            let says = LoopEvent::Child(Ok(ParentMessage::Status(status)));
            let dies = LoopEvent::Child(Ok(ParentMessage::Killed));
            let nothing = Ok::<Seq<Effect>, NodeError>(seq![]);
            &&& process.reply_to_turn(says) == nothing
            &&& process.after_turn(says) == process
            &&& process.reply_to_turn(dies) == nothing
            &&& process.after_turn(dies) == process
            &&& process.reply_to_turn(LoopEvent::Parent(Err(missed))) == nothing
            &&& process.after_turn(LoopEvent::Parent(Err(missed))) == process
            &&& process.reply_to_turn(LoopEvent::Child(Err(lost))) == nothing
            &&& process.after_turn(LoopEvent::Child(Err(lost))) == process
        }),
{
}

/// The request to die and the poison of the child end a loop, with the error that each of
/// them stands for.
pub proof fn law_loop_ends_with_the_error(process: LoopDecorator, err: NodeError)
    requires
        process.phase is Serving,
    ensures
        process.reply_to_turn(LoopEvent::Parent(Ok(ChildMessage::Kill))) == Err::<Seq<Effect>, NodeError>(
            NodeError::KillError,
        ),
        process.after_turn(LoopEvent::Parent(Ok(ChildMessage::Kill))) == process,
        process.reply_to_turn(LoopEvent::Child(Ok(ParentMessage::Poison(err)))) == Err::<Seq<Effect>, NodeError>(err),
        process.after_turn(LoopEvent::Child(Ok(ParentMessage::Poison(err)))) == process,
{
}

/// A loop that waits for its child to stop takes the first end that the child reports for
/// its own, hears nothing else, and breaks if the child cannot be heard.
pub proof fn law_stopping_loop_waits_for_the_end(
    process: LoopDecorator,
    msg: ParentMessage,
    success: bool,
    lost: NodeError,
)
    requires
        process.phase is Stopping,
    ensures
        ({
            let answer = if success {
                Status::Success
            } else {
                Status::Failure
            };
            let end = LoopEvent::Child(Ok(ParentMessage::Status(answer)));
            let other = LoopEvent::Child(Ok(msg));
            &&& process.awaits(end)
            &&& process.reply_to_turn(end) == Ok::<Seq<Effect>, NodeError>(
                seq![Effect::NotifyParent(ParentMessage::Status(answer))],
            )
            &&& process.after_turn(end) == (LoopDecorator {
                status: answer,
                phase: LoopPhase::Serving,
                ..process
            })
            &&& msg != ParentMessage::Status(Status::Success) && msg != ParentMessage::Status(
                Status::Failure,
            ) ==> {
                &&& process.reply_to_turn(other) == Ok::<Seq<Effect>, NodeError>(seq![])
                &&& process.after_turn(other) == process
            }
            &&& process.reply_to_turn(LoopEvent::Child(Err(lost))) == Err::<Seq<Effect>, NodeError>(lost)
            &&& process.after_turn(LoopEvent::Child(Err(lost))) == process
        }),
{
}

/// A loop says of itself what it is: a status that it reports last is the one that it has
/// from then on, and it takes on no other in silence.
pub proof fn law_loop_reports_its_status(process: LoopDecorator, event: LoopEvent, status: Status)
    requires
        process.wf(),
        process.awaits(event),
    ensures
        ({
            let after = process.after_turn(event);
            let reported = Effect::NotifyParent(ParentMessage::Status(status));
            &&& after.name == process.name
            &&& match process.reply_to_turn(event) {
                Ok(effects) => {
                    &&& effects.len() > 0 && effects.last() == reported ==> after.status == status
                    &&& after.status == status && process.status != status ==> effects.contains(
                        reported,
                    )
                },
                Err(_) => after.status == process.status,
            }
        }),
{
    if let Ok(effects) = process.reply_to_turn(event) {
        let reported = Effect::NotifyParent(ParentMessage::Status(status));
        if effects.len() > 0 && effects[0] == reported {
            assert(effects.contains(reported));
        }
        if effects.len() > 1 && effects[1] == reported {
            assert(effects.contains(reported));
        }
    }
}

/// One turn of a loop that is being served is the handling of one message: of the parent,
/// or of the child.
pub proof fn law_loop_turn_is_one_message(
    process: LoopDecorator,
    from_parent: ChildMessage,
    from_child: ParentMessage,
)
    requires
        process.phase is Serving,
    ensures
        process.after_turn(LoopEvent::Parent(Ok(from_parent))) == process.after_parent(from_parent),
        process.reply_to_turn(LoopEvent::Parent(Ok(from_parent))) == process.reply_to_parent(
            from_parent,
        ),
        process.after_turn(LoopEvent::Child(Ok(from_child))) == process.after_child(from_child),
        process.reply_to_turn(LoopEvent::Child(Ok(from_child))) == process.reply_to_child(from_child),
{
}

/// A loop that waits for its child to stop listens to nobody else, and handles one message
/// of the child in one turn.
pub proof fn law_stopping_loop_listens_to_its_child(
    process: LoopDecorator,
    received: Result<ChildMessage, RecvError>,
    msg: Result<ParentMessage, NodeError>,
)
    requires
        process.phase is Stopping,
    ensures
        process.awaits(LoopEvent::Child(msg)),
        !process.awaits(LoopEvent::Parent(received)),
        process.after_turn(LoopEvent::Child(msg)) == process.after_stopping(msg),
        process.reply_to_turn(LoopEvent::Child(msg)) == process.reply_to_stopping(msg),
{
}

/// A loop that is being served listens to its parent and to its child.
pub proof fn law_served_loop_listens(
    process: LoopDecorator,
    from_parent: Result<ChildMessage, RecvError>,
    from_child: Result<ParentMessage, NodeError>,
)
    requires
        process.phase is Serving,
    ensures
        process.awaits(LoopEvent::Parent(from_parent)),
        process.awaits(LoopEvent::Child(from_child)),
{
}

/// A loop that is not running is started anew, whatever happened before: it tells its
/// parent that it runs, and starts its child. One that runs takes no notice.
pub proof fn law_loop_starts_its_child(process: LoopDecorator)
    requires
        process.phase is Serving,
    ensures
        ({
            let start = LoopEvent::Parent(Ok(ChildMessage::Start));
            &&& process.status !is Running ==> {
                &&& process.reply_to_turn(start) == Ok::<Seq<Effect>, NodeError>(
                    seq![
                        Effect::NotifyParent(ParentMessage::Status(Status::Running)),
                        Effect::NotifyChild(0, ChildMessage::Start),
                    ],
                )
                &&& process.after_turn(start) == (LoopDecorator {
                    status: Status::Running,
                    ..process
                })
            }
            &&& process.status is Running ==> {
                &&& process.reply_to_turn(start) == Ok::<Seq<Effect>, NodeError>(seq![])
                &&& process.after_turn(start) == process
            }
        }),
{
}

/// A loop that is told to stop stops its child if it is running, and fails at once if not.
pub proof fn law_loop_stops_its_child(process: LoopDecorator)
    requires
        process.phase is Serving,
    ensures
        ({
            let stop = LoopEvent::Parent(Ok(ChildMessage::Stop));
            &&& process.status is Running ==> {
                &&& process.reply_to_turn(stop) == Ok::<Seq<Effect>, NodeError>(
                    seq![Effect::NotifyChild(0, ChildMessage::Stop)],
                )
                &&& process.after_turn(stop) == (LoopDecorator {
                    phase: LoopPhase::Stopping,
                    ..process
                })
            }
            &&& process.status !is Running ==> {
                &&& process.reply_to_turn(stop) == Ok::<Seq<Effect>, NodeError>(
                    seq![Effect::NotifyParent(ParentMessage::Status(Status::Failure))],
                )
                &&& process.after_turn(stop) == (LoopDecorator {
                    status: Status::Failure,
                    ..process
                })
            }
        }),
{
}

/// Whatever the child came to, and whatever the loop is, the child is started again when
/// the pause is over, and nobody is told. During the pause nobody is listened to.
pub proof fn law_loop_pauses_after_every_end(
    process: LoopDecorator,
    success: bool,
    from_parent: Result<ChildMessage, RecvError>,
    from_child: Result<ParentMessage, NodeError>,
)
    requires
        process.phase is Serving,
    ensures
        ({
            let answer = if success {
                Status::Success
            } else {
                Status::Failure
            };
            let end = LoopEvent::Child(Ok(ParentMessage::Status(answer)));
            let pausing = LoopDecorator { phase: LoopPhase::Pausing, ..process };
            &&& process.reply_to_turn(end) == Ok::<Seq<Effect>, NodeError>(seq![])
            &&& process.after_turn(end) == pausing
            &&& pausing.awaits(LoopEvent::Paused)
            &&& !pausing.awaits(LoopEvent::Parent(from_parent))
            &&& !pausing.awaits(LoopEvent::Child(from_child))
            &&& pausing.reply_to_turn(LoopEvent::Paused) == Ok::<Seq<Effect>, NodeError>(
                seq![Effect::NotifyChild(0, ChildMessage::Start)],
            )
            &&& pausing.after_turn(LoopEvent::Paused) == process
            &&& !process.awaits(LoopEvent::Paused)
        }),
{
}

/// That the child asks to be started is handed on by a loop that has failed, and by no
/// other, and changes nothing.
pub proof fn law_failed_loop_hands_on_requests(process: LoopDecorator)
    requires
        process.phase is Serving,
    ensures
        ({
            let request = LoopEvent::Child(Ok(ParentMessage::RequestStart));
            &&& process.after_turn(request) == process
            &&& process.reply_to_turn(request) == Ok::<Seq<Effect>, NodeError>(
                if process.status is Failure {
                    seq![Effect::NotifyParent(ParentMessage::RequestStart)]
                } else {
                    seq![]
                },
            )
        }),
{
}

/// The pause of a loop is the one that it was made with.
pub proof fn law_loop_keeps_its_pause(process: LoopDecorator, event: LoopEvent)
    ensures
        process.after_turn(event).pause_millis == process.pause_millis,
{
}

/// A new loop is idle and ready to be served.
pub proof fn law_new_loop_is_idle(process: LoopDecorator, name: Seq<char>, pause_millis: u64)
    requires
        process.is_new(name, pause_millis),
    ensures
        process.name@ == name,
        process.pause_millis == pause_millis,
        process.status is Idle,
        process.phase is Serving,
        process.wf(),
{
}

} // verus!
