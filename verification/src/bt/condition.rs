//! A condition lets its child run for as long as a shared value passes a test.
use std::marker::PhantomData;
use vstd::prelude::*;

use crate::bt::handle::{
    reacts, ActorError, ChildMessage, Effect, NodeError, NodeHandle, ParentMessage, RecvError,
    Status,
};

verus! {

/// The test of a condition.
pub trait Evaluator<V> {
    /// The values that can be put to the test.
    open spec fn can_evaluate(&self, val: V) -> bool {
        true
    }

    fn get_name(&self) -> (name: String);

    /// Puts a value to the test, which passes, fails, or breaks with an error.
    fn evaluate(&mut self, val: V) -> (result: Result<bool, String>)
        requires
            old(self).can_evaluate(val),
    ;
}

/// A test that is a closure.
pub struct ClosureEvaluator<V, F> where F: Fn(V) -> bool {
    pub name: String,
    pub function: F,
    pub phantom: PhantomData<V>,
}

impl<V, F> ClosureEvaluator<V, F> where F: Fn(V) -> bool {
    pub fn new(name: String, function: F) -> (evaluator: ClosureEvaluator<V, F>)
        ensures
            evaluator.name == name,
            evaluator.function == function,
    {
        Self { name, function, phantom: PhantomData }
    }
}

impl<V, F> Evaluator<V> for ClosureEvaluator<V, F> where F: Fn(V) -> bool {
    open spec fn can_evaluate(&self, val: V) -> bool {
        call_requires(self.function, (val,))
    }

    fn get_name(&self) -> (name: String)
        ensures
            name == self.name,
    {
        self.name.clone()
    }

    fn evaluate(&mut self, val: V) -> (result: Result<bool, String>)
        ensures
            result is Ok,
            call_ensures(old(self).function, (val,), result->Ok_0),
            *final(self) == *old(self),
    {
        Ok((self.function)(val))
    }
}

/// A condition without a child: it succeeds or fails as soon as it is started.
pub struct OneTimeCondition {}

impl OneTimeCondition {
    pub fn new_from<V, T: Evaluator<V>>(evaluator: &T) -> (node: (NodeHandle, ConditionProcess))
        ensures
            call_ensures(<T as Evaluator<V>>::get_name, (evaluator,), node.1.name),
            node.0.is_parent("Condition"@, node.1.name@, seq![]),
            node.1.is_new(node.1.name@, false),
    {
        ConditionProcess::new(evaluator, None)
    }

    pub fn new<V, F: Fn(V) -> bool>(name: String, function: F) -> (node: (
        NodeHandle,
        ConditionProcess,
        ClosureEvaluator<V, F>,
    ))
        ensures
            node.0.is_parent("Condition"@, name@, seq![]),
            node.1.is_new(name@, false),
            node.2.name == name,
            node.2.function == function,
    {
        let evaluator: ClosureEvaluator<V, F> = ClosureEvaluator::new(name, function);
        let (handle, process) = ConditionProcess::new(&evaluator, None);
        (handle, process, evaluator)
    }
}

/// A condition that watches over a child.
pub struct Condition {}

impl Condition {
    pub fn new_from<V, T: Evaluator<V>>(evaluator: &T, child: NodeHandle) -> (node: (
        NodeHandle,
        ConditionProcess,
    ))
        ensures
            call_ensures(<T as Evaluator<V>>::get_name, (evaluator,), node.1.name),
            node.0.is_parent("Condition"@, node.1.name@, seq![child]),
            node.1.is_new(node.1.name@, true),
    {
        ConditionProcess::new(evaluator, Some(child))
    }

    pub fn new<V, F: Fn(V) -> bool>(name: String, function: F, child: NodeHandle) -> (node: (
        NodeHandle,
        ConditionProcess,
        ClosureEvaluator<V, F>,
    ))
        ensures
            node.0.is_parent("Condition"@, name@, seq![child]),
            node.1.is_new(name@, true),
            node.2.name == name,
            node.2.function == function,
    {
        let evaluator: ClosureEvaluator<V, F> = ClosureEvaluator::new(name, function);
        let (handle, process) = ConditionProcess::new(&evaluator, Some(child));
        (handle, process, evaluator)
    }
}

/// Why a condition evaluates its test.
#[derive(PartialEq, Eq, Structural, Debug, Clone, Copy)]
pub enum Purpose {
    /// The parent asked it to start.
    Start,
    /// The child asks to be started.
    ChildRequest,
    /// A new value came in while the condition is running.
    RunningValue,
    /// A new value came in after the condition failed.
    FailedValue,
}

/// What a condition waits for.
#[derive(PartialEq, Eq, Structural, Debug, Clone, Copy)]
pub enum Phase {
    /// For a message of the parent or the child, or for a new value.
    Serving,
    /// For the current value.
    Fetching(Purpose),
    /// For the verdict of the test on the value at hand.
    Evaluating(Purpose),
    /// For the child to confirm that it stopped.
    Stopping,
}

/// What a condition reacts to.
#[derive(PartialEq, Eq, Debug)]
pub enum ConditionEvent {
    Parent(Result<ChildMessage, RecvError>),
    Child(Result<ParentMessage, NodeError>),
    /// A new value came in.
    Value(Result<(), ActorError>),
    /// The current value was fetched.
    Fetched(Result<(), ActorError>),
    /// The test came to a verdict.
    Evaluated(Result<bool, String>),
}

/// The state of a condition.
#[derive(Debug)]
pub struct ConditionProcess {
    pub name: String,
    /// Whether there is a child.
    pub child: bool,
    pub status: Status,
    /// The last verdict of the test.
    pub prev_evaluation: bool,
    pub phase: Phase,
}

impl ConditionProcess {
    /// A phase is entered only in the status that it is meant for.
    pub open spec fn wf(self) -> bool {
        match self.phase {
            Phase::Serving => true,
            Phase::Fetching(purpose) => match purpose {
                Purpose::Start => self.status !is Running,
                Purpose::ChildRequest => true,
                Purpose::RunningValue | Purpose::FailedValue => false,
            },
            Phase::Evaluating(purpose) => match purpose {
                Purpose::Start => self.status !is Running,
                Purpose::ChildRequest => true,
                Purpose::RunningValue => self.status is Running,
                Purpose::FailedValue => self.status is Failure && !self.prev_evaluation,
            },
            Phase::Stopping => self.status is Running && self.child,
        }
    }

    /// Whether this is what the condition waits for.
    pub open spec fn awaits(self, event: ConditionEvent) -> bool {
        match event {
            ConditionEvent::Parent(_) => self.phase is Serving,
            ConditionEvent::Child(_) => self.phase is Serving || self.phase is Stopping,
            ConditionEvent::Value(_) => self.phase is Serving,
            ConditionEvent::Fetched(_) => self.phase is Fetching,
            ConditionEvent::Evaluated(_) => self.phase is Evaluating,
        }
    }

    /// Whether nothing has happened to this condition yet.
    pub open spec fn is_new(self, name: Seq<char>, child: bool) -> bool {
        &&& self.name@ == name
        &&& self.child == child
        &&& self.status is Idle
        &&& !self.prev_evaluation
        &&& self.phase is Serving
    }

    /// The state after it was decided to stop.
    pub open spec fn after_stop(self) -> Self {
        if self.status is Running && self.child {
            ConditionProcess { phase: Phase::Stopping, ..self }
        } else {
            ConditionProcess { status: Status::Failure, ..self }
        }
    }

    /// What the decision to stop leads to: a running child has to stop first, else the
    /// condition fails at once.
    pub open spec fn reply_to_stop(self) -> Seq<Effect> {
        if self.status is Running && self.child {
            seq![Effect::NotifyChild(0, ChildMessage::Stop)]
        } else {
            seq![Effect::NotifyParent(ParentMessage::Status(Status::Failure))]
        }
    }

    /// The state after a verdict.
    pub open spec fn after_verdict(self, purpose: Purpose, passed: bool) -> Self {
        let served = ConditionProcess { phase: Phase::Serving, ..self };
        match purpose {
            Purpose::Start => ConditionProcess {
                status: if !passed {
                    Status::Failure
                } else if self.child {
                    Status::Running
                } else {
                    Status::Success
                },
                ..served
            },
            Purpose::RunningValue if !passed => served.after_stop(),
            _ => served,
        }
    }

    /// What a verdict leads to.
    pub open spec fn reply_to_verdict(self, purpose: Purpose, passed: bool) -> Seq<Effect> {
        match purpose {
            Purpose::Start => if !passed {
                seq![Effect::NotifyParent(ParentMessage::Status(Status::Failure))]
            } else if self.child {
                seq![
                    Effect::NotifyParent(ParentMessage::Status(Status::Running)),
                    Effect::NotifyChild(0, ChildMessage::Start),
                ]
            } else {
                seq![
                    Effect::NotifyParent(ParentMessage::Status(Status::Running)),
                    Effect::NotifyParent(ParentMessage::Status(Status::Success)),
                ]
            },
            Purpose::ChildRequest if passed && self.status is Failure => seq![
                Effect::NotifyParent(ParentMessage::RequestStart),
            ],
            Purpose::RunningValue if !passed => self.reply_to_stop(),
            Purpose::FailedValue if passed => seq![
                Effect::NotifyParent(ParentMessage::RequestStart),
            ],
            _ => seq![],
        }
    }

    /// The state after a message of the parent.
    pub open spec fn after_parent(self, msg: ChildMessage) -> Self {
        match msg {
            ChildMessage::Start if self.status !is Running => ConditionProcess {
                phase: Phase::Fetching(Purpose::Start),
                ..self
            },
            ChildMessage::Stop => self.after_stop(),
            _ => self,
        }
    }

    /// What a message of the parent leads to.
    pub open spec fn reply_to_parent(self, msg: ChildMessage) -> Result<Seq<Effect>, NodeError> {
        match msg {
            ChildMessage::Start => Ok(seq![]),
            ChildMessage::Stop => Ok(self.reply_to_stop()),
            ChildMessage::Kill => Err(NodeError::KillError),
        }
    }

    /// The state after a message of the child.
    pub open spec fn after_child(self, msg: ParentMessage) -> Self {
        match msg {
            ParentMessage::RequestStart => ConditionProcess {
                phase: Phase::Fetching(Purpose::ChildRequest),
                ..self
            },
            ParentMessage::Status(Status::Success) => ConditionProcess {
                status: Status::Success,
                ..self
            },
            ParentMessage::Status(Status::Failure) => ConditionProcess {
                status: Status::Failure,
                ..self
            },
            _ => self,
        }
    }

    /// What a message of the child leads to.
    pub open spec fn reply_to_child(self, msg: ParentMessage) -> Result<Seq<Effect>, NodeError> {
        match msg {
            ParentMessage::Status(Status::Success) => Ok(
                seq![Effect::NotifyParent(ParentMessage::Status(Status::Success))],
            ),
            ParentMessage::Status(Status::Failure) => Ok(
                seq![Effect::NotifyParent(ParentMessage::Status(Status::Failure))],
            ),
            ParentMessage::Poison(err) => Err(err),
            _ => Ok(seq![]),
        }
    }

    /// The state after the child said something while it is expected to stop.
    pub open spec fn after_stopping(self, msg: Result<ParentMessage, NodeError>) -> Self {
        match msg {
            Ok(ParentMessage::Status(Status::Success)) => ConditionProcess {
                status: Status::Success,
                phase: Phase::Serving,
                ..self
            },
            Ok(ParentMessage::Status(Status::Failure)) => ConditionProcess {
                status: Status::Failure,
                phase: Phase::Serving,
                ..self
            },
            _ => self,
        }
    }

    /// What the words of a child that is expected to stop lead to: its final status is
    /// passed on, be it success or failure, and nothing else counts but poison.
    pub open spec fn reply_to_stopping(self, msg: Result<ParentMessage, NodeError>) -> Result<
        Seq<Effect>,
        NodeError,
    > {
        match msg {
            Ok(ParentMessage::Status(Status::Success)) => Ok(
                seq![Effect::NotifyParent(ParentMessage::Status(Status::Success))],
            ),
            Ok(ParentMessage::Status(Status::Failure)) => Ok(
                seq![Effect::NotifyParent(ParentMessage::Status(Status::Failure))],
            ),
            Ok(ParentMessage::Poison(err)) => Err(err),
            Ok(_) => Ok(seq![]),
            Err(err) => Err(err),
        }
    }

    /// The state after a new value came in: the value has to be tested if the condition
    /// is running, or if it failed and the last verdict was no pass.
    pub open spec fn after_value(self, val: Result<(), ActorError>) -> Self {
        if val is Ok && self.status is Running {
            ConditionProcess { phase: Phase::Evaluating(Purpose::RunningValue), ..self }
        } else if val is Ok && self.status is Failure && !self.prev_evaluation {
            ConditionProcess { phase: Phase::Evaluating(Purpose::FailedValue), ..self }
        } else {
            self
        }
    }

    /// The state after the current value was fetched. A value that was never set does
    /// not pass.
    pub open spec fn after_fetch(self, purpose: Purpose, val: Result<(), ActorError>) -> Self {
        match val {
            Ok(_) => ConditionProcess { phase: Phase::Evaluating(purpose), ..self },
            Err(ActorError::NoValueSet(_)) => self.after_verdict(purpose, false),
            Err(_) => self,
        }
    }

    /// What fetching the current value leads to.
    pub open spec fn reply_to_fetch(self, purpose: Purpose, val: Result<(), ActorError>) -> Result<
        Seq<Effect>,
        NodeError,
    > {
        match val {
            Ok(_) => Ok(seq![]),
            Err(ActorError::NoValueSet(_)) => Ok(self.reply_to_verdict(purpose, false)),
            Err(err) => Err(NodeError::ActorError(err)),
        }
    }

    /// The state after the test came to a verdict, or broke.
    pub open spec fn after_evaluation(self, purpose: Purpose, result: Result<bool, String>) -> Self {
        match result {
            Ok(passed) => (ConditionProcess { prev_evaluation: passed, ..self }).after_verdict(
                purpose,
                passed,
            ),
            Err(_) => self,
        }
    }

    /// What the verdict of the test leads to.
    pub open spec fn reply_to_evaluation(
        self,
        purpose: Purpose,
        result: Result<bool, String>,
    ) -> Result<Seq<Effect>, NodeError> {
        match result {
            Ok(passed) => Ok(self.reply_to_verdict(purpose, passed)),
            Err(err) => Err(NodeError::ExecutionError(err)),
        }
    }

    /// Makes a condition: the handle by which others know it, and the process that has
    /// to be served.
    pub fn new<V, T: Evaluator<V>>(evaluator: &T, child: Option<NodeHandle>) -> (node: (
        NodeHandle,
        ConditionProcess,
    ))
        ensures
            call_ensures(<T as Evaluator<V>>::get_name, (evaluator,), node.1.name),
            node.0.is_parent(
                "Condition"@,
                node.1.name@,
                match child {
                    Some(child) => seq![child],
                    None => seq![],
                },
            ),
            node.1.is_new(node.1.name@, child is Some),
    {
        Self::with_name(evaluator.get_name(), child)
    }

    /// Makes a condition for a test of the given name.
    pub fn with_name(name: String, child: Option<NodeHandle>) -> (node: (
        NodeHandle,
        ConditionProcess,
    ))
        ensures
            node.0.is_parent(
                "Condition"@,
                name@,
                match child {
                    Some(child) => seq![child],
                    None => seq![],
                },
            ),
            node.1.name == name,
            node.1.is_new(name@, child is Some),
    {
        let process = Self::_new(name.clone(), child.is_some());
        let children = match child {
            Some(child) => vec![child],
            None => vec![],
        };
        let handle = NodeHandle::parent_of(String::from_str("Condition"), name, children);
        assert(children@ =~= match child {
            Some(child) => seq![child],
            None => seq![],
        });
        (handle, process)
    }

    pub fn _new(name: String, child: bool) -> (process: Self)
        ensures
            process == (ConditionProcess {
                name,
                child,
                status: Status::Idle,
                prev_evaluation: false,
                phase: Phase::Serving,
            }),
            process.wf(),
    {
        Self { name, child, status: Status::Idle, prev_evaluation: false, phase: Phase::Serving }
    }

    fn update_status(&mut self, status: Status) -> (effect: Effect)
        ensures
            *final(self) == (ConditionProcess { status, ..*old(self) }),
            effect == Effect::NotifyParent(ParentMessage::Status(status)),
    {
        self.status = status;
        Effect::NotifyParent(ParentMessage::Status(status))
    }

    /// Begins to start: the current value has to be tested first.
    fn start_workflow(&mut self)
        requires
            old(self).phase is Serving,
        ensures
            *final(self) == old(self).after_parent(ChildMessage::Start),
    {
        if !self.status.is_running() {
            self.phase = Phase::Fetching(Purpose::Start);
        }
    }

    /// Begins to stop, or fails at once if nothing is running.
    fn stop_workflow(&mut self) -> (effects: Vec<Effect>)
        ensures
            *final(self) == old(self).after_stop(),
            effects@ == old(self).reply_to_stop(),
    {
        if self.status.is_running() && self.child {
            self.phase = Phase::Stopping;
            vec![Effect::NotifyChild(0, ChildMessage::Stop)]
        } else {
            vec![self.update_status(Status::Failure)]
        }
    }

    /// Handles a message of the parent.
    pub fn process_msg_from_parent(&mut self, msg: ChildMessage) -> (result: Result<
        Vec<Effect>,
        NodeError,
    >)
        requires
            old(self).phase is Serving,
        ensures
            final(self).wf(),
            *final(self) == old(self).after_parent(msg),
            reacts(result, old(self).reply_to_parent(msg)),
    {
        match msg {
            ChildMessage::Start => {
                self.start_workflow();
                Ok(vec![])
            },
            ChildMessage::Stop => Ok(self.stop_workflow()),
            ChildMessage::Kill => Err(NodeError::KillError),
        }
    }

    /// Handles a message of the child.
    pub fn process_msg_from_child(&mut self, msg: ParentMessage) -> (result: Result<
        Vec<Effect>,
        NodeError,
    >)
        requires
            old(self).phase is Serving,
        ensures
            final(self).wf(),
            *final(self) == old(self).after_child(msg),
            reacts(result, old(self).reply_to_child(msg)),
    {
        match msg {
            ParentMessage::RequestStart => {
                self.phase = Phase::Fetching(Purpose::ChildRequest);
            },
            ParentMessage::Status(Status::Success) => {
                return Ok(vec![self.update_status(Status::Success)]);
            },
            ParentMessage::Status(Status::Failure) => {
                return Ok(vec![self.update_status(Status::Failure)]);
            },
            ParentMessage::Status(_) => {},
            ParentMessage::Poison(err) => return Err(err),
            ParentMessage::Killed => {},
        }
        Ok(vec![])
    }

    /// Handles a new value. Errors are skipped.
    pub fn process_incoming_val(&mut self, val: Result<(), ActorError>)
        requires
            old(self).phase is Serving,
        ensures
            final(self).wf(),
            *final(self) == old(self).after_value(val),
    {
        if val.is_ok() {
            if self.status.is_running() {
                self.phase = Phase::Evaluating(Purpose::RunningValue);
            } else if self.status.is_failure() && !self.prev_evaluation {
                self.phase = Phase::Evaluating(Purpose::FailedValue);
            }
        }
    }

    /// Draws the consequences of a verdict.
    fn conclude(&mut self, purpose: Purpose, passed: bool) -> (effects: Vec<Effect>)
        ensures
            final(self).wf(),
            *final(self) == old(self).after_verdict(purpose, passed),
            effects@ == old(self).reply_to_verdict(purpose, passed),
    {
        self.phase = Phase::Serving;
        match purpose {
            Purpose::Start => {
                if passed {
                    let running = self.update_status(Status::Running);
                    if self.child {
                        vec![running, Effect::NotifyChild(0, ChildMessage::Start)]
                    } else {
                        // Without a child a condition succeeds at once
                        vec![running, self.update_status(Status::Success)]
                    }
                } else {
                    vec![self.update_status(Status::Failure)]
                }
            },
            Purpose::ChildRequest => {
                if passed && self.status.is_failure() {
                    vec![Effect::NotifyParent(ParentMessage::RequestStart)]
                } else {
                    vec![]
                }
            },
            Purpose::RunningValue => {
                if passed {
                    vec![]
                } else {
                    self.stop_workflow()
                }
            },
            Purpose::FailedValue => {
                if passed {
                    vec![Effect::NotifyParent(ParentMessage::RequestStart)]
                } else {
                    vec![]
                }
            },
        }
    }

    /// Goes on when the current value was fetched.
    pub fn evaluate_now(&mut self, val: Result<(), ActorError>) -> (result: Result<
        Vec<Effect>,
        NodeError,
    >)
        requires
            old(self).wf(),
            old(self).phase is Fetching,
        ensures
            final(self).wf(),
            *final(self) == old(self).after_fetch(old(self).phase->Fetching_0, val),
            reacts(result, old(self).reply_to_fetch(old(self).phase->Fetching_0, val)),
    {
        if let Phase::Fetching(purpose) = self.phase {
            match val {
                Ok(_) => {
                    self.phase = Phase::Evaluating(purpose);
                    Ok(vec![])
                },
                Err(ActorError::NoValueSet(_)) => Ok(self.conclude(purpose, false)),
                Err(err) => Err(NodeError::ActorError(err)),
            }
        } else {
            Ok(vec![])
        }
    }

    /// Goes on when the test came to a verdict.
    pub fn run_evaluator(&mut self, evaluation: Result<bool, String>) -> (result: Result<
        Vec<Effect>,
        NodeError,
    >)
        requires
            old(self).wf(),
            old(self).phase is Evaluating,
        ensures
            final(self).wf(),
            *final(self) == old(self).after_evaluation(old(self).phase->Evaluating_0, evaluation),
            reacts(
                result,
                old(self).reply_to_evaluation(old(self).phase->Evaluating_0, evaluation),
            ),
    {
        if let Phase::Evaluating(purpose) = self.phase {
            match evaluation {
                Ok(passed) => {
                    self.prev_evaluation = passed;
                    Ok(self.conclude(purpose, passed))
                },
                Err(err) => Err(NodeError::ExecutionError(err)),
            }
        } else {
            Ok(vec![])
        }
    }

    /// Handles what the child says while it is expected to stop.
    pub fn confirm_stop(&mut self, msg: Result<ParentMessage, NodeError>) -> (result: Result<
        Vec<Effect>,
        NodeError,
    >)
        requires
            old(self).wf(),
            old(self).phase is Stopping,
        ensures
            final(self).wf(),
            *final(self) == old(self).after_stopping(msg),
            reacts(result, old(self).reply_to_stopping(msg)),
    {
        match msg {
            Ok(ParentMessage::Status(Status::Failure)) => {
                self.phase = Phase::Serving;
                Ok(vec![self.update_status(Status::Failure)])
            },
            Ok(ParentMessage::Status(Status::Success)) => {
                self.phase = Phase::Serving;
                Ok(vec![self.update_status(Status::Success)])
            },
            Ok(ParentMessage::Poison(err)) => Err(err),
            Ok(_) => Ok(vec![]),
            Err(err) => Err(err),
        }
    }

    /// The state after one turn.
    pub open spec fn after_turn(self, event: ConditionEvent) -> Self {
        match event {
            ConditionEvent::Parent(Ok(msg)) => self.after_parent(msg),
            ConditionEvent::Parent(Err(_)) => self,
            ConditionEvent::Child(msg) => match self.phase {
                Phase::Stopping => self.after_stopping(msg),
                _ => match msg {
                    Ok(msg) => self.after_child(msg),
                    Err(_) => self,
                },
            },
            ConditionEvent::Value(val) => self.after_value(val),
            ConditionEvent::Fetched(val) => self.after_fetch(self.phase->Fetching_0, val),
            ConditionEvent::Evaluated(result) => self.after_evaluation(
                self.phase->Evaluating_0,
                result,
            ),
        }
    }

    /// What one turn leads to.
    pub open spec fn reply_to_turn(self, event: ConditionEvent) -> Result<Seq<Effect>, NodeError> {
        match event {
            ConditionEvent::Parent(Ok(msg)) => self.reply_to_parent(msg),
            ConditionEvent::Parent(Err(_)) => Ok(seq![]),
            ConditionEvent::Child(msg) => match self.phase {
                Phase::Stopping => self.reply_to_stopping(msg),
                _ => match msg {
                    Ok(msg) => self.reply_to_child(msg),
                    Err(_) => Ok(seq![]),
                },
            },
            ConditionEvent::Value(_) => Ok(seq![]),
            ConditionEvent::Fetched(val) => self.reply_to_fetch(self.phase->Fetching_0, val),
            ConditionEvent::Evaluated(result) => self.reply_to_evaluation(
                self.phase->Evaluating_0,
                result,
            ),
        }
    }

    /// One turn of serving: handles the first thing that happens of those that the phase
    /// names. An error ends the condition. That nothing could be received from the
    /// parent or the child is no error, except from a child that is expected to stop.
    pub fn _serve(&mut self, event: ConditionEvent) -> (result: Result<Vec<Effect>, NodeError>)
        requires
            old(self).wf(),
            old(self).awaits(event),
        ensures
            final(self).wf(),
            *final(self) == old(self).after_turn(event),
            reacts(result, old(self).reply_to_turn(event)),
    {
        match event {
            ConditionEvent::Parent(Ok(msg)) => self.process_msg_from_parent(msg),
            ConditionEvent::Parent(Err(_)) => Ok(vec![]),
            ConditionEvent::Child(msg) => match self.phase {
                Phase::Stopping => self.confirm_stop(msg),
                _ => match msg {
                    Ok(msg) => self.process_msg_from_child(msg),
                    Err(_) => Ok(vec![]),
                },
            },
            ConditionEvent::Value(val) => {
                self.process_incoming_val(val);
                Ok(vec![])
            },
            ConditionEvent::Fetched(val) => self.evaluate_now(val),
            ConditionEvent::Evaluated(result) => self.run_evaluator(result),
        }
    }
}

/// A condition that is asked to start puts the current value to the test: if it passes
/// the condition runs and its child is started, or it succeeds where it has no child.
/// If it does not pass, or if there is no value yet, the condition fails.
pub proof fn law_condition_starts_by_verdict(
    process: ConditionProcess,
    missing: String,
    passed: bool,
)
    requires
        process.wf(),
        process.phase is Serving,
        process.status !is Running,
    ensures
        ({
            let fetching = process.after_turn(ConditionEvent::Parent(Ok(ChildMessage::Start)));
            let evaluating = fetching.after_turn(ConditionEvent::Fetched(Ok(())));
            let verdict = ConditionEvent::Evaluated(Ok(passed));
            let unset = ConditionEvent::Fetched(Err(ActorError::NoValueSet(missing)));
            let running = Effect::NotifyParent(ParentMessage::Status(Status::Running));
            let success = Effect::NotifyParent(ParentMessage::Status(Status::Success));
            let failure = Effect::NotifyParent(ParentMessage::Status(Status::Failure));
            &&& process.reply_to_turn(ConditionEvent::Parent(Ok(ChildMessage::Start))) == Ok::<
                Seq<Effect>,
                NodeError,
            >(seq![])
            &&& fetching.reply_to_turn(ConditionEvent::Fetched(Ok(()))) == Ok::<
                Seq<Effect>,
                NodeError,
            >(seq![])
            &&& evaluating.awaits(verdict)
            &&& evaluating.reply_to_turn(verdict) == Ok::<Seq<Effect>, NodeError>(
                if !passed {
                    seq![failure]
                } else if process.child {
                    seq![running, Effect::NotifyChild(0, ChildMessage::Start)]
                } else {
                    seq![running, success]
                },
            )
            &&& evaluating.after_turn(verdict) == (ConditionProcess {
                status: if !passed {
                    Status::Failure
                } else if process.child {
                    Status::Running
                } else {
                    Status::Success
                },
                prev_evaluation: passed,
                ..process
            })
            &&& fetching.reply_to_turn(unset) == Ok::<Seq<Effect>, NodeError>(seq![failure])
            &&& fetching.after_turn(unset) == (ConditionProcess { status: Status::Failure, ..process
            })
        }),
{
}

/// The child of a condition is started only after the test has passed on the value that
/// was current when the parent asked.
pub proof fn law_condition_guards_child(process: ConditionProcess, event: ConditionEvent)
    requires
        process.wf(),
        process.awaits(event),
    ensures
        match process.reply_to_turn(event) {
            Ok(effects) => effects.contains(Effect::NotifyChild(0, ChildMessage::Start)) ==> {
                &&& process.phase == Phase::Evaluating(Purpose::Start)
                &&& event == ConditionEvent::Evaluated(Ok(true))
            },
            Err(_) => true,
        },
{
}

/// A condition asks its parent to be started only when it has failed and its test has
/// just passed.
pub proof fn law_condition_requests_start_on_pass(process: ConditionProcess, event: ConditionEvent)
    requires
        process.wf(),
        process.awaits(event),
    ensures
        match process.reply_to_turn(event) {
            Ok(effects) => effects.contains(Effect::NotifyParent(ParentMessage::RequestStart))
                ==> {
                &&& process.status is Failure
                &&& event == ConditionEvent::Evaluated(Ok(true))
                &&& process.after_turn(event).prev_evaluation
            },
            Err(_) => true,
        },
{
}

/// A failed condition whose last verdict was a pass has asked already, and takes no
/// notice of new values. One whose last verdict was no pass puts a new value to the
/// test, and asks its parent to be started if it passes.
pub proof fn law_condition_requests_start_on_change(process: ConditionProcess)
    requires
        process.phase is Serving,
        process.status is Failure,
    ensures
        process.prev_evaluation ==> process.after_turn(ConditionEvent::Value(Ok(()))) == process,
        !process.prev_evaluation ==> {
            let tested = process.after_turn(ConditionEvent::Value(Ok(())));
            let passes = ConditionEvent::Evaluated(Ok(true));
            let fails = ConditionEvent::Evaluated(Ok(false));
            &&& tested.awaits(passes)
            &&& tested.reply_to_turn(passes) == Ok::<Seq<Effect>, NodeError>(
                seq![Effect::NotifyParent(ParentMessage::RequestStart)],
            )
            &&& tested.after_turn(passes) == (ConditionProcess { prev_evaluation: true, ..process })
            &&& tested.reply_to_turn(fails) == Ok::<Seq<Effect>, NodeError>(seq![])
            &&& tested.after_turn(fails) == process
        },
{
}

/// A running condition whose new value does not pass stops its child, and ends as the
/// child does: a child that finishes all the same makes the condition succeed. So does
/// one that its parent asks to stop.
pub proof fn law_condition_stop_is_confirmed(process: ConditionProcess, success: bool)
    requires
        process.phase is Serving,
        process.status is Running,
        process.child,
    ensures
        ({
            let tested = process.after_turn(ConditionEvent::Value(Ok(())));
            let fails = ConditionEvent::Evaluated(Ok(false));
            let stop = ConditionEvent::Parent(Ok(ChildMessage::Stop));
            let withdrawn = tested.after_turn(fails);
            let stopped = process.after_turn(stop);
            let answer = if success {
                Status::Success
            } else {
                Status::Failure
            };
            let end = ConditionEvent::Child(Ok(ParentMessage::Status(answer)));
            let confirmation = Ok::<Seq<Effect>, NodeError>(
                seq![Effect::NotifyParent(ParentMessage::Status(answer))],
            );
            let stop_child = Ok::<Seq<Effect>, NodeError>(
                seq![Effect::NotifyChild(0, ChildMessage::Stop)],
            );
            &&& tested.reply_to_turn(fails) == stop_child
            &&& withdrawn.awaits(end)
            &&& withdrawn.reply_to_turn(end) == confirmation
            &&& withdrawn.after_turn(end) == (ConditionProcess {
                status: answer,
                prev_evaluation: false,
                ..process
            })
            &&& process.reply_to_turn(stop) == stop_child
            &&& stopped.awaits(end)
            &&& stopped.reply_to_turn(end) == confirmation
            &&& stopped.after_turn(end) == (ConditionProcess { status: answer, ..process })
        }),
{
}

/// Poison of the child ends the condition, also while it waits for the child to stop.
pub proof fn law_condition_is_poisoned(process: ConditionProcess, err: NodeError)
    requires
        process.phase is Serving || process.phase is Stopping,
    ensures
        process.reply_to_turn(ConditionEvent::Child(Ok(ParentMessage::Poison(err)))) == Err::<
            Seq<Effect>,
            NodeError,
        >(err),
{
}

/// What makes a condition go on: short of an end, what a child says of itself, and that it was
/// killed, neither moves the condition nor makes it speak. Nor does it, while the condition is
/// being served, that something could not be received.
pub proof fn law_condition_waits_for_an_end(
    process: ConditionProcess,
    running: bool,
    missed: RecvError,
    lost: NodeError,
)
    requires
        process.phase is Serving,
    ensures
        ({
            let status = if running {
                Status::Running
            } else {
                Status::Idle
            };
            let says = ConditionEvent::Child(Ok(ParentMessage::Status(status)));
            let dies = ConditionEvent::Child(Ok(ParentMessage::Killed));
            let nothing = Ok::<Seq<Effect>, NodeError>(seq![]);
            &&& process.reply_to_turn(says) == nothing
            &&& process.after_turn(says) == process
            &&& process.reply_to_turn(dies) == nothing
            &&& process.after_turn(dies) == process
            &&& process.reply_to_turn(ConditionEvent::Parent(Err(missed))) == nothing
            &&& process.after_turn(ConditionEvent::Parent(Err(missed))) == process
            &&& process.reply_to_turn(ConditionEvent::Child(Err(lost))) == nothing
            &&& process.after_turn(ConditionEvent::Child(Err(lost))) == process
        }),
{
}

/// The request to die and the poison of the child end a condition, with the error that each of
/// them stands for.
pub proof fn law_condition_ends_with_the_error(process: ConditionProcess, err: NodeError)
    requires
        process.phase is Serving,
    ensures
        process.reply_to_turn(ConditionEvent::Parent(Ok(ChildMessage::Kill))) == Err::<Seq<Effect>, NodeError>(
            NodeError::KillError,
        ),
        process.after_turn(ConditionEvent::Parent(Ok(ChildMessage::Kill))) == process,
        process.reply_to_turn(ConditionEvent::Child(Ok(ParentMessage::Poison(err)))) == Err::<Seq<Effect>, NodeError>(err),
        process.after_turn(ConditionEvent::Child(Ok(ParentMessage::Poison(err)))) == process,
{
}

/// A condition that waits for its child to stop takes the first end that the child reports for
/// its own, hears nothing else, and breaks if the child cannot be heard.
pub proof fn law_stopping_condition_waits_for_the_end(
    process: ConditionProcess,
    msg: ParentMessage,
    success: bool,
    lost: NodeError,
)
    requires
        process.phase is Stopping,
    ensures
        ({
            let answer = if success {
                Status::Success
            } else {
                Status::Failure
            };
            let end = ConditionEvent::Child(Ok(ParentMessage::Status(answer)));
            let other = ConditionEvent::Child(Ok(msg));
            &&& process.awaits(end)
            &&& process.reply_to_turn(end) == Ok::<Seq<Effect>, NodeError>(
                seq![Effect::NotifyParent(ParentMessage::Status(answer))],
            )
            &&& process.after_turn(end) == (ConditionProcess {
                status: answer,
                phase: Phase::Serving,
                ..process
            })
            &&& msg != ParentMessage::Status(Status::Success) && msg != ParentMessage::Status(
                Status::Failure,
            ) && !(msg is Poison) ==> {
                &&& process.reply_to_turn(other) == Ok::<Seq<Effect>, NodeError>(seq![])
                &&& process.after_turn(other) == process
            }
            &&& process.reply_to_turn(ConditionEvent::Child(Err(lost))) == Err::<Seq<Effect>, NodeError>(lost)
            &&& process.after_turn(ConditionEvent::Child(Err(lost))) == process
        }),
{
}

/// A condition says of itself what it is: a status that it reports last is the one that it has
/// from then on, and it takes on no other in silence.
pub proof fn law_condition_reports_its_status(process: ConditionProcess, event: ConditionEvent, status: Status)
    requires
        process.wf(),
        process.awaits(event),
    ensures
        ({
            let after = process.after_turn(event);
            let reported = Effect::NotifyParent(ParentMessage::Status(status));
            &&& after.name == process.name
            &&& match process.reply_to_turn(event) {
                Ok(effects) => {
                    &&& effects.len() > 0 && effects.last() == reported ==> after.status == status
                    &&& after.status == status && process.status != status ==> effects.contains(
                        reported,
                    )
                },
                Err(_) => after.status == process.status,
            }
        }),
{
    if let Ok(effects) = process.reply_to_turn(event) {
        let reported = Effect::NotifyParent(ParentMessage::Status(status));
        if effects.len() > 0 && effects[0] == reported {
            assert(effects.contains(reported));
        }
        if effects.len() > 1 && effects[1] == reported {
            assert(effects.contains(reported));
        }
    }
}

/// One turn of a condition that is being served is the handling of one message: of the parent,
/// or of the child.
pub proof fn law_condition_turn_is_one_message(
    process: ConditionProcess,
    from_parent: ChildMessage,
    from_child: ParentMessage,
)
    requires
        process.phase is Serving,
    ensures
        process.after_turn(ConditionEvent::Parent(Ok(from_parent))) == process.after_parent(from_parent),
        process.reply_to_turn(ConditionEvent::Parent(Ok(from_parent))) == process.reply_to_parent(
            from_parent,
        ),
        process.after_turn(ConditionEvent::Child(Ok(from_child))) == process.after_child(from_child),
        process.reply_to_turn(ConditionEvent::Child(Ok(from_child))) == process.reply_to_child(from_child),
{
}

/// A condition that waits for its child to stop listens to nobody else, and handles one message
/// of the child in one turn.
pub proof fn law_stopping_condition_listens_to_its_child(
    process: ConditionProcess,
    received: Result<ChildMessage, RecvError>,
    msg: Result<ParentMessage, NodeError>,
)
    requires
        process.phase is Stopping,
    ensures
        process.awaits(ConditionEvent::Child(msg)),
        !process.awaits(ConditionEvent::Parent(received)),
        process.after_turn(ConditionEvent::Child(msg)) == process.after_stopping(msg),
        process.reply_to_turn(ConditionEvent::Child(msg)) == process.reply_to_stopping(msg),
{
}

/// A condition that is being served listens to its parent and to its child.
pub proof fn law_served_condition_listens(
    process: ConditionProcess,
    from_parent: Result<ChildMessage, RecvError>,
    from_child: Result<ParentMessage, NodeError>,
)
    requires
        process.phase is Serving,
    ensures
        process.awaits(ConditionEvent::Parent(from_parent)),
        process.awaits(ConditionEvent::Child(from_child)),
{
}

/// The verdict that a condition remembers is that of its last evaluation: nothing but a
/// verdict changes it. Whether there is a child never changes.
pub proof fn law_condition_remembers_its_last_verdict(
    process: ConditionProcess,
    event: ConditionEvent,
)
    requires
        process.awaits(event),
    ensures
        process.after_turn(event).prev_evaluation == match event {
            ConditionEvent::Evaluated(Ok(passed)) => passed,
            _ => process.prev_evaluation,
        },
        process.after_turn(event).child == process.child,
{
}

/// A condition that started on a passing value and whose child then failed is not
/// interested in new values: however many come in, it neither tests them nor asks to be
/// started, until it has been started again.
pub proof fn law_condition_does_not_ask_twice(
    process: ConditionProcess,
    values: Seq<Result<(), ActorError>>,
)
    requires
        process.phase is Serving,
        process.status is Running,
        process.prev_evaluation,
    ensures
        ({
            let failed = process.after_turn(
                ConditionEvent::Child(Ok(ParentMessage::Status(Status::Failure))),
            );
            &&& failed == (ConditionProcess { status: Status::Failure, ..process })
            &&& condition_after_values(failed, values) == failed
            &&& forall|i: int|
                0 <= i < values.len() ==> failed.reply_to_turn(
                    ConditionEvent::Value(#[trigger] values[i]),
                ) == Ok::<Seq<Effect>, NodeError>(seq![])
        }),
    decreases values.len(),
{
    if values.len() > 0 {
        law_condition_does_not_ask_twice(process, values.drop_last());
    }
}

/// The state of a condition after all these values came in.
pub open spec fn condition_after_values(
    process: ConditionProcess,
    values: Seq<Result<(), ActorError>>,
) -> ConditionProcess
    decreases values.len(),
{
    if values.len() == 0 {
        process
    } else {
        condition_after_values(process, values.drop_last()).after_turn(
            ConditionEvent::Value(values.last()),
        )
    }
}

/// A condition that is not running and is told to start fetches the value first, without a
/// word. One that runs takes no notice.
pub proof fn law_condition_starts_by_fetching(process: ConditionProcess)
    requires
        process.phase is Serving,
    ensures
        ({
            let start = ConditionEvent::Parent(Ok(ChildMessage::Start));
            &&& process.reply_to_turn(start) == Ok::<Seq<Effect>, NodeError>(seq![])
            &&& process.after_turn(start) == if process.status is Running {
                process
            } else {
                ConditionProcess { phase: Phase::Fetching(Purpose::Start), ..process }
            }
        }),
{
}

/// A condition that is told to stop stops its child if it is running and has one, and
/// fails at once if not.
pub proof fn law_condition_stops_its_child(process: ConditionProcess)
    requires
        process.phase is Serving,
    ensures
        ({
            let stop = ConditionEvent::Parent(Ok(ChildMessage::Stop));
            &&& process.status is Running && process.child ==> {
                &&& process.reply_to_turn(stop) == Ok::<Seq<Effect>, NodeError>(
                    seq![Effect::NotifyChild(0, ChildMessage::Stop)],
                )
                &&& process.after_turn(stop) == (ConditionProcess {
                    phase: Phase::Stopping,
                    ..process
                })
            }
            &&& process.status !is Running || !process.child ==> {
                &&& process.reply_to_turn(stop) == Ok::<Seq<Effect>, NodeError>(
                    seq![Effect::NotifyParent(ParentMessage::Status(Status::Failure))],
                )
                &&& process.after_turn(stop) == (ConditionProcess {
                    status: Status::Failure,
                    ..process
                })
            }
        }),
{
}

/// A condition ends as its child does.
pub proof fn law_condition_ends_with_its_child(process: ConditionProcess, success: bool)
    requires
        process.phase is Serving,
    ensures
        ({
            let answer = if success {
                Status::Success
            } else {
                Status::Failure
            };
            let end = ConditionEvent::Child(Ok(ParentMessage::Status(answer)));
            &&& process.reply_to_turn(end) == Ok::<Seq<Effect>, NodeError>(
                seq![Effect::NotifyParent(ParentMessage::Status(answer))],
            )
            &&& process.after_turn(end) == (ConditionProcess { status: answer, ..process })
        }),
{
}

/// When its child asks to be started, a condition puts the current value to the test, and
/// hands the request on if it passes and the condition has failed. In every other case the
/// request has no effect, except that the verdict is remembered.
pub proof fn law_condition_tests_before_it_hands_on(
    process: ConditionProcess,
    passed: bool,
    missing: String,
)
    requires
        process.phase is Serving,
    ensures
        ({
            let request = ConditionEvent::Child(Ok(ParentMessage::RequestStart));
            let fetching = ConditionProcess {
                phase: Phase::Fetching(Purpose::ChildRequest),
                ..process
            };
            let evaluating = ConditionProcess {
                phase: Phase::Evaluating(Purpose::ChildRequest),
                ..process
            };
            let verdict = ConditionEvent::Evaluated(Ok(passed));
            let unset = ConditionEvent::Fetched(Err(ActorError::NoValueSet(missing)));
            let nothing = Ok::<Seq<Effect>, NodeError>(seq![]);
            &&& process.reply_to_turn(request) == nothing
            &&& process.after_turn(request) == fetching
            &&& fetching.wf() && evaluating.wf()
            &&& fetching.reply_to_turn(ConditionEvent::Fetched(Ok(()))) == nothing
            &&& fetching.after_turn(ConditionEvent::Fetched(Ok(()))) == evaluating
            &&& fetching.reply_to_turn(unset) == nothing
            &&& fetching.after_turn(unset) == process
            &&& evaluating.reply_to_turn(verdict) == Ok::<Seq<Effect>, NodeError>(
                if passed && process.status is Failure {
                    seq![Effect::NotifyParent(ParentMessage::RequestStart)]
                } else {
                    seq![]
                },
            )
            &&& evaluating.after_turn(verdict) == (ConditionProcess {
                prev_evaluation: passed,
                ..process
            })
        }),
{
}

/// A new value is put to the test by a condition that runs, and by one that failed on its
/// last verdict, and by no other. A value that could not be received has no effect.
pub proof fn law_condition_tests_new_values(process: ConditionProcess, err: ActorError)
    requires
        process.phase is Serving,
    ensures
        ({
            let value = ConditionEvent::Value(Ok(()));
            let lost = ConditionEvent::Value(Err(err));
            let tested = process.status is Running || process.status is Failure
                && !process.prev_evaluation;
            &&& process.awaits(value) && process.awaits(lost)
            &&& process.reply_to_turn(value) == Ok::<Seq<Effect>, NodeError>(seq![])
            &&& process.reply_to_turn(lost) == Ok::<Seq<Effect>, NodeError>(seq![])
            &&& process.after_turn(lost) == process
            &&& !tested ==> process.after_turn(value) == process
            &&& process.status is Running ==> process.after_turn(value) == (ConditionProcess {
                phase: Phase::Evaluating(Purpose::RunningValue),
                ..process
            })
            &&& process.status is Failure && !process.prev_evaluation ==> process.after_turn(value)
                == (ConditionProcess { phase: Phase::Evaluating(Purpose::FailedValue), ..process })
        }),
{
}

/// A new value that passes leaves a running condition alone. One that does not pass stops
/// the child, or lets a condition without a child fail at once.
pub proof fn law_running_condition_obeys_the_verdict(process: ConditionProcess, passed: bool)
    requires
        process.phase == Phase::Evaluating(Purpose::RunningValue),
        process.status is Running,
    ensures
        ({
            let verdict = ConditionEvent::Evaluated(Ok(passed));
            let reply = process.reply_to_turn(verdict);
            let after = process.after_turn(verdict);
            let served = ConditionProcess {
                prev_evaluation: passed,
                phase: Phase::Serving,
                ..process
            };
            &&& passed ==> reply == Ok::<Seq<Effect>, NodeError>(seq![]) && after == served
            &&& !passed && process.child ==> {
                &&& reply == Ok::<Seq<Effect>, NodeError>(seq![Effect::NotifyChild(0, ChildMessage::Stop)])
                &&& after == (ConditionProcess { phase: Phase::Stopping, ..served })
            }
            &&& !passed && !process.child ==> {
                &&& reply == Ok::<Seq<Effect>, NodeError>(
                    seq![Effect::NotifyParent(ParentMessage::Status(Status::Failure))],
                )
                &&& after == (ConditionProcess { status: Status::Failure, ..served })
            }
        }),
{
}

/// For whatever reason a condition fetches and tests the value: a value is tested when it
/// was fetched, an error other than that there is no value ends the condition, and so does
/// a test that breaks. Nobody is listened to meanwhile.
pub proof fn law_condition_breaks_with_its_test(
    process: ConditionProcess,
    purpose: Purpose,
    cause: String,
    val: Result<(), ActorError>,
    verdict: Result<bool, String>,
    from_parent: Result<ChildMessage, RecvError>,
    from_child: Result<ParentMessage, NodeError>,
)
    ensures
        ({
            let fetching = ConditionProcess { phase: Phase::Fetching(purpose), ..process };
            let evaluating = ConditionProcess { phase: Phase::Evaluating(purpose), ..process };
            let fetched = ConditionEvent::Fetched(Ok(()));
            let gone = ConditionEvent::Fetched(Err(ActorError::Other(cause)));
            let broken = ConditionEvent::Evaluated(Err(cause));
            &&& fetching.awaits(ConditionEvent::Fetched(val))
            &&& evaluating.awaits(ConditionEvent::Evaluated(verdict))
            &&& fetching.reply_to_turn(fetched) == Ok::<Seq<Effect>, NodeError>(seq![])
            &&& fetching.after_turn(fetched) == evaluating
            &&& fetching.reply_to_turn(gone) == Err::<Seq<Effect>, NodeError>(
                NodeError::ActorError(ActorError::Other(cause)),
            )
            &&& fetching.after_turn(gone) == fetching
            &&& evaluating.reply_to_turn(broken) == Err::<Seq<Effect>, NodeError>(NodeError::ExecutionError(cause))
            &&& evaluating.after_turn(broken) == evaluating
            &&& !fetching.awaits(ConditionEvent::Parent(from_parent))
            &&& !fetching.awaits(ConditionEvent::Child(from_child))
            &&& !fetching.awaits(ConditionEvent::Value(val))
            &&& !evaluating.awaits(ConditionEvent::Parent(from_parent))
            &&& !evaluating.awaits(ConditionEvent::Child(from_child))
            &&& !evaluating.awaits(ConditionEvent::Value(val))
        }),
{
}

/// A condition that waits for its child to stop passes on the poison of the child.
pub proof fn law_stopping_condition_is_poisoned(process: ConditionProcess, err: NodeError)
    requires
        process.phase is Stopping,
    ensures
        process.reply_to_turn(ConditionEvent::Child(Ok(ParentMessage::Poison(err)))) == Err::<Seq<Effect>, NodeError>(err),
        process.after_turn(ConditionEvent::Child(Ok(ParentMessage::Poison(err)))) == process,
{
}

/// One turn of a condition that fetches or tests a value is one step of that.
pub proof fn law_condition_turn_is_one_step(
    process: ConditionProcess,
    purpose: Purpose,
    val: Result<(), ActorError>,
    verdict: Result<bool, String>,
)
    ensures
        process.after_turn(ConditionEvent::Value(val)) == process.after_value(val),
        process.phase == Phase::Fetching(purpose) ==> {
            &&& process.after_turn(ConditionEvent::Fetched(val)) == process.after_fetch(
                purpose,
                val,
            )
            &&& process.reply_to_turn(ConditionEvent::Fetched(val)) == process.reply_to_fetch(
                purpose,
                val,
            )
        },
        process.phase == Phase::Evaluating(purpose) ==> {
            &&& process.after_turn(ConditionEvent::Evaluated(verdict))
                == process.after_evaluation(purpose, verdict)
            &&& process.reply_to_turn(ConditionEvent::Evaluated(verdict))
                == process.reply_to_evaluation(purpose, verdict)
        },
{
}

/// A new condition is idle, has seen no verdict, and is ready to be served.
pub proof fn law_new_condition_is_idle(process: ConditionProcess, name: Seq<char>, child: bool)
    requires
        process.is_new(name, child),
    ensures
        process.name@ == name,
        process.child == child,
        process.status is Idle,
        !process.prev_evaluation,
        process.phase is Serving,
        process.wf(),
{
}

} // verus!
