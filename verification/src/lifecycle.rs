use vstd::prelude::*;

use crate::error::PluginError;
use crate::utf8::Utf8Text;
use crate::utf8::is_valid_utf8;

verus! {

/// The phases of the embedded interpreter, in the order they are reached.
/// The progression is irreversible: once the interpreter is ready it stays
/// ready for the life of the process.
#[derive(Clone, Copy, Debug, PartialEq, Eq, Structural)]
pub enum LifecycleState {
    /// No caller has started the interpreter yet.
    Uninitialized,
    /// One caller is running the one-time initialization body.
    Initializing,
    /// The interpreter is started and the bridge module is registered.
    Ready,
}

/// What a caller of the one-shot initializer must do next.
#[derive(Clone, Copy, Debug, PartialEq, Eq, Structural)]
pub enum InitAction {
    /// This caller won the latch: it must run the initialization body once
    /// and then mark the lifecycle complete.
    RunBody,
    /// Another caller is running the body: block until the lifecycle
    /// reports ready.
    WaitForReady,
    /// Initialization already happened; nothing to do.
    AlreadyReady,
}

/// The state reached when a caller enters the one-shot initializer.
pub open spec fn spec_begin(s: LifecycleState) -> LifecycleState {
    match s {
        LifecycleState::Uninitialized => LifecycleState::Initializing,
        _ => s,
    }
}

/// Whether a caller entering the one-shot initializer in state `s` runs the
/// initialization body: only the very first caller does.
pub open spec fn spec_runs_body(s: LifecycleState) -> bool {
    s is Uninitialized
}

/// The state reached when the body-running caller marks initialization done.
pub open spec fn spec_complete(s: LifecycleState) -> LifecycleState {
    match s {
        LifecycleState::Initializing => LifecycleState::Ready,
        _ => s,
    }
}

/// The one-shot latch that guards interpreter initialization.
///
/// The latch moves `Uninitialized -> Initializing -> Ready` and never back.
/// Exactly one caller of `begin_initialize` is told to run the
/// initialization body; everyone else waits or finds the work done.
pub struct Lifecycle {
    state: LifecycleState,
}

impl Lifecycle {
    /// The current phase of the lifecycle.
    pub closed spec fn state(self) -> LifecycleState {
        self.state
    }

    /// A fresh latch: nothing has been initialized.
    pub fn new() -> (r: Lifecycle)
        ensures
            r.state() is Uninitialized,
    {
        Lifecycle { state: LifecycleState::Uninitialized }
    }

    /// Pure read of the latch: true exactly when the interpreter is ready.
    pub fn is_initialized(&self) -> (r: bool)
        ensures
            r == (self.state() is Ready),
    {
        match self.state {
            LifecycleState::Ready => true,
            _ => false,
        }
    }

    /// Enter the one-shot initializer. The first caller is told to run the
    /// initialization body; a caller that arrives while the body runs is
    /// told to wait; after that the work is already done.
    pub fn begin_initialize(&mut self) -> (action: InitAction)
        ensures
            final(self).state() == spec_begin(old(self).state()),
            (action is RunBody) == spec_runs_body(old(self).state()),
            (action is WaitForReady) == (old(self).state() is Initializing),
            (action is AlreadyReady) == (old(self).state() is Ready),
    {
        match self.state {
            LifecycleState::Uninitialized => {
                self.state = LifecycleState::Initializing;
                InitAction::RunBody
            },
            LifecycleState::Initializing => InitAction::WaitForReady,
            LifecycleState::Ready => InitAction::AlreadyReady,
        }
    }

    /// Record that the initialization body has finished: the interpreter is
    /// started and the bridge module is registered. Only the caller that was
    /// told to run the body calls this.
    pub fn complete_initialize(&mut self)
        requires
            old(self).state() is Initializing,
        ensures
            final(self).state() == spec_complete(old(self).state()),
            final(self).state() is Ready,
    {
        self.state = LifecycleState::Ready;
    }

    /// Gate an evaluation request. A request made before the lifecycle is
    /// ready is refused outright, whatever its bytes; a byte span that is
    /// not well-formed UTF-8 is refused; otherwise the validated script is
    /// handed back for the interpreter to run as a sequence of statements.
    pub fn evaluate(&self, source: Vec<u8>) -> (r: Result<Utf8Text, PluginError>)
        ensures
            !(self.state() is Ready) ==> r == Err::<Utf8Text, PluginError>(
                PluginError::NotInitialized,
            ),
            self.state() is Ready && !is_valid_utf8(source@) ==> r == Err::<
                Utf8Text,
                PluginError,
            >(PluginError::InvalidUtf8),
            self.state() is Ready && is_valid_utf8(source@) ==> r is Ok && r->Ok_0@ == source@
                && r->Ok_0.wf(),
    {
        if !self.is_initialized() {
            return Err(PluginError::NotInitialized);
        }
        Utf8Text::from_bytes(source)
    }
}

/// What the interpreter reported after running a script.
#[derive(Clone, Copy, Debug, PartialEq, Eq, Structural)]
pub enum ScriptOutcome {
    /// The script ran to completion; any expression result is discarded.
    Completed,
    /// The script raised an exception. The boundary prints the interpreter
    /// diagnostics to the error stream before reporting this.
    Raised,
}

/// Fold the interpreter's report back into the evaluation result: a script
/// that ran to completion yields nothing; one that raised is fatal.
pub fn evaluate_outcome(outcome: ScriptOutcome) -> (r: Result<(), PluginError>)
    ensures
        (outcome is Completed) <==> (r is Ok),
        (outcome is Raised) <==> r == Err::<(), PluginError>(PluginError::ScriptRaised),
{
    match outcome {
        ScriptOutcome::Completed => Ok(()),
        ScriptOutcome::Raised => Err(PluginError::ScriptRaised),
    }
}

/// One caller's step through the one-shot initializer, for reasoning about
/// interleavings: entering the initializer, or finishing the body.
#[derive(Clone, Copy, Debug, PartialEq, Eq, Structural)]
pub enum InitOp {
    /// A caller enters the initializer (`begin_initialize`).
    Begin,
    /// The body-running caller finishes (`complete_initialize`).
    Complete,
}

/// The latch state after one caller's step.
pub open spec fn apply_op(s: LifecycleState, op: InitOp) -> LifecycleState {
    match op {
        InitOp::Begin => spec_begin(s),
        InitOp::Complete => spec_complete(s),
    }
}

/// Whether this step makes its caller run the initialization body.
pub open spec fn op_runs_body(s: LifecycleState, op: InitOp) -> bool {
    op is Begin && spec_runs_body(s)
}

/// The latch state after a whole interleaving of callers' steps.
pub open spec fn state_after(s: LifecycleState, ops: Seq<InitOp>) -> LifecycleState
    decreases ops.len(),
{
    if ops.len() == 0 {
        s
    } else {
        state_after(apply_op(s, ops[0]), ops.skip(1))
    }
}

/// How many steps of the interleaving run the initialization body.
pub open spec fn body_run_count(s: LifecycleState, ops: Seq<InitOp>) -> nat
    decreases ops.len(),
{
    if ops.len() == 0 {
        0
    } else {
        (if op_runs_body(s, ops[0]) {
            1nat
        } else {
            0nat
        }) + body_run_count(apply_op(s, ops[0]), ops.skip(1))
    }
}

/// Once the latch has left its initial state it never returns there, and no
/// later step runs the initialization body again.
proof fn lemma_body_never_reruns(s: LifecycleState, ops: Seq<InitOp>)
    requires
        !(s is Uninitialized),
    ensures
        body_run_count(s, ops) == 0,
        !(state_after(s, ops) is Uninitialized),
    decreases ops.len(),
{
    if ops.len() > 0 {
        lemma_body_never_reruns(apply_op(s, ops[0]), ops.skip(1));
    }
}

/// law: however many callers enter the one-shot initializer, and however
/// their begin and complete steps interleave, the initialization body runs
/// at most once; and it has run exactly once as soon as the latch has left
/// its initial state.
pub proof fn lemma_initialize_exactly_once(ops: Seq<InitOp>)
    ensures
        body_run_count(LifecycleState::Uninitialized, ops) <= 1,
        body_run_count(LifecycleState::Uninitialized, ops) == 1 <==> !(state_after(
            LifecycleState::Uninitialized,
            ops,
        ) is Uninitialized),
    decreases ops.len(),
{
    if ops.len() > 0 {
        match ops[0] {
            InitOp::Begin => {
                lemma_body_never_reruns(LifecycleState::Initializing, ops.skip(1));
            },
            InitOp::Complete => {
                lemma_initialize_exactly_once(ops.skip(1));
            },
        }
    }
}

/// law: ready is terminal. Whatever steps later callers take, a lifecycle
/// that has reached ready stays ready, so every caller that returns from
/// the initializer thereafter observes it initialized.
pub proof fn lemma_ready_is_terminal(ops: Seq<InitOp>)
    ensures
        state_after(LifecycleState::Ready, ops) is Ready,
    decreases ops.len(),
{
    if ops.len() > 0 {
        lemma_ready_is_terminal(ops.skip(1));
    }
}

} // verus!
