//! Commands to be run, what they came to, and plans of steps to be carried out in order.

use vstd::prelude::*;
use vstd::string::*;

use crate::decode::{decode_utf8, utf8_text};
use crate::failure::{outcome, Failure};
use crate::file_path::{FilePath, FilePathValue};
use crate::text::{push_text, texts, trim, trimmed};

verus! {

// ---------------------------------------------------------------------------------------------
// Commands
// ---------------------------------------------------------------------------------------------

/// A program and its arguments.
#[derive(Debug)]
pub struct CommandLine {
    pub program: String,
    pub args: Vec<String>,
}

/// A program and its arguments, as texts.
pub struct CommandText {
    pub program: Seq<char>,
    pub args: Seq<Seq<char>>,
}

impl View for CommandLine {
    type V = CommandText;

    open spec fn view(&self) -> CommandText {
        CommandText { program: self.program@, args: texts(self.args@) }
    }
}

/// The command `program` without arguments.
pub open spec fn command(program: Seq<char>) -> CommandText {
    CommandText { program, args: Seq::empty() }
}

impl CommandText {
    /// The command with one more argument.
    pub open spec fn with(self, arg: Seq<char>) -> CommandText {
        CommandText { program: self.program, args: self.args.push(arg) }
    }
}

impl CommandLine {
    /// The command without arguments.
    pub fn new(program: &str) -> (line: CommandLine)
        ensures
            line@ == command(program@),
    {
        let line = CommandLine { program: program.to_string(), args: Vec::new() };
        assert(texts(line.args@) =~= Seq::<Seq<char>>::empty());
        line
    }

    /// The command with one more argument.
    pub fn arg(self, arg: &str) -> (line: CommandLine)
        ensures
            line@ == self@.with(arg@),
    {
        let mut args = self.args;
        push_text(&mut args, arg.to_string());
        CommandLine { program: self.program, args }
    }
}

/// A command with a path in it, which need not be text.
#[derive(Debug)]
pub struct PathCommand<P> {
    /// The program, and the arguments before the path; none where the path is the program.
    pub runner: Option<CommandLine>,
    pub path: FilePath<P>,
    /// The arguments after the path.
    pub args: Vec<String>,
}

/// A command with a path in it, as values.
pub struct PathCommandValue<P> {
    pub runner: Option<CommandText>,
    pub path: FilePathValue<P>,
    pub args: Seq<Seq<char>>,
}

impl<P> View for PathCommand<P> {
    type V = PathCommandValue<P>;

    open spec fn view(&self) -> PathCommandValue<P> {
        PathCommandValue {
            runner: match self.runner {
                Some(line) => Some(line@),
                None => None,
            },
            path: self.path@,
            args: texts(self.args@),
        }
    }
}

/// The command that runs the program at `path` with `args`, by means of `runner` where there is one.
pub open spec fn path_command<P>(
    runner: Option<CommandText>,
    path: FilePathValue<P>,
    args: Seq<Seq<char>>,
) -> PathCommandValue<P> {
    PathCommandValue { runner, path, args }
}

/// What a program that ran left behind.
#[derive(Debug)]
pub struct ProcessOutput {
    pub success: bool,
    pub stdout: Vec<u8>,
    pub stderr: Vec<u8>,
}

/// What a program that ran left behind, as values.
pub struct ProcessOutputValue {
    pub success: bool,
    pub stdout: Seq<u8>,
    pub stderr: Seq<u8>,
}

impl View for ProcessOutput {
    type V = ProcessOutputValue;

    open spec fn view(&self) -> ProcessOutputValue {
        ProcessOutputValue { success: self.success, stdout: self.stdout@, stderr: self.stderr@ }
    }
}

/// What running a command came to: its output, or why it could not be started.
pub open spec fn run_value(run: Result<ProcessOutput, Failure>) -> Result<
    ProcessOutputValue,
    Seq<Seq<char>>,
> {
    match run {
        Ok(output) => Ok(output@),
        Err(failure) => Err(failure@),
    }
}

/// The command ran and reported success.
pub open spec fn succeeded(run: Result<ProcessOutputValue, Seq<Seq<char>>>) -> bool {
    match run {
        Ok(output) => output.success,
        Err(_) => false,
    }
}

/// The text that a program wrote, without the white space around it.
pub open spec fn message_text(bytes: Seq<u8>) -> Seq<char> {
    trimmed(utf8_text(bytes))
}

/// What running `program` came to, as the result of the operation that needed it.
pub open spec fn command_result(
    program: Seq<char>,
    run: Result<ProcessOutputValue, Seq<Seq<char>>>,
) -> Result<(), Seq<Seq<char>>> {
    match run {
        Err(causes) => Err(seq!["failed to execute "@ + program] + causes),
        Ok(output) => if output.success {
            Ok(())
        } else {
            Err(seq![program + " failed: "@ + message_text(output.stderr)])
        },
    }
}

/// The text that a program wrote, without the white space around it.
pub fn written_text(bytes: &Vec<u8>) -> (text: String)
    ensures
        text@ == message_text(bytes@),
{
    trim(decode_utf8(bytes.as_slice()).as_str())
}

/// The failure of a command that ran without success and left `stderr` behind.
pub fn command_failure(program: &str, stderr: &str) -> (failure: Failure)
    ensures
        failure@ == seq![program@ + " failed: "@ + trimmed(stderr@)],
{
    Failure::new(program.to_string().concat(" failed: ").concat(trim(stderr).as_str()))
}

/// The result of an operation that consists in running `command`: it succeeds if and only if the
/// command ran and reported success, and otherwise says that the command could not be started, or
/// what it complained of.
pub fn run_command(command: &CommandLine, run: Result<ProcessOutput, Failure>) -> (result: Result<
    (),
    Failure,
>)
    ensures
        outcome(result) == command_result(command@.program, run_value(run)),
{
    match run {
        Err(error) => Err(
            error.context("failed to execute ".to_string().concat(command.program.as_str())),
        ),
        Ok(output) => if output.success {
            Ok(())
        } else {
            let stderr = decode_utf8(output.stderr.as_slice());
            Err(command_failure(command.program.as_str(), stderr.as_str()))
        },
    }
}

/// The first of the two texts that is not empty, and else `otherwise`.
pub open spec fn detail_text(stderr: Seq<char>, stdout: Seq<char>, otherwise: Seq<char>) -> Seq<
    char,
> {
    if trimmed(stderr).len() > 0 {
        trimmed(stderr)
    } else if trimmed(stdout).len() > 0 {
        trimmed(stdout)
    } else {
        otherwise
    }
}

/// What a command that failed had to say: what it wrote to its error output, else what it wrote
/// to its output, else `otherwise`.
pub fn failure_detail(stderr: &str, stdout: &str, otherwise: &str) -> (detail: String)
    ensures
        detail@ == detail_text(stderr@, stdout@, otherwise@),
{
    let error_text = trim(stderr);
    if !error_text.as_str().is_empty() {
        return error_text;
    }
    let output_text = trim(stdout);
    if !output_text.as_str().is_empty() {
        return output_text;
    }
    otherwise.to_string()
}

// ---------------------------------------------------------------------------------------------
// Plans
// ---------------------------------------------------------------------------------------------

/// Something to be done outside the library.
#[derive(Debug)]
pub enum Action<P> {
    /// Run a command to its end.
    Run(CommandLine),
    /// Create the first path as a directory, with those above it; a failure names the second.
    CreateDir(FilePath<P>, FilePath<P>),
    /// Copy the first file to the second.
    CopyFile(FilePath<P>, FilePath<P>),
    /// Remove a file.
    RemoveFile(FilePath<P>),
    /// Write the new contents of a file to this path.
    WriteFile(FilePath<P>),
    /// Move the first file to the second, in place of what is there.
    MoveFile(FilePath<P>, FilePath<P>),
    /// Give a file or a directory tree to the user who runs the program.
    SyncOwnership(FilePath<P>),
    /// Print a line.
    Print(String),
    /// Take the root certificate out of the trust stores.
    UninstallCa,
    /// Put the root certificate into the NSS database of the user.
    InstallToNss,
    /// Put the root certificate into the Firefox profiles of the user.
    InstallToFirefox,
    /// Take the root certificate out of the NSS database of the user.
    UninstallFromNss,
    /// Take the root certificate out of the Firefox profiles of the user.
    UninstallFromFirefox,
    /// Put the root certificate into the Android trust stores.
    InstallToAndroid,
    /// Take the root certificate out of the Android trust stores.
    UninstallFromAndroid,
    /// Remove the process id on record, where there is one.
    ClearPid,
    /// Write the state of the service.
    WriteState,
    /// Add an address to the loopback interface.
    AddAlias(String),
    /// Take an address from the loopback interface.
    RemoveAlias(String),
    /// Give up with a message.
    Fail(String),
}

/// Something to be done, as values.
pub enum ActionValue<P> {
    Run(CommandText),
    CreateDir(FilePathValue<P>, FilePathValue<P>),
    CopyFile(FilePathValue<P>, FilePathValue<P>),
    RemoveFile(FilePathValue<P>),
    WriteFile(FilePathValue<P>),
    MoveFile(FilePathValue<P>, FilePathValue<P>),
    SyncOwnership(FilePathValue<P>),
    Print(Seq<char>),
    UninstallCa,
    InstallToNss,
    InstallToFirefox,
    UninstallFromNss,
    UninstallFromFirefox,
    InstallToAndroid,
    UninstallFromAndroid,
    ClearPid,
    WriteState,
    AddAlias(Seq<char>),
    RemoveAlias(Seq<char>),
    Fail(Seq<char>),
}

impl<P> View for Action<P> {
    type V = ActionValue<P>;

    open spec fn view(&self) -> ActionValue<P> {
        match self {
            Action::Run(line) => ActionValue::Run(line@),
            Action::CreateDir(path, named) => ActionValue::CreateDir(path@, named@),
            Action::CopyFile(from, to) => ActionValue::CopyFile(from@, to@),
            Action::RemoveFile(path) => ActionValue::RemoveFile(path@),
            Action::WriteFile(path) => ActionValue::WriteFile(path@),
            Action::MoveFile(from, to) => ActionValue::MoveFile(from@, to@),
            Action::SyncOwnership(path) => ActionValue::SyncOwnership(path@),
            Action::Print(line) => ActionValue::Print(line@),
            Action::UninstallCa => ActionValue::UninstallCa,
            Action::InstallToNss => ActionValue::InstallToNss,
            Action::InstallToFirefox => ActionValue::InstallToFirefox,
            Action::UninstallFromNss => ActionValue::UninstallFromNss,
            Action::UninstallFromFirefox => ActionValue::UninstallFromFirefox,
            Action::InstallToAndroid => ActionValue::InstallToAndroid,
            Action::UninstallFromAndroid => ActionValue::UninstallFromAndroid,
            Action::ClearPid => ActionValue::ClearPid,
            Action::WriteState => ActionValue::WriteState,
            Action::AddAlias(addr) => ActionValue::AddAlias(addr@),
            Action::RemoveAlias(addr) => ActionValue::RemoveAlias(addr@),
            Action::Fail(message) => ActionValue::Fail(message@),
        }
    }
}

/// The message that stands above the cause where an action on files fails; there is none for the
/// other actions, which say themselves what went wrong.
pub open spec fn action_context<P>(action: ActionValue<P>) -> Option<Seq<char>> {
    match action {
        ActionValue::CreateDir(_, named) => Some("failed to create "@ + named.shown()),
        ActionValue::CopyFile(_, to) => Some("failed to copy CA to "@ + to.shown()),
        ActionValue::RemoveFile(path) => Some("failed to remove "@ + path.shown()),
        ActionValue::WriteFile(path) => Some("failed to write "@ + path.shown()),
        ActionValue::MoveFile(from, to) => Some(
            "failed to move "@ + from.shown() + " to "@ + to.shown(),
        ),
        _ => None,
    }
}

/// The result of an action, where doing it came to `done`.
pub open spec fn action_outcome<P>(
    action: ActionValue<P>,
    done: Result<(), Seq<Seq<char>>>,
) -> Result<(), Seq<Seq<char>>> {
    match (done, action_context(action)) {
        (Err(causes), Some(message)) => Err(seq![message] + causes),
        _ => done,
    }
}

/// The result of an action, where doing it came to `done`: a failure says what failed.
pub fn action_result<P>(action: &Action<P>, done: Result<(), Failure>) -> (result: Result<(), Failure>)
    ensures
        outcome(result) == action_outcome(action@, outcome(done)),
{
    let error = match done {
        Ok(_) => {
            return Ok(());
        },
        Err(error) => error,
    };
    let message = match action {
        Action::CreateDir(_, named) => "failed to create ".to_string().concat(named.text().as_str()),
        Action::CopyFile(_, to) => "failed to copy CA to ".to_string().concat(to.text().as_str()),
        Action::RemoveFile(path) => "failed to remove ".to_string().concat(path.text().as_str()),
        Action::WriteFile(path) => "failed to write ".to_string().concat(path.text().as_str()),
        Action::MoveFile(from, to) => "failed to move ".to_string().concat(from.text().as_str()).concat(
            " to ",
        ).concat(to.text().as_str()),
        _ => {
            return Err(error);
        },
    };
    Err(error.context(message))
}

/// What a step means for the plan that it stands in.
#[derive(Debug, Clone, Copy, PartialEq, Eq, Structural)]
pub enum Policy {
    /// The plan fails where the step fails.
    Required,
    /// The plan goes on whatever the step comes to.
    Ignored,
    /// The plan is over where the step succeeds, and goes on where it fails.
    Alternative,
}

/// A step of a plan.
#[derive(Debug)]
pub struct Step<P> {
    pub action: Action<P>,
    pub policy: Policy,
}

/// A step of a plan, as values.
pub struct StepValue<P> {
    pub action: ActionValue<P>,
    pub policy: Policy,
}

impl<P> View for Step<P> {
    type V = StepValue<P>;

    open spec fn view(&self) -> StepValue<P> {
        StepValue { action: self.action@, policy: self.policy }
    }
}

/// The plan with nothing to do.
pub open spec fn no_steps<P>() -> Seq<StepValue<P>> {
    Seq::empty()
}

pub open spec fn required<P>(action: ActionValue<P>) -> StepValue<P> {
    StepValue { action, policy: Policy::Required }
}

pub open spec fn ignored<P>(action: ActionValue<P>) -> StepValue<P> {
    StepValue { action, policy: Policy::Ignored }
}

pub open spec fn alternative<P>(action: ActionValue<P>) -> StepValue<P> {
    StepValue { action, policy: Policy::Alternative }
}

/// Some step of the plan is this action.
pub open spec fn does<P>(steps: Seq<StepValue<P>>, action: ActionValue<P>) -> bool {
    exists|i: int| 0 <= i < steps.len() && #[trigger] steps[i].action == action
}

/// Steps to be carried out one after the other.
#[derive(Debug)]
pub struct Plan<P> {
    pub steps: Vec<Step<P>>,
}

impl<P> View for Plan<P> {
    type V = Seq<StepValue<P>>;

    open spec fn view(&self) -> Seq<StepValue<P>> {
        Seq::new(self.steps@.len(), |i: int| self.steps@[i]@)
    }
}

impl<P> Plan<P> {
    /// The plan with nothing to do.
    pub fn new() -> (plan: Plan<P>)
        ensures
            plan@ == no_steps::<P>(),
    {
        let plan = Plan { steps: Vec::new() };
        assert(plan@ =~= Seq::<StepValue<P>>::empty());
        plan
    }

    /// The plan with one more step.
    pub fn step(self, action: Action<P>, policy: Policy) -> (plan: Plan<P>)
        ensures
            plan@ == self@.push(StepValue { action: action@, policy }),
    {
        let mut steps = self.steps;
        steps.push(Step { action, policy });
        let plan = Plan { steps };
        assert(plan@ =~= self@.push(StepValue { action: action@, policy }));
        plan
    }

    /// The plan with one more step, which has to succeed.
    pub fn require(self, action: Action<P>) -> (plan: Plan<P>)
        ensures
            plan@ == self@.push(required(action@)),
    {
        self.step(action, Policy::Required)
    }

    /// The plan with one more step, which may fail.
    pub fn attempt(self, action: Action<P>) -> (plan: Plan<P>)
        ensures
            plan@ == self@.push(ignored(action@)),
    {
        self.step(action, Policy::Ignored)
    }

    /// The plan with one more step, which ends it where it succeeds.
    pub fn alternative(self, action: Action<P>) -> (plan: Plan<P>)
        ensures
            plan@ == self@.push(alternative(action@)),
    {
        self.step(action, Policy::Alternative)
    }
}

/// What is left of a plan after its first step came to `result`: nothing where the plan is over.
pub open spec fn steps_after<P>(
    steps: Seq<StepValue<P>>,
    result: Result<(), Seq<Seq<char>>>,
) -> Seq<StepValue<P>> {
    match steps[0].policy {
        Policy::Required => if result is Ok {
            steps.drop_first()
        } else {
            Seq::empty()
        },
        Policy::Ignored => steps.drop_first(),
        Policy::Alternative => if result is Ok {
            Seq::empty()
        } else {
            steps.drop_first()
        },
    }
}

/// What the first step of a plan, having come to `result`, means for the whole.
pub open spec fn verdict_after<P>(
    steps: Seq<StepValue<P>>,
    result: Result<(), Seq<Seq<char>>>,
) -> Result<(), Seq<Seq<char>>> {
    if steps[0].policy is Required {
        result
    } else {
        Ok(())
    }
}

/// What a plan comes to where its steps, in order, come to `results`.
pub open spec fn plan_result<P>(
    steps: Seq<StepValue<P>>,
    results: spec_fn(ActionValue<P>) -> Result<(), Seq<Seq<char>>>,
) -> Result<(), Seq<Seq<char>>>
    decreases steps.len(),
{
    if steps.len() == 0 {
        Ok(())
    } else {
        let result = results(steps[0].action);
        if verdict_after(steps, result) is Err {
            verdict_after(steps, result)
        } else if steps_after(steps, result).len() == 0 {
            Ok(())
        } else {
            plan_result(steps.drop_first(), results)
        }
    }
}

/// A plan that is being carried out.
#[derive(Debug)]
pub struct PlanRun<P> {
    plan: Plan<P>,
    next: usize,
}

impl<P> View for PlanRun<P> {
    type V = Seq<StepValue<P>>;

    /// The steps that are still to be carried out.
    closed spec fn view(&self) -> Seq<StepValue<P>> {
        self.plan@.skip(self.next as int)
    }
}

impl<P> PlanRun<P> {
    #[verifier::type_invariant]
    spec fn in_range(&self) -> bool {
        self.next <= self.plan.steps@.len()
    }

    /// A plan of which nothing is done yet.
    pub fn new(plan: Plan<P>) -> (run: PlanRun<P>)
        ensures
            run@ == plan@,
    {
        assert(plan@.skip(0) =~= plan@);
        PlanRun { plan, next: 0 }
    }

    /// The step to be carried out now; none where the plan is over.
    pub fn current(&self) -> (step: Option<&Step<P>>)
        ensures
            match step {
                Some(step) => self@.len() > 0 && step@ == self@[0],
                None => self@.len() == 0,
            },
    {
        proof {
            use_type_invariant(self);
        }
        if self.next < self.plan.steps.len() {
            Some(&self.plan.steps[self.next])
        } else {
            None
        }
    }

    /// Takes note of what the current step came to: a required step that fails ends the plan
    /// with its failure, an alternative that succeeds ends it well, and otherwise it goes on.
    pub fn record(&mut self, result: Result<(), Failure>) -> (verdict: Result<(), Failure>)
        requires
            old(self)@.len() > 0,
        ensures
            final(self)@ == steps_after(old(self)@, outcome(result)),
            outcome(verdict) == verdict_after(old(self)@, outcome(result)),
    {
        proof {
            use_type_invariant(&*self);
            assert(self.plan@.skip(self.next as int)[0] == self.plan.steps@[self.next as int]@);
            assert(self.plan@.skip(self.next as int).drop_first() =~= self.plan@.skip(
                self.next + 1,
            ));
            assert(self.plan@.skip(self.plan@.len() as int) =~= Seq::<StepValue<P>>::empty());
        }
        let policy = self.plan.steps[self.next].policy;
        let end: usize = self.plan.steps.len();
        match policy {
            Policy::Required => match result {
                Ok(_) => {
                    self.next = self.next + 1;
                    Ok(())
                },
                Err(failure) => {
                    self.next = end;
                    Err(failure)
                },
            },
            Policy::Ignored => {
                self.next = self.next + 1;
                Ok(())
            },
            Policy::Alternative => {
                if result.is_ok() {
                    self.next = end;
                } else {
                    self.next = self.next + 1;
                }
                Ok(())
            },
        }
    }
}

/// Carrying out a plan step by step comes to what the plan comes to: where the first step fails
/// for the whole, that is the result, and else the result is that of the steps that are left.
pub proof fn law_plan_is_the_sum_of_its_steps<P>(
    steps: Seq<StepValue<P>>,
    results: spec_fn(ActionValue<P>) -> Result<(), Seq<Seq<char>>>,
)
    requires
        steps.len() > 0,
    ensures
        plan_result(steps, results) == (if verdict_after(steps, results(steps[0].action)) is Err {
            verdict_after(steps, results(steps[0].action))
        } else {
            plan_result(steps_after(steps, results(steps[0].action)), results)
        }),
{
}

/// A plan without required steps does not fail, whatever its steps come to.
pub proof fn law_optional_plans_never_fail<P>(
    steps: Seq<StepValue<P>>,
    results: spec_fn(ActionValue<P>) -> Result<(), Seq<Seq<char>>>,
)
    requires
        forall|i: int| 0 <= i < steps.len() ==> !((#[trigger] steps[i]).policy is Required),
    ensures
        plan_result(steps, results) is Ok,
    decreases steps.len(),
{
    if steps.len() > 0 {
        assert(!(steps[0].policy is Required));
        law_optional_plans_never_fail(steps.drop_first(), results);
    }
}

/// A plan of required steps succeeds if and only if each step does; otherwise its failure is that of
/// the first step that fails, and no later step is begun.
pub proof fn law_first_failure_ends_the_plan<P>(
    steps: Seq<StepValue<P>>,
    results: spec_fn(ActionValue<P>) -> Result<(), Seq<Seq<char>>>,
)
    requires
        forall|i: int| 0 <= i < steps.len() ==> (#[trigger] steps[i]).policy is Required,
    ensures
        match plan_result(steps, results) {
            Ok(_) => forall|i: int|
                0 <= i < steps.len() ==> results((#[trigger] steps[i]).action) is Ok,
            Err(causes) => exists|i: int| #[trigger] is_first_failure(steps, results, causes, i),
        },
        steps.len() > 0 && results(steps[0].action) is Err ==> steps_after(
            steps,
            results(steps[0].action),
        ).len() == 0,
    decreases steps.len(),
{
    if steps.len() > 0 {
        assert(steps[0].policy is Required);
        let rest = steps.drop_first();
        law_first_failure_ends_the_plan(rest, results);
        assert(forall|i: int| 0 < i < steps.len() ==> #[trigger] steps[i] == rest[i - 1]);
        if results(steps[0].action) is Err {
            let causes = results(steps[0].action)->Err_0;
            assert(is_first_failure(steps, results, causes, 0));
        } else if plan_result(rest, results) is Err {
            let causes = plan_result(rest, results)->Err_0;
            let i = choose|i: int| #[trigger] is_first_failure(rest, results, causes, i);
            assert(is_first_failure(steps, results, causes, i + 1));
        }
    }
}

/// Step `i` is the first that fails, with these messages.
pub open spec fn is_first_failure<P>(
    steps: Seq<StepValue<P>>,
    results: spec_fn(ActionValue<P>) -> Result<(), Seq<Seq<char>>>,
    causes: Seq<Seq<char>>,
    i: int,
) -> bool {
    &&& 0 <= i < steps.len()
    &&& results(steps[i].action) == Err::<(), Seq<Seq<char>>>(causes)
    &&& forall|j: int| 0 <= j < i ==> results((#[trigger] steps[j]).action) is Ok
}

/// The step runs this program with these arguments, and has this policy.
pub open spec fn runs<P>(
    step: StepValue<P>,
    policy: Policy,
    program: Seq<char>,
    args: Seq<Seq<char>>,
) -> bool {
    step.policy == policy && step.action == ActionValue::<P>::Run(CommandText { program, args })
}

/// A command is written as its program and its arguments in order.
pub proof fn law_arguments_keep_their_order(program: Seq<char>, args: Seq<Seq<char>>, arg: Seq<char>)
    ensures
        command(program).program == program,
        command(program).args.len() == 0,
        (CommandText { program, args }).with(arg).program == program,
        (CommandText { program, args }).with(arg).args.len() == args.len() + 1,
        (CommandText { program, args }).with(arg).args.last() == arg,
        (CommandText { program, args }).with(arg).args.drop_last() == args,
{
}

/// What the first step of a plan comes to decides as its policy says: a required step that fails ends
/// the plan with its failure, an alternative that succeeds ends it well, and otherwise the rest
/// follows.
pub proof fn law_policy_decides<P>(
    step: StepValue<P>,
    rest: Seq<StepValue<P>>,
    causes: Seq<Seq<char>>,
    results: spec_fn(ActionValue<P>) -> Result<(), Seq<Seq<char>>>,
)
    ensures
        ({
            let steps = seq![step] + rest;
            let none = Seq::<StepValue<P>>::empty();
            let failed = Err::<(), Seq<Seq<char>>>(causes);
            &&& steps_after(steps, Ok(())) == (if step.policy is Alternative {
                none
            } else {
                rest
            })
            &&& steps_after(steps, failed) == (if step.policy is Required {
                none
            } else {
                rest
            })
            &&& verdict_after(steps, Ok(())) is Ok
            &&& verdict_after(steps, failed) == (if step.policy is Required {
                failed
            } else {
                Ok(())
            })
            &&& plan_result(none, results) is Ok
            &&& plan_result(steps, results) == (match results(step.action) {
                Ok(_) => if step.policy is Alternative {
                    Ok(())
                } else {
                    plan_result(rest, results)
                },
                Err(causes) => if step.policy is Required {
                    Err(causes)
                } else {
                    plan_result(rest, results)
                },
            })
        }),
{
    let steps = seq![step] + rest;
    assert(steps.drop_first() =~= rest);
}

/// A command that was needed is reported as it went: success where it ran and said so, a message that
/// names it above the causes where it could not be started, and else its complaint.
pub proof fn law_commands_are_reported(
    program: Seq<char>,
    causes: Seq<Seq<char>>,
    output: ProcessOutputValue,
)
    ensures
        message_text(output.stderr) == trimmed(utf8_text(output.stderr)),
        succeeded(Ok(output)) == output.success,
        !succeeded(Err(causes)),
        command_result(program, Ok(output)) is Ok <==> output.success,
        !output.success ==> command_result(program, Ok(output)) == Err::<(), Seq<Seq<char>>>(
            seq![program + " failed: "@ + trimmed(utf8_text(output.stderr))],
        ),
        match command_result(program, Err(causes)) {
            Ok(_) => false,
            Err(messages) => {
                &&& messages.len() == causes.len() + 1
                &&& messages[0] == "failed to execute "@ + program
                &&& messages.drop_first() == causes
            },
        },
{
}

/// What a command that failed had to say is the first of its outputs that has more than white space.
pub proof fn law_first_complaint_is_told(
    stderr: Seq<char>,
    stdout: Seq<char>,
    otherwise: Seq<char>,
)
    ensures
        trimmed(stderr).len() > 0 ==> detail_text(stderr, stdout, otherwise) == trimmed(stderr),
        trimmed(stderr).len() == 0 && trimmed(stdout).len() > 0 ==> detail_text(
            stderr,
            stdout,
            otherwise,
        ) == trimmed(stdout),
        trimmed(stderr).len() == 0 && trimmed(stdout).len() == 0 ==> detail_text(
            stderr,
            stdout,
            otherwise,
        ) == otherwise,
{
}

/// A failure of an action on files names the file above its cause; a failure of another action is
/// passed on as it is, and so is success.
pub proof fn law_failed_actions_name_their_file<P>(
    action: ActionValue<P>,
    causes: Seq<Seq<char>>,
    from: FilePathValue<P>,
    to: FilePathValue<P>,
)
    ensures
        action_outcome(action, Ok(())) is Ok,
        action_outcome(action, Err(causes)) is Err,
        action_outcome(ActionValue::CreateDir(from, to), Err(causes))->Err_0 == seq![
            "failed to create "@ + to.shown(),
        ] + causes,
        action_outcome(ActionValue::CopyFile(from, to), Err(causes))->Err_0 == seq![
            "failed to copy CA to "@ + to.shown(),
        ] + causes,
        action_outcome(ActionValue::RemoveFile(from), Err(causes))->Err_0 == seq![
            "failed to remove "@ + from.shown(),
        ] + causes,
        action_outcome(ActionValue::WriteFile(from), Err(causes))->Err_0 == seq![
            "failed to write "@ + from.shown(),
        ] + causes,
        action_outcome(ActionValue::MoveFile(from, to), Err(causes))->Err_0 == seq![
            "failed to move "@ + from.shown() + " to "@ + to.shown(),
        ] + causes,
        !(action is CreateDir) && !(action is CopyFile) && !(action is RemoveFile) && !(action
            is WriteFile) && !(action is MoveFile) ==> action_outcome(action, Err(causes))->Err_0
            == causes,
{
}

} // verus!
