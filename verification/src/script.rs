//! Scripts: what a run prints, starts and asks, step by step.
//!
//! A script is a list of steps. A step prints a line, performs an action and judges its reply by a
//! rule, asks a question whose reply decides which steps come next, or ends the run with an error.
use vstd::prelude::*;

use crate::failure::{Failure, FailureView};
use crate::question::{Question, QuestionView};
use crate::text::{cat3, cat4, is_nothing, join, join_spec, push_text, texts};

verus! {

// ---------------------------------------------------------------------------------------------
// Commands
// ---------------------------------------------------------------------------------------------
/// The names and values of a list of pairs.
pub open spec fn pairs(items: Seq<(String, String)>) -> Seq<(Seq<char>, Seq<char>)> {
    items.map_values(|item: (String, String)| (item.0@, item.1@))
}

/// A process to start: a program, its arguments, and the variables set for it alone.
pub struct Command {
    pub program: String,
    pub args: Vec<String>,
    pub vars: Vec<(String, String)>,
}

/// The model of a command.
pub struct CommandView {
    pub program: Seq<char>,
    pub args: Seq<Seq<char>>,
    pub vars: Seq<(Seq<char>, Seq<char>)>,
}

impl View for Command {
    type V = CommandView;

    open spec fn view(&self) -> CommandView {
        CommandView {
            program: self.program@,
            args: texts(self.args@),
            vars: pairs(self.vars@),
        }
    }
}

/// A command without arguments.
pub open spec fn command(program: Seq<char>) -> CommandView {
    CommandView { program, args: Seq::empty(), vars: Seq::empty() }
}

impl CommandView {
    /// The command with one more argument.
    pub open spec fn arg(self, arg: Seq<char>) -> CommandView {
        CommandView { args: self.args.push(arg), ..self }
    }

    /// The command with more arguments.
    pub open spec fn with_args(self, args: Seq<Seq<char>>) -> CommandView {
        CommandView { args: self.args + args, ..self }
    }

    /// The command with one more variable.
    pub open spec fn var(self, name: Seq<char>, value: Seq<char>) -> CommandView {
        CommandView { vars: self.vars.push((name, value)), ..self }
    }

    /// The command line.
    pub open spec fn line(self) -> Seq<char> {
        self.program + " "@ + join_spec(self.args, " "@)
    }
}

impl Command {
    /// A command without arguments.
    pub fn new(program: &str) -> (c: Command)
        ensures
            c@ == command(program@),
    {
        let c = Command { program: program.to_owned(), args: Vec::new(), vars: Vec::new() };
        assert(c@.args =~= Seq::empty());
        assert(c@.vars =~= Seq::empty());
        c
    }

    /// The command with one more argument.
    pub fn arg(self, arg: &str) -> (c: Command)
        ensures
            c@ == self@.arg(arg@),
    {
        let mut args = self.args;
        push_text(&mut args, arg.to_owned());
        Command { program: self.program, args, vars: self.vars }
    }

    /// The command with more arguments.
    pub fn with_args(self, more: &Vec<String>) -> (c: Command)
        ensures
            c@ == self@.with_args(texts(more@)),
    {
        let mut args = self.args;
        let ghost before = texts(args@);
        let mut i: usize = 0;
        assert(before + texts(more@).take(0) =~= before);
        while i < more.len()
            invariant
                i <= more.len(),
                texts(args@) == before + texts(more@).take(i as int),
            decreases more.len() - i,
        {
            push_text(&mut args, more[i].clone());
            assert(before + texts(more@).take(i + 1) =~= (before + texts(more@).take(
                i as int,
            )).push(more@[i as int]@));
            i = i + 1;
        }
        assert(texts(more@).take(more.len() as int) =~= texts(more@));
        Command { program: self.program, args, vars: self.vars }
    }

    /// The command with one more variable.
    pub fn var(self, name: &str, value: &str) -> (c: Command)
        ensures
            c@ == self@.var(name@, value@),
    {
        let mut vars = self.vars;
        vars.push((name.to_owned(), value.to_owned()));
        let c = Command { program: self.program, args: self.args, vars };
        assert(c@.vars =~= self@.vars.push((name@, value@)));
        c
    }

    /// The command line.
    pub fn line(&self) -> (r: String)
        ensures
            r@ == self@.line(),
    {
        cat3(self.program.as_str(), " ", join(&self.args, " ").as_str())
    }
}

/// An HTTP GET request.
pub struct Request {
    pub url: String,
    pub headers: Vec<(String, String)>,
}

/// The model of a request.
pub struct RequestView {
    pub url: Seq<char>,
    pub headers: Seq<(Seq<char>, Seq<char>)>,
}

impl View for Request {
    type V = RequestView;

    open spec fn view(&self) -> RequestView {
        RequestView { url: self.url@, headers: pairs(self.headers@) }
    }
}

/// A request without headers.
pub open spec fn request(url: Seq<char>) -> RequestView {
    RequestView { url, headers: Seq::empty() }
}

impl RequestView {
    /// The request with one more header.
    pub open spec fn header(self, name: Seq<char>, value: Seq<char>) -> RequestView {
        RequestView { headers: self.headers.push((name, value)), ..self }
    }
}

impl Request {
    /// A request without headers.
    pub fn new(url: String) -> (r: Request)
        ensures
            r@ == request(url@),
    {
        let r = Request { url, headers: Vec::new() };
        assert(r@.headers =~= Seq::empty());
        r
    }

    /// The request with one more header.
    pub fn header(self, name: &str, value: &str) -> (r: Request)
        ensures
            r@ == self@.header(name@, value@),
    {
        let mut headers = self.headers;
        headers.push((name.to_owned(), value.to_owned()));
        let r = Request { url: self.url, headers };
        assert(r@.headers =~= self@.headers.push((name@, value@)));
        r
    }
}

// ---------------------------------------------------------------------------------------------
// Actions and replies
// ---------------------------------------------------------------------------------------------
/// What a run does outside of itself.
pub enum Action {
    /// Run a command on the terminal.
    Run(Command),
    /// Run a command silently.
    Quiet(Command),
    /// Run a command and capture what it prints on standard output.
    Capture(Command),
    /// Run a command and capture what it prints on standard output, whatever its exit status.
    Lossy(Command),
    /// Run a command and capture everything that it prints.
    Inspect(Command),
    /// Run a command with a text on its standard input.
    Feed(Command, String),
    /// Start a command that keeps running beside the following steps.
    Follow(Command),
    /// Stop the command that keeps running.
    Unfollow,
    /// Look for an executable on `PATH`.
    Find(String),
    /// Send an HTTP GET request.
    Get(Request),
    /// Wait that many seconds.
    Sleep(u64),
    /// Start the clock from which the replies count the seconds.
    Clock,
    /// Read a file.
    ReadFile(String),
    /// Look whether a path is a file.
    IsFile(String),
    /// Look whether a path exists.
    Exists(String),
    /// Create the directory in which a path lies.
    MakeParent(String),
    /// Write a file.
    WriteFile(String, String),
    /// Make a file readable and writable for its owner alone.
    Restrict(String),
    /// Write a temporary file, and reply with its path.
    TempFile(String),
    /// Set a variable of this process.
    SetVar(String, String),
}

/// The model of an action.
pub enum ActionView {
    Run(CommandView),
    Quiet(CommandView),
    Capture(CommandView),
    Lossy(CommandView),
    Inspect(CommandView),
    Feed(CommandView, Seq<char>),
    Follow(CommandView),
    Unfollow,
    Find(Seq<char>),
    Get(RequestView),
    Sleep(u64),
    Clock,
    ReadFile(Seq<char>),
    IsFile(Seq<char>),
    Exists(Seq<char>),
    MakeParent(Seq<char>),
    WriteFile(Seq<char>, Seq<char>),
    Restrict(Seq<char>),
    TempFile(Seq<char>),
    SetVar(Seq<char>, Seq<char>),
}

impl View for Action {
    type V = ActionView;

    open spec fn view(&self) -> ActionView {
        match *self {
            Action::Run(c) => ActionView::Run(c@),
            Action::Quiet(c) => ActionView::Quiet(c@),
            Action::Capture(c) => ActionView::Capture(c@),
            Action::Lossy(c) => ActionView::Lossy(c@),
            Action::Inspect(c) => ActionView::Inspect(c@),
            Action::Feed(c, input) => ActionView::Feed(c@, input@),
            Action::Follow(c) => ActionView::Follow(c@),
            Action::Unfollow => ActionView::Unfollow,
            Action::Find(tool) => ActionView::Find(tool@),
            Action::Get(request) => ActionView::Get(request@),
            Action::Sleep(seconds) => ActionView::Sleep(seconds),
            Action::Clock => ActionView::Clock,
            Action::ReadFile(path) => ActionView::ReadFile(path@),
            Action::IsFile(path) => ActionView::IsFile(path@),
            Action::Exists(path) => ActionView::Exists(path@),
            Action::MakeParent(path) => ActionView::MakeParent(path@),
            Action::WriteFile(path, content) => ActionView::WriteFile(path@, content@),
            Action::Restrict(path) => ActionView::Restrict(path@),
            Action::TempFile(content) => ActionView::TempFile(content@),
            Action::SetVar(name, value) => ActionView::SetVar(name@, value@),
        }
    }
}

impl ActionView {
    /// The command that the action runs.
    pub open spec fn command(self) -> Option<CommandView> {
        match self {
            ActionView::Run(c) => Some(c),
            ActionView::Quiet(c) => Some(c),
            ActionView::Capture(c) => Some(c),
            ActionView::Lossy(c) => Some(c),
            ActionView::Inspect(c) => Some(c),
            ActionView::Feed(c, _) => Some(c),
            ActionView::Follow(c) => Some(c),
            _ => None,
        }
    }
}

/// What came of an action.
pub struct Reply {
    /// The process could be started, or the temporary file created; true of any other action.
    pub spawned: bool,
    /// The action succeeded: exit status zero, a response, a file that is there.
    pub ok: bool,
    /// The exit status in words; empty where there is none.
    pub status: String,
    /// What was captured or read; the path of a temporary file; the directory that could not be made.
    pub stdout: String,
    /// What was captured of standard error; why a process was not started or did not come to an end;
    /// why an action on a file failed.
    pub stderr: String,
    /// The HTTP status of the response; zero where there is none.
    pub http: u16,
    /// The seconds since the clock was started.
    pub elapsed: u64,
}

/// The model of a reply.
pub struct ReplyView {
    pub spawned: bool,
    pub ok: bool,
    pub status: Seq<char>,
    pub stdout: Seq<char>,
    pub stderr: Seq<char>,
    pub http: u16,
    pub elapsed: u64,
}

impl View for Reply {
    type V = ReplyView;

    open spec fn view(&self) -> ReplyView {
        ReplyView {
            spawned: self.spawned,
            ok: self.ok,
            status: self.status@,
            stdout: self.stdout@,
            stderr: self.stderr@,
            http: self.http,
            elapsed: self.elapsed,
        }
    }
}

/// The error of a command that could not be started, did not come to an end, or did not succeed. It
/// shows the command line and never what was fed to the command.
pub open spec fn failure_spec(c: CommandView, reply: ReplyView) -> FailureView {
    if !reply.spawned {
        FailureView::because("failed to spawn '"@ + c.program + "'"@, reply.stderr)
    } else if reply.status.len() == 0 {
        FailureView::new(reply.stderr)
    } else {
        FailureView::new("'"@ + c.line() + "' failed with "@ + reply.status)
    }
}

/// The error of a command that could not be started, did not come to an end, or did not succeed. It
/// shows the command line and never what was fed to the command.
pub fn failure(c: &Command, reply: &Reply) -> (r: Failure)
    ensures
        r@ == failure_spec(c@, reply@),
{
    if !reply.spawned {
        Failure::because(cat3("failed to spawn '", c.program.as_str(), "'"), reply.stderr.as_str())
    } else if is_nothing(reply.status.as_str()) {
        Failure::new(reply.stderr.clone())
    } else {
        Failure::new(cat4("'", c.line().as_str(), "' failed with ", reply.status.as_str()))
    }
}

/// The error of a temporary file: it could not be created, or it could not be written.
pub open spec fn file_failure_spec(message: Seq<char>, reply: ReplyView) -> FailureView {
    if reply.spawned {
        FailureView::new(reply.stderr)
    } else {
        FailureView::because(message, reply.stderr)
    }
}

/// The error of a temporary file: it could not be created, or it could not be written.
pub fn file_failure(message: &str, reply: &Reply) -> (r: Failure)
    ensures
        r@ == file_failure_spec(message@, reply@),
{
    if reply.spawned {
        Failure::new(reply.stderr.clone())
    } else {
        Failure::because(message.to_owned(), reply.stderr.as_str())
    }
}

// ---------------------------------------------------------------------------------------------
// Steps
// ---------------------------------------------------------------------------------------------
/// How the reply of an action is judged.
pub enum Rule {
    /// A failure ends the run, with the error of the command.
    Require,
    /// A failure ends the run, with this error over that of the command.
    Explain(String),
    /// A failure ends the run, with this error over what the reply says.
    Expect(String),
    /// A failure ends the run, with this error and the place that the reply names, over what the
    /// reply says.
    ExpectAt(String),
    /// A failure ends the run, with the error that the reply gives.
    Relay,
    /// A failure is passed over.
    Ignore,
    /// A failure is reported by this line on standard error.
    Warn(String),
}

/// The model of a rule.
pub enum RuleView {
    Require,
    Explain(Seq<char>),
    Expect(Seq<char>),
    ExpectAt(Seq<char>),
    Relay,
    Ignore,
    Warn(Seq<char>),
}

impl View for Rule {
    type V = RuleView;

    open spec fn view(&self) -> RuleView {
        match *self {
            Rule::Require => RuleView::Require,
            Rule::Explain(message) => RuleView::Explain(message@),
            Rule::Expect(message) => RuleView::Expect(message@),
            Rule::ExpectAt(message) => RuleView::ExpectAt(message@),
            Rule::Relay => RuleView::Relay,
            Rule::Ignore => RuleView::Ignore,
            Rule::Warn(line) => RuleView::Warn(line@),
        }
    }
}

/// One step of a script.
pub enum Step {
    /// Print a line on standard output.
    Say(String),
    /// Print a line on standard error.
    Report(String),
    /// Perform an action and judge its reply.
    Do(Action, Rule),
    /// Ask, and go on as the reply decides.
    Ask(Question),
    /// End the run with an error.
    Fail(Failure),
}

/// The model of a step.
pub enum StepView {
    Say(Seq<char>),
    Report(Seq<char>),
    Do(ActionView, RuleView),
    Ask(QuestionView),
    Fail(FailureView),
}

impl View for Step {
    type V = StepView;

    open spec fn view(&self) -> StepView {
        match *self {
            Step::Say(text) => StepView::Say(text@),
            Step::Report(text) => StepView::Report(text@),
            Step::Do(action, rule) => StepView::Do(action@, rule@),
            Step::Ask(question) => StepView::Ask(question@),
            Step::Fail(failure) => StepView::Fail(failure@),
        }
    }
}

/// A list of steps.
pub struct Script {
    pub steps: Vec<Step>,
}

/// The model of a script.
pub struct ScriptView {
    pub steps: Seq<StepView>,
}

impl View for Script {
    type V = ScriptView;

    open spec fn view(&self) -> ScriptView {
        ScriptView { steps: self.steps@.map_values(|step: Step| step@) }
    }
}

impl ScriptView {
    /// The script without steps.
    pub open spec fn new() -> ScriptView {
        ScriptView { steps: Seq::empty() }
    }

    /// The script with one more step.
    pub open spec fn step(self, step: StepView) -> ScriptView {
        ScriptView { steps: self.steps.push(step) }
    }

    /// The script that then prints a line.
    pub open spec fn say(self, text: Seq<char>) -> ScriptView {
        self.step(StepView::Say(text))
    }

    /// The script that then prints a line on standard error.
    pub open spec fn report(self, text: Seq<char>) -> ScriptView {
        self.step(StepView::Report(text))
    }

    /// The script that then performs an action.
    pub open spec fn perform(self, action: ActionView, rule: RuleView) -> ScriptView {
        self.step(StepView::Do(action, rule))
    }

    /// The script that then asks a question.
    pub open spec fn ask(self, question: QuestionView) -> ScriptView {
        self.step(StepView::Ask(question))
    }

    /// The script that then ends the run with an error.
    pub open spec fn fail(self, message: Seq<char>) -> ScriptView {
        self.fail_with(FailureView::new(message))
    }

    /// The script that then ends the run with an error and its causes.
    pub open spec fn fail_with(self, failure: FailureView) -> ScriptView {
        self.step(StepView::Fail(failure))
    }

    /// The script that then goes on with another.
    pub open spec fn join(self, other: ScriptView) -> ScriptView {
        ScriptView { steps: self.steps + other.steps }
    }
}

impl Script {
    /// The script without steps.
    pub fn new() -> (s: Script)
        ensures
            s@ == ScriptView::new(),
    {
        let s = Script { steps: Vec::new() };
        assert(s@.steps =~= Seq::empty());
        s
    }

    /// The script with one more step.
    pub fn step(self, step: Step) -> (s: Script)
        ensures
            s@ == self@.step(step@),
    {
        let mut steps = self.steps;
        steps.push(step);
        let s = Script { steps };
        assert(s@.steps =~= self@.steps.push(step@));
        s
    }

    /// The script that then prints a line.
    pub fn say(self, text: String) -> (s: Script)
        ensures
            s@ == self@.say(text@),
    {
        self.step(Step::Say(text))
    }

    /// The script that then prints a line on standard error.
    pub fn report(self, text: String) -> (s: Script)
        ensures
            s@ == self@.report(text@),
    {
        self.step(Step::Report(text))
    }

    /// The script that then performs an action.
    pub fn perform(self, action: Action, rule: Rule) -> (s: Script)
        ensures
            s@ == self@.perform(action@, rule@),
    {
        self.step(Step::Do(action, rule))
    }

    /// The script that then asks a question.
    pub fn ask(self, question: Question) -> (s: Script)
        ensures
            s@ == self@.ask(question@),
    {
        self.step(Step::Ask(question))
    }

    /// The script that then ends the run with an error.
    pub fn fail(self, message: String) -> (s: Script)
        ensures
            s@ == self@.fail(message@),
    {
        self.fail_with(Failure::new(message))
    }

    /// The script that then ends the run with an error and its causes.
    pub fn fail_with(self, failure: Failure) -> (s: Script)
        ensures
            s@ == self@.fail_with(failure@),
    {
        self.step(Step::Fail(failure))
    }

    /// The script that then goes on with another.
    pub fn join(self, other: Script) -> (s: Script)
        ensures
            s@ == self@.join(other@),
    {
        let mut steps = self.steps;
        let mut rest = other.steps;
        steps.append(&mut rest);
        let s = Script { steps };
        assert(s@.steps =~= self@.steps + other@.steps);
        s
    }
}

/// The scripts of the items of a list, one after the other.
pub open spec fn for_each_spec(
    items: Seq<Seq<char>>,
    one: spec_fn(Seq<char>) -> ScriptView,
) -> ScriptView
    decreases items.len(),
{
    if items.len() == 0 {
        ScriptView::new()
    } else {
        for_each_spec(items.drop_last(), one).join(one(items.last()))
    }
}

/// The scripts of the items of a list, one after the other.
pub(crate) fn for_each(
    items: &Vec<String>,
    one: impl Fn(&str) -> Script,
    Ghost(model): Ghost<spec_fn(Seq<char>) -> ScriptView>,
) -> (s: Script)
    requires
        forall|item: &str| one.requires((item,)),
        forall|item: &str, r: Script| one.ensures((item,), r) ==> r@ == model(item@),
    ensures
        s@ == for_each_spec(texts(items@), model),
{
    let mut s = Script::new();
    let mut i: usize = 0;
    let ghost all = texts(items@);
    assert(all.take(0) =~= Seq::empty());
    while i < items.len()
        invariant
            i <= items.len(),
            all == texts(items@),
            forall|item: &str| one.requires((item,)),
            forall|item: &str, r: Script| one.ensures((item,), r) ==> r@ == model(item@),
            s@ == for_each_spec(all.take(i as int), model),
        decreases items.len() - i,
    {
        proof {
            assert(all.take(i + 1).drop_last() =~= all.take(i as int));
            assert(all.take(i + 1).last() == items@[i as int]@);
        }
        s = s.join(one(items[i].as_str()));
        i = i + 1;
    }
    assert(all.take(items.len() as int) =~= all);
    s
}

} // verus!
