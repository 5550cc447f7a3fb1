//! Sessions: a script as it runs. A session says what is to be printed or performed next, and takes
//! the reply of each action.
use vstd::prelude::*;

use crate::failure::{Failure, FailureView};
use crate::question;
use crate::question::{Question, QuestionView};
use crate::script::{
    failure, failure_spec, Action, ActionView, Command, Reply, ReplyView, Rule, RuleView, Script,
    ScriptView, Step, StepView,
};
use crate::settings::Config;
use crate::text::cat2;

verus! {

// ---------------------------------------------------------------------------------------------
// Judging replies
// ---------------------------------------------------------------------------------------------
/// The error of an action that failed: that of its command, or of an action without a command what
/// the reply says.
pub open spec fn action_failure_spec(action: ActionView, reply: ReplyView) -> FailureView {
    match action.command() {
        Some(c) => failure_spec(c, reply),
        None => FailureView::new(reply.stderr),
    }
}

/// What becomes of a run once an action is performed: nothing where it succeeded, and otherwise
/// what the rule says.
pub open spec fn judge_spec(action: ActionView, rule: RuleView, reply: ReplyView) -> ScriptView {
    if reply.ok {
        ScriptView::new()
    } else {
        match rule {
            RuleView::Require => ScriptView::new().fail_with(action_failure_spec(action, reply)),
            RuleView::Explain(message) => ScriptView::new().fail_with(
                action_failure_spec(action, reply).under(message),
            ),
            RuleView::Expect(message) => ScriptView::new().fail_with(
                FailureView::because(message, reply.stderr),
            ),
            RuleView::ExpectAt(message) => ScriptView::new().fail_with(
                FailureView::because(message + reply.stdout, reply.stderr),
            ),
            RuleView::Relay => ScriptView::new().fail(reply.stderr),
            RuleView::Ignore => ScriptView::new(),
            RuleView::Warn(line) => ScriptView::new().report(line),
        }
    }
}

fn command_of(action: &Action) -> (r: Option<&Command>)
    ensures
        match r {
            Some(c) => action@.command() == Some(c@),
            None => action@.command() is None,
        },
{
    match action {
        Action::Run(c) => Some(c),
        Action::Quiet(c) => Some(c),
        Action::Capture(c) => Some(c),
        Action::Lossy(c) => Some(c),
        Action::Inspect(c) => Some(c),
        Action::Feed(c, _) => Some(c),
        Action::Follow(c) => Some(c),
        _ => None,
    }
}

/// The error of an action that failed: that of its command, or of an action without a command what
/// the reply says.
pub fn action_failure(action: &Action, reply: &Reply) -> (r: Failure)
    ensures
        r@ == action_failure_spec(action@, reply@),
{
    match command_of(action) {
        Some(c) => failure(c, reply),
        None => Failure::new(reply.stderr.clone()),
    }
}

/// What becomes of a run once an action is performed: nothing where it succeeded, and otherwise
/// what the rule says.
pub fn judge(action: &Action, rule: &Rule, reply: &Reply) -> (s: Script)
    ensures
        s@ == judge_spec(action@, rule@, reply@),
{
    if reply.ok {
        Script::new()
    } else {
        match rule {
            Rule::Require => Script::new().fail_with(action_failure(action, reply)),
            Rule::Explain(message) => Script::new().fail_with(
                action_failure(action, reply).under(message.clone()),
            ),
            Rule::Expect(message) => Script::new().fail_with(
                Failure::because(message.clone(), reply.stderr.as_str()),
            ),
            Rule::ExpectAt(message) => Script::new().fail_with(
                Failure::because(
                    cat2(message.as_str(), reply.stdout.as_str()),
                    reply.stderr.as_str(),
                ),
            ),
            Rule::Relay => Script::new().fail(reply.stderr.clone()),
            Rule::Ignore => Script::new(),
            Rule::Warn(line) => Script::new().report(line.clone()),
        }
    }
}

// ---------------------------------------------------------------------------------------------
// Sessions
// ---------------------------------------------------------------------------------------------
/// Why an action is performed: for its own sake, or to answer a question.
pub enum Concern {
    Rule(Rule),
    Question(Question),
}

/// The model of a concern.
pub enum ConcernView {
    Rule(RuleView),
    Question(QuestionView),
}

impl View for Concern {
    type V = ConcernView;

    open spec fn view(&self) -> ConcernView {
        match *self {
            Concern::Rule(rule) => ConcernView::Rule(rule@),
            Concern::Question(question) => ConcernView::Question(question@),
        }
    }
}

/// What a session does next.
pub enum Move {
    /// Print a line on standard output.
    Print(String),
    /// Print a line on standard error.
    PrintError(String),
    /// Perform the current action of the session.
    Act,
    /// The run has succeeded.
    Finished,
    /// The run has failed with an error.
    Failed(Failure),
}

/// The model of a move.
pub enum MoveView {
    Print(Seq<char>),
    PrintError(Seq<char>),
    Act,
    Finished,
    Failed(FailureView),
}

impl View for Move {
    type V = MoveView;

    open spec fn view(&self) -> MoveView {
        match *self {
            Move::Print(text) => MoveView::Print(text@),
            Move::PrintError(text) => MoveView::PrintError(text@),
            Move::Act => MoveView::Act,
            Move::Finished => MoveView::Finished,
            Move::Failed(failure) => MoveView::Failed(failure@),
        }
    }
}

/// A script as it runs.
pub struct Session<'a> {
    cfg: &'a Config<'a>,
    todo: Vec<Step>,
    current: Option<(Action, Concern)>,
}

/// The model of a session: the steps to come, and the action whose reply is awaited.
pub struct SessionView {
    pub todo: Seq<StepView>,
    pub current: Option<(ActionView, ConcernView)>,
}

impl<'a> View for Session<'a> {
    type V = SessionView;

    closed spec fn view(&self) -> SessionView {
        SessionView {
            todo: self.todo@.map_values(|step: Step| step@),
            current: match self.current {
                Some((action, concern)) => Some((action@, concern@)),
                None => None,
            },
        }
    }
}

impl SessionView {
    /// What the session does next.
    pub open spec fn next_move(self) -> MoveView {
        if self.todo.len() == 0 {
            MoveView::Finished
        } else {
            match self.todo[0] {
                StepView::Say(text) => MoveView::Print(text),
                StepView::Report(text) => MoveView::PrintError(text),
                StepView::Do(_, _) => MoveView::Act,
                StepView::Ask(_) => MoveView::Act,
                StepView::Fail(failure) => MoveView::Failed(failure),
            }
        }
    }

    /// The session after its next move. An error drops the steps that were to come.
    pub open spec fn moved(self, cfg: Config) -> SessionView {
        if self.todo.len() == 0 {
            self
        } else {
            let rest = SessionView { todo: self.todo.skip(1), current: None };
            match self.todo[0] {
                StepView::Do(action, rule) => SessionView {
                    current: Some((action, ConcernView::Rule(rule))),
                    ..rest
                },
                StepView::Ask(q) => SessionView {
                    current: Some((question::action_spec(cfg, q), ConcernView::Question(q))),
                    ..rest
                },
                StepView::Fail(_) => SessionView { todo: Seq::empty(), current: None },
                _ => rest,
            }
        }
    }

    /// The session after the reply to its current action: what the reply brings comes before the
    /// steps that were to come.
    pub open spec fn settled(self, cfg: Config, reply: ReplyView) -> SessionView {
        match self.current {
            Some((action, concern)) => {
                let script = match concern {
                    ConcernView::Rule(rule) => judge_spec(action, rule, reply),
                    ConcernView::Question(q) => question::answer_spec(cfg, q, reply),
                };
                SessionView { todo: script.steps + self.todo, current: None }
            },
            None => self,
        }
    }
}

impl<'a> Session<'a> {
    /// The configuration of the run.
    pub closed spec fn config(&self) -> Config<'a> {
        *self.cfg
    }

    /// A session that runs a script.
    pub fn new(cfg: &'a Config<'a>, script: Script) -> (s: Session<'a>)
        ensures
            s.config() == *cfg,
            s@ == (SessionView { todo: script@.steps, current: None }),
    {
        Session { cfg, todo: script.steps, current: None }
    }

    /// Goes on to the next move.
    pub fn advance(&mut self) -> (r: Move)
        requires
            old(self)@.current is None,
        ensures
            r@ == old(self)@.next_move(),
            final(self)@ == old(self)@.moved(old(self).config()),
            final(self).config() == old(self).config(),
    {
        if self.todo.len() == 0 {
            return Move::Finished;
        }
        let ghost before = self@;
        let step = self.todo.remove(0);
        proof {
            assert(self@.todo =~= before.todo.skip(1));
        }
        match step {
            Step::Say(text) => Move::Print(text),
            Step::Report(text) => Move::PrintError(text),
            Step::Do(action, rule) => {
                self.current = Some((action, Concern::Rule(rule)));
                Move::Act
            },
            Step::Ask(q) => {
                let action = question::action(self.cfg, &q);
                self.current = Some((action, Concern::Question(q)));
                Move::Act
            },
            Step::Fail(failure) => {
                self.todo = Vec::new();
                proof {
                    assert(self@.todo =~= Seq::empty());
                }
                Move::Failed(failure)
            },
        }
    }

    /// The action whose reply is awaited.
    pub fn action(&self) -> (r: Option<&Action>)
        ensures
            match (r, self@.current) {
                (Some(action), Some((awaited, _))) => action@ == awaited,
                (None, None) => true,
                _ => false,
            },
    {
        match &self.current {
            Some((action, _)) => Some(action),
            None => None,
        }
    }

    /// Takes the reply to the current action.
    pub fn settle(&mut self, reply: &Reply)
        ensures
            final(self)@ == old(self)@.settled(old(self).config(), reply@),
            final(self).config() == old(self).config(),
    {
        let ghost before = self@;
        let mut current: Option<(Action, Concern)> = None;
        std::mem::swap(&mut current, &mut self.current);
        match current {
            Some((action, concern)) => {
                let script = match concern {
                    Concern::Rule(rule) => judge(&action, &rule, reply),
                    Concern::Question(q) => question::answer(self.cfg, &q, reply),
                };
                let ghost steps = script@.steps;
                let mut todo = script.steps;
                todo.append(&mut self.todo);
                self.todo = todo;
                proof {
                    assert(self@.todo =~= steps + before.todo);
                }
            },
            None => {},
        }
    }
}

} // verus!
