//! Questions: what a run asks before it decides. Each module answers its own.
use vstd::prelude::*;

use crate::bootstrap;
use crate::bootstrap::{BootstrapQuestion, BootstrapQuestionView};
use crate::engine;
use crate::engine::{EngineQuestion, EngineQuestionView};
use crate::pivot;
use crate::pivot::{PivotQuestion, PivotQuestionView};
use crate::preflight;
use crate::preflight::{PreflightQuestion, PreflightQuestionView};
use crate::sweep;
use crate::sweep::{SweepQuestion, SweepQuestionView};
use crate::teardown;
use crate::teardown::{TeardownQuestion, TeardownQuestionView};
use crate::script::{Action, ActionView, Reply, ReplyView, Script, ScriptView};
use crate::settings::Config;

verus! {

/// A question of any module.
pub enum Question {
    Bootstrap(BootstrapQuestion),
    Engine(EngineQuestion),
    Pivot(PivotQuestion),
    Preflight(PreflightQuestion),
    Sweep(SweepQuestion),
    Teardown(TeardownQuestion),
}

/// The model of a question.
pub enum QuestionView {
    Bootstrap(BootstrapQuestionView),
    Engine(EngineQuestionView),
    Pivot(PivotQuestionView),
    Preflight(PreflightQuestionView),
    Sweep(SweepQuestionView),
    Teardown(TeardownQuestionView),
}

impl View for Question {
    type V = QuestionView;

    open spec fn view(&self) -> QuestionView {
        match *self {
            Question::Bootstrap(q) => QuestionView::Bootstrap(q@),
            Question::Engine(q) => QuestionView::Engine(q@),
            Question::Pivot(q) => QuestionView::Pivot(q@),
            Question::Preflight(q) => QuestionView::Preflight(q@),
            Question::Sweep(q) => QuestionView::Sweep(q@),
            Question::Teardown(q) => QuestionView::Teardown(q@),
        }
    }
}

/// What is done to find the answer to a question.
pub open spec fn action_spec(cfg: Config, question: QuestionView) -> ActionView {
    match question {
        QuestionView::Bootstrap(q) => bootstrap::action_spec(cfg, q),
        QuestionView::Engine(q) => engine::action_spec(cfg, q),
        QuestionView::Pivot(q) => pivot::action_spec(cfg, q),
        QuestionView::Preflight(q) => preflight::action_spec(cfg, q),
        QuestionView::Sweep(q) => sweep::action_spec(cfg, q),
        QuestionView::Teardown(q) => teardown::action_spec(cfg, q),
    }
}

/// What is done to find the answer to a question.
pub fn action(cfg: &Config, question: &Question) -> (a: Action)
    ensures
        a@ == action_spec(*cfg, question@),
{
    match question {
        Question::Bootstrap(q) => bootstrap::action(cfg, q),
        Question::Engine(q) => engine::action(cfg, q),
        Question::Pivot(q) => pivot::action(cfg, q),
        Question::Preflight(q) => preflight::action(cfg, q),
        Question::Sweep(q) => sweep::action(cfg, q),
        Question::Teardown(q) => teardown::action(cfg, q),
    }
}

/// How the run goes on once a question is answered.
pub open spec fn answer_spec(cfg: Config, question: QuestionView, reply: ReplyView) -> ScriptView {
    match question {
        QuestionView::Bootstrap(q) => bootstrap::answer_spec(cfg, q, reply),
        QuestionView::Engine(q) => engine::answer_spec(cfg, q, reply),
        QuestionView::Pivot(q) => pivot::answer_spec(cfg, q, reply),
        QuestionView::Preflight(q) => preflight::answer_spec(cfg, q, reply),
        QuestionView::Sweep(q) => sweep::answer_spec(cfg, q, reply),
        QuestionView::Teardown(q) => teardown::answer_spec(cfg, q, reply),
    }
}

/// How the run goes on once a question is answered.
pub fn answer(cfg: &Config, question: &Question, reply: &Reply) -> (s: Script)
    ensures
        s@ == answer_spec(*cfg, question@, reply@),
{
    match question {
        Question::Bootstrap(q) => bootstrap::answer(cfg, q, reply),
        Question::Engine(q) => engine::answer(cfg, q, reply),
        Question::Pivot(q) => pivot::answer(cfg, q, reply),
        Question::Preflight(q) => preflight::answer(cfg, q, reply),
        Question::Sweep(q) => sweep::answer(cfg, q, reply),
        Question::Teardown(q) => teardown::answer(cfg, q, reply),
    }
}

} // verus!
