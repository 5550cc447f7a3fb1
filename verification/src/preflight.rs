//! The checks before a bootstrap: the tools, the GitHub branch and the age key.
use vstd::prelude::*;

use crate::checks::{
    extract_age_pubkey, extract_age_pubkey_spec, parse_github_repo, parse_github_repo_spec,
    required_tools, required_tools_spec, validate_age_key, validate_age_key_spec,
};
use crate::config::SyncSource;
use crate::context::{GithubContext, GithubContextView};
use crate::engine::{resolve_engine, resolve_engine_spec};
use crate::failure::{Failure, FailureView};
use crate::number::{decimal, decimal_spec};
use crate::question::{Question, QuestionView};
use crate::script::{Action, ActionView, Reply, ReplyView, Request, Script, ScriptView, request};
use crate::settings::{Config, runs_github_preflight};
use crate::text::{
    cat2, cat3, cat4, cat7, copy_from, copy_texts, is_nothing, join, join_spec, list, optional,
    push_text, replace, replace_spec, texts,
};

verus! {

/// The list with one more text.
fn with_text(items: &Vec<String>, item: &str) -> (r: Vec<String>)
    ensures
        texts(r@) == texts(items@).push(item@),
{
    let mut r = copy_texts(items);
    push_text(&mut r, item.to_owned());
    r
}

/// The branch as it stands in a URL path.
pub open spec fn branch_path_spec(cfg: Config) -> Seq<char> {
    replace_spec(cfg.repo.bootstrap.git_branch@, "/"@, "%2F"@)
}

/// The branch as it stands in a URL path.
pub fn branch_path(cfg: &Config) -> (r: String)
    ensures
        r@ == branch_path_spec(*cfg),
{
    replace(cfg.repo.bootstrap.git_branch.as_str(), "/", "%2F")
}

/// Asks for the next tool, or goes on once all have been asked for. All missing tools are reported
/// at once.
pub open spec fn next_tool_spec(
    cfg: Config,
    rest: Seq<Seq<char>>,
    missing: Seq<Seq<char>>,
) -> ScriptView {
    if rest.len() > 0 {
        ScriptView::new().ask(
            QuestionView::Preflight(
                PreflightQuestionView::Tool { tool: rest[0], rest: rest.skip(1), missing },
            ),
        )
    } else if missing.len() > 0 {
        ScriptView::new().fail(
            "missing required tools in PATH: "@ + join_spec(missing, ", "@),
        )
    } else if cfg.environment.sync == SyncSource::Github {
        preflight_github_spec(cfg)
    } else {
        resolve_engine_spec(cfg, None)
    }
}

/// Asks for the next tool, or goes on once all have been asked for. All missing tools are reported
/// at once.
pub fn next_tool(cfg: &Config, rest: &Vec<String>, missing: &Vec<String>) -> (s: Script)
    ensures
        s@ == next_tool_spec(*cfg, texts(rest@), texts(missing@)),
{
    assert(texts(rest@).len() == rest.len());
    assert(texts(missing@).len() == missing.len());
    if rest.len() > 0 {
        Script::new().ask(
            Question::Preflight(
                PreflightQuestion::Tool {
                    tool: rest[0].clone(),
                    rest: copy_from(rest, 1),
                    missing: copy_texts(missing),
                },
            ),
        )
    } else if missing.len() > 0 {
        Script::new().fail(
            cat2("missing required tools in PATH: ", join(missing, ", ").as_str()),
        )
    } else if runs_github_preflight(cfg) {
        preflight_github(cfg)
    } else {
        resolve_engine(cfg, &None)
    }
}

/// The public key that the age secret is named after: the operator's, else that of the key file.
pub open spec fn age_pubkey_spec(cfg: Config, content: Seq<char>) -> Option<Seq<char>> {
    match cfg.age_public_key {
        Some(key) if key@.len() > 0 => Some(key@),
        _ => extract_age_pubkey_spec(content),
    }
}

/// The public key that the age secret is named after: the operator's, else that of the key file.
pub fn age_pubkey(cfg: &Config, content: &str) -> (r: Option<String>)
    ensures
        optional(r) == age_pubkey_spec(*cfg, content@),
{
    match &cfg.age_public_key {
        Some(key) => if is_nothing(key.as_str()) {
            extract_age_pubkey(content)
        } else {
            Some(key.clone())
        },
        None => extract_age_pubkey(content),
    }
}

/// Checks what the age key file holds, and goes on to the engine.
pub open spec fn check_age_key_spec(
    cfg: Config,
    url: Seq<char>,
    token: Seq<char>,
    content: Seq<char>,
) -> ScriptView {
    let missing = validate_age_key_spec(content);
    if missing.len() > 0 {
        ScriptView::new().fail(
            "'"@ + cfg.age_key_file@ + "' is not a valid age key file.\n       Missing: "@
                + join_spec(missing, ", "@),
        )
    } else {
        match age_pubkey_spec(cfg, content) {
            Some(key) => resolve_engine_spec(
                cfg,
                Some(
                    GithubContextView {
                        git_repo_url: url,
                        github_user: cfg.github_user@,
                        github_token: token,
                        age_key_content: content,
                        age_pubkey: key,
                    },
                ),
            ),
            None => ScriptView::new().fail(
                "Cannot determine age public key from '"@ + cfg.age_key_file@
                    + "' or from AGE_PUBLIC_KEY env var.\n       Set AGE_PUBLIC_KEY in .env, or regenerate the key with: mise run sops-keygen"@,
            ),
        }
    }
}

/// Checks what the age key file holds, and goes on to the engine.
pub fn check_age_key(cfg: &Config, url: &str, token: &str, content: &str) -> (s: Script)
    ensures
        s@ == check_age_key_spec(*cfg, url@, token@, content@),
{
    let missing = validate_age_key(content);
    assert(texts(missing@).len() == missing.len());
    if missing.len() > 0 {
        return Script::new().fail(
            cat4(
                "'",
                cfg.age_key_file.as_str(),
                "' is not a valid age key file.\n       Missing: ",
                join(&missing, ", ").as_str(),
            ),
        );
    }
    match age_pubkey(cfg, content) {
        Some(key) => resolve_engine(
            cfg,
            &Some(
                GithubContext {
                    git_repo_url: url.to_owned(),
                    github_user: cfg.github_user.clone(),
                    github_token: token.to_owned(),
                    age_key_content: content.to_owned(),
                    age_pubkey: key,
                },
            ),
        ),
        None => Script::new().fail(
            cat3(
                "Cannot determine age public key from '",
                cfg.age_key_file.as_str(),
                "' or from AGE_PUBLIC_KEY env var.\n       Set AGE_PUBLIC_KEY in .env, or regenerate the key with: mise run sops-keygen",
            ),
        ),
    }
}

/// The questions of this module.
pub enum PreflightQuestion {
    /// Is the tool on `PATH`?
    Tool { tool: String, rest: Vec<String>, missing: Vec<String> },
    /// Is the branch of the repository readable with the token?
    Branch { repo: String, url: String, token: String },
    /// Is the age key file there?
    AgeKeyThere { url: String, token: String },
    /// What does the age key file hold?
    AgeKey { url: String, token: String },
}

/// The model of a question of this module.
pub enum PreflightQuestionView {
    Tool { tool: Seq<char>, rest: Seq<Seq<char>>, missing: Seq<Seq<char>> },
    Branch { repo: Seq<char>, url: Seq<char>, token: Seq<char> },
    AgeKeyThere { url: Seq<char>, token: Seq<char> },
    AgeKey { url: Seq<char>, token: Seq<char> },
}

impl View for PreflightQuestion {
    type V = PreflightQuestionView;

    open spec fn view(&self) -> PreflightQuestionView {
        match *self {
            PreflightQuestion::Tool { tool, rest, missing } => {
                PreflightQuestionView::Tool {
                    tool: tool@,
                    rest: texts(rest@),
                    missing: texts(missing@),
                }
            },
            PreflightQuestion::Branch { repo, url, token } => {
                PreflightQuestionView::Branch { repo: repo@, url: url@, token: token@ }
            },
            PreflightQuestion::AgeKeyThere { url, token } => {
                PreflightQuestionView::AgeKeyThere { url: url@, token: token@ }
            },
            PreflightQuestion::AgeKey { url, token } => PreflightQuestionView::AgeKey {
                url: url@,
                token: token@,
            },
        }
    }
}

/// What is done to find the answer to a question.
pub open spec fn action_spec(cfg: Config, question: PreflightQuestionView) -> ActionView {
    match question {
        PreflightQuestionView::Tool { tool, .. } => ActionView::Find(tool),
        PreflightQuestionView::Branch { repo, token, .. } => {
            ActionView::Get(
                request(
                    "https://api.github.com/repos/"@ + repo + "/branches/"@ + branch_path_spec(cfg),
                )
                    .header("Accept"@, "application/vnd.github+json"@)
                    .header("Authorization"@, "Bearer "@ + token),
            )
        },
        PreflightQuestionView::AgeKeyThere { .. } => ActionView::IsFile(cfg.age_key_file@),
        PreflightQuestionView::AgeKey { .. } => ActionView::ReadFile(cfg.age_key_file@),
    }
}

/// What is done to find the answer to a question.
pub fn action(cfg: &Config, question: &PreflightQuestion) -> (a: Action)
    ensures
        a@ == action_spec(*cfg, question@),
{
    match question {
        PreflightQuestion::Tool { tool, .. } => Action::Find(tool.clone()),
        PreflightQuestion::Branch { repo, token, .. } => Action::Get(
            Request::new(
                cat4(
                    "https://api.github.com/repos/",
                    repo.as_str(),
                    "/branches/",
                    branch_path(cfg).as_str(),
                ),
            )
                .header("Accept", "application/vnd.github+json")
                .header("Authorization", cat2("Bearer ", token.as_str()).as_str()),
        ),
        PreflightQuestion::AgeKeyThere { .. } => Action::IsFile(cfg.age_key_file.clone()),
        PreflightQuestion::AgeKey { .. } => Action::ReadFile(cfg.age_key_file.clone()),
    }
}

/// How the run goes on after: is the tool on `PATH`?
pub open spec fn after_tool_spec(
    cfg: Config,
    tool: Seq<char>,
    rest: Seq<Seq<char>>,
    missing: Seq<Seq<char>>,
    reply: ReplyView,
) -> ScriptView {
    let lacking = if reply.ok {
        missing
    } else {
        missing.push(tool)
    };
    next_tool_spec(cfg, rest, lacking)
}

/// How the run goes on after: is the tool on `PATH`?
pub fn after_tool(
    cfg: &Config,
    tool: &str,
    rest: &Vec<String>,
    missing: &Vec<String>,
    reply: &Reply,
) -> (s: Script)
    ensures
        s@ == after_tool_spec(*cfg, tool@, texts(rest@), texts(missing@), reply@),
{
    let lacking = if reply.ok {
        copy_texts(missing)
    } else {
        with_text(missing, tool)
    };
    next_tool(cfg, rest, &lacking)
}

/// How the run goes on after: is the branch of the repository readable with the token?
pub open spec fn after_branch_spec(
    cfg: Config,
    repo: Seq<char>,
    url: Seq<char>,
    token: Seq<char>,
    reply: ReplyView,
) -> ScriptView {
    if reply.http != 200 {
        ScriptView::new()
            .fail(
                "GitHub repository or branch '"@ + cfg.repo.bootstrap.git_branch@
                    + "' is unavailable at '"@ + url + "' (HTTP "@ + decimal_spec(
                    reply.http as int,
                ) + ")"@,
            )
    } else {
        ScriptView::new()
            .ask(QuestionView::Preflight(PreflightQuestionView::AgeKeyThere { url, token }))
    }
}

/// How the run goes on after: is the branch of the repository readable with the token?
pub fn after_branch(cfg: &Config, repo: &str, url: &str, token: &str, reply: &Reply) -> (s: Script)
    ensures
        s@ == after_branch_spec(*cfg, repo@, url@, token@, reply@),
{
    if reply.http != 200 {
        Script::new()
            .fail(
                cat7(
                    "GitHub repository or branch '",
                    cfg.repo.bootstrap.git_branch.as_str(),
                    "' is unavailable at '",
                    url,
                    "' (HTTP ",
                    decimal(reply.http as u64).as_str(),
                    ")",
                ),
            )
    } else {
        Script::new()
            .ask(
                Question::Preflight(
                    PreflightQuestion::AgeKeyThere { url: url.to_owned(), token: token.to_owned() },
                ),
            )
    }
}

/// How the run goes on after: is the age key file there?
pub open spec fn after_age_key_there_spec(
    cfg: Config,
    url: Seq<char>,
    token: Seq<char>,
    reply: ReplyView,
) -> ScriptView {
    if reply.ok {
        ScriptView::new()
            .ask(QuestionView::Preflight(PreflightQuestionView::AgeKey { url, token }))
    } else {
        ScriptView::new()
            .fail(
                "age key file not found at '"@ + cfg.age_key_file@
                    + "'.\n       Generate one with:  mise run sops-keygen\n       and add its PUBLIC key to .sops.yaml. See docs/secrets.md."@,
            )
    }
}

/// How the run goes on after: is the age key file there?
pub fn after_age_key_there(cfg: &Config, url: &str, token: &str, reply: &Reply) -> (s: Script)
    ensures
        s@ == after_age_key_there_spec(*cfg, url@, token@, reply@),
{
    if reply.ok {
        Script::new()
            .ask(
                Question::Preflight(
                    PreflightQuestion::AgeKey { url: url.to_owned(), token: token.to_owned() },
                ),
            )
    } else {
        Script::new()
            .fail(
                cat3(
                    "age key file not found at '",
                    cfg.age_key_file.as_str(),
                    "'.\n       Generate one with:  mise run sops-keygen\n       and add its PUBLIC key to .sops.yaml. See docs/secrets.md.",
                ),
            )
    }
}

/// How the run goes on after: what does the age key file hold?
pub open spec fn after_age_key_spec(
    cfg: Config,
    url: Seq<char>,
    token: Seq<char>,
    reply: ReplyView,
) -> ScriptView {
    if reply.ok {
        check_age_key_spec(cfg, url, token, reply.stdout)
    } else {
        ScriptView::new()
            .fail_with(
                FailureView::because(
                    "failed to read '"@ + cfg.age_key_file@ + "'"@,
                    reply.stderr,
                ),
            )
    }
}

/// How the run goes on after: what does the age key file hold?
pub fn after_age_key(cfg: &Config, url: &str, token: &str, reply: &Reply) -> (s: Script)
    ensures
        s@ == after_age_key_spec(*cfg, url@, token@, reply@),
{
    if reply.ok {
        check_age_key(cfg, url, token, reply.stdout.as_str())
    } else {
        Script::new()
            .fail_with(
                Failure::because(
                    cat3("failed to read '", cfg.age_key_file.as_str(), "'"),
                    reply.stderr.as_str(),
                ),
            )
    }
}

/// How the run goes on once a question is answered.
pub open spec fn answer_spec(
    cfg: Config,
    question: PreflightQuestionView,
    reply: ReplyView,
) -> ScriptView {
    match question {
        PreflightQuestionView::Tool { tool, rest, missing } => {
            after_tool_spec(cfg, tool, rest, missing, reply)
        },
        PreflightQuestionView::Branch { repo, url, token } => {
            after_branch_spec(cfg, repo, url, token, reply)
        },
        PreflightQuestionView::AgeKeyThere { url, token } => {
            after_age_key_there_spec(cfg, url, token, reply)
        },
        PreflightQuestionView::AgeKey { url, token } => after_age_key_spec(cfg, url, token, reply),
    }
}

/// How the run goes on once a question is answered.
pub fn answer(cfg: &Config, question: &PreflightQuestion, reply: &Reply) -> (s: Script)
    ensures
        s@ == answer_spec(*cfg, question@, reply@),
{
    match question {
        PreflightQuestion::Tool { tool, rest, missing } => after_tool(
            cfg,
            tool.as_str(),
            rest,
            missing,
            reply,
        ),
        PreflightQuestion::Branch { repo, url, token } => after_branch(
            cfg,
            repo.as_str(),
            url.as_str(),
            token.as_str(),
            reply,
        ),
        PreflightQuestion::AgeKeyThere { url, token } => after_age_key_there(
            cfg,
            url.as_str(),
            token.as_str(),
            reply,
        ),
        PreflightQuestion::AgeKey { url, token } => after_age_key(
            cfg,
            url.as_str(),
            token.as_str(),
            reply,
        ),
    }
}

/// The checks of an environment that syncs from GitHub: token, URL, branch, age key.
pub open spec fn preflight_github_spec(cfg: Config) -> ScriptView {
    match cfg.github_token {
        Some(token) => {
            match cfg.git_repo_url {
                Some(url) => {
                    match parse_github_repo_spec(url@) {
                        Some(repo) => {
                            ScriptView::new()
                                .ask(
                                    QuestionView::Preflight(
                                        PreflightQuestionView::Branch {
                                            repo,
                                            url: url@,
                                            token: token@,
                                        },
                                    ),
                                )
                        },
                        None => {
                            ScriptView::new()
                                .fail("GIT_REPO_URL must be an HTTPS GitHub repository URL"@)
                        },
                    }
                },
                None => {
                    ScriptView::new()
                        .fail("GIT_REPO_URL must be set"@)
                },
            }
        },
        None => {
            ScriptView::new()
                .fail("GITHUB_TOKEN must be set (a PAT with read access to the repo)"@)
        },
    }
}

/// The checks of an environment that syncs from GitHub: token, URL, branch, age key.
pub fn preflight_github(cfg: &Config) -> (s: Script)
    ensures
        s@ == preflight_github_spec(*cfg),
{
    match &cfg.github_token {
        Some(token) => {
            match &cfg.git_repo_url {
                Some(url) => {
                    match parse_github_repo(url.as_str()) {
                        Some(repo) => {
                            Script::new()
                                .ask(
                                    Question::Preflight(
                                        PreflightQuestion::Branch {
                                            repo: repo.clone(),
                                            url: url.clone(),
                                            token: token.clone(),
                                        },
                                    ),
                                )
                        },
                        None => {
                            Script::new()
                                .fail(
                                    "GIT_REPO_URL must be an HTTPS GitHub repository URL".to_owned(),
                                )
                        },
                    }
                },
                None => {
                    Script::new()
                        .fail("GIT_REPO_URL must be set".to_owned())
                },
            }
        },
        None => {
            Script::new()
                .fail("GITHUB_TOKEN must be set (a PAT with read access to the repo)".to_owned())
        },
    }
}

/// The preflight of a bootstrap: all of it comes before anything is created or changed.
pub open spec fn preflight_checks_spec(cfg: Config) -> ScriptView {
    next_tool_spec(cfg, required_tools_spec(cfg.environment.sync), Seq::empty())
}

/// The preflight of a bootstrap: all of it comes before anything is created or changed.
pub fn preflight_checks(cfg: &Config) -> (s: Script)
    ensures
        s@ == preflight_checks_spec(*cfg),
{
    let none: Vec<String> = Vec::new();
    assert(texts(none@) =~= Seq::empty());
    next_tool(cfg, &list(required_tools(cfg.environment).as_slice()), &none)
}

} // verus!
