//! What a bootstrap leaves behind: a kind cluster whose nodes are ready, and in the local environment
//! a registry that serves the first artifact and a workload cluster that Flux reconciles.
use vstd::prelude::*;

use crate::bootstrap;
use crate::bootstrap::BootstrapQuestionView;
use crate::cleanup_laws::is_action;
use crate::checks::{capd_recorded_endpoint_spec, extract_workload_port_spec};
use crate::context::PreflightView;
use crate::duties::{
    brings_question, demanded_is_done, demands, done, failure_brings,
};
use crate::install_laws::{bootstrap_brings, installation_brings, named_by};
use crate::json::{json_text, JsonTree};
use crate::number::{decimal_spec, parse_unsigned_spec};
use crate::question;
use crate::question::QuestionView;
use crate::runs::{brings, group_guarded, group_some_of, happened, run, some_of, supplies, Event};
use crate::script::{
    command, request, ActionView, CommandView, ReplyView, RuleView, ScriptView, StepView,
};
use crate::session::judge_spec;
use crate::settings::Config;
use crate::stretches::{answered, finishes, question_is_answered};
use crate::text::{contains_spec, has_line_spec};

verus! {

// ---------------------------------------------------------------------------------------------
// The kind cluster
// ---------------------------------------------------------------------------------------------
/// The listing of the kind clusters.
pub open spec fn lists_kind() -> ActionView {
    ActionView::Lossy(command("kind"@).arg("get"@).arg("clusters"@))
}

/// The creation of the kind cluster, from whatever configuration.
pub open spec fn creates_kind(cfg: Config) -> spec_fn(ActionView) -> bool {
    |a: ActionView|
        match a {
            ActionView::Feed(c, _) => c == command("kind"@)
                .arg("create"@).arg("cluster"@).arg("--name"@)
                .arg(cfg.repo.bootstrap.kind_cluster@).arg("--config"@).arg("-"@),
            _ => false,
        }
}

/// That a listing shows the kind cluster.
pub open spec fn kind_is_listed(cfg: Config) -> spec_fn(Event) -> bool {
    |e: Event|
        match e {
            Event::Performed(a, reply) => a == lists_kind() && has_line_spec(
                reply.stdout,
                cfg.repo.bootstrap.kind_cluster@,
            ),
            _ => false,
        }
}

/// The wait for the nodes, with its output shown or not.
pub open spec fn awaits_nodes() -> spec_fn(ActionView) -> bool {
    |a: ActionView|
        a.command() == Some(
            command("kubectl"@)
                .arg("wait"@).arg("--for=condition=Ready"@).arg("node"@).arg("--all"@)
                .arg("--timeout=120s"@),
        )
}

/// The switch to the context of the kind cluster, with its output shown or not.
pub open spec fn uses_kind_context(cfg: Config) -> spec_fn(ActionView) -> bool {
    |a: ActionView|
        a.command() == Some(
            command("kubectl"@)
                .arg("config"@).arg("use-context"@).arg(cfg.repo.bootstrap.kind_context@),
        )
}

/// What ensures the kind cluster brings, a bootstrap brings.
proof fn kind_brings(cfg: Config, first: spec_fn(Event) -> bool)
    requires
        forall|engine_sock: Seq<char>|
            supplies(cfg, #[trigger] bootstrap::ensure_kind_cluster_spec(engine_sock), first),
    ensures
        brings(cfg, bootstrap::run_bootstrap_spec(cfg).steps, first),
{
    assert(installation_brings(cfg, first)) by {
        broadcast use group_guarded;

        assert forall|preflight: PreflightView| named_by(cfg, preflight.github) implies supplies(
            cfg,
            #[trigger] bootstrap::after_preflight_spec(cfg, preflight),
            first,
        ) by {
            assert(supplies(
                cfg,
                bootstrap::ensure_kind_cluster_spec(preflight.engine_sock),
                first,
            ));
        }
    }
    bootstrap_brings(cfg, first);
}

/// What all ways to the kind cluster bring, its search brings.
proof fn ways_bring(cfg: Config, engine_sock: Seq<char>, first: spec_fn(Event) -> bool)
    requires
        forall|reply: ReplyView|
            first(Event::Performed(lists_kind(), reply)) || supplies(
                cfg,
                #[trigger] bootstrap::after_kind_clusters_spec(cfg, engine_sock, reply),
                first,
            ),
    ensures
        supplies(cfg, bootstrap::ensure_kind_cluster_spec(engine_sock), first),
{
    let q = QuestionView::Bootstrap(BootstrapQuestionView::KindClusters { engine_sock });
    assert forall|reply: ReplyView|
        first(Event::Performed(question::action_spec(cfg, q), reply)) || supplies(
            cfg,
            #[trigger] question::answer_spec(cfg, q, reply),
            first,
        ) by {
        assert(question::answer_spec(cfg, q, reply) == bootstrap::after_kind_clusters_spec(
            cfg,
            engine_sock,
            reply,
        ));
    }
    brings_question(cfg, q, first);
    assert(bootstrap::ensure_kind_cluster_spec(engine_sock).steps =~= seq![StepView::Ask(q)]);
}

/// A bootstrap that comes to its end has created the kind cluster, unless a listing showed it; and
/// where it is to be recreated, it has created it in any case.
pub proof fn law_kind_cluster_is_created(cfg: Config)
    ensures
        brings(
            cfg,
            bootstrap::run_bootstrap_spec(cfg).steps,
            |e: Event|
                done(creates_kind(cfg))(e) || (!cfg.recreate && kind_is_listed(cfg)(e)),
        ),
{
    let first = |e: Event|
        done(creates_kind(cfg))(e) || (!cfg.recreate && kind_is_listed(cfg)(e));
    assert forall|engine_sock: Seq<char>|
        supplies(cfg, #[trigger] bootstrap::ensure_kind_cluster_spec(engine_sock), first) by {
        assert forall|reply: ReplyView|
            first(Event::Performed(lists_kind(), reply)) || supplies(
                cfg,
                #[trigger] bootstrap::after_kind_clusters_spec(cfg, engine_sock, reply),
                first,
            ) by {
            broadcast use group_some_of;

            let s = bootstrap::after_kind_clusters_spec(cfg, engine_sock, reply);
            if !first(Event::Performed(lists_kind(), reply)) {
                let wanted = demands(creates_kind(cfg));
                let made = bootstrap::create_kind_spec(cfg, engine_sock);
                assert(wanted(made.steps[1]));
                assert(some_of(made, wanted));
                assert(some_of(s, wanted));
                demanded_is_done(cfg, s, creates_kind(cfg));
                weaker(cfg, s, done(creates_kind(cfg)), first);
            }
        }
        ways_bring(cfg, engine_sock, first);
    }
    kind_brings(cfg, first);
}

proof fn weaker(
    cfg: Config,
    s: ScriptView,
    strong: spec_fn(Event) -> bool,
    weak: spec_fn(Event) -> bool,
)
    requires
        supplies(cfg, s, strong),
        forall|e: Event| #[trigger] strong(e) ==> weak(e),
    ensures
        supplies(cfg, s, weak),
{
    assert forall|replies: Seq<ReplyView>|
        (#[trigger] run(cfg, s.steps, replies)).left is Some implies happened(
        run(cfg, s.steps, replies).events,
        weak,
    ) by {
        let events = run(cfg, s.steps, replies).events;
        let k = choose|k: int| 0 <= k < events.len() && strong(#[trigger] events[k]);
        assert(weak(events[k]));
    }
}

proof fn nodes_are_asked(cfg: Config, wanted: spec_fn(ActionView) -> bool)
    requires
        wanted == awaits_nodes() || wanted == uses_kind_context(cfg),
    ensures
        supplies(
            cfg,
            ScriptView::new().ask(QuestionView::Bootstrap(BootstrapQuestionView::KindHealthContext)),
            done(wanted),
        ),
{
    broadcast use {group_guarded, group_some_of};

    let first = done(wanted);
    let context = QuestionView::Bootstrap(BootstrapQuestionView::KindHealthContext);
    let nodes = QuestionView::Bootstrap(BootstrapQuestionView::KindHealthNodes);
    if wanted == awaits_nodes() {
        assert forall|reply: ReplyView|
            first(Event::Performed(question::action_spec(cfg, nodes), reply)) || supplies(
                cfg,
                #[trigger] question::answer_spec(cfg, nodes, reply),
                first,
            ) by {
            if !reply.ok {
                let s = question::answer_spec(cfg, nodes, reply);
                assert(s.steps[0] is Fail);
                failure_brings(cfg, s, first);
            }
        }
        brings_question(cfg, nodes, first);
    }
    assert forall|reply: ReplyView|
        first(Event::Performed(question::action_spec(cfg, context), reply)) || supplies(
            cfg,
            #[trigger] question::answer_spec(cfg, context, reply),
            first,
        ) by {
        let s = question::answer_spec(cfg, context, reply);
        if !reply.ok {
            assert(s.steps[0] is Fail);
            failure_brings(cfg, s, first);
        } else if wanted == awaits_nodes() {
            assert(s.steps =~= seq![StepView::Ask(nodes)]);
        } else {
            assert(first(Event::Performed(question::action_spec(cfg, context), reply)));
        }
    }
    brings_question(cfg, context, first);
    assert(ScriptView::new().ask(context).steps =~= seq![StepView::Ask(context)]);
}

/// A bootstrap that comes to its end has switched to the context of the kind cluster and has waited
/// with success for all of its nodes, whether the cluster is new or not.
pub proof fn law_nodes_are_ready(cfg: Config)
    ensures
        brings(cfg, bootstrap::run_bootstrap_spec(cfg).steps, done(awaits_nodes())),
        brings(cfg, bootstrap::run_bootstrap_spec(cfg).steps, done(uses_kind_context(cfg))),
{
    nodes_are_ready(cfg, awaits_nodes());
    nodes_are_ready(cfg, uses_kind_context(cfg));
}

proof fn nodes_are_ready(cfg: Config, wanted: spec_fn(ActionView) -> bool)
    requires
        wanted == awaits_nodes() || wanted == uses_kind_context(cfg),
    ensures
        brings(cfg, bootstrap::run_bootstrap_spec(cfg).steps, done(wanted)),
{
    let first = done(wanted);
    assert forall|engine_sock: Seq<char>|
        supplies(cfg, #[trigger] bootstrap::ensure_kind_cluster_spec(engine_sock), first) by {
        assert forall|reply: ReplyView|
            first(Event::Performed(lists_kind(), reply)) || supplies(
                cfg,
                #[trigger] bootstrap::after_kind_clusters_spec(cfg, engine_sock, reply),
                first,
            ) by {
            broadcast use group_some_of;

            let s = bootstrap::after_kind_clusters_spec(cfg, engine_sock, reply);
            if has_line_spec(reply.stdout, cfg.repo.bootstrap.kind_cluster@) && !cfg.recreate {
                broadcast use group_guarded;

                nodes_are_asked(cfg, wanted);
                assert(supplies(cfg, bootstrap::reuse_kind_spec(cfg), first));
            } else {
                let made = bootstrap::create_kind_spec(cfg, engine_sock);
                let n = made.steps.len() as int;
                assert(demands(awaits_nodes())(made.steps[n - 1]));
                assert(demands(uses_kind_context(cfg))(made.steps[n - 2]));
                assert(some_of(made, demands(wanted)));
                assert(some_of(s, demands(wanted)));
                demanded_is_done(cfg, s, wanted);
            }
        }
        ways_bring(cfg, engine_sock, first);
    }
    kind_brings(cfg, first);
}

// ---------------------------------------------------------------------------------------------
// The local registry
// ---------------------------------------------------------------------------------------------
/// What the local registry brings, a bootstrap of the local environment brings.
proof fn registry_brings(cfg: Config, first: spec_fn(Event) -> bool)
    requires
        cfg.profile@ == "local-host"@,
        forall|engine: Seq<char>|
            supplies(cfg, #[trigger] bootstrap::bootstrap_local_registry_spec(cfg, engine), first),
    ensures
        brings(cfg, bootstrap::run_bootstrap_spec(cfg).steps, first),
{
    assert(installation_brings(cfg, first)) by {
        broadcast use group_guarded;

        assert forall|preflight: PreflightView| named_by(cfg, preflight.github) implies supplies(
            cfg,
            #[trigger] bootstrap::after_preflight_spec(cfg, preflight),
            first,
        ) by {
            assert(supplies(
                cfg,
                bootstrap::bootstrap_local_registry_spec(cfg, preflight.engine),
                first,
            ));
        }
    }
    bootstrap_brings(cfg, first);
}

/// Where the process reaches the registry: by its name inside the toolbox, at the published port
/// outside of it.
pub open spec fn registry_host(cfg: Config) -> Seq<char> {
    if cfg.toolbox {
        cfg.repo.bootstrap.registry_name@
    } else {
        "localhost"@
    }
}

/// The port at which the process reaches the registry.
pub open spec fn registry_port(cfg: Config) -> int {
    if cfg.toolbox {
        5000
    } else {
        cfg.registry_port as int
    }
}

/// The request for the root of the registry API.
pub open spec fn asks_registry(cfg: Config) -> ActionView {
    ActionView::Get(
        request(
            "http://"@ + registry_host(cfg) + ":"@ + decimal_spec(registry_port(cfg)) + "/v2/"@,
        ),
    )
}

/// That the registry answers, and not with an error.
pub open spec fn registry_answers(cfg: Config) -> spec_fn(Event) -> bool {
    |e: Event|
        match e {
            Event::Performed(a, reply) => a == asks_registry(cfg) && reply.ok && reply.http < 400,
            _ => false,
        }
}

/// The `ConfigMap` that tells the cluster where the registry is.
pub open spec fn registry_note(cfg: Config) -> JsonTree {
    JsonTree::object()
        .with("apiVersion"@, JsonTree::Text("v1"@))
        .with("kind"@, JsonTree::Text("ConfigMap"@))
        .with(
            "metadata"@,
            JsonTree::object()
                .with("name"@, JsonTree::Text("local-registry-config"@))
                .with("namespace"@, JsonTree::Text("kube-system"@)),
        )
        .with(
            "data"@,
            JsonTree::object()
                .with(
                    "registry-url"@,
                    JsonTree::Text(cfg.repo.bootstrap.registry_name@ + ":5000"@),
                ),
        )
}

/// The application of that `ConfigMap`.
pub open spec fn applies_registry_note(cfg: Config) -> ActionView {
    ActionView::Feed(
        command("kubectl"@).arg("apply"@).arg("-f"@).arg("-"@),
        json_text(registry_note(cfg)),
    )
}

/// Whether a command has a variable with a value.
pub open spec fn has_var(c: CommandView, name: Seq<char>, value: Seq<char>) -> bool {
    c.vars.contains((name, value))
}

/// The publication of the artifact: the task of the environment, with the registry, the repository
/// and the tag of the configuration.
pub open spec fn publishes(cfg: Config) -> spec_fn(ActionView) -> bool {
    |a: ActionView|
        match a {
            ActionView::Run(c) => {
                &&& c.program == "mise"@
                &&& c.args == seq!["-E"@, cfg.profile@, "run"@, "oci-push"@]
                &&& has_var(c, "REGISTRY_HOST"@, registry_host(cfg))
                &&& has_var(c, "REGISTRY_PORT"@, decimal_spec(registry_port(cfg)))
                &&& has_var(c, "OCI_REPOSITORY"@, cfg.oci_repository@)
                &&& has_var(c, "OCI_TAG"@, cfg.oci_tag@)
            },
            _ => false,
        }
}

/// The task publishes the artifact.
pub proof fn push_publishes(cfg: Config)
    ensures
        publishes(cfg)(ActionView::Run(bootstrap::oci_push_spec(cfg))),
{
    let c = bootstrap::oci_push_spec(cfg);
    assert(c.args =~= seq!["-E"@, cfg.profile@, "run"@, "oci-push"@]);
    assert(c.vars[0] == ("REGISTRY_PORT"@, decimal_spec(registry_port(cfg))));
    assert(c.vars[1] == ("REGISTRY_HOST"@, registry_host(cfg)));
    assert(c.vars[2] == ("OCI_REPOSITORY"@, cfg.oci_repository@));
    assert(c.vars[3] == ("OCI_TAG"@, cfg.oci_tag@));
}

/// A bootstrap of the local environment that comes to its end has applied the note that tells the
/// cluster where the registry is, and has published the artifact.
pub proof fn law_first_artifact_is_published(cfg: Config)
    requires
        cfg.profile@ == "local-host"@,
    ensures
        brings(
            cfg,
            bootstrap::run_bootstrap_spec(cfg).steps,
            done(is_action(applies_registry_note(cfg))),
        ),
        brings(cfg, bootstrap::run_bootstrap_spec(cfg).steps, done(publishes(cfg))),
{
    broadcast use group_some_of;

    let note = is_action(applies_registry_note(cfg));
    assert forall|engine: Seq<char>|
        supplies(
            cfg,
            #[trigger] bootstrap::bootstrap_local_registry_spec(cfg, engine),
            done(note),
        ) by {
        let s = bootstrap::bootstrap_local_registry_spec(cfg, engine);
        assert(demands(note)(s.steps[4]));
        demanded_is_done(cfg, s, note);
    }
    registry_brings(cfg, done(note));
    assert forall|engine: Seq<char>|
        supplies(
            cfg,
            #[trigger] bootstrap::bootstrap_local_registry_spec(cfg, engine),
            done(publishes(cfg)),
        ) by {
        let s = bootstrap::bootstrap_local_registry_spec(cfg, engine);
        push_publishes(cfg);
        assert(demands(publishes(cfg))(s.steps[6]));
        demanded_is_done(cfg, s, publishes(cfg));
    }
    registry_brings(cfg, done(publishes(cfg)));
}

/// A step that owes the answer of the registry.
pub open spec fn owes_answer(step: StepView) -> bool {
    match step {
        StepView::Fail(_) => true,
        StepView::Ask(q) => match q {
            QuestionView::Bootstrap(asked) => asked is RegistryProbe,
            _ => false,
        },
        _ => false,
    }
}

/// A bootstrap of the local environment that comes to its end has had an answer of the registry that
/// is no error.
pub proof fn law_registry_answers(cfg: Config)
    requires
        cfg.profile@ == "local-host"@,
    ensures
        brings(cfg, bootstrap::run_bootstrap_spec(cfg).steps, registry_answers(cfg)),
{
    broadcast use group_some_of;

    let first = registry_answers(cfg);
    let kind = |step: StepView| owes_answer(step);
    assert(crate::runs::owes(cfg, kind, first));
    assert forall|engine: Seq<char>|
        supplies(
            cfg,
            #[trigger] bootstrap::bootstrap_local_registry_spec(cfg, engine),
            first,
        ) by {
        let s = bootstrap::bootstrap_local_registry_spec(cfg, engine);
        assert(kind(s.steps[3]));
        crate::runs::owed_brings(cfg, kind, first, s.steps);
    }
    registry_brings(cfg, first);
}

/// An answer that a later request may mend: a time-out, too many requests, or a server that is not
/// up yet.
pub open spec fn may_mend(reply: ReplyView) -> bool {
    !reply.ok || reply.http == 408 || reply.http == 429 || reply.http == 500 || reply.http == 502
        || reply.http == 503 || reply.http == 504
}

/// The request for the registry, after some requests.
pub open spec fn registry_wait(attempt: u32) -> Seq<StepView> {
    seq![StepView::Ask(QuestionView::Bootstrap(BootstrapQuestionView::RegistryProbe { attempt }))]
}

/// A question that is answered with a pause and another question.
pub proof fn sleeps_and_asks(
    cfg: Config,
    q: QuestionView,
    seconds: u64,
    next: QuestionView,
    replies: Seq<ReplyView>,
)
    requires
        replies.len() >= 2,
        question::answer_spec(cfg, q, replies[0]) == ScriptView::new().perform(
            ActionView::Sleep(seconds),
            RuleView::Ignore,
        ).ask(next),
    ensures
        run(cfg, seq![StepView::Ask(q)], replies) == run(
            cfg,
            seq![StepView::Ask(next)],
            replies.skip(2),
        ).after(Event::Performed(ActionView::Sleep(seconds), replies[1])).after(
            Event::Performed(question::action_spec(cfg, q), replies[0]),
        ),
{
    let one = seq![StepView::Ask(q)];
    let other = seq![StepView::Ask(next)];
    let s = question::answer_spec(cfg, q, replies[0]).steps;
    assert(s + one.skip(1) =~= s);
    let later = replies.skip(1);
    assert(s[0] == StepView::Do(ActionView::Sleep(seconds), RuleView::Ignore));
    assert(judge_spec(ActionView::Sleep(seconds), RuleView::Ignore, later[0]).steps
        =~= Seq::<StepView>::empty());
    assert(Seq::<StepView>::empty() + s.skip(1) =~= other);
    assert(later.skip(1) =~= replies.skip(2));
    let slept = run(cfg, s, later);
    assert(slept == run(cfg, other, replies.skip(2)).after(
        Event::Performed(ActionView::Sleep(seconds), later[0]),
    ));
}

/// The registry is asked again after a second while its answer may mend and retries are left; an
/// answer that is no error ends the wait; and the wait fails where the answer cannot mend or no
/// retry is left.
pub proof fn law_registry_is_asked_again(cfg: Config, attempt: u32, replies: Seq<ReplyView>)
    requires
        replies.len() >= 2,
    ensures
        ({
            let now = run(cfg, registry_wait(attempt), replies);
            let answers = replies[0].ok && replies[0].http < 400;
            &&& answers ==> now.left == Some(replies.skip(1)) && now.events == seq![
                Event::Performed(asks_registry(cfg), replies[0]),
            ]
            &&& !answers && may_mend(replies[0]) && attempt < cfg.registry_ready_retries ==> now
                == run(cfg, registry_wait((attempt + 1) as u32), replies.skip(2)).after(
                Event::Performed(ActionView::Sleep(1), replies[1]),
            ).after(Event::Performed(asks_registry(cfg), replies[0]))
            &&& !answers && (!may_mend(replies[0]) || attempt >= cfg.registry_ready_retries)
                ==> now.left is None && now.events.len() == 2 && now.events[1] is Failed
        }),
{
    let q = QuestionView::Bootstrap(BootstrapQuestionView::RegistryProbe { attempt });
    let one = registry_wait(attempt);
    let answers = replies[0].ok && replies[0].http < 400;
    assert(question::action_spec(cfg, q) == asks_registry(cfg));
    let s = question::answer_spec(cfg, q, replies[0]).steps;
    assert(s + one.skip(1) =~= s);
    let rest = run(cfg, s, replies.skip(1));
    if answers {
        assert(s =~= Seq::<StepView>::empty());
        assert(run(cfg, one, replies).events =~= seq![
            Event::Performed(asks_registry(cfg), replies[0]),
        ]);
    } else if may_mend(replies[0]) && attempt < cfg.registry_ready_retries {
        let next = QuestionView::Bootstrap(
            BootstrapQuestionView::RegistryProbe { attempt: (attempt + 1) as u32 },
        );
        sleeps_and_asks(cfg, q, 1, next, replies);
    } else {
        assert(s.len() == 1 && s[0] is Fail);
    }
}

/// The start of a registry container on the network of the kind cluster, with its port published.
pub open spec fn runs_registry(cfg: Config, engine: Seq<char>) -> ActionView {
    ActionView::Capture(
        command(engine)
            .arg("run"@).arg("-d"@).arg("--name"@).arg(cfg.repo.bootstrap.registry_name@)
            .arg("--network"@).arg("kind"@).arg("-p"@)
            .arg("127.0.0.1:"@ + decimal_spec(cfg.registry_port as int) + ":5000"@)
            .arg("registry:2"@),
    )
}

/// The removal of the registry container.
pub open spec fn removes_registry(cfg: Config, engine: Seq<char>) -> ActionView {
    ActionView::Run(command(engine).arg("rm"@).arg("-f"@).arg(cfg.repo.bootstrap.registry_name@))
}

/// The start of a registry container that is stopped.
pub open spec fn starts_registry(cfg: Config, engine: Seq<char>) -> ActionView {
    ActionView::Capture(command(engine).arg("start"@).arg(cfg.repo.bootstrap.registry_name@))
}

/// A listing of the registry container, of all containers or of those that run.
pub open spec fn lists_registry(cfg: Config, engine: Seq<char>, all: bool) -> ActionView {
    let ps = if all {
        command(engine).arg("ps"@).arg("-a"@)
    } else {
        command(engine).arg("ps"@)
    };
    ActionView::Lossy(
        ps
            .arg("--filter"@).arg("name=^"@ + cfg.repo.bootstrap.registry_name@ + "$"@)
            .arg("--format"@).arg("{{.Names}}"@),
    )
}

/// Whether the published port is the configured one.
pub open spec fn is_published(cfg: Config, printed: Seq<char>) -> bool {
    match extract_workload_port_spec(printed) {
        Some(port) => parse_unsigned_spec(port, 65535) == Some(cfg.registry_port as int),
        None => false,
    }
}

/// That a registry that is stopped is started.
pub open spec fn registry_restarts(cfg: Config, engine: Seq<char>) -> spec_fn(
    ReplyView,
    Seq<Event>,
) -> bool {
    |reply: ReplyView, events: Seq<Event>|
        has_line_spec(reply.stdout, cfg.repo.bootstrap.registry_name@) || happened(
            events,
            done(is_action(starts_registry(cfg, engine))),
        )
}

/// That a registry with another port or network is replaced, and another one runs.
pub open spec fn registry_fits(cfg: Config, engine: Seq<char>, fits: bool) -> spec_fn(
    ReplyView,
    Seq<Event>,
) -> bool {
    |reply: ReplyView, events: Seq<Event>|
        if fits && contains_spec(reply.stdout, "\"kind\""@) {
            answered(lists_registry(cfg, engine, false), registry_restarts(cfg, engine))(events)
        } else {
            happened(events, done(is_action(removes_registry(cfg, engine)))) && happened(
                events,
                done(is_action(runs_registry(cfg, engine))),
            )
        }
}

/// That the network of a registry is asked for, and the registry is replaced unless both fit.
pub open spec fn registry_is_checked(cfg: Config, engine: Seq<char>) -> spec_fn(
    ReplyView,
    Seq<Event>,
) -> bool {
    |reply: ReplyView, events: Seq<Event>|
        answered(
            ActionView::Lossy(
                command(engine)
                    .arg("inspect"@).arg(cfg.repo.bootstrap.registry_name@).arg("--format"@)
                    .arg("{{json .NetworkSettings.Networks}}"@),
            ),
            registry_fits(cfg, engine, is_published(cfg, reply.stdout)),
        )(events)
}

/// That a registry is started where there is none, and checked where there is one.
pub open spec fn registry_is_there(cfg: Config, engine: Seq<char>) -> spec_fn(
    ReplyView,
    Seq<Event>,
) -> bool {
    |reply: ReplyView, events: Seq<Event>|
        if has_line_spec(reply.stdout, cfg.repo.bootstrap.registry_name@) {
            answered(
                ActionView::Lossy(
                    command(engine)
                        .arg("port"@).arg(cfg.repo.bootstrap.registry_name@).arg("5000/tcp"@),
                ),
                registry_is_checked(cfg, engine),
            )(events)
        } else {
            happened(events, done(is_action(runs_registry(cfg, engine))))
        }
}

/// A question on its own.
pub open spec fn ask_bootstrap(q: BootstrapQuestionView) -> ScriptView {
    ScriptView::new().ask(QuestionView::Bootstrap(q))
}

/// The local registry is there, runs, and fits: where there is none it is started; where its port or
/// its network is another, it is replaced; where it is stopped, it is started again.
pub proof fn law_registry_is_set_up(cfg: Config, engine: Seq<char>)
    ensures
        finishes(
            cfg,
            ask_bootstrap(BootstrapQuestionView::RegistryListed { engine }),
            answered(lists_registry(cfg, engine, true), registry_is_there(cfg, engine)),
        ),
{
    broadcast use group_some_of;

    let running = QuestionView::Bootstrap(BootstrapQuestionView::RegistryRunning { engine });
    let restarts = registry_restarts(cfg, engine);
    assert forall|reply: ReplyView|
        finishes(
            cfg,
            #[trigger] question::answer_spec(cfg, running, reply),
            |events: Seq<Event>| restarts(reply, events),
        ) by {
        let s = question::answer_spec(cfg, running, reply);
        let wanted = is_action(starts_registry(cfg, engine));
        if !has_line_spec(reply.stdout, cfg.repo.bootstrap.registry_name@) {
            assert(demands(wanted)(s.steps[1]));
            demanded_is_done(cfg, s, wanted);
        }
    }
    question_is_answered(cfg, running, restarts);
    assert forall|port_matches: bool|
        finishes(
            cfg,
            #[trigger] ask_bootstrap(
                BootstrapQuestionView::RegistryNetwork { engine, port_matches },
            ),
            answered(
                ActionView::Lossy(
                    command(engine)
                        .arg("inspect"@).arg(cfg.repo.bootstrap.registry_name@).arg("--format"@)
                        .arg("{{json .NetworkSettings.Networks}}"@),
                ),
                registry_fits(cfg, engine, port_matches),
            ),
        ) by {
        let network = QuestionView::Bootstrap(
            BootstrapQuestionView::RegistryNetwork { engine, port_matches },
        );
        let fits = registry_fits(cfg, engine, port_matches);
        assert forall|reply: ReplyView|
            finishes(
                cfg,
                #[trigger] question::answer_spec(cfg, network, reply),
                |events: Seq<Event>| fits(reply, events),
            ) by {
            let s = question::answer_spec(cfg, network, reply);
            if !(port_matches && contains_spec(reply.stdout, "\"kind\""@)) {
                let a = is_action(removes_registry(cfg, engine));
                let b = is_action(runs_registry(cfg, engine));
                assert(demands(a)(s.steps[1]));
                demanded_is_done(cfg, s, a);
                assert(demands(b)(s.steps[2]));
                demanded_is_done(cfg, s, b);
            } else {
                assert(s == ScriptView::new().ask(running));
            }
        }
        question_is_answered(cfg, network, fits);
    }
    let port = QuestionView::Bootstrap(BootstrapQuestionView::RegistryPort { engine });
    let checked = registry_is_checked(cfg, engine);
    assert forall|reply: ReplyView|
        finishes(
            cfg,
            #[trigger] question::answer_spec(cfg, port, reply),
            |events: Seq<Event>| checked(reply, events),
        ) by {
        let s = question::answer_spec(cfg, port, reply);
        let port_matches = is_published(cfg, reply.stdout);
        assert(s == ask_bootstrap(BootstrapQuestionView::RegistryNetwork { engine, port_matches }));
    }
    question_is_answered(cfg, port, checked);
    let listed = QuestionView::Bootstrap(BootstrapQuestionView::RegistryListed { engine });
    let there = registry_is_there(cfg, engine);
    assert forall|reply: ReplyView|
        finishes(
            cfg,
            #[trigger] question::answer_spec(cfg, listed, reply),
            |events: Seq<Event>| there(reply, events),
        ) by {
        let s = question::answer_spec(cfg, listed, reply);
        if has_line_spec(reply.stdout, cfg.repo.bootstrap.registry_name@) {
            assert(s == ScriptView::new().ask(port));
        } else {
            let wanted = is_action(runs_registry(cfg, engine));
            assert(demands(wanted)(s.steps[1]));
            demanded_is_done(cfg, s, wanted);
        }
    }
    question_is_answered(cfg, listed, there);
}

// ---------------------------------------------------------------------------------------------
// The end of a bootstrap
// ---------------------------------------------------------------------------------------------
/// What the end of a bootstrap brings, the bootstrap brings.
pub proof fn end_brings(cfg: Config, first: spec_fn(Event) -> bool)
    requires
        forall|preflight: PreflightView, ready: bool|
            named_by(cfg, preflight.github) ==> supplies(
                cfg,
                #[trigger] bootstrap::finish_bootstrap_spec(cfg, preflight, ready),
                first,
            ),
    ensures
        brings(cfg, bootstrap::run_bootstrap_spec(cfg).steps, first),
{
    assert forall|preflight: PreflightView| named_by(cfg, preflight.github) implies supplies(
        cfg,
        #[trigger] bootstrap::after_preflight_spec(cfg, preflight),
        first,
    ) by {
        broadcast use {group_guarded, group_some_of};

        let ready = QuestionView::Bootstrap(
            BootstrapQuestionView::ControllersReady { kubeconfig: None, resume: Some(preflight) },
        );
        assert forall|reply: ReplyView|
            supplies(cfg, #[trigger] question::answer_spec(cfg, ready, reply), first) by {
            assert(supplies(
                cfg,
                bootstrap::finish_bootstrap_spec(cfg, preflight, reply.ok),
                first,
            ));
        }
        brings_question(cfg, ready, first);
        assert(ScriptView::new().ask(ready).steps =~= seq![StepView::Ask(ready)]);
        let q = QuestionView::Bootstrap(BootstrapQuestionView::RegistryConfig { preflight });
        assert forall|reply: ReplyView|
            supplies(cfg, #[trigger] question::answer_spec(cfg, q, reply), first) by {
            let s = question::answer_spec(cfg, q, reply);
            if !reply.ok {
                assert(s.steps[0] is Fail);
                failure_brings(cfg, s, first);
            } else {
                let last = bootstrap::install_flux_instance_spec(
                    cfg,
                    preflight.github,
                    reply.stdout,
                    None,
                    Some(preflight),
                );
                if bootstrap::chart_result(cfg, "flux-operator"@) is Err {
                    assert(last.steps[1] is Fail);
                    failure_brings(cfg, last, first);
                } else {
                    assert(supplies(cfg, last, first));
                }
                assert(supplies(cfg, s, first));
            }
        }
        brings_question(cfg, q, first);
    }
    bootstrap_brings(cfg, first);
}

/// The wait until Flux has reconciled the local environment.
pub open spec fn awaits_flux_apps(cfg: Config) -> ActionView {
    ActionView::Run(
        command("kubectl"@)
            .arg("wait"@).arg("kustomization/flux-apps"@).arg("--namespace"@)
            .arg(cfg.repo.bootstrap.flux_namespace@).arg("--for=condition=Ready"@)
            .arg("--timeout="@ + cfg.local_reconcile_timeout@),
    )
}

/// The wait until Flux has reconciled the workload cluster of a kubeconfig.
pub open spec fn awaits_workload(cfg: Config) -> spec_fn(ActionView) -> bool {
    |a: ActionView|
        exists|path: Seq<char>| #[trigger] awaits_workload_of(cfg, path) == a
}

/// The wait until Flux has reconciled the workload cluster of a kubeconfig.
pub open spec fn awaits_workload_of(cfg: Config, path: Seq<char>) -> ActionView {
    ActionView::Run(
        command("kubectl"@)
            .arg("--kubeconfig"@).arg(path).arg("wait"@).arg("kustomization/flux-system"@)
            .arg("--namespace"@).arg("flux-system"@).arg("--for=condition=Ready"@)
            .arg("--timeout="@ + cfg.local_reconcile_timeout@),
    )
}

/// What the watch of the local environment brings, the bootstrap of it brings.
proof fn watch_brings(cfg: Config, first: spec_fn(Event) -> bool)
    requires
        cfg.profile@ == "local-host"@,
        forall|engine: Seq<char>|
            supplies(cfg, #[trigger] bootstrap::watch_local_reconciliation_spec(cfg, engine), first),
    ensures
        brings(cfg, bootstrap::run_bootstrap_spec(cfg).steps, first),
{
    assert forall|preflight: PreflightView, ready: bool| named_by(
        cfg,
        preflight.github,
    ) implies supplies(
        cfg,
        #[trigger] bootstrap::finish_bootstrap_spec(cfg, preflight, ready),
        first,
    ) by {
        broadcast use group_guarded;

        assert(supplies(
            cfg,
            bootstrap::watch_local_reconciliation_spec(cfg, preflight.engine),
            first,
        ));
    }
    end_brings(cfg, first);
}

/// A question that fails unless its action succeeds demands the action.
proof fn asked_is_done(cfg: Config, q: QuestionView, wanted: spec_fn(ActionView) -> bool)
    requires
        wanted(question::action_spec(cfg, q)),
        forall|reply: ReplyView|
            !reply.ok ==> some_of(
                #[trigger] question::answer_spec(cfg, q, reply),
                |step: StepView| step is Fail,
            ),
    ensures
        supplies(cfg, ScriptView::new().ask(q), done(wanted)),
{
    let first = done(wanted);
    assert forall|reply: ReplyView|
        first(Event::Performed(question::action_spec(cfg, q), reply)) || supplies(
            cfg,
            #[trigger] question::answer_spec(cfg, q, reply),
            first,
        ) by {
        if !reply.ok {
            failure_brings(cfg, question::answer_spec(cfg, q, reply), first);
        }
    }
    brings_question(cfg, q, first);
    assert(ScriptView::new().ask(q).steps =~= seq![StepView::Ask(q)]);
}

proof fn workload_is_awaited(cfg: Config, path: Seq<char>, server: Seq<char>)
    ensures
        supplies(
            cfg,
            bootstrap::watch_workload_spec(cfg, path, server),
            done(awaits_workload(cfg)),
        ),
{
    broadcast use {group_guarded, group_some_of};

    let q = QuestionView::Bootstrap(BootstrapQuestionView::WorkloadReady { path });
    assert(question::action_spec(cfg, q) == awaits_workload_of(cfg, path));
    assert forall|reply: ReplyView| !reply.ok implies some_of(
        #[trigger] question::answer_spec(cfg, q, reply),
        |step: StepView| step is Fail,
    ) by {
        let s = question::answer_spec(cfg, q, reply);
        assert(s.steps.last() is Fail);
    }
    asked_is_done(cfg, q, awaits_workload(cfg));
}

/// A bootstrap of the local environment that comes to its end has seen Flux reconcile the local
/// environment and the workload cluster.
pub proof fn law_local_reconciliation_is_awaited(cfg: Config)
    requires
        cfg.profile@ == "local-host"@,
    ensures
        brings(
            cfg,
            bootstrap::run_bootstrap_spec(cfg).steps,
            done(is_action(awaits_flux_apps(cfg))),
        ),
        brings(cfg, bootstrap::run_bootstrap_spec(cfg).steps, done(awaits_workload(cfg))),
{
    broadcast use {group_guarded, group_some_of};

    let apps = QuestionView::Bootstrap(BootstrapQuestionView::FluxAppsReady);
    let a = is_action(awaits_flux_apps(cfg));
    assert forall|reply: ReplyView| !reply.ok implies some_of(
        #[trigger] question::answer_spec(cfg, apps, reply),
        |step: StepView| step is Fail,
    ) by {
        let s = question::answer_spec(cfg, apps, reply);
        assert(s.steps.last() is Fail);
    }
    asked_is_done(cfg, apps, a);
    assert forall|engine: Seq<char>|
        supplies(
            cfg,
            #[trigger] bootstrap::watch_local_reconciliation_spec(cfg, engine),
            done(a),
        ) by {}
    watch_brings(cfg, done(a));
    let first = done(awaits_workload(cfg));
    assert forall|engine: Seq<char>|
        supplies(
            cfg,
            #[trigger] bootstrap::watch_local_reconciliation_spec(cfg, engine),
            first,
        ) by {
        let file = QuestionView::Bootstrap(BootstrapQuestionView::WorkloadFile { engine });
        assert forall|reply: ReplyView|
            supplies(cfg, #[trigger] question::answer_spec(cfg, file, reply), first) by {
            let s = question::answer_spec(cfg, file, reply);
            if reply.ok {
                workload_file_brings(cfg, engine, reply.stdout);
            } else {
                assert(s.steps[0] is Fail);
                failure_brings(cfg, s, first);
            }
        }
        brings_question(cfg, file, first);
        assert(ScriptView::new().ask(file).steps =~= seq![StepView::Ask(file)]);
    }
    watch_brings(cfg, first);
}

proof fn workload_file_brings(cfg: Config, engine: Seq<char>, path: Seq<char>)
    ensures
        supplies(
            cfg,
            ask_bootstrap(BootstrapQuestionView::WorkloadKubeconfig { engine, path }),
            done(awaits_workload(cfg)),
        ),
{
    broadcast use {group_guarded, group_some_of};

    let first = done(awaits_workload(cfg));
    let port = QuestionView::Bootstrap(BootstrapQuestionView::WorkloadPort { engine, path });
    assert forall|reply: ReplyView|
        supplies(cfg, #[trigger] question::answer_spec(cfg, port, reply), first) by {
        let s = question::answer_spec(cfg, port, reply);
        match extract_workload_port_spec(reply.stdout) {
            Some(found) if reply.ok => {
                workload_is_awaited(cfg, path, "https://127.0.0.1:"@ + found);
            },
            _ => {
                assert(s.steps[0] is Fail);
                failure_brings(cfg, s, first);
            },
        }
    }
    brings_question(cfg, port, first);
    assert(ScriptView::new().ask(port).steps =~= seq![StepView::Ask(port)]);
    let q = QuestionView::Bootstrap(BootstrapQuestionView::WorkloadKubeconfig { engine, path });
    assert forall|reply: ReplyView|
        supplies(cfg, #[trigger] question::answer_spec(cfg, q, reply), first) by {
        let s = question::answer_spec(cfg, q, reply);
        if !reply.ok {
            assert(s.steps[0] is Fail);
            failure_brings(cfg, s, first);
        } else if !cfg.should_rewrite_capd_endpoint_spec() {
            match capd_recorded_endpoint_spec(reply.stdout) {
                Some(server) => {
                    workload_is_awaited(cfg, path, server);
                },
                None => {
                    assert(s.steps[1] is Fail);
                    failure_brings(cfg, s, first);
                },
            }
        }
    }
    brings_question(cfg, q, first);
    assert(ScriptView::new().ask(q).steps =~= seq![StepView::Ask(q)]);
}

/// The wait for a Kustomization of Flux, with some requests left.
pub open spec fn flux_apps_wait(left: u32) -> Seq<StepView> {
    seq![StepView::Ask(QuestionView::Bootstrap(BootstrapQuestionView::FluxAppsCreated { left }))]
}

/// The query for the Kustomization of the local environment.
pub open spec fn asks_flux_apps(cfg: Config) -> ActionView {
    ActionView::Quiet(
        command("kubectl"@)
            .arg("get"@).arg("kustomization"@).arg("flux-apps"@).arg("--namespace"@)
            .arg(cfg.repo.bootstrap.flux_namespace@),
    )
}

/// The Kustomization is asked for again after two seconds while it is missing and requests are left,
/// and its presence ends the wait. The watch starts with 60 requests.
pub proof fn law_flux_apps_are_asked_again(
    cfg: Config,
    engine: Seq<char>,
    left: u32,
    replies: Seq<ReplyView>,
)
    requires
        replies.len() >= 2,
    ensures
        bootstrap::watch_local_reconciliation_spec(cfg, engine).steps[2] == flux_apps_wait(60)[0],
        ({
            let now = run(cfg, flux_apps_wait(left), replies);
            &&& replies[0].ok ==> now.left == Some(replies.skip(1)) && now.events == seq![
                Event::Performed(asks_flux_apps(cfg), replies[0]),
            ]
            &&& !replies[0].ok && left > 1 ==> now == run(
                cfg,
                flux_apps_wait((left - 1) as u32),
                replies.skip(2),
            ).after(Event::Performed(ActionView::Sleep(2), replies[1])).after(
                Event::Performed(asks_flux_apps(cfg), replies[0]),
            )
        }),
{
    let q = QuestionView::Bootstrap(BootstrapQuestionView::FluxAppsCreated { left });
    let one = flux_apps_wait(left);
    assert(question::action_spec(cfg, q) == asks_flux_apps(cfg));
    let s = question::answer_spec(cfg, q, replies[0]).steps;
    assert(s + one.skip(1) =~= s);
    let rest = run(cfg, s, replies.skip(1));
    if replies[0].ok {
        assert(s =~= Seq::<StepView>::empty());
        assert(run(cfg, one, replies).events =~= seq![
            Event::Performed(asks_flux_apps(cfg), replies[0]),
        ]);
    } else if left > 1 {
        let next = QuestionView::Bootstrap(
            BootstrapQuestionView::FluxAppsCreated { left: (left - 1) as u32 },
        );
        sleeps_and_asks(cfg, q, 2, next, replies);
    }
}

} // verus!
