//! Which container engine is taken, and how the toolbox reaches the kind cluster.
use vstd::prelude::*;

use crate::bootstrap;
use crate::cleanup_laws::{is_action, performing, step_of, steps_perform};
use crate::context::{GithubContextView, PreflightView, SeekerView, TeardownConfigView};
use crate::demolition_laws::asked_once;
use crate::duties::{demanded_is_done, demands, done};
use crate::engine;
use crate::engine::EngineQuestionView;
use crate::question;
use crate::question::QuestionView;
use crate::runs::{group_some_of, happened, run, some_of, Event};
use crate::script::{command, ActionView, ReplyView, RuleView, ScriptView, StepView};
use crate::session::judge_spec;
use crate::settings::Config;
use crate::stretches::{answered, failing_holds, finishes, question_is_answered};
use crate::teardown;
use crate::text::{contains_spec, lowercase_spec, trim_prefixes_spec, trim_spec};

verus! {

/// A question on its own.
pub open spec fn ask_engine(q: EngineQuestionView) -> ScriptView {
    ScriptView::new().ask(QuestionView::Engine(q))
}

/// The query whether an engine runs.
pub open spec fn asks_engine(engine: Seq<char>) -> ActionView {
    ActionView::Quiet(command(engine).arg("info"@))
}

/// The query for what answers to the name of Docker.
pub open spec fn asks_version() -> ActionView {
    ActionView::Lossy(command("docker"@).arg("--version"@))
}

/// The engine that the version names: Podman where it says so, whatever the case of the letters, and
/// Docker otherwise.
pub open spec fn engine_named(version: Seq<char>) -> Seq<char> {
    if contains_spec(lowercase_spec(version), "podman"@) {
        "podman"@
    } else {
        "docker"@
    }
}

/// What follows once it is known for a bootstrap which engine runs: the engine is asked whether it
/// can be reached.
pub open spec fn engine_is_taken(
    cfg: Config,
    github: Option<GithubContextView>,
    engine: Seq<char>,
    replies: Seq<ReplyView>,
) -> crate::runs::Run {
    run(cfg, ask_engine(EngineQuestionView::Reachable { github, engine }).steps, replies)
}

/// Where the operator names no engine, a bootstrap takes Docker if it runs (or Podman, if that is
/// what answers to its name), Podman if only that runs, and fails if neither does.
pub proof fn law_running_engine_is_taken(
    cfg: Config,
    github: Option<GithubContextView>,
    replies: Seq<ReplyView>,
)
    requires
        cfg.container_engine is None,
        replies.len() >= 2,
    ensures
        ({
            let r = run(cfg, engine::resolve_engine_spec(cfg, github).steps, replies);
            let first = Event::Performed(asks_engine("docker"@), replies[0]);
            if replies[0].ok {
                let on = engine_is_taken(
                    cfg,
                    github,
                    engine_named(replies[1].stdout),
                    replies.skip(2),
                );
                r.left == on.left && r.events == seq![
                    first,
                    Event::Performed(asks_version(), replies[1]),
                ] + on.events
            } else if replies[1].ok {
                let on = engine_is_taken(cfg, github, "podman"@, replies.skip(2));
                r.left == on.left && r.events == seq![
                    first,
                    Event::Performed(asks_engine("podman"@), replies[1]),
                ] + on.events
            } else {
                r.left is None && r.events.len() == 3 && r.events[2] is Failed
            }
        }),
{
    let seeker = SeekerView::Preflight { github };
    let docker = QuestionView::Engine(EngineQuestionView::DockerInfo { seeker });
    let version = QuestionView::Engine(EngineQuestionView::DockerVersion { seeker });
    let podman = QuestionView::Engine(EngineQuestionView::PodmanInfo { seeker });
    asked_once(cfg, docker, replies);
    assert(replies.skip(1).skip(1) =~= replies.skip(2));
    let r = run(cfg, engine::resolve_engine_spec(cfg, github).steps, replies);
    let first = Event::Performed(asks_engine("docker"@), replies[0]);
    if replies[0].ok {
        asked_once(cfg, version, replies.skip(1));
        let name = engine_named(replies[1].stdout);
        let on = engine_is_taken(cfg, github, name, replies.skip(2));
        assert(engine::select_engine_spec(github, name) == ask_engine(
            EngineQuestionView::Reachable { github, engine: name },
        ));
        assert(r.events =~= seq![first, Event::Performed(asks_version(), replies[1])] + on.events);
    } else {
        asked_once(cfg, podman, replies.skip(1));
        if replies[1].ok {
            let on = engine_is_taken(cfg, github, "podman"@, replies.skip(2));
            assert(engine::select_engine_spec(github, "podman"@) == ask_engine(
                EngineQuestionView::Reachable { github, engine: "podman"@ },
            ));
            assert(r.events =~= seq![
                first,
                Event::Performed(asks_engine("podman"@), replies[1]),
            ] + on.events);
        } else {
            let s = question::answer_spec(cfg, podman, replies[1]).steps;
            assert(s.len() == 1 && s[0] is Fail);
            let end = run(cfg, s, replies.skip(2));
        }
    }
}

/// An engine that the operator names is taken as it is named if it is Docker or Podman, and nothing
/// else is asked before; any other name is an error.
pub proof fn law_named_engine_is_taken(
    cfg: Config,
    github: Option<GithubContextView>,
    replies: Seq<ReplyView>,
)
    requires
        cfg.container_engine is Some,
    ensures
        ({
            let r = run(cfg, engine::resolve_engine_spec(cfg, github).steps, replies);
            let name = cfg.container_engine->0@;
            if name == "docker"@ || name == "podman"@ {
                r == engine_is_taken(cfg, github, name, replies)
            } else {
                r.left is None && r.events.len() == 1 && r.events[0] is Failed
            }
        }),
{
    let s = engine::resolve_engine_spec(cfg, github).steps;
    let name = cfg.container_engine->0@;
    if name != "docker"@ && name != "podman"@ {
        assert(s.len() == 1 && s[0] is Fail);
    }
}

/// What follows the preflight, with an engine and a socket. The socket that the operator names wins.
pub open spec fn goes_on_with(
    cfg: Config,
    github: Option<GithubContextView>,
    engine: Seq<char>,
    detected: Seq<char>,
    replies: Seq<ReplyView>,
) -> crate::runs::Run {
    let engine_sock = match cfg.engine_sock {
        Some(named) => named@,
        None => detected,
    };
    run(
        cfg,
        bootstrap::after_preflight_spec(cfg, (PreflightView { engine, engine_sock, github })).steps,
        replies,
    )
}

/// The query for the socket of Podman.
pub open spec fn asks_socket() -> ActionView {
    ActionView::Lossy(
        command("podman"@).arg("info"@).arg("--format"@).arg("{{.Host.RemoteSocket.Path}}"@),
    )
}

/// A bootstrap goes on with Docker and its socket once Docker can be reached, and fails otherwise.
pub proof fn law_docker_socket_is_taken(
    cfg: Config,
    github: Option<GithubContextView>,
    replies: Seq<ReplyView>,
)
    requires
        replies.len() >= 1,
    ensures
        ({
            let r = engine_is_taken(cfg, github, "docker"@, replies);
            let asked = Event::Performed(asks_engine("docker"@), replies[0]);
            let on = goes_on_with(
                cfg,
                github,
                "docker"@,
                "/var/run/docker.sock"@,
                replies.skip(1),
            );
            if replies[0].ok {
                r == on.after(asked)
            } else {
                r.left is None && r.events.len() == 2 && r.events[1] is Failed
            }
        }),
{
    let q = QuestionView::Engine(EngineQuestionView::Reachable { github, engine: "docker"@ });
    asked_once(cfg, q, replies);
    if !replies[0].ok {
        let s = question::answer_spec(cfg, q, replies[0]).steps;
        assert(s.len() == 1 && s[0] is Fail);
        let end = run(cfg, s, replies.skip(1));
    }
}

/// A bootstrap goes on with Podman once it can be reached, and tells kind so. Its socket is the known
/// one inside the toolbox; outside of it, the one that Podman tells, without the scheme before it,
/// and the known one where Podman tells none.
pub proof fn law_podman_socket_is_taken(
    cfg: Config,
    github: Option<GithubContextView>,
    replies: Seq<ReplyView>,
)
    requires
        replies.len() >= 3,
    ensures
        ({
            let r = engine_is_taken(cfg, github, "podman"@, replies);
            let asked = Event::Performed(asks_engine("podman"@), replies[0]);
            let told = Event::Performed(
                ActionView::SetVar("KIND_EXPERIMENTAL_PROVIDER"@, "podman"@),
                replies[1],
            );
            let known = "/run/podman/podman.sock"@;
            let sock = trim_prefixes_spec(trim_spec(replies[2].stdout), "unix://"@);
            if !replies[0].ok {
                r.left is None && r.events.len() == 2 && r.events[1] is Failed
            } else if cfg.toolbox {
                r == goes_on_with(cfg, github, "podman"@, known, replies.skip(2)).after(told).after(
                    asked,
                )
            } else if sock.len() > 0 {
                r == goes_on_with(cfg, github, "podman"@, sock, replies.skip(3)).after(
                    Event::Performed(asks_socket(), replies[2]),
                ).after(told).after(asked)
            } else {
                let on = goes_on_with(cfg, github, "podman"@, known, replies.skip(3));
                r.left == on.left && r.events.len() == on.events.len() + 4 && r.events.skip(4)
                    == on.events && r.events[3] is Reported
            }
        }),
{
    reveal_strlit("docker");
    reveal_strlit("podman");
    assert("docker"@[0] != "podman"@[0]);
    let q = QuestionView::Engine(EngineQuestionView::Reachable { github, engine: "podman"@ });
    let socket = QuestionView::Engine(
        EngineQuestionView::PodmanSocket { github, engine: "podman"@ },
    );
    let set = ActionView::SetVar("KIND_EXPERIMENTAL_PROVIDER"@, "podman"@);
    asked_once(cfg, q, replies);
    let s = question::answer_spec(cfg, q, replies[0]).steps;
    let later = replies.skip(1);
    if !replies[0].ok {
        assert(s.len() == 1 && s[0] is Fail);
        let end = run(cfg, s, later);
    } else {
        let known = "/run/podman/podman.sock"@;
        let known_result = engine::engine_resolved_spec(cfg, github, "podman"@, known);
        assert(s[0] == StepView::Do(set, RuleView::Ignore));
        assert(judge_spec(set, RuleView::Ignore, later[0]).steps =~= Seq::<StepView>::empty());
        assert(later.skip(1) =~= replies.skip(2));
        let told = run(cfg, s, later);
        if cfg.toolbox {
            assert(Seq::<StepView>::empty() + s.skip(1) =~= known_result.steps);
        } else {
            assert(Seq::<StepView>::empty() + s.skip(1) =~= ScriptView::new().ask(socket).steps);
            asked_once(cfg, socket, replies.skip(2));
            assert(replies.skip(2).skip(1) =~= replies.skip(3));
            let sock = trim_prefixes_spec(trim_spec(replies[2].stdout), "unix://"@);
            let t = question::answer_spec(cfg, socket, replies[2]).steps;
            let end = run(cfg, t, replies.skip(3));
            if sock.len() == 0 {
                assert(t[0] is Report);
                assert(t.skip(1) =~= known_result.steps);
                let r = engine_is_taken(cfg, github, "podman"@, replies);
                let on = goes_on_with(cfg, github, "podman"@, known, replies.skip(3));
                assert(r.events.skip(4) =~= on.events);
            }
        }
    }
}

/// The teardown of a local host works with the engine that the operator names if it runs, and with
/// none otherwise.
pub proof fn law_teardown_takes_the_named_engine(
    cfg: Config,
    knobs: TeardownConfigView,
    replies: Seq<ReplyView>,
)
    requires
        cfg.container_engine is Some,
        cfg.container_engine->0@.len() > 0,
        replies.len() >= 1,
    ensures
        ({
            let r = run(cfg, engine::detect_engine_spec(cfg, knobs).steps, replies);
            let name = cfg.container_engine->0@;
            let asked = Event::Performed(asks_engine(name), replies[0]);
            let none: Option<Seq<char>> = None;
            let with = run(
                cfg,
                teardown::teardown_local_spec(cfg, knobs, Some(name)).steps,
                replies.skip(1),
            );
            let without = run(
                cfg,
                teardown::teardown_local_spec(cfg, knobs, none).steps,
                replies.skip(1),
            );
            if replies[0].ok {
                r == with.after(asked)
            } else {
                r.left == without.left && r.events.len() == without.events.len() + 2
                    && r.events[0] == asked && r.events[1] is Reported && r.events.skip(2)
                    == without.events
            }
        }),
{
    let name = cfg.container_engine->0@;
    let none: Option<Seq<char>> = None;
    let q = QuestionView::Engine(EngineQuestionView::NamedEngine { knobs, engine: name });
    asked_once(cfg, q, replies);
    let s = question::answer_spec(cfg, q, replies[0]).steps;
    let end = run(cfg, s, replies.skip(1));
    if !replies[0].ok {
        let plain = teardown::teardown_local_spec(cfg, knobs, none);
        assert(s[0] is Report);
        assert(s.skip(1) =~= plain.steps);
        let r = run(cfg, engine::detect_engine_spec(cfg, knobs).steps, replies);
        let without = run(cfg, plain.steps, replies.skip(1));
        assert(r.events.skip(2) =~= without.events);
    }
}

// ---------------------------------------------------------------------------------------------
// The toolbox
// ---------------------------------------------------------------------------------------------
/// The listing of what is on the network of the kind cluster.
pub open spec fn lists_members(engine: Seq<char>) -> ActionView {
    ActionView::Lossy(command(engine).arg("network"@).arg("inspect"@).arg("kind"@))
}

/// The connection of a container to the network of the kind cluster.
pub open spec fn connects(engine: Seq<char>, id: Seq<char>) -> ActionView {
    ActionView::Inspect(
        command(engine).arg("network"@).arg("connect"@).arg("kind"@).arg(id),
    )
}

/// That a container is on the network: it is listed there, or it was connected.
pub open spec fn is_member(engine: Seq<char>, id: Seq<char>) -> spec_fn(Event) -> bool {
    |e: Event|
        match e {
            Event::Performed(a, reply) => {
                ||| a == lists_members(engine) && contains_spec(reply.stdout, id)
                ||| a == connects(engine, id) && reply.ok
            },
            _ => false,
        }
}

/// That the container whose name was read is on the network.
pub open spec fn toolbox_is_member(engine: Seq<char>) -> spec_fn(ReplyView, Seq<Event>) -> bool {
    |reply: ReplyView, events: Seq<Event>|
        reply.ok && happened(events, is_member(engine, trim_spec(reply.stdout)))
}

proof fn member_is_brought(cfg: Config, engine: Seq<char>, id: Seq<char>)
    ensures
        crate::runs::supplies(
            cfg,
            engine::join_network_spec(engine, "kind"@, id),
            is_member(engine, id),
        ),
{
    broadcast use group_some_of;

    let first = is_member(engine, id);
    let kind = |step: StepView|
        match step {
            StepView::Fail(_) => true,
            StepView::Ask(QuestionView::Engine(q)) => match q {
                EngineQuestionView::Member { engine: by, network, id: of } => by == engine
                    && network == "kind"@ && of == id,
                EngineQuestionView::Connect { engine: by, network, id: of } => by == engine
                    && network == "kind"@ && of == id,
                EngineQuestionView::MemberAfter { engine: by, network, id: of, .. } => by == engine
                    && network == "kind"@ && of == id,
                _ => false,
            },
            _ => false,
        };
    assert(crate::runs::owes(cfg, kind, first)) by {
        assert forall|q: QuestionView, reply: ReplyView| kind(StepView::Ask(q)) implies first(
            Event::Performed(question::action_spec(cfg, q), reply),
        ) || some_of(#[trigger] question::answer_spec(cfg, q, reply), kind) by {
            if !first(Event::Performed(question::action_spec(cfg, q), reply)) {
                let s = question::answer_spec(cfg, q, reply);
                assert(kind(s.steps[0]));
            }
        }
    }
    let s = engine::join_network_spec(engine, "kind"@, id);
    assert(kind(s.steps[0]));
    crate::runs::owed_brings(cfg, kind, first, s.steps);
}

/// The toolbox that joins the network of the kind cluster is on it when it goes on: the container
/// whose name it reads is listed there, or was connected.
pub proof fn law_toolbox_joins_the_network(cfg: Config, engine: Seq<char>)
    requires
        cfg.toolbox,
    ensures
        finishes(
            cfg,
            engine::toolbox_join_kind_network_spec(cfg, engine),
            answered(ActionView::ReadFile("/etc/hostname"@), toolbox_is_member(engine)),
        ),
{
    broadcast use group_some_of;

    let q = QuestionView::Engine(EngineQuestionView::ToolboxId { engine, joining: true });
    let rest = toolbox_is_member(engine);
    assert forall|reply: ReplyView|
        finishes(
            cfg,
            #[trigger] question::answer_spec(cfg, q, reply),
            |events: Seq<Event>| rest(reply, events),
        ) by {
        let s = question::answer_spec(cfg, q, reply);
        let id = trim_spec(reply.stdout);
        if reply.ok && id.len() > 0 {
            member_is_brought(cfg, engine, id);
        } else {
            assert(engine::toolbox_container_id_spec(reply).len() == 0) by {
                reveal_strlit("");
            }
            assert(s.steps[0] is Fail);
            failing_holds(cfg, s, |events: Seq<Event>| rest(reply, events));
        }
    }
    question_is_answered(cfg, q, rest);
}

/// That the container whose name was read is taken off the network.
pub open spec fn toolbox_leaves(engine: Seq<char>) -> spec_fn(ReplyView, Seq<Event>) -> bool {
    |reply: ReplyView, events: Seq<Event>|
        reply.ok && trim_spec(reply.stdout).len() > 0 ==> crate::cleanup_laws::performed(
            events,
            ActionView::Run(
                command(engine)
                    .arg("network"@).arg("disconnect"@).arg("kind"@).arg(trim_spec(reply.stdout)),
            ),
        )
}

/// The toolbox leaves the network of the kind cluster under the name that it reads.
pub proof fn law_toolbox_leaves_the_network(cfg: Config, engine: Seq<char>)
    requires
        cfg.toolbox,
    ensures
        finishes(
            cfg,
            engine::toolbox_leave_kind_network_spec(cfg, engine),
            answered(ActionView::ReadFile("/etc/hostname"@), toolbox_leaves(engine)),
        ),
{
    let q = QuestionView::Engine(EngineQuestionView::ToolboxId { engine, joining: false });
    let rest = toolbox_leaves(engine);
    assert forall|reply: ReplyView|
        finishes(
            cfg,
            #[trigger] question::answer_spec(cfg, q, reply),
            |events: Seq<Event>| rest(reply, events),
        ) by {
        let s = question::answer_spec(cfg, q, reply);
        let id = trim_spec(reply.stdout);
        if reply.ok && id.len() > 0 {
            let one = ActionView::Run(
                command(engine).arg("network"@).arg("disconnect"@).arg("kind"@).arg(id),
            );
            assert(step_of(one)(s.steps[0]));
            steps_perform(cfg, s, one);
            assert forall|replies: Seq<ReplyView>|
                (#[trigger] run(cfg, s.steps, replies)).left is Some implies rest(
                reply,
                run(cfg, s.steps, replies).events,
            ) by {
                assert(performing(one)(run(cfg, s.steps, replies).events));
            }
        }
    }
    question_is_answered(cfg, q, rest);
}

/// That the kubeconfig that was read is written to a file, and the file is restricted.
pub open spec fn kubeconfig_is_kept(path: Seq<char>) -> spec_fn(ReplyView, Seq<Event>) -> bool {
    |reply: ReplyView, events: Seq<Event>|
        {
            &&& reply.ok
            &&& happened(events, done(is_action(ActionView::WriteFile(path, reply.stdout))))
            &&& happened(events, done(is_action(ActionView::Restrict(path))))
        }
}

/// In the toolbox, the internal kubeconfig of the kind cluster is written to the file as kind gives
/// it, and the file is restricted.
pub proof fn law_kind_kubeconfig_is_kept(cfg: Config, path: Seq<char>)
    ensures
        finishes(
            cfg,
            ask_engine(EngineQuestionView::KindKubeconfig { path }),
            answered(
                ActionView::Capture(
                    command("kind"@)
                        .arg("get"@).arg("kubeconfig"@).arg("--internal"@).arg("--name"@)
                        .arg(cfg.repo.bootstrap.kind_cluster@),
                ),
                kubeconfig_is_kept(path),
            ),
        ),
{
    broadcast use group_some_of;

    let q = QuestionView::Engine(EngineQuestionView::KindKubeconfig { path });
    let rest = kubeconfig_is_kept(path);
    assert forall|reply: ReplyView|
        finishes(
            cfg,
            #[trigger] question::answer_spec(cfg, q, reply),
            |events: Seq<Event>| rest(reply, events),
        ) by {
        let s = question::answer_spec(cfg, q, reply);
        if reply.ok {
            let a = is_action(ActionView::WriteFile(path, reply.stdout));
            let b = is_action(ActionView::Restrict(path));
            assert(demands(a)(s.steps[1]));
            demanded_is_done(cfg, s, a);
            assert(demands(b)(s.steps[2]));
            demanded_is_done(cfg, s, b);
        } else {
            assert(s.steps[0] is Fail);
            failing_holds(cfg, s, |events: Seq<Event>| rest(reply, events));
        }
    }
    question_is_answered(cfg, q, rest);
}

} // verus!
