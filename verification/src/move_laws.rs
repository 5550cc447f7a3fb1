//! What holds of every pivot: what the target needs is there, and Flux is suspended, before the
//! inventory is moved.
use vstd::prelude::*;

use crate::bootstrap;
use crate::bootstrap::BootstrapQuestionView;
use crate::context::PreflightView;
use crate::failure::FailureView;
use crate::json::{json_text, JsonTree};
use crate::manifest::{filled_in_spec, unfilled_spec};
use crate::pivot;
use crate::pivot::PivotQuestionView;
use crate::question;
use crate::question::QuestionView;
use crate::rerun_laws::{
    actions_create_nothing, answers_build, building, is_move, lemma_other_words, moves_inventory,
    of_bootstrap,
};
use crate::runs::{
    all_of, brings, group_all_of, group_guarded, group_some_of, guarded, guarded_question, guards,
    owed_brings, owes, precedes, run, some_of, some_of_each, supplies, tame, tame_guards, Event,
};
use crate::script::{command, ActionView, CommandView, ReplyView, RuleView, ScriptView, StepView};
use crate::settings::Config;
use crate::text::{entries_spec, texts};

verus! {

// ---------------------------------------------------------------------------------------------
// From the first step of a bootstrap to the preparation of the target
// ---------------------------------------------------------------------------------------------
/// The question whose answer prepares the target and moves the inventory.
pub open spec fn preparation(preflight: PreflightView) -> QuestionView {
    QuestionView::Pivot(PivotQuestionView::PivotRegistryConfig { preflight })
}

/// A step of a bootstrap or its pivot that does not move the inventory.
pub open spec fn unmoved(step: StepView) -> bool {
    match step {
        StepView::Do(action, _) => !moves_inventory(action),
        StepView::Ask(q) => of_bootstrap(q) && !is_move(q),
        _ => true,
    }
}

proof fn building_is_unmoved(s: ScriptView)
    requires
        all_of(s, |step: StepView| building(step)),
    ensures
        all_of(s, |step: StepView| unmoved(step)),
{
    assert forall|i: int| 0 <= i < s.steps.len() implies unmoved(#[trigger] s.steps[i]) by {
        assert((|step: StepView| building(step))(s.steps[i]));
    }
}

/// What follows from an answer does not move the inventory, but for the preparation of the target.
pub proof fn answers_move_nothing(cfg: Config, q: QuestionView, reply: ReplyView)
    requires
        of_bootstrap(q),
        !(q matches QuestionView::Pivot(asked) && asked is PivotRegistryConfig),
    ensures
        all_of(question::answer_spec(cfg, q, reply), |step: StepView| unmoved(step)),
{
    broadcast use group_all_of;

    match q {
        QuestionView::Bootstrap(BootstrapQuestionView::KindClusters { .. }) => {
            lemma_other_words();
        },
        _ => {
            answers_build(cfg, q, reply);
            building_is_unmoved(question::answer_spec(cfg, q, reply));
        },
    }
}

/// What is guarded where the target is prepared is guarded from the first step of the bootstrap on.
proof fn bootstrap_is_guarded(cfg: Config, first: spec_fn(Event) -> bool)
    requires
        forall|preflight: PreflightView|
            guards(
                cfg,
                seq![StepView::Ask(#[trigger] preparation(preflight))],
                first,
                |a: ActionView| moves_inventory(a),
            ),
    ensures
        guarded(
            cfg,
            bootstrap::run_bootstrap_spec(cfg),
            first,
            |a: ActionView| moves_inventory(a),
        ),
{
    broadcast use group_all_of;

    let kind = |step: StepView| unmoved(step);
    let action = |a: ActionView| moves_inventory(a);
    assert(tame(cfg, kind, first, action)) by {
        assert forall|q: QuestionView| (#[trigger] kind(StepView::Ask(q))) implies {
            ||| guards(cfg, seq![StepView::Ask(q)], first, action)
            ||| !action(question::action_spec(cfg, q)) && forall|reply: ReplyView|
                all_of(#[trigger] question::answer_spec(cfg, q, reply), kind)
        } by {
            match q {
                QuestionView::Pivot(PivotQuestionView::PivotRegistryConfig { preflight }) => {
                    assert(q == preparation(preflight));
                },
                _ => {
                    actions_create_nothing(cfg, q);
                    assert forall|reply: ReplyView|
                        all_of(#[trigger] question::answer_spec(cfg, q, reply), kind) by {
                        answers_move_nothing(cfg, q, reply);
                    }
                },
            }
        }
    }
    lemma_other_words();
    let s = bootstrap::run_bootstrap_spec(cfg);
    assert(all_of(s, kind));
    tame_guards(cfg, kind, first, action, s.steps);
}

// ---------------------------------------------------------------------------------------------
// The preparation of the target
// ---------------------------------------------------------------------------------------------
/// A step of the preparation of the target, and of the suspension of Flux in the kind cluster.
pub open spec fn preparing(step: StepView) -> bool {
    match step {
        StepView::Do(action, _) => !moves_inventory(action),
        StepView::Ask(QuestionView::Pivot(q)) => match q {
            PivotQuestionView::SopsSecret { .. } => true,
            PivotQuestionView::PivotVariables => true,
            PivotQuestionView::PivotManifest { .. } => true,
            PivotQuestionView::AwsCredentials => true,
            PivotQuestionView::SourceKustomizations => true,
            _ => false,
        },
        StepView::Ask(_) => false,
        _ => true,
    }
}

proof fn preparing_is_tame(cfg: Config, first: spec_fn(Event) -> bool)
    ensures
        tame(cfg, |step: StepView| preparing(step), first, |a: ActionView| moves_inventory(a)),
{
    let kind = |step: StepView| preparing(step);
    let action = |a: ActionView| moves_inventory(a);
    lemma_other_words();
    assert forall|q: QuestionView| (#[trigger] kind(StepView::Ask(q))) implies !action(
        question::action_spec(cfg, q),
    ) && forall|reply: ReplyView|
        all_of(#[trigger] question::answer_spec(cfg, q, reply), kind) by {
        assert forall|reply: ReplyView|
            all_of(#[trigger] question::answer_spec(cfg, q, reply), kind) by {
            broadcast use group_all_of;

        }
    }
}

/// The preparation of the target moves nothing.
pub proof fn preparation_prepares(cfg: Config, registry_config: Seq<char>)
    ensures
        all_of(
            pivot::pivot_install_capi_in_target_spec(cfg, registry_config),
            |step: StepView| preparing(step),
        ),
{
    broadcast use group_all_of;

    lemma_other_words();
}

/// What the preparation of the target brings happens before the move.
pub proof fn preparation_is_guarded(cfg: Config, first: spec_fn(Event) -> bool)
    requires
        forall|registry_config: Seq<char>|
            supplies(
                cfg,
                #[trigger] pivot::pivot_install_capi_in_target_spec(cfg, registry_config),
                first,
            ),
    ensures
        guarded(
            cfg,
            bootstrap::run_bootstrap_spec(cfg),
            first,
            |a: ActionView| moves_inventory(a),
        ),
{
    let action = |a: ActionView| moves_inventory(a);
    let kind = |step: StepView| preparing(step);
    preparing_is_tame(cfg, first);
    assert forall|preflight: PreflightView|
        guards(cfg, seq![StepView::Ask(#[trigger] preparation(preflight))], first, action) by {
        let q = preparation(preflight);
        assert forall|reply: ReplyView|
            guarded(cfg, #[trigger] question::answer_spec(cfg, q, reply), first, action) by {
            broadcast use group_guarded;

            let installed = pivot::pivot_install_capi_in_target_spec(cfg, reply.stdout);
            preparation_prepares(cfg, reply.stdout);
            tame_guards(cfg, kind, first, action, installed.steps);
            assert(guarded(cfg, installed, first, action));
            assert(supplies(cfg, installed, first));
        }
        actions_create_nothing(cfg, q);
        guarded_question(cfg, q, first, action);
    }
    bootstrap_is_guarded(cfg, first);
}

/// What the suspension of Flux in the kind cluster brings happens before the move.
proof fn suspension_is_guarded(cfg: Config, first: spec_fn(Event) -> bool)
    requires
        brings(
            cfg,
            seq![StepView::Ask(QuestionView::Pivot(PivotQuestionView::SourceKustomizations))],
            first,
        ),
    ensures
        guarded(
            cfg,
            bootstrap::run_bootstrap_spec(cfg),
            first,
            |a: ActionView| moves_inventory(a),
        ),
{
    let action = |a: ActionView| moves_inventory(a);
    let kind = |step: StepView| preparing(step);
    let source = QuestionView::Pivot(PivotQuestionView::SourceKustomizations);
    preparing_is_tame(cfg, first);
    tame_guards(cfg, kind, first, action, seq![StepView::Ask(source)]);
    assert forall|preflight: PreflightView|
        guards(cfg, seq![StepView::Ask(#[trigger] preparation(preflight))], first, action) by {
        let q = preparation(preflight);
        assert forall|reply: ReplyView|
            guarded(cfg, #[trigger] question::answer_spec(cfg, q, reply), first, action) by {
            broadcast use group_guarded;

            let installed = pivot::pivot_install_capi_in_target_spec(cfg, reply.stdout);
            preparation_prepares(cfg, reply.stdout);
            tame_guards(cfg, kind, first, action, installed.steps);
            assert(guarded(cfg, installed, first, action));
            let moved = pivot::pivot_suspend_and_move_spec(cfg);
            assert(guarded(cfg, moved, first, action));
            assert(supplies(cfg, moved, first));
        }
        actions_create_nothing(cfg, q);
        guarded_question(cfg, q, first, action);
    }
    bootstrap_is_guarded(cfg, first);
}

// ---------------------------------------------------------------------------------------------
// The laws
// ---------------------------------------------------------------------------------------------
/// kubectl, applying to the target what it reads on standard input.
pub open spec fn apply_to_target(cfg: Config) -> CommandView {
    command("kubectl"@).arg("--kubeconfig"@).arg(cfg.mgmt_kubeconfig@).arg("apply"@).arg("-f"@).arg(
        "-"@,
    )
}

/// Whether the event is that a text is applied to the target, with success.
pub open spec fn applied(cfg: Config, text: Seq<char>, event: Event) -> bool {
    match event {
        Event::Performed(action, reply) => action == ActionView::Feed(apply_to_target(cfg), text)
            && reply.ok,
        _ => false,
    }
}

/// Whether the event is that an action succeeds, with an output that holds.
pub open spec fn succeeded(
    event: Event,
    action: ActionView,
    holds: spec_fn(Seq<char>) -> bool,
) -> bool {
    match event {
        Event::Performed(a, reply) => a == action && reply.ok && holds(reply.stdout),
        _ => false,
    }
}

/// The decryption of a manifest with the age key of the configuration.
pub open spec fn decrypts(cfg: Config, manifest: Seq<char>) -> ActionView {
    ActionView::Capture(
        command("sops"@)
            .arg("--decrypt"@).arg(manifest).var("SOPS_AGE_KEY_FILE"@, cfg.sops_age_key_file@),
    )
}

/// The listing of the ConfigMaps from which placeholders are filled in.
pub open spec fn lists_variables(cfg: Config) -> ActionView {
    ActionView::Capture(
        command("kubectl"@)
            .arg("get"@).arg("configmaps"@).arg("-n"@).arg(cfg.repo.bootstrap.flux_namespace@)
            .arg("-o"@).arg("json"@),
    )
}

/// Each encrypted manifest of an environment is decrypted, with success, before the inventory is
/// moved; and the text that it decrypts to is applied to the target, with success, before the
/// inventory is moved. Of any text, that is: it has been applied, or the manifest has been found to
/// decrypt to another text.
pub proof fn law_secrets_are_applied_first(
    cfg: Config,
    i: int,
    text: Seq<char>,
    replies: Seq<ReplyView>,
)
    requires
        0 <= i < cfg.environment.pivot_sops_secrets@.len(),
    ensures
        ({
            let decrypt = decrypts(cfg, cfg.environment.pivot_sops_secrets@[i]@);
            let events = run(cfg, bootstrap::run_bootstrap_spec(cfg).steps, replies).events;
            &&& precedes(
                events,
                |e: Event| succeeded(e, decrypt, |output: Seq<char>| true),
                |a: ActionView| moves_inventory(a),
            )
            &&& precedes(
                events,
                |e: Event|
                    applied(cfg, text, e) || succeeded(e, decrypt, |output: Seq<char>| output != text),
                |a: ActionView| moves_inventory(a),
            )
        }),
{
    let secrets = texts(cfg.environment.pivot_sops_secrets@);
    let manifest = secrets[i];
    let decrypt = decrypts(cfg, manifest);
    let q = QuestionView::Pivot(PivotQuestionView::SopsSecret { manifest });
    let read = |e: Event| succeeded(e, decrypt, |output: Seq<char>| true);
    let reading = |step: StepView| step is Fail || step == StepView::Ask(q);
    assert(owes(cfg, reading, read)) by {
        broadcast use group_some_of;

    }
    secrets_are_supplied(cfg, i, reading, read);
    preparation_is_guarded(cfg, read);
    let first = |e: Event|
        applied(cfg, text, e) || succeeded(e, decrypt, |output: Seq<char>| output != text);
    let applying = |step: StepView|
        step is Fail || step == StepView::Ask(q) || step == StepView::Do(
            ActionView::Feed(apply_to_target(cfg), text),
            RuleView::Require,
        );
    assert(owes(cfg, applying, first)) by {
        broadcast use group_some_of;

    }
    secrets_are_supplied(cfg, i, applying, first);
    preparation_is_guarded(cfg, first);
}

proof fn secrets_are_supplied(
    cfg: Config,
    i: int,
    kind: spec_fn(StepView) -> bool,
    first: spec_fn(Event) -> bool,
)
    requires
        0 <= i < cfg.environment.pivot_sops_secrets@.len(),
        owes(cfg, kind, first),
        forall|failure: FailureView| (#[trigger] kind(StepView::Fail(failure))),
        kind(
            StepView::Ask(
                QuestionView::Pivot(
                    PivotQuestionView::SopsSecret {
                        manifest: cfg.environment.pivot_sops_secrets@[i]@,
                    },
                ),
            ),
        ),
    ensures
        forall|registry_config: Seq<char>|
            supplies(
                cfg,
                #[trigger] pivot::pivot_install_capi_in_target_spec(cfg, registry_config),
                first,
            ),
{
    assert forall|registry_config: Seq<char>|
        supplies(
            cfg,
            #[trigger] pivot::pivot_install_capi_in_target_spec(cfg, registry_config),
            first,
        ) by {
        broadcast use group_some_of;

        let secrets = texts(cfg.environment.pivot_sops_secrets@);
        let one = |item: Seq<char>| pivot::ask_secret_spec(item);
        assert(some_of(one(secrets[i]), kind));
        some_of_each(secrets, one, kind, i);
        assert(some_of(pivot::pivot_secrets_spec(cfg), kind));
        let s = pivot::pivot_install_capi_in_target_spec(cfg, registry_config);
        assert(some_of(s, kind));
        owed_brings(cfg, kind, first, s.steps);
    }
}

/// Each plain manifest of an environment is read, with success, before the inventory is moved; and
/// what it is with its placeholders filled in is applied to the target, with success, before the
/// inventory is moved. A placeholder without a value means that nothing is moved. Of any content and
/// any listing of ConfigMaps, that is: the listing provides every placeholder and the filled-in
/// content has been applied, or another listing or another content has been found.
pub proof fn law_manifests_are_applied_first(
    cfg: Config,
    i: int,
    content: Seq<char>,
    listing: Seq<char>,
    replies: Seq<ReplyView>,
)
    requires
        0 <= i < cfg.environment.pivot_manifests@.len(),
    ensures
        ({
            let read = ActionView::ReadFile(cfg.environment.pivot_manifests@[i]@);
            let variables = lists_variables(cfg);
            let events = run(cfg, bootstrap::run_bootstrap_spec(cfg).steps, replies).events;
            &&& precedes(
                events,
                |e: Event| succeeded(e, read, |output: Seq<char>| true),
                |a: ActionView| moves_inventory(a),
            )
            &&& precedes(
                events,
                |e: Event| succeeded(e, variables, |output: Seq<char>| true),
                |a: ActionView| moves_inventory(a),
            )
            &&& precedes(
                events,
                |e: Event|
                    {
                        ||| unfilled_spec(content, listing).len() == 0 && applied(
                            cfg,
                            filled_in_spec(content, listing),
                            e,
                        )
                        ||| succeeded(e, variables, |output: Seq<char>| output != listing)
                        ||| succeeded(e, read, |output: Seq<char>| output != content)
                    },
                |a: ActionView| moves_inventory(a),
            )
        }),
{
    let manifest = texts(cfg.environment.pivot_manifests@)[i];
    let read = ActionView::ReadFile(manifest);
    let variables = lists_variables(cfg);
    let listed = |e: Event| succeeded(e, variables, |output: Seq<char>| true);
    let listing_steps = |step: StepView|
        step is Fail || step == StepView::Ask(
            QuestionView::Pivot(PivotQuestionView::PivotVariables),
        );
    assert(owes(cfg, listing_steps, listed)) by {
        broadcast use group_some_of;

    }
    manifests_are_supplied(cfg, listing_steps, listed);
    preparation_is_guarded(cfg, listed);
    let found = |e: Event| succeeded(e, read, |output: Seq<char>| true);
    let finding = |step: StepView| asks_for_manifest(manifest, step);
    assert(owes(cfg, finding, found)) by {
        variables_lead_on(cfg, i, finding);
        assert forall|q: QuestionView, reply: ReplyView|
            finding(StepView::Ask(q)) implies found(
            Event::Performed(question::action_spec(cfg, q), reply),
        ) || some_of(#[trigger] question::answer_spec(cfg, q, reply), finding) by {
            broadcast use group_some_of;

        }
    }
    manifests_are_supplied(cfg, finding, found);
    preparation_is_guarded(cfg, found);
    let first = |e: Event|
        {
            ||| unfilled_spec(content, listing).len() == 0 && applied(
                cfg,
                filled_in_spec(content, listing),
                e,
            )
            ||| succeeded(e, variables, |output: Seq<char>| output != listing)
            ||| succeeded(e, read, |output: Seq<char>| output != content)
        };
    let applying = |step: StepView| applies_manifest(cfg, manifest, content, listing, step);
    assert(owes(cfg, applying, first)) by {
        variables_lead_on(cfg, i, applying);
        assert forall|q: QuestionView, reply: ReplyView|
            applying(StepView::Ask(q)) implies first(
            Event::Performed(question::action_spec(cfg, q), reply),
        ) || some_of(#[trigger] question::answer_spec(cfg, q, reply), applying) by {
            broadcast use group_some_of;

        }
        assert forall|a: ActionView, rule: RuleView, reply: ReplyView|
            applying(StepView::Do(a, rule)) implies first(Event::Performed(a, reply)) || some_of(
            #[trigger] crate::session::judge_spec(a, rule, reply),
            applying,
        ) by {
            broadcast use group_some_of;

        }
    }
    manifests_are_supplied(cfg, applying, first);
    preparation_is_guarded(cfg, first);
}

/// A step that ends the run or leads to the reading of a manifest.
pub open spec fn asks_for_manifest(manifest: Seq<char>, step: StepView) -> bool {
    match step {
        StepView::Fail(_) => true,
        StepView::Ask(QuestionView::Pivot(q)) => match q {
            PivotQuestionView::PivotVariables => true,
            PivotQuestionView::PivotManifest { manifest: asked, .. } => asked == manifest,
            _ => false,
        },
        _ => false,
    }
}

/// A step that ends the run or leads to the application of a manifest with a content and a listing.
pub open spec fn applies_manifest(
    cfg: Config,
    manifest: Seq<char>,
    content: Seq<char>,
    listing: Seq<char>,
    step: StepView,
) -> bool {
    match step {
        StepView::Fail(_) => true,
        StepView::Ask(QuestionView::Pivot(q)) => match q {
            PivotQuestionView::PivotVariables => true,
            PivotQuestionView::PivotManifest { manifest: asked, listing: with } => asked == manifest
                && with == listing,
            _ => false,
        },
        StepView::Do(action, rule) => {
            &&& unfilled_spec(content, listing).len() == 0
            &&& action == ActionView::Feed(apply_to_target(cfg), filled_in_spec(content, listing))
            &&& rule == RuleView::Require
        },
        _ => false,
    }
}

/// The listing of the ConfigMaps leads to the question for each manifest.
proof fn variables_lead_on(cfg: Config, i: int, kind: spec_fn(StepView) -> bool)
    requires
        0 <= i < cfg.environment.pivot_manifests@.len(),
        forall|failure: FailureView| (#[trigger] kind(StepView::Fail(failure))),
    ensures
        forall|reply: ReplyView|
            {
                let listing = reply.stdout;
                let q = QuestionView::Pivot(
                    PivotQuestionView::PivotManifest {
                        manifest: texts(cfg.environment.pivot_manifests@)[i],
                        listing,
                    },
                );
                !reply.ok || kind(StepView::Ask(q)) ==> some_of(
                    #[trigger] pivot::after_pivot_variables_spec(cfg, reply),
                    kind,
                )
            },
{
    assert forall|reply: ReplyView|
        {
            let q = QuestionView::Pivot(
                PivotQuestionView::PivotManifest {
                    manifest: texts(cfg.environment.pivot_manifests@)[i],
                    listing: reply.stdout,
                },
            );
            !reply.ok || kind(StepView::Ask(q))
        } implies some_of(#[trigger] pivot::after_pivot_variables_spec(cfg, reply), kind) by {
        broadcast use group_some_of;

        if reply.ok {
            let manifests = texts(cfg.environment.pivot_manifests@);
            let one = |item: Seq<char>| pivot::ask_manifest_spec(item, reply.stdout);
            assert(some_of(one(manifests[i]), kind));
            some_of_each(manifests, one, kind, i);
        }
    }
}

proof fn manifests_are_supplied(
    cfg: Config,
    kind: spec_fn(StepView) -> bool,
    first: spec_fn(Event) -> bool,
)
    requires
        cfg.environment.pivot_manifests@.len() > 0,
        owes(cfg, kind, first),
        forall|failure: FailureView| (#[trigger] kind(StepView::Fail(failure))),
        kind(StepView::Ask(QuestionView::Pivot(PivotQuestionView::PivotVariables))),
    ensures
        forall|registry_config: Seq<char>|
            supplies(
                cfg,
                #[trigger] pivot::pivot_install_capi_in_target_spec(cfg, registry_config),
                first,
            ),
{
    assert forall|registry_config: Seq<char>|
        supplies(
            cfg,
            #[trigger] pivot::pivot_install_capi_in_target_spec(cfg, registry_config),
            first,
        ) by {
        broadcast use group_some_of;

        assert(some_of(pivot::pivot_plain_manifests_spec(cfg), kind));
        let s = pivot::pivot_install_capi_in_target_spec(cfg, registry_config);
        assert(some_of(s, kind));
        owed_brings(cfg, kind, first, s.steps);
    }
}

/// The listing of the Kustomizations of the kind cluster.
pub open spec fn list_kustomizations(cfg: Config) -> ActionView {
    ActionView::Lossy(
        command("kubectl"@).arg("get"@).arg("kustomizations"@).arg("-n"@).arg(
            cfg.repo.bootstrap.flux_namespace@,
        ).arg("-o"@).arg("name"@),
    )
}

/// kubectl, suspending one Kustomization of the kind cluster.
pub open spec fn suspend(cfg: Config, name: Seq<char>) -> ActionView {
    ActionView::Run(
        command("kubectl"@).arg("patch"@).arg(name).arg("-n"@).arg(
            cfg.repo.bootstrap.flux_namespace@,
        ).arg("--type"@).arg("merge"@).arg("-p"@).arg(json_text(
                JsonTree::object().with(
                    "spec"@,
                    JsonTree::object().with("suspend"@, JsonTree::Bool(true)),
                ),
            )),
    )
}

/// Flux in the kind cluster is suspended before the inventory is moved: the Kustomizations have been
/// listed, and each one that was listed has been suspended with success. Of any name, that is: the
/// Kustomization has been suspended, or a listing has not shown it.
pub proof fn law_flux_is_suspended_before_the_move(
    cfg: Config,
    name: Seq<char>,
    replies: Seq<ReplyView>,
)
    ensures
        precedes(
            run(cfg, bootstrap::run_bootstrap_spec(cfg).steps, replies).events,
            |e: Event|
                match e {
                    Event::Performed(action, reply) => {
                        ||| action == suspend(cfg, name) && reply.ok
                        ||| action == list_kustomizations(cfg) && !entries_spec(
                            reply.stdout,
                        ).contains(name)
                    },
                    _ => false,
                },
            |a: ActionView| moves_inventory(a),
        ),
{
    let first = |e: Event|
        match e {
            Event::Performed(action, reply) => {
                ||| action == suspend(cfg, name) && reply.ok
                ||| action == list_kustomizations(cfg) && !entries_spec(reply.stdout).contains(name)
            },
            _ => false,
        };
    let source = QuestionView::Pivot(PivotQuestionView::SourceKustomizations);
    let kind = |step: StepView|
        step is Fail || step == StepView::Ask(source) || step == StepView::Do(
            suspend(cfg, name),
            RuleView::Require,
        );
    assert(owes(cfg, kind, first)) by {
        assert forall|q: QuestionView, reply: ReplyView|
            kind(StepView::Ask(q)) implies first(
            Event::Performed(question::action_spec(cfg, q), reply),
        ) || some_of(#[trigger] question::answer_spec(cfg, q, reply), kind) by {
            broadcast use group_some_of;

            let found = entries_spec(reply.stdout);
            if found.contains(name) {
                let i = choose|i: int| 0 <= i < found.len() && found[i] == name;
                let one = |item: Seq<char>| pivot::suspend_kustomization_spec(
                    item,
                    cfg.repo.bootstrap.flux_namespace@,
                );
                assert(some_of(one(found[i]), kind));
                some_of_each(found, one, kind, i);
            }
        }
        assert forall|a: ActionView, rule: RuleView, reply: ReplyView|
            kind(StepView::Do(a, rule)) implies first(Event::Performed(a, reply)) || some_of(
            #[trigger] crate::session::judge_spec(a, rule, reply),
            kind,
        ) by {
            broadcast use group_some_of;

        }
    }
    let one = seq![StepView::Ask(source)];
    assert(some_of(ScriptView { steps: one }, kind)) by {
        assert(kind(one[0]));
    }
    owed_brings(cfg, kind, first, one);
    suspension_is_guarded(cfg, first);
}

} // verus!
