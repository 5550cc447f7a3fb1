//! What the orphan sweep does about IAM roles and users, and about S3 buckets.
use vstd::prelude::*;

use crate::aws::{aws_sweep_targets_spec, AwsSweepTargetView};
use crate::cleanup_laws::{
    for_listed, gate_is_done, if_there, list_is_done, performed, performing, step_of, steps_perform,
};
use crate::question;
use crate::question::QuestionView;
use crate::runs::{run, some_of, Event};
use crate::script::{command, for_each_spec, ActionView, CommandView, ReplyView, ScriptView};
use crate::settings::Config;
use crate::stretches::{
    answered, finishes, group_holds, has_stretch, holds, holds_each, holds_each_target, holds_join,
    holds_whole, question_is_answered,
};
use crate::sweep;
use crate::sweep::{cleanup_iam_role_spec, cleanup_iam_user_spec, sweep_spec, SweepQuestionView};
use crate::text::{texts, words_spec};

verus! {

// ---------------------------------------------------------------------------------------------
// Roles
// ---------------------------------------------------------------------------------------------
/// The AWS CLI, at work on IAM.
pub open spec fn iam(verb: Seq<char>) -> CommandView {
    command("aws"@).arg("iam"@).arg(verb)
}

/// A listing of something of a role.
pub open spec fn of_role(verb: Seq<char>, role: Seq<char>, query: Seq<char>) -> ActionView {
    ActionView::Lossy(
        iam(verb)
            .arg("--role-name"@).arg(role).arg("--query"@).arg(query).arg("--output"@).arg("text"@),
    )
}

/// The detachment of a managed policy.
pub open spec fn detaches(role: Seq<char>) -> spec_fn(Seq<char>) -> ActionView {
    |arn: Seq<char>|
        ActionView::Quiet(
            iam("detach-role-policy"@).arg("--role-name"@).arg(role).arg("--policy-arn"@).arg(arn),
        )
}

/// The removal of a role from an instance profile.
pub open spec fn leaves_profile(role: Seq<char>) -> spec_fn(Seq<char>) -> ActionView {
    |profile: Seq<char>|
        ActionView::Quiet(
            iam("remove-role-from-instance-profile"@)
                .arg("--instance-profile-name"@).arg(profile).arg("--role-name"@).arg(role),
        )
}

/// The deletion of an instance profile.
pub open spec fn deletes_profile() -> spec_fn(Seq<char>) -> ActionView {
    |profile: Seq<char>|
        ActionView::Quiet(
            iam("delete-instance-profile"@).arg("--instance-profile-name"@).arg(profile),
        )
}

/// The deletion of an inline policy of a role.
pub open spec fn deletes_inline(role: Seq<char>) -> spec_fn(Seq<char>) -> ActionView {
    |policy: Seq<char>|
        ActionView::Quiet(
            iam("delete-role-policy"@)
                .arg("--role-name"@).arg(role).arg("--policy-name"@).arg(policy),
        )
}

/// The deletion of a role.
pub open spec fn deletes_role(role: Seq<char>) -> ActionView {
    ActionView::Quiet(iam("delete-role"@).arg("--role-name"@).arg(role))
}

/// That all that hangs on a role is listed and taken off, and that the role is deleted.
pub open spec fn role_emptied(role: Seq<char>) -> spec_fn(Seq<Event>) -> bool {
    |events: Seq<Event>|
        {
            let policies = of_role(
                "list-attached-role-policies"@,
                role,
                "AttachedPolicies[].PolicyArn"@,
            );
            let profiles = of_role(
                "list-instance-profiles-for-role"@,
                role,
                "InstanceProfiles[].InstanceProfileName"@,
            );
            let inline = of_role("list-role-policies"@, role, "PolicyNames[]"@);
            &&& has_stretch(events, answered(policies, for_listed(detaches(role))))
            &&& has_stretch(events, answered(profiles, for_listed(leaves_profile(role))))
            &&& has_stretch(events, answered(profiles, for_listed(deletes_profile())))
            &&& has_stretch(events, answered(inline, for_listed(deletes_inline(role))))
            &&& performed(events, deletes_role(role))
        }
}

/// That a role that is there goes, with all that hangs on it.
pub open spec fn role_goes(role: Seq<char>) -> spec_fn(Seq<Event>) -> bool {
    answered(
        ActionView::Quiet(iam("get-role"@).arg("--role-name"@).arg(role)),
        if_there(role_emptied(role)),
    )
}

proof fn role_parts(cfg: Config, role: Seq<char>)
    ensures
        holds(
            cfg,
            ScriptView::new().ask(QuestionView::Sweep(SweepQuestionView::RolePolicies { role })),
            answered(
                of_role("list-attached-role-policies"@, role, "AttachedPolicies[].PolicyArn"@),
                for_listed(detaches(role)),
            ),
        ),
        holds(
            cfg,
            ScriptView::new().ask(QuestionView::Sweep(SweepQuestionView::RoleInline { role })),
            answered(
                of_role("list-role-policies"@, role, "PolicyNames[]"@),
                for_listed(deletes_inline(role)),
            ),
        ),
{
    let a = SweepQuestionView::RolePolicies { role };
    let detach = |item: Seq<char>| sweep::detach_policy_spec(item, role);
    let detaching = detaches(role);
    assert forall|name: Seq<char>| some_of(#[trigger] detach(name), step_of(detaching(name))) by {
        assert(step_of(detaching(name))(detach(name).steps.last()));
    }
    list_is_done(cfg, a, detach, detaching);
    holds_whole(
        cfg,
        ScriptView::new().ask(QuestionView::Sweep(a)),
        answered(sweep::action_spec(cfg, a), for_listed(detaching)),
    );
    let b = SweepQuestionView::RoleInline { role };
    let delete = |item: Seq<char>| sweep::delete_role_policy_spec(item, role);
    let deleting = deletes_inline(role);
    assert forall|name: Seq<char>| some_of(#[trigger] delete(name), step_of(deleting(name))) by {
        assert(step_of(deleting(name))(delete(name).steps.last()));
    }
    list_is_done(cfg, b, delete, deleting);
    holds_whole(
        cfg,
        ScriptView::new().ask(QuestionView::Sweep(b)),
        answered(sweep::action_spec(cfg, b), for_listed(deleting)),
    );
}

proof fn role_profiles(cfg: Config, role: Seq<char>)
    ensures
        holds(
            cfg,
            ScriptView::new().ask(QuestionView::Sweep(SweepQuestionView::RoleProfiles { role })),
            answered(
                of_role(
                    "list-instance-profiles-for-role"@,
                    role,
                    "InstanceProfiles[].InstanceProfileName"@,
                ),
                for_listed(leaves_profile(role)),
            ),
        ),
        holds(
            cfg,
            ScriptView::new().ask(QuestionView::Sweep(SweepQuestionView::RoleProfiles { role })),
            answered(
                of_role(
                    "list-instance-profiles-for-role"@,
                    role,
                    "InstanceProfiles[].InstanceProfileName"@,
                ),
                for_listed(deletes_profile()),
            ),
        ),
{
    let q = SweepQuestionView::RoleProfiles { role };
    let script = |item: Seq<char>| sweep::delete_profile_spec(item, role);
    let leaving = leaves_profile(role);
    assert forall|name: Seq<char>| some_of(#[trigger] script(name), step_of(leaving(name))) by {
        assert(step_of(leaving(name))(script(name).steps[1]));
    }
    list_is_done(cfg, q, script, leaving);
    holds_whole(
        cfg,
        ScriptView::new().ask(QuestionView::Sweep(q)),
        answered(sweep::action_spec(cfg, q), for_listed(leaving)),
    );
    let deleting = deletes_profile();
    assert forall|name: Seq<char>| some_of(#[trigger] script(name), step_of(deleting(name))) by {
        assert(step_of(deleting(name))(script(name).steps[2]));
    }
    list_is_done(cfg, q, script, deleting);
    holds_whole(
        cfg,
        ScriptView::new().ask(QuestionView::Sweep(q)),
        answered(sweep::action_spec(cfg, q), for_listed(deleting)),
    );
}

/// A role that is there goes, with all that hangs on it.
pub proof fn law_existing_roles_are_deleted(cfg: Config, role: Seq<char>)
    ensures
        finishes(cfg, cleanup_iam_role_spec(role), role_goes(role)),
{
    broadcast use group_holds;

    let q = SweepQuestionView::RoleGate { role };
    role_parts(cfg, role);
    role_profiles(cfg, role);
    let kind = role_emptied(role);
    assert forall|reply: ReplyView| reply.ok implies finishes(
        cfg,
        #[trigger] sweep::answer_spec(cfg, q, reply),
        kind,
    ) by {
        let s = sweep::answer_spec(cfg, q, reply);
        let policies = of_role(
            "list-attached-role-policies"@,
            role,
            "AttachedPolicies[].PolicyArn"@,
        );
        let profiles = of_role(
            "list-instance-profiles-for-role"@,
            role,
            "InstanceProfiles[].InstanceProfileName"@,
        );
        let inline = of_role("list-role-policies"@, role, "PolicyNames[]"@);
        assert(holds(cfg, s, answered(policies, for_listed(detaches(role)))));
        assert(holds(cfg, s, answered(profiles, for_listed(leaves_profile(role)))));
        assert(holds(cfg, s, answered(profiles, for_listed(deletes_profile()))));
        assert(holds(cfg, s, answered(inline, for_listed(deletes_inline(role)))));
        assert(step_of(deletes_role(role))(s.steps.last()));
        steps_perform(cfg, s, deletes_role(role));
        assert forall|replies: Seq<ReplyView>|
            (#[trigger] run(cfg, s.steps, replies)).left is Some implies kind(
            run(cfg, s.steps, replies).events,
        ) by {
            assert(performing(deletes_role(role))(run(cfg, s.steps, replies).events));
        }
    }
    gate_is_done(cfg, q, kind);
}

/// That each role of a listing goes; a listing of none reads `None`.
pub open spec fn listed_roles_go() -> spec_fn(ReplyView, Seq<Event>) -> bool {
    |reply: ReplyView, events: Seq<Event>|
        forall|role: Seq<char>| #[trigger]
            words_spec(reply.stdout).contains(role) && role != "None"@ ==> has_stretch(
                events,
                role_goes(role),
            )
}

/// The listing of the roles whose names start with a prefix.
pub open spec fn lists_roles(prefix: Seq<char>) -> ActionView {
    ActionView::Lossy(
        iam("list-roles"@)
            .arg("--query"@).arg("Roles[?starts_with(RoleName, `"@ + prefix + "`)].RoleName"@)
            .arg("--output"@).arg("text"@).arg("--max-items"@).arg("1000"@),
    )
}

proof fn listed_roles_unit(cfg: Config, prefix: Seq<char>)
    ensures
        finishes(
            cfg,
            sweep::cleanup_capa_iam_roles_spec(prefix),
            answered(lists_roles(prefix), listed_roles_go()),
        ),
{
    let q = QuestionView::Sweep(SweepQuestionView::CapaRoles { prefix });
    let rest = listed_roles_go();
    let one = |item: Seq<char>| sweep::cleanup_listed_role_spec(item);
    assert forall|reply: ReplyView|
        finishes(
            cfg,
            #[trigger] question::answer_spec(cfg, q, reply),
            |events: Seq<Event>| rest(reply, events),
        ) by {
        let s = question::answer_spec(cfg, q, reply);
        let found = words_spec(reply.stdout);
        assert(s == ScriptView::new().join(for_each_spec(found, one)));
        assert forall|role: Seq<char>| #[trigger]
            found.contains(role) && role != "None"@ implies holds(cfg, s, role_goes(role)) by {
            law_existing_roles_are_deleted(cfg, role);
            holds_whole(cfg, one(role), role_goes(role));
            holds_each(cfg, found, one, role_goes(role), role);
            holds_join(cfg, ScriptView::new(), for_each_spec(found, one), role_goes(role));
        }
    }
    question_is_answered(cfg, q, rest);
}

/// For every target and every sweep that comes to its end: the roles whose names start with the name
/// of the cluster are listed, and each one that is listed goes.
pub proof fn law_roles_of_targets_are_deleted(
    cfg: Config,
    target: AwsSweepTargetView,
    replies: Seq<ReplyView>,
)
    requires
        aws_sweep_targets_spec(*cfg.environment).contains(target),
        run(cfg, sweep_spec(cfg).steps, replies).left is Some,
    ensures
        has_stretch(
            run(cfg, sweep_spec(cfg).steps, replies).events,
            answered(lists_roles(target.cluster_name), listed_roles_go()),
        ),
{
    broadcast use group_holds;

    let one = |t: AwsSweepTargetView| sweep::sweep_roles_spec(t);
    let kind = answered(lists_roles(target.cluster_name), listed_roles_go());
    listed_roles_unit(cfg, target.cluster_name);
    holds_whole(cfg, one(target), kind);
    holds_each_target(cfg, aws_sweep_targets_spec(*cfg.environment), one, kind, target);
    assert(holds(cfg, sweep_spec(cfg), kind));
}

/// For every sweep that comes to its end: each role that the repository names as global goes where it
/// is there.
pub proof fn law_global_roles_are_deleted(cfg: Config, i: int, replies: Seq<ReplyView>)
    requires
        0 <= i < cfg.repo.teardown.global_iam_roles@.len(),
        run(cfg, sweep_spec(cfg).steps, replies).left is Some,
    ensures
        has_stretch(
            run(cfg, sweep_spec(cfg).steps, replies).events,
            role_goes(cfg.repo.teardown.global_iam_roles@[i]@),
        ),
{
    broadcast use group_holds;

    let role = cfg.repo.teardown.global_iam_roles@[i]@;
    let roles = texts(cfg.repo.teardown.global_iam_roles@);
    let one = |item: Seq<char>| cleanup_iam_role_spec(item);
    let kind = role_goes(role);
    assert(roles[i] == role);
    law_existing_roles_are_deleted(cfg, role);
    holds_whole(cfg, one(role), kind);
    holds_each(cfg, roles, one, kind, role);
    assert(holds(cfg, sweep_spec(cfg), kind));
}

// ---------------------------------------------------------------------------------------------
// Users
// ---------------------------------------------------------------------------------------------
/// A listing of something of a user.
pub open spec fn of_user(verb: Seq<char>, user: Seq<char>, query: Seq<char>) -> ActionView {
    ActionView::Lossy(
        iam(verb)
            .arg("--user-name"@).arg(user).arg("--query"@).arg(query).arg("--output"@).arg("text"@),
    )
}

/// The deletion of an access key.
pub open spec fn deletes_key(user: Seq<char>) -> spec_fn(Seq<char>) -> ActionView {
    |key: Seq<char>|
        ActionView::Quiet(
            iam("delete-access-key"@).arg("--user-name"@).arg(user).arg("--access-key-id"@).arg(key),
        )
}

/// The deletion of an inline policy of a user.
pub open spec fn deletes_user_inline(user: Seq<char>) -> spec_fn(Seq<char>) -> ActionView {
    |policy: Seq<char>|
        ActionView::Quiet(
            iam("delete-user-policy"@)
                .arg("--user-name"@).arg(user).arg("--policy-name"@).arg(policy),
        )
}

/// The deletion of the login profile of a user, and of the user.
pub open spec fn deletes_of_user(verb: Seq<char>, user: Seq<char>) -> ActionView {
    ActionView::Quiet(iam(verb).arg("--user-name"@).arg(user))
}

/// That all that hangs on a user is taken off, and that the user is deleted.
pub open spec fn user_emptied(user: Seq<char>) -> spec_fn(Seq<Event>) -> bool {
    |events: Seq<Event>|
        {
            let keys = of_user("list-access-keys"@, user, "AccessKeyMetadata[].AccessKeyId"@);
            let inline = of_user("list-user-policies"@, user, "PolicyNames[]"@);
            &&& performed(events, deletes_of_user("delete-login-profile"@, user))
            &&& has_stretch(events, answered(keys, for_listed(deletes_key(user))))
            &&& has_stretch(events, answered(inline, for_listed(deletes_user_inline(user))))
            &&& performed(events, deletes_of_user("delete-user"@, user))
        }
}

/// That a user that is there goes, with all that hangs on it.
pub open spec fn user_goes(user: Seq<char>) -> spec_fn(Seq<Event>) -> bool {
    answered(
        ActionView::Quiet(iam("get-user"@).arg("--user-name"@).arg(user)),
        if_there(user_emptied(user)),
    )
}

proof fn user_parts(cfg: Config, user: Seq<char>)
    ensures
        holds(
            cfg,
            ScriptView::new().ask(QuestionView::Sweep(SweepQuestionView::UserKeys { user })),
            answered(
                of_user("list-access-keys"@, user, "AccessKeyMetadata[].AccessKeyId"@),
                for_listed(deletes_key(user)),
            ),
        ),
        holds(
            cfg,
            ScriptView::new().ask(QuestionView::Sweep(SweepQuestionView::UserInline { user })),
            answered(
                of_user("list-user-policies"@, user, "PolicyNames[]"@),
                for_listed(deletes_user_inline(user)),
            ),
        ),
{
    let a = SweepQuestionView::UserKeys { user };
    let key = |item: Seq<char>| sweep::delete_access_key_spec(item, user);
    let revoking = deletes_key(user);
    assert forall|name: Seq<char>| some_of(#[trigger] key(name), step_of(revoking(name))) by {
        assert(step_of(revoking(name))(key(name).steps.last()));
    }
    list_is_done(cfg, a, key, revoking);
    holds_whole(
        cfg,
        ScriptView::new().ask(QuestionView::Sweep(a)),
        answered(sweep::action_spec(cfg, a), for_listed(revoking)),
    );
    let b = SweepQuestionView::UserInline { user };
    let delete = |item: Seq<char>| sweep::delete_user_policy_spec(item, user);
    let deleting = deletes_user_inline(user);
    assert forall|name: Seq<char>| some_of(#[trigger] delete(name), step_of(deleting(name))) by {
        assert(step_of(deleting(name))(delete(name).steps.last()));
    }
    list_is_done(cfg, b, delete, deleting);
    holds_whole(
        cfg,
        ScriptView::new().ask(QuestionView::Sweep(b)),
        answered(sweep::action_spec(cfg, b), for_listed(deleting)),
    );
}

/// A user that is there goes, with all that hangs on it.
pub proof fn law_existing_users_are_deleted(cfg: Config, user: Seq<char>)
    ensures
        finishes(cfg, cleanup_iam_user_spec(user), user_goes(user)),
{
    broadcast use group_holds;

    let q = SweepQuestionView::UserGate { user };
    user_parts(cfg, user);
    let kind = user_emptied(user);
    assert forall|reply: ReplyView| reply.ok implies finishes(
        cfg,
        #[trigger] sweep::answer_spec(cfg, q, reply),
        kind,
    ) by {
        let s = sweep::answer_spec(cfg, q, reply);
        let keys = of_user("list-access-keys"@, user, "AccessKeyMetadata[].AccessKeyId"@);
        let inline = of_user("list-user-policies"@, user, "PolicyNames[]"@);
        let login = deletes_of_user("delete-login-profile"@, user);
        let last = deletes_of_user("delete-user"@, user);
        assert(holds(cfg, s, answered(keys, for_listed(deletes_key(user)))));
        assert(holds(cfg, s, answered(inline, for_listed(deletes_user_inline(user)))));
        assert(step_of(login)(s.steps[1]));
        steps_perform(cfg, s, login);
        assert(step_of(last)(s.steps.last()));
        steps_perform(cfg, s, last);
        assert forall|replies: Seq<ReplyView>|
            (#[trigger] run(cfg, s.steps, replies)).left is Some implies kind(
            run(cfg, s.steps, replies).events,
        ) by {
            assert(performing(login)(run(cfg, s.steps, replies).events));
            assert(performing(last)(run(cfg, s.steps, replies).events));
        }
    }
    gate_is_done(cfg, q, kind);
}

/// For every sweep that comes to its end: each user that the repository names as global goes where it
/// is there.
pub proof fn law_global_users_are_deleted(cfg: Config, i: int, replies: Seq<ReplyView>)
    requires
        0 <= i < cfg.repo.teardown.global_iam_users@.len(),
        run(cfg, sweep_spec(cfg).steps, replies).left is Some,
    ensures
        has_stretch(
            run(cfg, sweep_spec(cfg).steps, replies).events,
            user_goes(cfg.repo.teardown.global_iam_users@[i]@),
        ),
{
    broadcast use group_holds;

    let user = cfg.repo.teardown.global_iam_users@[i]@;
    let users = texts(cfg.repo.teardown.global_iam_users@);
    let one = |item: Seq<char>| cleanup_iam_user_spec(item);
    let kind = user_goes(user);
    assert(users[i] == user);
    law_existing_users_are_deleted(cfg, user);
    holds_whole(cfg, one(user), kind);
    holds_each(cfg, users, one, kind, user);
    assert(holds(cfg, sweep_spec(cfg), kind));
}

} // verus!
