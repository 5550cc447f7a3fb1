//! What is read out of texts: durations, repositories, ports, keys and endpoints; and what stands in
//! the configuration of the kind cluster.
use vstd::prelude::*;

use crate::aws::mgmt_region_spec;
use crate::bootstrap;
use crate::checks::{
    capd_recorded_endpoint_spec, duration_parts, extract_age_pubkey_spec,
    extract_workload_port_spec, parse_duration_seconds_spec, parse_github_repo_spec,
    render_kind_config_spec,
};
use crate::number::{decimal_spec, is_digit_spec, number_spec};
use crate::script::{ActionView, StepView};
use crate::settings::Config;
use crate::text::{
    after_last_spec, contains_spec, ends_with_spec, is_char, is_space_spec, join_spec, lines_spec,
    split_once_spec, split_spec, starts_with_spec, strip_return, strip_suffix_spec, trim_spec,
    trim_suffixes_spec,
};
use crate::text_laws::{
    decimal_reads_back, has_none, law_contains, law_lines, law_trim, law_white_space,
    pieces_are_cut, plain_is_whole,
};

verus! {

// ---------------------------------------------------------------------------------------------
// Durations
// ---------------------------------------------------------------------------------------------
proof fn decimal_is_plain(n: int)
    requires
        0 <= n,
    ensures
        decimal_spec(n).len() > 0,
        forall|i: int|
            #![trigger decimal_spec(n)[i]]
            0 <= i < decimal_spec(n).len() ==> is_digit_spec(decimal_spec(n)[i]) && !is_space_spec(
                decimal_spec(n)[i],
            ),
{
    decimal_reads_back(n);
    assert forall|i: int|
        #![trigger decimal_spec(n)[i]]
        0 <= i < decimal_spec(n).len() implies is_digit_spec(decimal_spec(n)[i]) && !is_space_spec(
        decimal_spec(n)[i],
    ) by {
        assert(is_digit_spec(decimal_spec(n)[i]));
        law_white_space(decimal_spec(n)[i]);
    }
}

/// A duration is a number of hours, of minutes or of seconds, by the letter after it, and of seconds
/// where there is none; as long as the seconds can be counted.
pub proof fn law_durations(n: int)
    requires
        0 <= n,
    ensures
        n <= u64::MAX ==> parse_duration_seconds_spec(decimal_spec(n)) == Ok::<
            int,
            crate::failure::FailureView,
        >(n),
        n <= u64::MAX ==> parse_duration_seconds_spec(decimal_spec(n).push('s')) == Ok::<
            int,
            crate::failure::FailureView,
        >(n),
        n * 60 <= u64::MAX ==> parse_duration_seconds_spec(decimal_spec(n).push('m')) == Ok::<
            int,
            crate::failure::FailureView,
        >(n * 60),
        n * 3600 <= u64::MAX ==> parse_duration_seconds_spec(decimal_spec(n).push('h')) == Ok::<
            int,
            crate::failure::FailureView,
        >(n * 3600),
        n * 60 > u64::MAX ==> parse_duration_seconds_spec(decimal_spec(n).push('m')) is Err,
        n * 3600 > u64::MAX ==> parse_duration_seconds_spec(decimal_spec(n).push('h')) is Err,
{
    reveal_strlit("h");
    reveal_strlit("m");
    reveal_strlit("s");
    let d = decimal_spec(n);
    decimal_is_plain(n);
    decimal_reads_back(n);
    assert(!is_space_spec(d[0]) && !is_space_spec(d[d.len() - 1]));
    assert(is_digit_spec(d[d.len() - 1]));
    law_trim(' ', d);
    last_letter(d, "h"@);
    last_letter(d, "m"@);
    last_letter(d, "s"@);
    assert forall|c: char| c == 'h' || c == 'm' || c == 's' implies trim_spec(#[trigger] d.push(c))
        == d.push(c) by {
        law_white_space(c);
        law_trim(' ', d.push(c));
        assert(d.push(c)[0] == d[0]);
    }
    assert forall|c: char| c == 'h' || c == 'm' || c == 's' implies strip_suffix_spec(
        #[trigger] d.push(c),
        seq![c],
    ) == Some(d) by {
        last_letter(d.push(c), seq![c]);
        assert(d.push(c).take(d.len() as int) =~= d);
    }
    assert("h"@ =~= seq!['h']);
    assert("m"@ =~= seq!['m']);
    assert("s"@ =~= seq!['s']);
    last_letter(d.push('m'), "h"@);
    last_letter(d.push('s'), "h"@);
    last_letter(d.push('s'), "m"@);
    assert(duration_parts(d) == (d, 1int));
    assert(duration_parts(d.push('s')) == (d, 1int));
    assert(number_spec(d) * 1 == n);
}

proof fn last_letter(s: Seq<char>, letter: Seq<char>)
    requires
        s.len() > 0,
        letter.len() == 1,
    ensures
        ends_with_spec(s, letter) <==> s.last() == letter[0],
{
    let end = s.subrange(s.len() - 1, s.len() as int);
    if s.last() == letter[0] {
        assert(end =~= letter);
    }
    assert(end[0] == s.last());
}

// ---------------------------------------------------------------------------------------------
// Repositories
// ---------------------------------------------------------------------------------------------
proof fn suffix_goes(s: Seq<char>, part: Seq<char>)
    requires
        part.len() > 0,
    ensures
        trim_suffixes_spec(s + part, part) == trim_suffixes_spec(s, part),
{
    let all = s + part;
    assert(all.subrange(s.len() as int, all.len() as int) =~= part);
    assert(all.take(s.len() as int) =~= s);
}

proof fn cut_at_slash(before: Seq<char>, after: Seq<char>)
    requires
        has_none(before, is_char('/')),
    ensures
        split_once_spec(before.push('/') + after, '/') == Some((before, after)),
        split_once_spec(before, '/') is None,
    decreases before.len(),
{
    let all = before.push('/') + after;
    if before.len() == 0 {
        assert(all.skip(1) =~= after);
        assert(before =~= Seq::<char>::empty());
    } else {
        let later = before.skip(1);
        assert(!is_char('/')(before[0]));
        assert(has_none(later, is_char('/'))) by {
            assert forall|i: int| 0 <= i < later.len() implies !is_char('/')(#[trigger] later[i]) by {
                assert(later[i] == before[i + 1]);
            }
        }
        cut_at_slash(later, after);
        assert(all.skip(1) =~= later.push('/') + after);
        assert(seq![all[0]] + later =~= before);
    }
}

/// The repository of a GitHub URL is its owner and its name; a `.git` and a slash after them do not
/// count.
pub proof fn law_repositories(owner: Seq<char>, name: Seq<char>)
    requires
        owner.len() > 0,
        name.len() > 0,
        has_none(owner, is_char('/')),
        has_none(name, is_char('/')),
        !ends_with_spec(owner.push('/') + name, ".git"@),
    ensures
        ({
            let repo = owner.push('/') + name;
            let url = "https://github.com/"@ + repo;
            &&& parse_github_repo_spec(url) == Some(repo)
            &&& parse_github_repo_spec(url + "/"@) == Some(repo)
            &&& parse_github_repo_spec(url + ".git"@) == Some(repo)
            &&& parse_github_repo_spec(url + ".git"@ + "/"@) == Some(repo)
        }),
{
    reveal_strlit(".git");
    reveal_strlit("/");
    let repo = owner.push('/') + name;
    let host = "https://github.com/"@;
    let url = host + repo;
    assert(!is_char('/')(name[name.len() - 1]));
    last_letter(repo, "/"@);
    assert(repo.last() == name.last());
    let dotted = repo + ".git"@;
    assert(dotted.last() == 't');
    last_letter(dotted, "/"@);
    suffix_goes(repo, ".git"@);
    suffix_goes(repo, "/"@);
    suffix_goes(dotted, "/"@);
    cut_at_slash(owner, name);
    cut_at_slash(name, Seq::empty());
    assert forall|rest: Seq<char>| starts_with_spec(#[trigger] (host + rest), host) && (host
        + rest).skip(host.len() as int) == rest by {
        law_contains(Seq::empty(), host, rest);
        assert((host + rest).skip(host.len() as int) =~= rest);
    }
    assert(url + "/"@ =~= host + (repo + "/"@));
    assert(url + ".git"@ =~= host + dotted);
    assert(url + ".git"@ + "/"@ =~= host + (dotted + "/"@));
}

/// Only a URL of GitHub over HTTPS has a repository.
pub proof fn law_only_github_has_repositories(url: Seq<char>)
    ensures
        parse_github_repo_spec(url) is Some ==> starts_with_spec(url, "https://github.com/"@),
{
}

// ---------------------------------------------------------------------------------------------
// Ports
// ---------------------------------------------------------------------------------------------
/// A published port is the number after the last colon of the first line.
pub proof fn law_published_ports(host: Seq<char>, port: int, rest: Seq<char>)
    requires
        0 <= port,
        has_none(host, is_char('\n')),
    ensures
        extract_workload_port_spec(host.push(':') + decimal_spec(port).push('\n') + rest) == Some(
            decimal_spec(port),
        ),
        extract_workload_port_spec(host.push(':') + decimal_spec(port)) == Some(
            decimal_spec(port),
        ),
{
    let d = decimal_spec(port);
    let line = host.push(':') + d;
    decimal_is_plain(port);
    decimal_reads_back(port);
    assert(has_none(line, is_char('\n'))) by {
        assert forall|i: int| 0 <= i < line.len() implies !is_char('\n')(#[trigger] line[i]) by {
            if i < host.len() {
                assert(line[i] == host[i]);
            } else if i > host.len() {
                assert(line[i] == d[i - host.len() - 1]);
            }
        }
    }
    assert(has_none(d, is_char(':'))) by {
        assert forall|i: int| 0 <= i < d.len() implies !is_char(':')(#[trigger] d[i]) by {
            assert(is_digit_spec(d[i]));
        }
    }
    law_lines(line, rest);
    assert(is_digit_spec(d[d.len() - 1]));
    assert(line.last() == d.last());
    assert(strip_return(line) == line);
    assert(line.push('\n') + rest =~= host.push(':') + d.push('\n') + rest);
    plain_is_whole(d, is_char(':'));
    pieces_are_cut(host, ':', d, is_char(':'));
    assert(after_last_spec(line, ':') == d);
    assert(!is_space_spec(d[0]) && !is_space_spec(d[d.len() - 1]));
    law_trim(' ', d);
    assert(lines_spec(line.push('\n') + rest)[0] == line);
}

// ---------------------------------------------------------------------------------------------
// Keys and endpoints
// ---------------------------------------------------------------------------------------------
/// The public key of an age key file is what follows `# public key: ` in the first line that starts
/// so: a line before it does not count.
pub proof fn law_public_keys(line: Seq<char>, key: Seq<char>, rest: Seq<char>)
    requires
        has_none(line, is_char('\n')),
        has_none(key, is_char('\n')),
        key.len() > 0,
        !is_space_spec(key[0]),
        !is_space_spec(key.last()),
    ensures
        extract_age_pubkey_spec("# public key: "@ + key.push('\n') + rest) == Some(key),
        !starts_with_spec(strip_return(line), "# public key: "@) ==> extract_age_pubkey_spec(
            line.push('\n') + rest,
        ) == extract_age_pubkey_spec(rest),
{
    let mark = "# public key: "@;
    reveal_strlit("# public key: ");
    let first = mark + key;
    assert(has_none(first, is_char('\n'))) by {
        assert forall|i: int| 0 <= i < first.len() implies !is_char('\n')(#[trigger] first[i]) by {
            if i >= mark.len() {
                assert(first[i] == key[i - mark.len()]);
            }
        }
    }
    law_lines(first, rest);
    law_lines(line, rest);
    assert(first.push('\n') + rest =~= mark + key.push('\n') + rest);
    assert(first.last() == key.last());
    assert(strip_return(first) == first);
    law_contains(Seq::empty(), mark, key);
    assert(first.skip(mark.len() as int) =~= key);
    law_trim(' ', key);
    let lines = lines_spec(first.push('\n') + rest);
    assert(lines[0] == first);
    let others = lines_spec(line.push('\n') + rest);
    assert(others[0] == strip_return(line));
    assert(others.skip(1) =~= lines_spec(rest));
}

/// The endpoint in a kubeconfig is what follows `server: ` in the first line that starts so, whatever
/// white space stands before it: a line before it does not count.
pub proof fn law_recorded_endpoints(
    indent: Seq<char>,
    line: Seq<char>,
    server: Seq<char>,
    rest: Seq<char>,
)
    requires
        forall|i: int| 0 <= i < indent.len() ==> #[trigger] indent[i] == ' ',
        has_none(line, is_char('\n')),
        has_none(server, is_char('\n')),
        server.len() > 0,
        !is_space_spec(server[0]),
        !is_space_spec(server.last()),
    ensures
        capd_recorded_endpoint_spec(indent + "server: "@ + server.push('\n') + rest) == Some(
            server,
        ),
        !starts_with_spec(trim_spec(strip_return(line)), "server: "@)
            ==> capd_recorded_endpoint_spec(line.push('\n') + rest) == capd_recorded_endpoint_spec(
            rest,
        ),
{
    let mark = "server: "@;
    reveal_strlit("server: ");
    let text = mark + server;
    let first = indent + text;
    assert(has_none(first, is_char('\n'))) by {
        assert forall|i: int| 0 <= i < first.len() implies !is_char('\n')(#[trigger] first[i]) by {
            if i < indent.len() {
                assert(first[i] == indent[i]);
            } else if i >= indent.len() + mark.len() {
                assert(first[i] == server[i - indent.len() - mark.len()]);
            } else {
                assert(first[i] == mark[i - indent.len()]);
            }
        }
    }
    law_lines(first, rest);
    law_lines(line, rest);
    assert(first.push('\n') + rest =~= indent + mark + server.push('\n') + rest);
    assert(first.last() == server.last());
    assert(strip_return(first) == first);
    indent_goes(indent, text);
    assert(text[0] == 's');
    assert(text.last() == server.last());
    law_white_space('s');
    law_trim(' ', text);
    law_contains(Seq::empty(), mark, server);
    assert(text.skip(mark.len() as int) =~= server);
    law_trim(' ', server);
    let trimmed = |l: Seq<char>| trim_spec(l);
    let lines = lines_spec(first.push('\n') + rest).map_values(trimmed);
    assert(lines[0] == text);
    let others = lines_spec(line.push('\n') + rest).map_values(trimmed);
    assert(others[0] == trim_spec(strip_return(line)));
    assert(others.skip(1) =~= lines_spec(rest).map_values(trimmed));
}

proof fn indent_goes(indent: Seq<char>, text: Seq<char>)
    requires
        forall|i: int| 0 <= i < indent.len() ==> #[trigger] indent[i] == ' ',
    ensures
        trim_spec(indent + text) == trim_spec(text),
    decreases indent.len(),
{
    if indent.len() == 0 {
        assert(indent + text =~= text);
    } else {
        let later = indent.skip(1);
        assert forall|i: int| 0 <= i < later.len() implies #[trigger] later[i] == ' ' by {
            assert(later[i] == indent[i + 1]);
        }
        indent_goes(later, text);
        law_trim(' ', later + text);
        law_white_space(' ');
        assert(indent[0] == ' ');
        assert(indent + text =~= seq![' '] + (later + text));
    }
}

// ---------------------------------------------------------------------------------------------
// The configuration of the kind cluster
// ---------------------------------------------------------------------------------------------
/// The kind cluster is created from a configuration that mounts the socket of the engine where the
/// controllers look for it; and in the local environment, one in which the published port of the
/// registry leads to the registry.
pub proof fn law_kind_cluster_is_configured(cfg: Config, engine_sock: Seq<char>)
    ensures
        ({
            let step = bootstrap::create_kind_spec(cfg, engine_sock).steps[1];
            let mount = "      - hostPath: "@ + engine_sock
                + "\n        containerPath: /var/run/docker.sock\n"@;
            let mirror = "registry.mirrors.\"localhost:"@ + decimal_spec(cfg.registry_port as int)
                + "\"]\n      endpoint = [\"http://"@ + cfg.repo.bootstrap.registry_name@
                + ":5000\"]\n"@;
            match step {
                StepView::Do(ActionView::Feed(_, config), _) => {
                    &&& ends_with_spec(config, mount)
                    &&& cfg.profile@ == "local-host"@ ==> contains_spec(config, mirror)
                },
                _ => false,
            }
        }),
{
    let local = cfg.profile@ == "local-host"@;
    let config = render_kind_config_spec(
        local,
        cfg.registry_port as int,
        engine_sock,
        cfg.repo.bootstrap.registry_name@,
    );
    let mount = "      - hostPath: "@ + engine_sock
        + "\n        containerPath: /var/run/docker.sock\n"@;
    reveal_strlit("nodes:\n  - role: control-plane\n    extraMounts:\n      - hostPath: ");
    reveal_strlit("      - hostPath: ");
    let nodes = "nodes:\n  - role: control-plane\n    extraMounts:\n      - hostPath: "@;
    assert(nodes =~= nodes.take(nodes.len() - 18) + "      - hostPath: "@);
    let n = config.len() - mount.len();
    assert(config.subrange(n, config.len() as int) =~= mount);
    if local {
        let patch = "containerdConfigPatches:\n  - |-\n    [plugins.\"io.containerd.grpc.v1.cri\".registry.mirrors.\"localhost:"@;
        let mark = "registry.mirrors.\"localhost:"@;
        reveal_strlit(
            "containerdConfigPatches:\n  - |-\n    [plugins.\"io.containerd.grpc.v1.cri\".registry.mirrors.\"localhost:",
        );
        reveal_strlit("registry.mirrors.\"localhost:");
        let m = patch.len() - mark.len();
        assert(patch =~= patch.take(m) + mark);
        let head = "kind: Cluster\napiVersion: kind.x-k8s.io/v1alpha4\n"@;
        let mirror = mark + decimal_spec(cfg.registry_port as int) + "\"]\n      endpoint = [\"http://"@
            + cfg.repo.bootstrap.registry_name@ + ":5000\"]\n"@;
        let tail = nodes + engine_sock + "\n        containerPath: /var/run/docker.sock\n"@;
        assert(config =~= (head + patch.take(m)) + mirror + tail);
        law_contains(head + patch.take(m), mirror, tail);
    }
}

// ---------------------------------------------------------------------------------------------
// Regions
// ---------------------------------------------------------------------------------------------
/// The region in the name of a management cluster is its first three parts.
pub proof fn law_management_region(a: Seq<char>, b: Seq<char>, c: Seq<char>, rest: Seq<char>)
    requires
        has_none(a, is_char('-')),
        has_none(b, is_char('-')),
        has_none(c, is_char('-')),
    ensures
        mgmt_region_spec(a.push('-') + (b.push('-') + (c.push('-') + rest))) == a.push('-')
            + b.push('-') + c,
{
    reveal_strlit("-");
    let cut = is_char('-');
    plain_is_whole(a, cut);
    plain_is_whole(b, cut);
    plain_is_whole(c, cut);
    pieces_are_cut(c, '-', rest, cut);
    pieces_are_cut(b, '-', c.push('-') + rest, cut);
    pieces_are_cut(a, '-', b.push('-') + (c.push('-') + rest), cut);
    let all = a.push('-') + (b.push('-') + (c.push('-') + rest));
    let parts = split_spec(all, '-');
    assert(parts =~= seq![a, b, c] + split_spec(rest, '-'));
    crate::text_laws::pieces_are_some(rest, cut);
    assert(parts.take(3) =~= seq![a, b, c]);
    reveal_with_fuel(join_spec, 3);
    assert(seq![a, b, c].drop_last() =~= seq![a, b]);
    assert(seq![a, b].drop_last() =~= seq![a]);
    assert(join_spec(seq![a, b, c], "-"@) =~= a.push('-') + b.push('-') + c);
}

} // verus!
