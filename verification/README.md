# krops-bootstrap

Brings up a Kubernetes management cluster that manages itself, and takes it down again: the
bootstrap in a kind cluster, the pivot of the Cluster API inventory into the management cluster,
the teardown with its sweep of AWS, and the discovery of orphaned AWS resources.

## Layout

- `src/` is the library, verified with Verus. It decides everything and performs nothing: a run is
  a script of lines to print, actions to perform and questions whose replies decide what comes next.
  - `bootstrap`, `pivot`, `preflight`, `engine`, `teardown`, `sweep`: the scripts and their questions
  - `script`, `question`, `session`, `failure`: what a script is, how it runs one move at a time, and
    how it fails
  - `orphans`, `report`: the discovery of orphans, and its report
  - `config`, `settings`, `context`: `bootstrap.toml`, the environment variables, what a run knows
  - `checks`, `kube`, `aws`, `commands`, `manifest`: rules on texts, clusters, names and manifests
  - `text`, `number`, `calendar`, `json`: strings, numbers, dates and JSON
  - `runs` and the modules that end in `_laws`: what holds of every run, whatever the replies are
- `app/` is the program around it: the command line, the config file, processes, HTTP and files.
- `tests/` runs the library against made-up replies.

## What is proved

Every function states its result exactly. Beyond that, the laws say of whole runs, for all replies:
the kind cluster is created only where there is none, and deleted only after the inventory has been
moved and the management cluster owns Clusters; charts are installed only after the task of the kind
cluster; the inventory is moved only after the manifests and secrets of the pivot have been applied
and Flux has been suspended; a teardown suspends Flux before it deletes a cluster, and removes a
controller host only after the workload clusters have been found gone; an unknown state is never read
as absence; the parts of a VPC go in the order of their dependencies; the sweep stays in its regions
and never fails a run; the discovery only reads; a secret never shows on a command line.

What `serde_json`, `indexmap` and a few functions of the standard library do is taken on trust, in
the contracts of the wrappers in `json`, `config` and `text`.
