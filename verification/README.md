# restate_operator

The decisions of a Kubernetes operator for [Restate](https://restate.dev), as a library whose
behaviour is stated in contracts and proved by Verus, and the operator around it.

## Layout

- `src/` is the verified library. It takes plain values and gives plain values back: it never talks
  to the apiserver or to Restate.
  - `control`, `readiness`, `predicates`, `ssa`, `error`: what all controllers share. When a resource
    is left alone, when the operator is ready, what counts as a change, whether a server-side apply
    would change anything, and what errors say.
  - `meta`, `manifest`, `component`, `json`, `string_map`, `assoc`, `text`, `time`, `digest`: the data
    that objects are made of.
  - `restatecluster`: the steps that bring a cluster about, its objects, its storage, its network
    policies and its provisioning.
  - `restatedeployment`: versions of a deployment. Their names and objects, their registration with
    Restate, when they may be retired, how a deletion drains, and how often Restate is asked.
  - `restatecloudenvironment`, `restatekafkaintegration`, `restateservice`: the other resources.
- `tests/` runs the compiled library on concrete values.
- `app/` is ordinary Rust: the controllers that watch resources, carry out what the library decides
  and report back, and the definitions of the custom resources.

## How it works together

Where a reconcile alternates between requests and decisions, the library has a step function from a
stage and an event to the next stage and a command (`restatedeployment::reconcile::step`,
`restatedeployment::knative_reconcile::knative_step`, `restatecluster::reconcile::cluster_step`). The
controllers run the loop: they carry out the command and hand the event back.

Elsewhere the library gives the whole list of steps (`restatecluster::reconcile::reconcile`,
`restatekafkaintegration::controller::reconcile`), or decides on one version at a time
(`restatedeployment::retirement::CleanupPass`).

## What is taken on trust

A few functions call other crates. Their contracts are believed, and their doc comments say what is
claimed: RFC 3339 texts (chrono), addresses (url), SHA-256 digests (sha2), FNV hashes (fnv), label
selectors as text (kube), a flag of a TOML document (toml), and, of the standard library,
`String::push` and the random keys of a hasher, of which nothing is claimed.
