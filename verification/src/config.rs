//! Operator configuration, read at startup from the mounted config file.

use vstd::prelude::*;

verus! {

/// The configuration of the operator.
pub struct Config {
    /// Watch ImageSyncs in every namespace.
    pub cluster_scope: bool,
    /// Namespaces to watch when not cluster-scoped.
    pub watched_namespaces: Vec<String>,
    pub skopeo: SkopeoConfig,
}

/// Global settings of the skopeo containers that run the syncs.
pub struct SkopeoConfig {
    pub image: String,
    pub image_pull_policy: String,
    /// PEM bundle appended to the container's trusted certificates.
    pub ca_trust_bundle: Option<String>,
}

/// Which ImageSyncs the operator watches.
pub enum WatchScope {
    /// ImageSyncs of every namespace.
    Cluster,
    /// ImageSyncs of these namespaces, one watcher each.
    Namespaces(Vec<String>),
}

/// The namespaces watched when not cluster-scoped: the configured ones when
/// they include the operator's own namespace, that namespace alone otherwise.
pub open spec fn watched_namespaces_spec(watched: Seq<Seq<char>>, own: Seq<char>) -> Seq<Seq<char>> {
    if watched.contains(own) {
        watched
    } else {
        seq![own]
    }
}

/// Whether `names` holds `name`.
fn contains_name(names: &Vec<String>, name: &String) -> (r: bool)
    ensures
        r == names.deep_view().contains(name@),
{
    let mut i: usize = 0;
    while i < names.len()
        invariant
            i <= names@.len(),
            forall|k: int| 0 <= k < i ==> names.deep_view()[k] != name@,
        decreases names@.len() - i,
    {
        if names[i] == *name {
            assert(names.deep_view()[i as int] == name@);
            return true;
        }
        i = i + 1;
    }
    assert(!names.deep_view().contains(name@));
    false
}

/// A copy of a list of strings.
fn copy_names(names: &Vec<String>) -> (r: Vec<String>)
    ensures
        r.deep_view() == names.deep_view(),
{
    let mut r: Vec<String> = Vec::new();
    let mut i: usize = 0;
    while i < names.len()
        invariant
            i <= names@.len(),
            r.deep_view() == names.deep_view().take(i as int),
        decreases names@.len() - i,
    {
        r.push(names[i].clone());
        assert(names.deep_view().take(i + 1) =~= names.deep_view().take(i as int).push(
            names[i as int]@,
        ));
        assert(r.deep_view() =~= names.deep_view().take(i + 1));
        i = i + 1;
    }
    assert(names.deep_view().take(i as int) =~= names.deep_view());
    r
}

/// The ImageSyncs the operator watches, given the namespace it runs in.
pub fn watch_scope(config: &Config, own_namespace: &String) -> (r: WatchScope)
    ensures
        config.cluster_scope ==> r is Cluster,
        !config.cluster_scope ==> (r matches WatchScope::Namespaces(ns) && ns.deep_view()
            == watched_namespaces_spec(config.watched_namespaces.deep_view(), own_namespace@)),
{
    if config.cluster_scope {
        WatchScope::Cluster
    } else if contains_name(&config.watched_namespaces, own_namespace) {
        WatchScope::Namespaces(copy_names(&config.watched_namespaces))
    } else {
        let mut ns: Vec<String> = Vec::new();
        ns.push(own_namespace.clone());
        assert(ns.deep_view() =~= seq![own_namespace@]);
        WatchScope::Namespaces(ns)
    }
}

} // verus!
