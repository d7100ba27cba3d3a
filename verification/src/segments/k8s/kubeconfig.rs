//! How to reach a Kubernetes cluster, as a kubeconfig file says it.
//!
//! A file may hold several documents, and what they say is merged: whoever
//! says a thing first is heard, and nothing that was said is changed later.

use vstd::prelude::*;
use std::collections::HashMap;
use crate::segments::k8s::kubeconfig_error::ConfigError;
use crate::text::text_of;

verus! {

/// `serde_json::Value`: the value of an extension, which nothing here looks
/// into.
#[verifier::external_type_specification]
#[verifier::external_body]
pub struct ExJsonValue(serde_json::Value);

/// `serde_json::Value::clone`. Nothing is said of the copy, as nothing here
/// looks into a value.
pub assume_specification[ <serde_json::Value as Clone>::clone ](
    value: &serde_json::Value,
) -> (copy: serde_json::Value)
;

/// Preferences of the command line client.
#[derive(Clone, Debug)]
pub struct Preferences {
    pub colors: Option<bool>,
    pub extensions: Option<Vec<NamedExtension>>,
}

/// An extension under its name.
#[derive(Clone, Debug)]
pub struct NamedExtension {
    pub name: String,
    pub extension: serde_json::Value,
}

/// A cluster under its name.
#[derive(Clone, Debug)]
pub struct NamedCluster {
    pub name: String,
    pub cluster: Cluster,
}

/// How to reach a cluster.
#[derive(Clone, Debug)]
pub struct Cluster {
    /// The address of the cluster, `https://hostname:port`.
    pub server: String,
    pub insecure_skip_tls_verify: Option<bool>,
    /// The path of the certificate authority's certificate.
    pub certificate_authority: Option<String>,
    /// The certificate authority's certificates themselves, PEM-encoded.
    pub certificate_authority_data: Option<String>,
    pub proxy_url: Option<String>,
    pub extensions: Option<Vec<NamedExtension>>,
}

/// A user under its name.
#[derive(Clone, Debug)]
pub struct NamedAuthInfo {
    pub name: String,
    pub auth_info: AuthInfo,
}

/// How a user proves to a cluster who they are.
#[derive(Clone, Debug, Default)]
pub struct AuthInfo {
    pub username: Option<String>,
    pub password: Option<String>,
    pub token: Option<String>,
    /// The path of a file that holds a token.
    pub token_file: Option<String>,
    /// The path of the client's certificate.
    pub client_certificate: Option<String>,
    pub client_certificate_data: Option<String>,
    /// The path of the client's key.
    pub client_key: Option<String>,
    pub client_key_data: Option<String>,
    /// The user to act as.
    pub impersonate: Option<String>,
    /// The groups to act as.
    pub impersonate_groups: Option<Vec<String>>,
    pub auth_provider: Option<AuthProviderConfig>,
    /// A command that hands out the credentials.
    pub exec_config: Option<ExecConfig>,
}

/// An authentication plugin of a cloud provider.
#[derive(Clone, Debug)]
pub struct AuthProviderConfig {
    pub name: String,
    pub config: HashMap<String, String>,
}

/// A command that hands out credentials.
#[derive(Clone, Debug)]
pub struct ExecConfig {
    pub api_version: Option<String>,
    pub command: String,
    pub args: Option<Vec<String>>,
    pub env: Option<Vec<HashMap<String, String>>>,
}

/// A context under its name.
#[derive(Clone, Debug)]
pub struct NamedContext {
    pub name: String,
    pub context: Context,
}

/// A cluster together with the user to reach it as.
#[derive(Clone, Debug)]
pub struct Context {
    /// The name of the cluster.
    pub cluster: String,
    /// The name of the user.
    pub user: String,
    pub namespace: Option<String>,
    pub extensions: Option<Vec<NamedExtension>>,
}

/// What a kubeconfig says: clusters, users, contexts that pair them, and the
/// context that is current.
#[derive(Clone, Debug, Default)]
pub struct Kubeconfig {
    pub preferences: Option<Preferences>,
    pub clusters: Vec<NamedCluster>,
    pub auth_infos: Vec<NamedAuthInfo>,
    pub contexts: Vec<NamedContext>,
    pub current_context: Option<String>,
    pub extensions: Option<Vec<NamedExtension>>,
    pub kind: Option<String>,
    pub api_version: Option<String>,
}

/// A kubeconfig as a value: its lists as sequences.
#[verifier::ext_equal]
pub struct KubeconfigView {
    pub preferences: Option<Preferences>,
    pub clusters: Seq<NamedCluster>,
    pub auth_infos: Seq<NamedAuthInfo>,
    pub contexts: Seq<NamedContext>,
    pub current_context: Option<String>,
    pub extensions: Option<Vec<NamedExtension>>,
    pub kind: Option<String>,
    pub api_version: Option<String>,
}

impl View for Kubeconfig {
    type V = KubeconfigView;

    open spec fn view(&self) -> KubeconfigView {
        KubeconfigView {
            preferences: self.preferences,
            clusters: self.clusters@,
            auth_infos: self.auth_infos@,
            contexts: self.contexts@,
            current_context: self.current_context,
            extensions: self.extensions,
            kind: self.kind,
            api_version: self.api_version,
        }
    }
}

/// Something that goes by a name.
pub trait Named {
    /// The name, as text.
    spec fn name_of(&self) -> Seq<char>;

    /// The name.
    fn name(&self) -> (name: &String)
        ensures
            name@ == self.name_of(),
    ;
}

impl Named for NamedCluster {
    open spec fn name_of(&self) -> Seq<char> {
        self.name@
    }

    fn name(&self) -> (name: &String) {
        &self.name
    }
}

impl Named for NamedAuthInfo {
    open spec fn name_of(&self) -> Seq<char> {
        self.name@
    }

    fn name(&self) -> (name: &String) {
        &self.name
    }
}

impl Named for NamedContext {
    open spec fn name_of(&self) -> Seq<char> {
        self.name@
    }

    fn name(&self) -> (name: &String) {
        &self.name
    }
}

/// Whether one of `items` goes by `name`.
pub open spec fn has_name<T: Named>(items: Seq<T>, name: Seq<char>) -> bool {
    exists|i: int| 0 <= i < items.len() && (#[trigger] items[i]).name_of() == name
}

/// Whether the item at `place` is the first of `items` that goes by `name`.
pub open spec fn is_first_named<T: Named>(items: Seq<T>, name: Seq<char>, place: int) -> bool {
    &&& 0 <= place < items.len()
    &&& items[place].name_of() == name
    &&& forall|j: int| 0 <= j < place ==> (#[trigger] items[j]).name_of() != name
}

/// The place of the first of `items` that goes by `name`.
pub open spec fn first_named<T: Named>(items: Seq<T>, name: Seq<char>) -> Option<int> {
    if has_name(items, name) {
        Some(choose|place: int| is_first_named(items, name, place))
    } else {
        None
    }
}

/// There is one first item of a name at most.
pub proof fn first_named_is_unique<T: Named>(items: Seq<T>, name: Seq<char>, place: int)
    requires
        is_first_named(items, name, place),
    ensures
        first_named(items, name) == Some(place),
{
    assert(has_name(items, name));
    let chosen = choose|place: int| is_first_named(items, name, place);
    assert(is_first_named(items, name, chosen));
    if chosen < place {
        assert(items[chosen].name_of() != name);
    } else if place < chosen {
        assert(items[place].name_of() != name);
    }
}

/// Finds the first of `items` that goes by `name`.
pub fn find_named<T: Named>(items: &Vec<T>, name: &String) -> (found: Option<usize>)
    ensures
        first_named(items@, name@) == match found {
            Some(place) => Some(place as int),
            None => None,
        },
        found matches Some(place) ==> is_first_named(items@, name@, place as int),
{
    let mut i: usize = 0;
    while i < items.len()
        invariant
            i <= items.len(),
            forall|j: int| 0 <= j < i ==> (#[trigger] items@[j]).name_of() != name@,
        decreases items.len() - i,
    {
        if *items[i].name() == *name {
            proof {
                first_named_is_unique(items@, name@, i as int);
            }
            return Some(i);
        }
        i += 1;
    }
    None
}

/// Those of `next` that go by a name that none of `base` goes by, in their
/// order. Two of `next` with one name that is new are both among them.
pub open spec fn new_named<T: Named>(base: Seq<T>, next: Seq<T>) -> Seq<T>
    decreases next.len(),
{
    if next.len() == 0 {
        Seq::empty()
    } else if has_name(base, next.last().name_of()) {
        new_named(base, next.drop_last())
    } else {
        new_named(base, next.drop_last()).push(next.last())
    }
}

/// Whether one of the first `known` of `items` goes by the name of `item`.
fn is_known<T: Named>(items: &Vec<T>, known: usize, item: &T) -> (r: bool)
    requires
        known <= items@.len(),
    ensures
        r == has_name(items@.take(known as int), item.name_of()),
{
    let mut i: usize = 0;
    while i < known
        invariant
            i <= known <= items@.len(),
            forall|j: int| 0 <= j < i ==> (#[trigger] items@[j]).name_of() != item.name_of(),
        decreases known - i,
    {
        if *items[i].name() == *item.name() {
            assert(items@.take(known as int)[i as int].name_of() == item.name_of());
            return true;
        }
        i += 1;
    }
    assert forall|j: int| 0 <= j < known implies (#[trigger] items@.take(
        known as int,
    )[j]).name_of() != item.name_of() by {
        assert(items@.take(known as int)[j] == items@[j]);
    }
    false
}

/// Appends to `base` those of `next` whose name none of `base` has.
pub fn append_new_named<T: Named>(base: &mut Vec<T>, next: Vec<T>)
    ensures
        final(base)@ == old(base)@ + new_named(old(base)@, next@),
{
    let ghost before = base@;
    let known: usize = base.len();
    for item in it: next.into_iter()
        invariant
            it.seq() == next@,
            known == before.len(),
            base@ == before + new_named(before, next@.take(it.index() as int)),
    {
        proof {
            let taken = it.index() as int;
            assert(next@.take(taken + 1).drop_last() =~= next@.take(taken));
            assert(next@.take(taken + 1).last() == item);
            assert(base@.take(known as int) =~= before);
        }
        if !is_known(base, known, &item) {
            base.push(item);
        }
    }
    assert(next@.take(next@.len() as int) =~= next@);
}

/// The first of two that is there.
pub open spec fn first_of<T>(first: Option<T>, second: Option<T>) -> Option<T> {
    if first is Some {
        first
    } else {
        second
    }
}

/// Whether both are there and differ.
pub open spec fn differ(first: Option<String>, second: Option<String>) -> bool {
    first matches Some(a) && second matches Some(b) && a@ != b@
}

fn either<T>(first: Option<T>, second: Option<T>) -> (r: Option<T>)
    ensures
        r == first_of(first, second),
{
    match first {
        Some(value) => Some(value),
        None => second,
    }
}

fn both_and_differ(first: &Option<String>, second: &Option<String>) -> (r: bool)
    ensures
        r == differ(*first, *second),
{
    match first {
        Some(a) => match second {
            Some(b) => !(*a == *b),
            None => false,
        },
        None => false,
    }
}

impl KubeconfigView {
    /// What comes of merging `next` into `self`: what `self` says stands,
    /// and `next` is heard where `self` says nothing. Of clusters, users and
    /// contexts, `next` adds those whose name is new. Two documents that both
    /// say what kind they are of, or of what API version, must agree on it.
    pub open spec fn merged(self, next: KubeconfigView) -> Result<KubeconfigView, ConfigError> {
        if differ(self.kind, next.kind) {
            Err(ConfigError::KindMismatch)
        } else if differ(self.api_version, next.api_version) {
            Err(ConfigError::ApiVersionMismatch)
        } else {
            Ok(
                KubeconfigView {
                    kind: first_of(self.kind, next.kind),
                    api_version: first_of(self.api_version, next.api_version),
                    preferences: first_of(self.preferences, next.preferences),
                    clusters: self.clusters + new_named(self.clusters, next.clusters),
                    auth_infos: self.auth_infos + new_named(self.auth_infos, next.auth_infos),
                    contexts: self.contexts + new_named(self.contexts, next.contexts),
                    current_context: first_of(self.current_context, next.current_context),
                    extensions: first_of(self.extensions, next.extensions),
                },
            )
        }
    }
}

/// A result, with the configuration in it as a value.
pub open spec fn as_value(r: Result<Kubeconfig, ConfigError>) -> Result<
    KubeconfigView,
    ConfigError,
> {
    match r {
        Ok(config) => Ok(config@),
        Err(error) => Err(error),
    }
}

/// The documents of a file, merged one after the other into the first; the
/// first that does not merge ends it.
pub open spec fn merged_all(documents: Seq<KubeconfigView>) -> Result<KubeconfigView, ConfigError>
    recommends
        documents.len() > 0,
    decreases documents.len(),
{
    if documents.len() <= 1 {
        Ok(documents[0])
    } else {
        match merged_all(documents.drop_last()) {
            Ok(merged) => merged.merged(documents.last()),
            Err(error) => Err(error),
        }
    }
}

impl Kubeconfig {
    /// Merges `next` into `self`.
    pub fn merge(self, next: Kubeconfig) -> (r: Result<Kubeconfig, ConfigError>)
        ensures
            as_value(r) == self@.merged(next@),
    {
        if both_and_differ(&self.kind, &next.kind) {
            return Err(ConfigError::KindMismatch);
        }
        if both_and_differ(&self.api_version, &next.api_version) {
            return Err(ConfigError::ApiVersionMismatch);
        }
        let mut clusters = self.clusters;
        append_new_named(&mut clusters, next.clusters);
        let mut auth_infos = self.auth_infos;
        append_new_named(&mut auth_infos, next.auth_infos);
        let mut contexts = self.contexts;
        append_new_named(&mut contexts, next.contexts);
        let merged = Kubeconfig {
            kind: either(self.kind, next.kind),
            api_version: either(self.api_version, next.api_version),
            preferences: either(self.preferences, next.preferences),
            clusters,
            auth_infos,
            contexts,
            current_context: either(self.current_context, next.current_context),
            extensions: either(self.extensions, next.extensions),
        };
        assert(self@.merged(next@) matches Ok(expected) && expected =~= merged@);
        Ok(merged)
    }

    /// The address of the cluster of the current context: of the first
    /// context that goes by the name of the current one, and of the first
    /// cluster that goes by the name that this context gives.
    pub open spec fn server_name(&self) -> Result<String, ConfigError> {
        match self.current_context {
            None => Err(ConfigError::CurrentContextNotSet),
            Some(context_name) => match first_named(self.contexts@, context_name@) {
                None => Err(ConfigError::LoadContext { context_name }),
                Some(at) => {
                    let cluster_name = self.contexts@[at].context.cluster;
                    match first_named(self.clusters@, cluster_name@) {
                        None => Err(ConfigError::LoadClusterOfContext { cluster_name }),
                        Some(place) => Ok(self.clusters@[place].cluster.server),
                    }
                },
            },
        }
    }
}

/// Whether `path` does not start at a root, as
/// `std::path::Path::is_relative` tells it.
pub uninterp spec fn relative(path: Seq<char>) -> bool;

/// The path that leads to `file` by way of `dir`, as `std::path::Path::join`
/// puts it together; nothing, where that is no text.
pub uninterp spec fn joined(dir: Seq<char>, file: Seq<char>) -> Option<Seq<char>>;

/// The directory that `path` lies in, as `std::path::Path::parent` gives it;
/// nothing, where the path lies in none.
pub uninterp spec fn parent_of(path: Seq<char>) -> Option<Seq<char>>;

/// `std::path::Path::is_relative`: whether `path` does not start at a root.
#[verifier::external_body]
fn is_relative(path: &str) -> (r: bool)
    ensures
        r == relative(path@),
{
    std::path::Path::new(path).is_relative()
}

/// `std::path::Path::join`: the path that leads to `file` by way of `dir`,
/// where it can be written as text.
#[verifier::external_body]
fn join(dir: &str, file: &str) -> (r: Option<String>)
    ensures
        text_of(r) == joined(dir@, file@),
{
    std::path::Path::new(dir).join(file).to_str().map(str::to_owned)
}

/// `std::path::Path::parent`: the directory that `path` lies in, where it
/// lies in one and that can be written as text.
#[verifier::external_body]
fn parent(path: &str) -> (r: Option<String>)
    ensures
        text_of(r) == parent_of(path@),
{
    std::path::Path::new(path).parent().and_then(|dir| dir.to_str()).map(str::to_owned)
}

/// The path that leads to `file` by way of `dir`; nothing, where `file` needs
/// no directory to start from.
pub open spec fn absolute(dir: Seq<char>, file: Seq<char>) -> Option<Seq<char>> {
    if relative(file) {
        joined(dir, file)
    } else {
        None
    }
}

/// What becomes of a path in a file that lies in `dir`: the path that leads
/// to it by way of `dir`, where there is one, and else the path as it is.
/// Where there was no path there is none.
pub open spec fn resolved(dir: Seq<char>, path: Option<Seq<char>>) -> Option<Seq<char>> {
    match path {
        Some(file) => Some(
            match absolute(dir, file) {
                Some(path) => path,
                None => file,
            },
        ),
        None => None,
    }
}

/// The path that leads to a file by way of a directory, from what is known
/// of the two: whether the path of the file is `relative`, and what the two
/// are when `joined`. A path that is not relative needs no
/// directory to start from, and there is nothing to put in its place.
pub fn absolute_from(relative: bool, joined: Option<String>) -> (r: Option<String>)
    ensures
        r == if relative {
            joined
        } else {
            None::<String>
        },
{
    if relative {
        joined
    } else {
        None
    }
}

/// What becomes of the path `file`: the `absolute` path that leads to it,
/// where there is one, and else the path as it is.
pub fn resolved_from(file: String, absolute: Option<String>) -> (r: String)
    ensures
        r == match absolute {
            Some(path) => path,
            None => file,
        },
{
    match absolute {
        Some(path) => path,
        None => file,
    }
}

/// The path that leads to `file` by way of `dir`; nothing, where `file` needs
/// no directory to start from.
fn to_absolute(dir: &str, file: &str) -> (r: Option<String>)
    ensures
        text_of(r) == absolute(dir@, file@),
{
    absolute_from(is_relative(file), join(dir, file))
}

/// Whether `after` is what has become of the path `before` in a file that
/// lies in `dir`.
pub open spec fn path_resolved(dir: Seq<char>, before: Option<String>, after: Option<String>) -> bool {
    text_of(after) == resolved(dir, text_of(before))
}

fn resolve(dir: &str, path: Option<String>) -> (r: Option<String>)
    ensures
        path_resolved(dir@, path, r),
{
    match path {
        Some(file) => {
            let absolute = to_absolute(dir, file.as_str());
            Some(resolved_from(file, absolute))
        },
        None => None,
    }
}

/// Whether `after` is `before` but for the path of the certificate
/// authority, which is resolved from `dir`.
pub open spec fn cluster_resolved(dir: Seq<char>, before: NamedCluster, after: NamedCluster) -> bool {
    &&& after == NamedCluster {
        cluster: Cluster {
            certificate_authority: after.cluster.certificate_authority,
            ..before.cluster
        },
        ..before
    }
    &&& path_resolved(
        dir,
        before.cluster.certificate_authority,
        after.cluster.certificate_authority,
    )
}

/// Whether `after` is `before` but for the paths of the client's
/// certificate, of its key and of the file with its token, which are
/// resolved from `dir`.
pub open spec fn auth_info_resolved(
    dir: Seq<char>,
    before: NamedAuthInfo,
    after: NamedAuthInfo,
) -> bool {
    &&& after == NamedAuthInfo {
        auth_info: AuthInfo {
            client_certificate: after.auth_info.client_certificate,
            client_key: after.auth_info.client_key,
            token_file: after.auth_info.token_file,
            ..before.auth_info
        },
        ..before
    }
    &&& path_resolved(
        dir,
        before.auth_info.client_certificate,
        after.auth_info.client_certificate,
    )
    &&& path_resolved(dir, before.auth_info.client_key, after.auth_info.client_key)
    &&& path_resolved(dir, before.auth_info.token_file, after.auth_info.token_file)
}

/// Whether `after` is `before` but for the paths in it that lead to files,
/// which are resolved from `dir`.
pub open spec fn paths_resolved(dir: Seq<char>, before: KubeconfigView, after: KubeconfigView) -> bool {
    &&& after.preferences == before.preferences
    &&& after.contexts == before.contexts
    &&& after.current_context == before.current_context
    &&& after.extensions == before.extensions
    &&& after.kind == before.kind
    &&& after.api_version == before.api_version
    &&& after.clusters.len() == before.clusters.len()
    &&& forall|i: int|
        0 <= i < before.clusters.len() ==> cluster_resolved(
            dir,
            #[trigger] before.clusters[i],
            after.clusters[i],
        )
    &&& after.auth_infos.len() == before.auth_infos.len()
    &&& forall|i: int|
        0 <= i < before.auth_infos.len() ==> auth_info_resolved(
            dir,
            #[trigger] before.auth_infos[i],
            after.auth_infos[i],
        )
}

/// Whether `after` is what has become of the document `before` of a file:
/// its paths are resolved from the directory of the file, where the file
/// lies in one.
pub open spec fn document_resolved(
    dir: Option<Seq<char>>,
    before: KubeconfigView,
    after: KubeconfigView,
) -> bool {
    match dir {
        Some(dir) => paths_resolved(dir, before, after),
        None => after == before,
    }
}

fn resolve_clusters(dir: &str, clusters: Vec<NamedCluster>) -> (r: Vec<NamedCluster>)
    ensures
        r@.len() == clusters@.len(),
        forall|i: int|
            0 <= i < clusters@.len() ==> cluster_resolved(dir@, #[trigger] clusters@[i], r@[i]),
{
    let mut out: Vec<NamedCluster> = Vec::new();
    for named in it: clusters.into_iter()
        invariant
            it.seq() == clusters@,
            out@.len() == it.index(),
            forall|i: int|
                0 <= i < out@.len() ==> cluster_resolved(dir@, #[trigger] clusters@[i], out@[i]),
    {
        let cluster = named.cluster;
        let resolved = NamedCluster {
            name: named.name,
            cluster: Cluster {
                server: cluster.server,
                insecure_skip_tls_verify: cluster.insecure_skip_tls_verify,
                certificate_authority: resolve(dir, cluster.certificate_authority),
                certificate_authority_data: cluster.certificate_authority_data,
                proxy_url: cluster.proxy_url,
                extensions: cluster.extensions,
            },
        };
        out.push(resolved);
    }
    out
}

fn resolve_auth_infos(dir: &str, auth_infos: Vec<NamedAuthInfo>) -> (r: Vec<NamedAuthInfo>)
    ensures
        r@.len() == auth_infos@.len(),
        forall|i: int|
            0 <= i < auth_infos@.len() ==> auth_info_resolved(
                dir@,
                #[trigger] auth_infos@[i],
                r@[i],
            ),
{
    let mut out: Vec<NamedAuthInfo> = Vec::new();
    for named in it: auth_infos.into_iter()
        invariant
            it.seq() == auth_infos@,
            out@.len() == it.index(),
            forall|i: int|
                0 <= i < out@.len() ==> auth_info_resolved(
                    dir@,
                    #[trigger] auth_infos@[i],
                    out@[i],
                ),
    {
        let user = named.auth_info;
        let resolved = NamedAuthInfo {
            name: named.name,
            auth_info: AuthInfo {
                username: user.username,
                password: user.password,
                token: user.token,
                token_file: resolve(dir, user.token_file),
                client_certificate: resolve(dir, user.client_certificate),
                client_certificate_data: user.client_certificate_data,
                client_key: resolve(dir, user.client_key),
                client_key_data: user.client_key_data,
                impersonate: user.impersonate,
                impersonate_groups: user.impersonate_groups,
                auth_provider: user.auth_provider,
                exec_config: user.exec_config,
            },
        };
        out.push(resolved);
    }
    out
}

impl Kubeconfig {
    /// Makes the paths in the configuration that lead to files start from
    /// `dir`, where they do not say where they start.
    fn resolve_paths(self, dir: &str) -> (r: Kubeconfig)
        ensures
            paths_resolved(dir@, self@, r@),
    {
        Kubeconfig {
            preferences: self.preferences,
            clusters: resolve_clusters(dir, self.clusters),
            auth_infos: resolve_auth_infos(dir, self.auth_infos),
            contexts: self.contexts,
            current_context: self.current_context,
            extensions: self.extensions,
            kind: self.kind,
            api_version: self.api_version,
        }
    }

    /// The configuration that the file at `path` holds, from the documents
    /// of that file in their order. The paths in each document that lead to
    /// files are made to start from the directory of the file, and the
    /// documents are merged one after the other into the first, up to the
    /// first that does not merge. A file without a document holds no
    /// configuration.
    pub fn read_from(path: &str, documents: Vec<Kubeconfig>) -> (r: Result<Kubeconfig, ConfigError>)
        ensures
            documents@.len() == 0 ==> (r matches Err(ConfigError::EmptyKubeconfig(of)) && of@
                == path@),
            documents@.len() > 0 ==> exists|resolved: Seq<KubeconfigView>|
                {
                    &&& 0 < resolved.len() <= documents@.len()
                    &&& forall|i: int|
                        0 <= i < resolved.len() ==> document_resolved(
                            parent_of(path@),
                            (#[trigger] documents@[i])@,
                            resolved[i],
                        )
                    &&& as_value(r) == merged_all(resolved)
                    &&& r is Ok ==> resolved.len() == documents@.len()
                },
    {
        let dir = parent(path);
        let mut merged_docs: Option<Kubeconfig> = None;
        let ghost mut resolved: Seq<KubeconfigView> = Seq::empty();
        for document in it: documents.into_iter()
            invariant
                it.seq() == documents@,
                text_of(dir) == parent_of(path@),
                resolved.len() == it.index(),
                forall|i: int|
                    0 <= i < resolved.len() ==> document_resolved(
                        parent_of(path@),
                        (#[trigger] documents@[i])@,
                        resolved[i],
                    ),
                it.index() == 0 ==> merged_docs is None,
                it.index() > 0 ==> (merged_docs matches Some(merged) && merged_all(resolved)
                    == Ok::<KubeconfigView, ConfigError>(merged@)),
        {
            let config = match &dir {
                Some(dir) => document.resolve_paths(dir.as_str()),
                None => document,
            };
            let ghost earlier = resolved;
            proof {
                resolved = resolved.push(config@);
                assert(resolved.drop_last() =~= earlier);
                assert(resolved.last() == config@);
            }
            match merged_docs {
                Some(merged) => {
                    match merged.merge(config) {
                        Ok(merged) => {
                            merged_docs = Some(merged);
                        },
                        Err(error) => {
                            return Err(error);
                        },
                    }
                },
                None => {
                    merged_docs = Some(config);
                },
            }
        }
        match merged_docs {
            Some(merged) => Ok(merged),
            None => Err(ConfigError::EmptyKubeconfig(path.to_owned())),
        }
    }
}

/// Once documents have failed to merge, whatever follows them changes
/// nothing.
pub proof fn merged_all_stops_at_the_first_error(
    documents: Seq<KubeconfigView>,
    all: Seq<KubeconfigView>,
)
    requires
        documents.len() > 0,
        documents.is_prefix_of(all),
        merged_all(documents) is Err,
    ensures
        merged_all(all) == merged_all(documents),
    decreases all.len(),
{
    if all.len() > documents.len() {
        assert(documents.is_prefix_of(all.drop_last()));
        merged_all_stops_at_the_first_error(documents, all.drop_last());
    } else {
        assert(all =~= documents);
    }
}

/// Looks up the address of the cluster that the current context of `config`
/// names.
pub fn servername_from_kubeconfig(config: &Kubeconfig) -> (r: Result<String, ConfigError>)
    ensures
        r == config.server_name(),
{
    let context_name = match &config.current_context {
        Some(name) => name,
        None => {
            return Err(ConfigError::CurrentContextNotSet);
        },
    };
    let current_context = match find_named(&config.contexts, context_name) {
        Some(at) => &config.contexts[at].context,
        None => {
            return Err(ConfigError::LoadContext { context_name: context_name.clone() });
        },
    };
    let cluster_name = &current_context.cluster;
    let cluster = match find_named(&config.clusters, cluster_name) {
        Some(place) => &config.clusters[place].cluster,
        None => {
            return Err(ConfigError::LoadClusterOfContext { cluster_name: cluster_name.clone() });
        },
    };
    Ok(cluster.server.clone())
}

} // verus!
