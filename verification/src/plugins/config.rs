//! `config view`: a kubeconfig laid out as one row.

use crate::error::{ConfigError, ConfigErrorView};
use crate::kubectl::Kubectl;
use crate::row::{has_field, Cell, Fields, Row, Value};
use vstd::prelude::*;

verus! {

/// Where a cluster is reached and what vouches for it.
#[derive(Debug, PartialEq)]
pub struct KubeCluster {
    pub certificate_authority_data: String,
    pub server: String,
}

/// A named cluster.
#[derive(Debug, PartialEq)]
pub struct KubeClusterMeta {
    pub cluster: KubeCluster,
    pub name: String,
}

/// A pairing of a cluster with a user, both by name.
#[derive(Debug, PartialEq)]
pub struct KubeContext {
    pub cluster: String,
    pub user: String,
}

/// A named context.
#[derive(Debug, PartialEq)]
pub struct KubeContextMeta {
    pub context: KubeContext,
    pub name: String,
}

/// The credentials of a user; each may be missing.
#[derive(Debug, PartialEq)]
pub struct KubeUser {
    pub client_certificate_data: Option<String>,
    pub client_key_data: Option<String>,
    pub token: Option<String>,
}

/// A named user.
#[derive(Debug, PartialEq)]
pub struct KubeUserMeta {
    pub name: String,
    pub user: KubeUser,
}

/// A kubeconfig document after parsing.
#[derive(Debug, PartialEq)]
pub struct KubeConfig {
    pub api_version: String,
    pub clusters: Vec<KubeClusterMeta>,
    pub contexts: Vec<KubeContextMeta>,
    pub current_context: String,
    pub kind: String,
    pub users: Vec<KubeUserMeta>,
}

/// The mathematical content of a [`KubeCluster`].
pub struct KubeClusterView {
    pub certificate_authority_data: Seq<char>,
    pub server: Seq<char>,
}

/// The mathematical content of a [`KubeClusterMeta`].
pub struct KubeClusterMetaView {
    pub cluster: KubeClusterView,
    pub name: Seq<char>,
}

/// The mathematical content of a [`KubeContext`].
pub struct KubeContextView {
    pub cluster: Seq<char>,
    pub user: Seq<char>,
}

/// The mathematical content of a [`KubeContextMeta`].
pub struct KubeContextMetaView {
    pub context: KubeContextView,
    pub name: Seq<char>,
}

/// The mathematical content of a [`KubeUser`].
pub struct KubeUserView {
    pub client_certificate_data: Option<Seq<char>>,
    pub client_key_data: Option<Seq<char>>,
    pub token: Option<Seq<char>>,
}

/// The mathematical content of a [`KubeUserMeta`].
pub struct KubeUserMetaView {
    pub name: Seq<char>,
    pub user: KubeUserView,
}

/// The mathematical content of a [`KubeConfig`].
pub struct KubeConfigView {
    pub api_version: Seq<char>,
    pub clusters: Seq<KubeClusterMetaView>,
    pub contexts: Seq<KubeContextMetaView>,
    pub current_context: Seq<char>,
    pub kind: Seq<char>,
    pub users: Seq<KubeUserMetaView>,
}

/// The characters of an optional string.
pub open spec fn text_of(text: Option<String>) -> Option<Seq<char>> {
    match text {
        Some(s) => Some(s@),
        None => None,
    }
}

impl View for KubeCluster {
    type V = KubeClusterView;

    open spec fn view(&self) -> KubeClusterView {
        KubeClusterView {
            certificate_authority_data: self.certificate_authority_data@,
            server: self.server@,
        }
    }
}

impl View for KubeClusterMeta {
    type V = KubeClusterMetaView;

    open spec fn view(&self) -> KubeClusterMetaView {
        KubeClusterMetaView { cluster: self.cluster@, name: self.name@ }
    }
}

impl View for KubeContext {
    type V = KubeContextView;

    open spec fn view(&self) -> KubeContextView {
        KubeContextView { cluster: self.cluster@, user: self.user@ }
    }
}

impl View for KubeContextMeta {
    type V = KubeContextMetaView;

    open spec fn view(&self) -> KubeContextMetaView {
        KubeContextMetaView { context: self.context@, name: self.name@ }
    }
}

impl View for KubeUser {
    type V = KubeUserView;

    open spec fn view(&self) -> KubeUserView {
        KubeUserView {
            client_certificate_data: text_of(self.client_certificate_data),
            client_key_data: text_of(self.client_key_data),
            token: text_of(self.token),
        }
    }
}

impl View for KubeUserMeta {
    type V = KubeUserMetaView;

    open spec fn view(&self) -> KubeUserMetaView {
        KubeUserMetaView { name: self.name@, user: self.user@ }
    }
}

impl View for KubeConfig {
    type V = KubeConfigView;

    open spec fn view(&self) -> KubeConfigView {
        KubeConfigView {
            api_version: self.api_version@,
            clusters: self.clusters@.map_values(|c: KubeClusterMeta| c@),
            contexts: self.contexts@.map_values(|c: KubeContextMeta| c@),
            current_context: self.current_context@,
            kind: self.kind@,
            users: self.users@.map_values(|u: KubeUserMeta| u@),
        }
    }
}

/// The text of an optional credential in a row: the credential, or nothing
/// at all where it is missing.
pub open spec fn or_empty(text: Option<Seq<char>>) -> Seq<char> {
    match text {
        Some(s) => s,
        None => Seq::empty(),
    }
}

/// The row of one cluster: its data under `cluster`, then its name.
pub open spec fn cluster_fields(c: KubeClusterMetaView) -> Fields {
    seq![
        (
            "cluster"@,
            Cell::Row(
                seq![
                    ("certificate-authority-data"@, Cell::Text(c.cluster.certificate_authority_data)),
                    ("server"@, Cell::Text(c.cluster.server)),
                ],
            ),
        ),
        ("name"@, Cell::Text(c.name)),
    ]
}

/// The row of one context: its data under `context`, then its name.
pub open spec fn context_fields(c: KubeContextMetaView) -> Fields {
    seq![
        (
            "context"@,
            Cell::Row(
                seq![
                    ("cluster"@, Cell::Text(c.context.cluster)),
                    ("user"@, Cell::Text(c.context.user)),
                ],
            ),
        ),
        ("name"@, Cell::Text(c.name)),
    ]
}

/// The row of one user: its name, then its credentials under `user`, a
/// missing credential as the empty text.
pub open spec fn user_fields(u: KubeUserMetaView) -> Fields {
    seq![
        ("name"@, Cell::Text(u.name)),
        (
            "user"@,
            Cell::Row(
                seq![
                    ("client_certificate_data"@, Cell::Text(or_empty(u.user.client_certificate_data))),
                    ("client_key_data"@, Cell::Text(or_empty(u.user.client_key_data))),
                    ("token"@, Cell::Text(or_empty(u.user.token))),
                ],
            ),
        ),
    ]
}

/// The row of a whole kubeconfig: six fields in a fixed order, the three
/// lists as tables that keep the order of the document.
pub open spec fn config_fields(cfg: KubeConfigView) -> Fields {
    seq![
        ("apiVersion"@, Cell::Text(cfg.api_version)),
        ("clusters"@, Cell::Table(cfg.clusters.map_values(|c: KubeClusterMetaView| cluster_fields(c)))),
        ("contexts"@, Cell::Table(cfg.contexts.map_values(|c: KubeContextMetaView| context_fields(c)))),
        ("current_context"@, Cell::Text(cfg.current_context)),
        ("kind"@, Cell::Text(cfg.kind)),
        ("users"@, Cell::Table(cfg.users.map_values(|u: KubeUserMetaView| user_fields(u)))),
    ]
}

/// Appends a field whose name the row does not hold yet.
fn put(row: &mut Row, name: &str, value: Value)
    requires
        !has_field(old(row)@, name@),
    ensures
        final(row)@ == old(row)@.push((name@, value@)),
{
    let _ = row.insert(name.to_owned(), value);
}

/// The text of a credential, empty where it is missing.
fn text_or_empty(text: Option<String>) -> (out: String)
    ensures
        out@ == or_empty(text_of(text)),
{
    match text {
        Some(s) => s,
        None => String::new(),
    }
}

/// The names that stand side by side in the rows of clusters, contexts and
/// users differ from one another.
proof fn nested_names_differ()
    ensures
        "certificate-authority-data"@ != "server"@,
        "cluster"@ != "name"@,
        "cluster"@ != "user"@,
        "context"@ != "name"@,
        "name"@ != "user"@,
        "client_certificate_data"@ != "client_key_data"@,
        "client_certificate_data"@ != "token"@,
        "client_key_data"@ != "token"@,
{
    reveal_strlit("certificate-authority-data");
    reveal_strlit("server");
    reveal_strlit("cluster");
    reveal_strlit("context");
    reveal_strlit("name");
    reveal_strlit("user");
    reveal_strlit("client_certificate_data");
    reveal_strlit("client_key_data");
    reveal_strlit("token");
    assert("certificate-authority-data"@.len() == 26);
    assert("server"@.len() == 6);
    assert("cluster"@.len() == 7);
    assert("context"@.len() == 7);
    assert("name"@.len() == 4);
    assert("user"@.len() == 4);
    assert("client_certificate_data"@.len() == 23);
    assert("client_key_data"@.len() == 15);
    assert("token"@.len() == 5);
    assert("name"@[0] != "user"@[0]);
}

/// The row of one cluster.
fn cluster_row(cluster: KubeClusterMeta) -> (row: Row)
    ensures
        row@ == cluster_fields(cluster@),
{
    proof {
        nested_names_differ();
    }
    let mut inner = Row::new();
    put(
        &mut inner,
        "certificate-authority-data",
        Value::Text(cluster.cluster.certificate_authority_data),
    );
    put(&mut inner, "server", Value::Text(cluster.cluster.server));
    assert(inner@ =~= seq![
        ("certificate-authority-data"@, Cell::Text(cluster@.cluster.certificate_authority_data)),
        ("server"@, Cell::Text(cluster@.cluster.server)),
    ]);
    let mut row = Row::new();
    put(&mut row, "cluster", Value::Row(inner));
    put(&mut row, "name", Value::Text(cluster.name));
    assert(row@ =~= cluster_fields(cluster@));
    row
}

/// The row of one context.
fn context_row(context: KubeContextMeta) -> (row: Row)
    ensures
        row@ == context_fields(context@),
{
    proof {
        nested_names_differ();
    }
    let mut inner = Row::new();
    put(&mut inner, "cluster", Value::Text(context.context.cluster));
    put(&mut inner, "user", Value::Text(context.context.user));
    assert(inner@ =~= seq![
        ("cluster"@, Cell::Text(context@.context.cluster)),
        ("user"@, Cell::Text(context@.context.user)),
    ]);
    let mut row = Row::new();
    put(&mut row, "context", Value::Row(inner));
    put(&mut row, "name", Value::Text(context.name));
    assert(row@ =~= context_fields(context@));
    row
}

/// The row of one user.
fn user_row(user: KubeUserMeta) -> (row: Row)
    ensures
        row@ == user_fields(user@),
{
    proof {
        nested_names_differ();
    }
    let mut row = Row::new();
    put(&mut row, "name", Value::Text(user.name));
    let mut inner = Row::new();
    put(
        &mut inner,
        "client_certificate_data",
        Value::Text(text_or_empty(user.user.client_certificate_data)),
    );
    put(&mut inner, "client_key_data", Value::Text(text_or_empty(user.user.client_key_data)));
    put(&mut inner, "token", Value::Text(text_or_empty(user.user.token)));
    assert(inner@ =~= seq![
        ("client_certificate_data"@, Cell::Text(or_empty(user@.user.client_certificate_data))),
        ("client_key_data"@, Cell::Text(or_empty(user@.user.client_key_data))),
        ("token"@, Cell::Text(or_empty(user@.user.token))),
    ]);
    put(&mut row, "user", Value::Row(inner));
    assert(row@ =~= user_fields(user@));
    row
}

/// The rows of the clusters, in their order.
fn cluster_table(clusters: Vec<KubeClusterMeta>) -> (rows: Vec<Row>)
    ensures
        rows@.map_values(|r: Row| r@) == clusters@.map_values(|c: KubeClusterMeta| c@).map_values(
            |c: KubeClusterMetaView| cluster_fields(c),
        ),
{
    let ghost all = clusters@;
    let mut rows: Vec<Row> = Vec::new();
    for cluster in iter: clusters
        invariant
            iter.seq() == all,
            rows@.len() == iter.index(),
            forall|i: int| 0 <= i < rows@.len() ==> (#[trigger] rows@[i])@ == cluster_fields(all[i]@),
    {
        rows.push(cluster_row(cluster));
    }
    assert(rows@.map_values(|r: Row| r@) =~= all.map_values(|c: KubeClusterMeta| c@).map_values(
        |c: KubeClusterMetaView| cluster_fields(c),
    ));
    rows
}

/// The rows of the contexts, in their order.
fn context_table(contexts: Vec<KubeContextMeta>) -> (rows: Vec<Row>)
    ensures
        rows@.map_values(|r: Row| r@) == contexts@.map_values(|c: KubeContextMeta| c@).map_values(
            |c: KubeContextMetaView| context_fields(c),
        ),
{
    let ghost all = contexts@;
    let mut rows: Vec<Row> = Vec::new();
    for context in iter: contexts
        invariant
            iter.seq() == all,
            rows@.len() == iter.index(),
            forall|i: int| 0 <= i < rows@.len() ==> (#[trigger] rows@[i])@ == context_fields(all[i]@),
    {
        rows.push(context_row(context));
    }
    assert(rows@.map_values(|r: Row| r@) =~= all.map_values(|c: KubeContextMeta| c@).map_values(
        |c: KubeContextMetaView| context_fields(c),
    ));
    rows
}

/// The rows of the users, in their order.
fn user_table(users: Vec<KubeUserMeta>) -> (rows: Vec<Row>)
    ensures
        rows@.map_values(|r: Row| r@) == users@.map_values(|u: KubeUserMeta| u@).map_values(
            |u: KubeUserMetaView| user_fields(u),
        ),
{
    let ghost all = users@;
    let mut rows: Vec<Row> = Vec::new();
    for user in iter: users
        invariant
            iter.seq() == all,
            rows@.len() == iter.index(),
            forall|i: int| 0 <= i < rows@.len() ==> (#[trigger] rows@[i])@ == user_fields(all[i]@),
    {
        rows.push(user_row(user));
    }
    assert(rows@.map_values(|r: Row| r@) =~= all.map_values(|u: KubeUserMeta| u@).map_values(
        |u: KubeUserMetaView| user_fields(u),
    ));
    rows
}

/// The six names of the top-level fields differ from one another.
proof fn top_level_names_differ()
    ensures
        "apiVersion"@ != "clusters"@,
        "apiVersion"@ != "contexts"@,
        "apiVersion"@ != "current_context"@,
        "apiVersion"@ != "kind"@,
        "apiVersion"@ != "users"@,
        "clusters"@ != "contexts"@,
        "clusters"@ != "current_context"@,
        "clusters"@ != "kind"@,
        "clusters"@ != "users"@,
        "contexts"@ != "current_context"@,
        "contexts"@ != "kind"@,
        "contexts"@ != "users"@,
        "current_context"@ != "kind"@,
        "current_context"@ != "users"@,
        "kind"@ != "users"@,
{
    reveal_strlit("apiVersion");
    reveal_strlit("clusters");
    reveal_strlit("contexts");
    reveal_strlit("current_context");
    reveal_strlit("kind");
    reveal_strlit("users");
    assert("apiVersion"@.len() == 10);
    assert("clusters"@.len() == 8);
    assert("contexts"@.len() == 8);
    assert("current_context"@.len() == 15);
    assert("kind"@.len() == 4);
    assert("users"@.len() == 5);
    assert("clusters"@[1] != "contexts"@[1]);
}

/// Lays a kubeconfig out as one row.
///
/// The row has the fields `apiVersion`, `clusters`, `contexts`,
/// `current_context`, `kind` and `users`, in this order. Each list becomes a
/// table with one row per entry, in the order of the document; nothing is
/// checked, dropped or reordered.
pub fn normalize(cfg: KubeConfig) -> (row: Row)
    ensures
        row@ == config_fields(cfg@),
{
    proof {
        top_level_names_differ();
    }
    let mut row = Row::new();
    put(&mut row, "apiVersion", Value::Text(cfg.api_version));
    put(&mut row, "clusters", Value::Table(cluster_table(cfg.clusters)));
    put(&mut row, "contexts", Value::Table(context_table(cfg.contexts)));
    put(&mut row, "current_context", Value::Text(cfg.current_context));
    put(&mut row, "kind", Value::Text(cfg.kind));
    put(&mut row, "users", Value::Table(user_table(cfg.users)));
    assert(row@ =~= config_fields(cfg@));
    row
}

/// Laying out is a function of the document's content: rows made from two
/// documents with the same content hold the same fields.
pub proof fn normalize_is_deterministic(a: KubeConfig, b: KubeConfig, row_a: Row, row_b: Row)
    requires
        a@ == b@,
        row_a@ == config_fields(a@),
        row_b@ == config_fields(b@),
    ensures
        row_a@ == row_b@,
{
}

/// What became of an attempt to read the configuration file.
#[derive(Debug, PartialEq)]
pub enum LoadOutcome {
    /// The file could not be opened.
    Unreadable,
    /// The file was opened, but its text is no kubeconfig; the parser's
    /// diagnostic.
    Malformed(String),
    /// The document that the file holds.
    Parsed(KubeConfig),
}

/// The mathematical content of a [`LoadOutcome`].
pub enum LoadOutcomeView {
    Unreadable,
    Malformed(Seq<char>),
    Parsed(KubeConfigView),
}

impl View for LoadOutcome {
    type V = LoadOutcomeView;

    open spec fn view(&self) -> LoadOutcomeView {
        match self {
            LoadOutcome::Unreadable => LoadOutcomeView::Unreadable,
            LoadOutcome::Malformed(details) => LoadOutcomeView::Malformed(details@),
            LoadOutcome::Parsed(cfg) => LoadOutcomeView::Parsed(cfg@),
        }
    }
}

/// The rows, or the failure, that `config view` answers with when reading
/// the file at `path` ended in `outcome`.
pub open spec fn config_view_of(path: Seq<char>, outcome: LoadOutcomeView) -> Result<
    Seq<Fields>,
    ConfigErrorView,
> {
    match outcome {
        LoadOutcomeView::Unreadable => Err(ConfigErrorView::Unreadable(path)),
        LoadOutcomeView::Malformed(details) => Err(ConfigErrorView::Malformed(details)),
        LoadOutcomeView::Parsed(cfg) => Ok(seq![config_fields(cfg)]),
    }
}

/// The content of an answer: of each row its fields, of a failure its kind
/// and text.
pub open spec fn answer_view(answer: Result<Vec<Row>, ConfigError>) -> Result<
    Seq<Fields>,
    ConfigErrorView,
> {
    match answer {
        Ok(rows) => Ok(rows@.map_values(|r: Row| r@)),
        Err(e) => Err(e@),
    }
}

impl Kubectl {
    /// The document that an attempt to read the configuration file gave, or
    /// the failure to report: for a file that could not be opened, the path
    /// that was tried.
    pub fn config_load(&self, outcome: LoadOutcome) -> (loaded: Result<KubeConfig, ConfigError>)
        ensures
            outcome is Unreadable ==> loaded is Err && loaded->Err_0@
                == ConfigErrorView::Unreadable(self.kubeconfig@),
            outcome is Malformed ==> loaded is Err && loaded->Err_0@ == ConfigErrorView::Malformed(
                outcome->Malformed_0@,
            ),
            outcome is Parsed ==> loaded == Ok::<KubeConfig, ConfigError>(outcome->Parsed_0),
    {
        match outcome {
            LoadOutcome::Unreadable => Err(ConfigError::Unreadable(self.kubeconfig.clone())),
            LoadOutcome::Malformed(details) => Err(ConfigError::Malformed(details)),
            LoadOutcome::Parsed(cfg) => Ok(cfg),
        }
    }

    /// Answers `config view`: one row that lays out the document, or the
    /// failure to read it.
    pub fn config_view(&self, outcome: LoadOutcome) -> (answer: Result<Vec<Row>, ConfigError>)
        ensures
            answer_view(answer) == config_view_of(self.kubeconfig@, outcome@),
    {
        match self.config_load(outcome) {
            Ok(cfg) => {
                let row = normalize(cfg);
                let mut rows: Vec<Row> = Vec::new();
                rows.push(row);
                assert(rows@.map_values(|r: Row| r@) =~= seq![config_fields(cfg@)]);
                Ok(rows)
            },
            Err(e) => Err(e),
        }
    }
}

} // verus!