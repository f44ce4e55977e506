use nu_plugin_kubectl::error::ConfigError;
use nu_plugin_kubectl::plugins::config::{
    normalize, KubeCluster, KubeClusterMeta, KubeConfig, KubeContext, KubeContextMeta, KubeUser,
    KubeUserMeta, LoadOutcome,
};
use nu_plugin_kubectl::row::{Row, Value};
use nu_plugin_kubectl::Kubectl;

fn dump_value(value: &Value) -> String {
    match value {
        Value::Text(text) => format!("{:?}", text),
        Value::Row(row) => dump_row(row),
        Value::Table(rows) => {
            let shown: Vec<String> = rows.iter().map(dump_row).collect();
            format!("[{}]", shown.join(", "))
        }
    }
}

fn dump_row(row: &Row) -> String {
    let mut shown = Vec::new();
    let mut index = 0;
    while let Some((key, value)) = row.get_index(index) {
        shown.push(format!("{}: {}", key, dump_value(value)));
        index += 1;
    }
    format!("{{{}}}", shown.join(", "))
}

fn keys(row: &Row) -> Vec<String> {
    let mut names = Vec::new();
    let mut index = 0;
    while let Some((key, _)) = row.get_index(index) {
        names.push(key.clone());
        index += 1;
    }
    names
}

fn text_at<'a>(row: &'a Row, key: &str) -> &'a str {
    match row.get(key) {
        Some(Value::Text(text)) => text,
        _ => panic!("no text under {}", key),
    }
}

fn row_at<'a>(row: &'a Row, key: &str) -> &'a Row {
    match row.get(key) {
        Some(Value::Row(inner)) => inner,
        _ => panic!("no row under {}", key),
    }
}

fn table_at<'a>(row: &'a Row, key: &str) -> &'a Vec<Row> {
    match row.get(key) {
        Some(Value::Table(rows)) => rows,
        _ => panic!("no table under {}", key),
    }
}

fn cluster(name: &str, ca: &str, server: &str) -> KubeClusterMeta {
    KubeClusterMeta {
        cluster: KubeCluster {
            certificate_authority_data: ca.to_string(),
            server: server.to_string(),
        },
        name: name.to_string(),
    }
}

fn sample() -> KubeConfig {
    KubeConfig {
        api_version: "v1".to_string(),
        clusters: vec![
            cluster("west", "Q0EtV0VTVA==", "https://west.example:6443"),
            cluster("east", "Q0EtRUFTVA==", "https://east.example:6443"),
        ],
        contexts: vec![KubeContextMeta {
            context: KubeContext { cluster: "west".to_string(), user: "admin".to_string() },
            name: "west-admin".to_string(),
        }],
        current_context: "west-admin".to_string(),
        kind: "Config".to_string(),
        users: vec![KubeUserMeta {
            name: "admin".to_string(),
            user: KubeUser {
                client_certificate_data: None,
                client_key_data: None,
                token: Some("s3cr3t".to_string()),
            },
        }],
    }
}

#[test]
fn top_level_fields_come_in_the_fixed_order() {
    let row = normalize(sample());
    assert_eq!(
        keys(&row),
        vec!["apiVersion", "clusters", "contexts", "current_context", "kind", "users"]
    );
    assert_eq!(row.len(), 6);
    assert_eq!(text_at(&row, "apiVersion"), "v1");
    assert_eq!(text_at(&row, "current_context"), "west-admin");
    assert_eq!(text_at(&row, "kind"), "Config");
    assert!(row.get("current-context").is_none());
    assert!(row.get("currentContext").is_none());
}

#[test]
fn two_clusters_one_context_one_user_with_token_only() {
    let row = normalize(sample());
    let clusters = table_at(&row, "clusters");
    assert_eq!(clusters.len(), 2);
    assert_eq!(text_at(&clusters[0], "name"), "west");
    assert_eq!(text_at(&clusters[1], "name"), "east");
    let contexts = table_at(&row, "contexts");
    assert_eq!(contexts.len(), 1);
    let users = table_at(&row, "users");
    assert_eq!(users.len(), 1);
    let credentials = row_at(&users[0], "user");
    assert_eq!(text_at(credentials, "client_certificate_data"), "");
    assert_eq!(text_at(credentials, "client_key_data"), "");
    assert_eq!(text_at(credentials, "token"), "s3cr3t");
}

#[test]
fn cluster_rows_nest_their_data_under_cluster() {
    let row = normalize(sample());
    let clusters = table_at(&row, "clusters");
    assert_eq!(keys(&clusters[0]), vec!["cluster", "name"]);
    let data = row_at(&clusters[0], "cluster");
    assert_eq!(keys(data), vec!["certificate-authority-data", "server"]);
    assert_eq!(text_at(data, "certificate-authority-data"), "Q0EtV0VTVA==");
    assert_eq!(text_at(data, "server"), "https://west.example:6443");
    let data = row_at(&clusters[1], "cluster");
    assert_eq!(text_at(data, "certificate-authority-data"), "Q0EtRUFTVA==");
    assert_eq!(text_at(data, "server"), "https://east.example:6443");
}

#[test]
fn context_rows_nest_their_data_under_context() {
    let row = normalize(sample());
    let contexts = table_at(&row, "contexts");
    assert_eq!(keys(&contexts[0]), vec!["context", "name"]);
    assert_eq!(text_at(&contexts[0], "name"), "west-admin");
    let data = row_at(&contexts[0], "context");
    assert_eq!(keys(data), vec!["cluster", "user"]);
    assert_eq!(text_at(data, "cluster"), "west");
    assert_eq!(text_at(data, "user"), "admin");
}

#[test]
fn user_rows_put_the_name_first_and_spell_keys_with_underscores() {
    let row = normalize(sample());
    let users = table_at(&row, "users");
    assert_eq!(keys(&users[0]), vec!["name", "user"]);
    assert_eq!(text_at(&users[0], "name"), "admin");
    let credentials = row_at(&users[0], "user");
    assert_eq!(keys(credentials), vec!["client_certificate_data", "client_key_data", "token"]);
    assert!(credentials.get("client-certificate-data").is_none());
}

#[test]
fn present_credentials_are_kept() {
    let mut cfg = sample();
    cfg.users[0].user.client_certificate_data = Some("Q0VSVA==".to_string());
    cfg.users[0].user.client_key_data = Some("S0VZ".to_string());
    cfg.users[0].user.token = None;
    let row = normalize(cfg);
    let users = table_at(&row, "users");
    let credentials = row_at(&users[0], "user");
    assert_eq!(text_at(credentials, "client_certificate_data"), "Q0VSVA==");
    assert_eq!(text_at(credentials, "client_key_data"), "S0VZ");
    assert_eq!(text_at(credentials, "token"), "");
}

#[test]
fn whole_row_is_as_expected() {
    let row = normalize(sample());
    let expected = concat_lines(&[
        r#"{apiVersion: "v1", "#,
        r#"clusters: [{cluster: {certificate-authority-data: "Q0EtV0VTVA==", server: "https://west.example:6443"}, name: "west"}, "#,
        r#"{cluster: {certificate-authority-data: "Q0EtRUFTVA==", server: "https://east.example:6443"}, name: "east"}], "#,
        r#"contexts: [{context: {cluster: "west", user: "admin"}, name: "west-admin"}], "#,
        r#"current_context: "west-admin", "#,
        r#"kind: "Config", "#,
        r#"users: [{name: "admin", user: {client_certificate_data: "", client_key_data: "", token: "s3cr3t"}}]}"#,
    ]);
    assert_eq!(dump_row(&row), expected);
}

fn concat_lines(parts: &[&str]) -> String {
    let mut out = String::new();
    for part in parts {
        out.push_str(part);
    }
    out
}

#[test]
fn empty_lists_give_empty_tables() {
    let cfg = KubeConfig {
        api_version: String::new(),
        clusters: vec![],
        contexts: vec![],
        current_context: String::new(),
        kind: String::new(),
        users: vec![],
    };
    let row = normalize(cfg);
    assert_eq!(
        dump_row(&row),
        r#"{apiVersion: "", clusters: [], contexts: [], current_context: "", kind: "", users: []}"#
    );
}

#[test]
fn nothing_is_sorted_merged_or_checked() {
    let mut cfg = sample();
    cfg.clusters = vec![
        cluster("b", "2", "s2"),
        cluster("a", "1", "s1"),
        cluster("b", "2", "s2"),
    ];
    cfg.contexts[0].context.cluster = "nowhere".to_string();
    cfg.contexts[0].context.user = "nobody".to_string();
    let row = normalize(cfg);
    let clusters = table_at(&row, "clusters");
    let names: Vec<&str> = clusters.iter().map(|c| text_at(c, "name")).collect();
    assert_eq!(names, vec!["b", "a", "b"]);
    let contexts = table_at(&row, "contexts");
    assert_eq!(text_at(row_at(&contexts[0], "context"), "cluster"), "nowhere");
    assert_eq!(text_at(row_at(&contexts[0], "context"), "user"), "nobody");
}

#[test]
fn equal_documents_give_equal_rows() {
    let first = normalize(sample());
    let second = normalize(sample());
    assert_eq!(dump_row(&first), dump_row(&second));
    assert_eq!(sample(), sample());
}

#[test]
fn config_view_answers_with_one_row() {
    let mut kubectl = Kubectl::new();
    kubectl.kubeconfig = "/home/u/.kube/config".to_string();
    match kubectl.config_view(LoadOutcome::Parsed(sample())) {
        Ok(rows) => {
            assert_eq!(rows.len(), 1);
            assert_eq!(dump_row(&rows[0]), dump_row(&normalize(sample())));
        }
        Err(e) => panic!("unexpected failure: {:?}", e),
    }
}

#[test]
fn unreadable_file_is_reported_with_its_path() {
    let mut kubectl = Kubectl::new();
    kubectl.kubeconfig = "/no/such/file".to_string();
    match kubectl.config_view(LoadOutcome::Unreadable) {
        Ok(_) => panic!("an unreadable file gave rows"),
        Err(e) => {
            assert_eq!(e, ConfigError::Unreadable("/no/such/file".to_string()));
            assert_eq!(e.message(), "Failed to open config file /no/such/file");
        }
    }
}

#[test]
fn malformed_file_is_reported_with_the_diagnostic() {
    let mut kubectl = Kubectl::new();
    kubectl.kubeconfig = "/home/u/.kube/config".to_string();
    let details = "missing field `apiVersion` at line 1 column 1";
    match kubectl.config_view(LoadOutcome::Malformed(details.to_string())) {
        Ok(_) => panic!("a malformed file gave rows"),
        Err(e) => {
            assert_eq!(e, ConfigError::Malformed(details.to_string()));
            assert_eq!(e.message(), details);
        }
    }
}

#[test]
fn config_load_hands_the_document_through() {
    let kubectl = Kubectl::new();
    assert_eq!(kubectl.config_load(LoadOutcome::Parsed(sample())), Ok(sample()));
    assert_eq!(
        kubectl.config_load(LoadOutcome::Unreadable),
        Err(ConfigError::Unreadable(String::new()))
    );
    assert_eq!(
        kubectl.config_load(LoadOutcome::Malformed("bad".to_string())),
        Err(ConfigError::Malformed("bad".to_string()))
    );
}

#[test]
fn exec_of_config_view_lays_out_what_was_loaded() {
    let mut kubectl = Kubectl::new();
    kubectl.kubeconfig = "/home/u/.kube/config".to_string();
    kubectl.commands = vec!["config".to_string(), "view".to_string()];
    match kubectl.exec(|_path: &String| LoadOutcome::Parsed(sample())) {
        Ok(rows) => {
            assert_eq!(rows.len(), 1);
            assert_eq!(text_at(&rows[0], "kind"), "Config");
        }
        Err(e) => panic!("unexpected failure: {:?}", e),
    }
}

#[test]
fn exec_of_config_view_reports_an_unreadable_file() {
    let mut kubectl = Kubectl::new();
    kubectl.kubeconfig = "/no/such/file".to_string();
    kubectl.commands = vec!["config".to_string(), "view".to_string()];
    match kubectl.exec(|_path: &String| LoadOutcome::Unreadable) {
        Ok(_) => panic!("an unreadable file gave rows"),
        Err(e) => assert_eq!(e, ConfigError::Unreadable("/no/such/file".to_string())),
    }
}
