use nu_plugin_kubectl::signature::{NamedFlag, RestArguments, Signature, SyntaxShape};
use nu_plugin_kubectl::Kubectl;

#[test]
fn signature_declares_the_command_line() {
    let signature = Kubectl::new().config();
    let expected = Signature {
        name: "kubectl".to_string(),
        usage: "Nu shell kubectl wrapper".to_string(),
        named: vec![
            NamedFlag {
                name: "namespace".to_string(),
                shape: SyntaxShape::String,
                desc: "Specifies kubernetes namespace. Set to 'default' if not passed."
                    .to_string(),
                short: Some('n'),
            },
            NamedFlag {
                name: "kubeconfig".to_string(),
                shape: SyntaxShape::String,
                desc: "Specifies kubernetes config path.".to_string(),
                short: None,
            },
        ],
        rest: Some(RestArguments {
            name: "rest".to_string(),
            shape: SyntaxShape::Any,
            desc: "subsequent kubectl commands".to_string(),
        }),
        is_filter: true,
    };
    assert_eq!(signature, expected);
}

#[test]
fn signature_does_not_depend_on_the_state() {
    let mut kubectl = Kubectl::new();
    kubectl.namespace = "prod".to_string();
    kubectl.commands.push("config".to_string());
    assert_eq!(kubectl.config(), Kubectl::new().config());
}
