//! What the plugin declares to the shell: its name, its options and what
//! follows them.

use crate::kubectl::Kubectl;
use vstd::prelude::*;

verus! {

/// The kind of value that an argument takes.
#[derive(Clone, Copy, Debug, PartialEq, Eq, Structural)]
pub enum SyntaxShape {
    /// A string.
    String,
    /// A value of any kind.
    Any,
}

/// An option that is given by name.
#[derive(Debug, PartialEq)]
pub struct NamedFlag {
    pub name: String,
    pub shape: SyntaxShape,
    pub desc: String,
    /// The one-letter form of the option, if it has one.
    pub short: Option<char>,
}

/// The arguments that follow the options.
#[derive(Debug, PartialEq)]
pub struct RestArguments {
    pub name: String,
    pub shape: SyntaxShape,
    pub desc: String,
}

/// The call signature of a command.
#[derive(Debug, PartialEq)]
pub struct Signature {
    pub name: String,
    pub usage: String,
    /// The options, in the order in which they are declared.
    pub named: Vec<NamedFlag>,
    pub rest: Option<RestArguments>,
    /// Whether the command takes part in a pipeline as a filter.
    pub is_filter: bool,
}

/// The mathematical content of a [`NamedFlag`].
pub struct NamedFlagView {
    pub name: Seq<char>,
    pub shape: SyntaxShape,
    pub desc: Seq<char>,
    pub short: Option<char>,
}

/// The mathematical content of a [`RestArguments`].
pub struct RestArgumentsView {
    pub name: Seq<char>,
    pub shape: SyntaxShape,
    pub desc: Seq<char>,
}

/// The mathematical content of a [`Signature`].
pub struct SignatureView {
    pub name: Seq<char>,
    pub usage: Seq<char>,
    pub named: Seq<NamedFlagView>,
    pub rest: Option<RestArgumentsView>,
    pub is_filter: bool,
}

impl View for NamedFlag {
    type V = NamedFlagView;

    open spec fn view(&self) -> NamedFlagView {
        NamedFlagView { name: self.name@, shape: self.shape, desc: self.desc@, short: self.short }
    }
}

impl View for RestArguments {
    type V = RestArgumentsView;

    open spec fn view(&self) -> RestArgumentsView {
        RestArgumentsView { name: self.name@, shape: self.shape, desc: self.desc@ }
    }
}

impl View for Signature {
    type V = SignatureView;

    open spec fn view(&self) -> SignatureView {
        SignatureView {
            name: self.name@,
            usage: self.usage@,
            named: self.named@.map_values(|flag: NamedFlag| flag@),
            rest: match self.rest {
                Some(rest) => Some(rest@),
                None => None,
            },
            is_filter: self.is_filter,
        }
    }
}

/// The signature of `kubectl`: a filter with the string options
/// `namespace` (`-n`) and `kubeconfig`, followed by the words of the
/// subcommand.
pub open spec fn kubectl_signature() -> SignatureView {
    SignatureView {
        name: "kubectl"@,
        usage: "Nu shell kubectl wrapper"@,
        named: seq![
            NamedFlagView {
                name: "namespace"@,
                shape: SyntaxShape::String,
                desc: "Specifies kubernetes namespace. Set to 'default' if not passed."@,
                short: Some('n'),
            },
            NamedFlagView {
                name: "kubeconfig"@,
                shape: SyntaxShape::String,
                desc: "Specifies kubernetes config path."@,
                short: None,
            },
        ],
        rest: Some(
            RestArgumentsView {
                name: "rest"@,
                shape: SyntaxShape::Any,
                desc: "subsequent kubectl commands"@,
            },
        ),
        is_filter: true,
    }
}

impl Kubectl {
    /// The signature under which the plugin registers.
    pub fn config(&self) -> (signature: Signature)
        ensures
            signature@ == kubectl_signature(),
    {
        let mut named: Vec<NamedFlag> = Vec::new();
        named.push(
            NamedFlag {
                name: "namespace".to_owned(),
                shape: SyntaxShape::String,
                desc: "Specifies kubernetes namespace. Set to 'default' if not passed.".to_owned(),
                short: Some('n'),
            },
        );
        named.push(
            NamedFlag {
                name: "kubeconfig".to_owned(),
                shape: SyntaxShape::String,
                desc: "Specifies kubernetes config path.".to_owned(),
                short: None,
            },
        );
        let signature = Signature {
            name: "kubectl".to_owned(),
            usage: "Nu shell kubectl wrapper".to_owned(),
            named,
            rest: Some(
                RestArguments {
                    name: "rest".to_owned(),
                    shape: SyntaxShape::Any,
                    desc: "subsequent kubectl commands".to_owned(),
                },
            ),
            is_filter: true,
        };
        assert(signature@.named =~= kubectl_signature().named);
        signature
    }
}

} // verus!
