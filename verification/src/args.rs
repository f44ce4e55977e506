//! What a call hands to the plugin: its options, its positional arguments,
//! and the two environment variables that can place the configuration file.

use crate::error::{ArgumentError, Place, Span};
use vstd::prelude::*;

verus! {

/// One evaluated argument.
#[derive(Debug, PartialEq)]
pub enum Argument {
    /// A string, with its text.
    Text(String),
    /// Anything else; only where it stood on the command line is kept.
    Other(Span),
}

/// The arguments of one call.
#[derive(Debug, PartialEq)]
pub struct CallArgs {
    /// The value of the `namespace` option, if it was given.
    pub namespace: Option<Argument>,
    /// The value of the `kubeconfig` option, if it was given.
    pub kubeconfig: Option<Argument>,
    /// The positional arguments, if there were any.
    pub positional: Option<Vec<Argument>>,
}

/// The environment variables that the plugin consults.
#[derive(Debug, PartialEq)]
pub struct Environment {
    /// `KUBECONFIG`, if set.
    pub kubeconfig: Option<String>,
    /// `HOME`, if set.
    pub home: Option<String>,
}

/// The mathematical content of an [`Argument`].
pub enum ArgumentView {
    Text(Seq<char>),
    Other(Span),
}

/// The mathematical content of a [`CallArgs`].
pub struct CallArgsView {
    pub namespace: Option<ArgumentView>,
    pub kubeconfig: Option<ArgumentView>,
    pub positional: Seq<ArgumentView>,
}

/// The mathematical content of an [`Environment`].
pub struct EnvironmentView {
    pub kubeconfig: Option<Seq<char>>,
    pub home: Option<Seq<char>>,
}

impl View for Argument {
    type V = ArgumentView;

    open spec fn view(&self) -> ArgumentView {
        match self {
            Argument::Text(text) => ArgumentView::Text(text@),
            Argument::Other(span) => ArgumentView::Other(*span),
        }
    }
}

/// The content of an optional argument.
pub open spec fn option_view(argument: Option<Argument>) -> Option<ArgumentView> {
    match argument {
        Some(a) => Some(a@),
        None => None,
    }
}

/// The content of a list of arguments.
pub open spec fn arguments_view(arguments: Seq<Argument>) -> Seq<ArgumentView> {
    arguments.map_values(|a: Argument| a@)
}

impl View for CallArgs {
    type V = CallArgsView;

    /// A call without a list of positional arguments counts as one with an
    /// empty list.
    open spec fn view(&self) -> CallArgsView {
        CallArgsView {
            namespace: option_view(self.namespace),
            kubeconfig: option_view(self.kubeconfig),
            positional: match self.positional {
                Some(arguments) => arguments_view(arguments@),
                None => Seq::empty(),
            },
        }
    }
}

impl View for Environment {
    type V = EnvironmentView;

    open spec fn view(&self) -> EnvironmentView {
        EnvironmentView {
            kubeconfig: match self.kubeconfig {
                Some(path) => Some(path@),
                None => None,
            },
            home: match self.home {
                Some(home) => Some(home@),
                None => None,
            },
        }
    }
}

/// The namespace that a call selects: the text of the `namespace` option,
/// and `default` where the option is missing or not a string.
pub open spec fn namespace_of(option: Option<ArgumentView>) -> Seq<char> {
    match option {
        Some(ArgumentView::Text(name)) => name,
        _ => "default"@,
    }
}

/// The path of the configuration file.
///
/// The `kubeconfig` option decides where it is given, and must then be a
/// string. Without it `KUBECONFIG` decides, and without that the file is
/// `.kube/config` under `HOME`. With none of the three there is no path.
pub open spec fn kubeconfig_of(option: Option<ArgumentView>, env: EnvironmentView) -> Result<
    Seq<char>,
    ArgumentError,
> {
    match option {
        Some(ArgumentView::Text(path)) => Ok(path),
        Some(ArgumentView::Other(span)) => Err(
            ArgumentError::Type { place: Place::Kubeconfig, span },
        ),
        None => match env.kubeconfig {
            Some(path) => Ok(path),
            None => match env.home {
                Some(home) => Ok(home + "/.kube/config"@),
                None => Err(ArgumentError::PathResolution),
            },
        },
    }
}

/// Whether `i` is the position of the first argument that is not a string.
pub open spec fn first_other(arguments: Seq<ArgumentView>, i: int) -> bool {
    &&& 0 <= i < arguments.len()
    &&& arguments[i] is Other
    &&& forall|j: int| 0 <= j < i ==> (#[trigger] arguments[j]) is Text
}

/// The number of strings that `arguments` starts with.
pub open spec fn leading_texts(arguments: Seq<ArgumentView>) -> int {
    if exists|i: int| first_other(arguments, i) {
        choose|i: int| first_other(arguments, i)
    } else {
        arguments.len() as int
    }
}

/// The subcommand words that positional arguments contribute: the texts of
/// the strings that come before the first argument of another type.
pub open spec fn words_of(arguments: Seq<ArgumentView>) -> Seq<Seq<char>> {
    Seq::new(leading_texts(arguments) as nat, |i: int| arguments[i]->Text_0)
}

/// Whether positional arguments can be taken: `Ok` where all are strings,
/// and else the position and place of the first that is not.
pub open spec fn positional_outcome(arguments: Seq<ArgumentView>) -> Result<(), ArgumentError> {
    let k = leading_texts(arguments);
    if k < arguments.len() {
        Err(
            ArgumentError::Type {
                place: Place::Positional(k as usize),
                span: arguments[k]->Other_0,
            },
        )
    } else {
        Ok(())
    }
}

} // verus!
