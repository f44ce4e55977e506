//! The command tree and the state of one invocation.

use crate::args::{
    arguments_view, first_other, kubeconfig_of, leading_texts, namespace_of, positional_outcome,
    words_of, Argument, CallArgs, CallArgsView, Environment, EnvironmentView,
};
use crate::error::{ArgumentError, ConfigError, ConfigErrorView, Place};
use crate::plugins::config::{answer_view, config_view_of, LoadOutcome};
use crate::row::{Fields, Row};
use vstd::prelude::*;
use vstd::string::StringExecFns;

verus! {

/// What a resolved command runs.
#[derive(Clone, Copy, Debug, PartialEq, Eq, Structural)]
pub enum Command {
    /// Show the kubeconfig as a row.
    ConfigView,
}

/// A node of the command tree: the word that selects it, what it runs when
/// the words end on it, and the nodes that further words select.
pub enum List {
    Cons(String, Option<Command>, Vec<Box<List>>),
}

/// The mathematical content of a [`List`].
pub struct Node {
    pub name: Seq<char>,
    pub handler: Option<Command>,
    pub children: Seq<Node>,
}

impl List {
    /// The content of the node and, below it, of its whole subtree.
    pub open spec fn node(self) -> Node
        decreases self,
    {
        match self {
            List::Cons(name, handler, children) => Node {
                name: name@,
                handler: handler,
                children: Seq::new(
                    children@.len(),
                    |i: int| if 0 <= i < children@.len() { children@[i].node() } else { arbitrary() },
                ),
            },
        }
    }
}

impl View for List {
    type V = Node;

    open spec fn view(&self) -> Node {
        self.node()
    }
}

/// The contents of a level of the tree, node by node.
pub open spec fn forest(nodes: Seq<Box<List>>) -> Seq<Node> {
    Seq::new(nodes.len(), |i: int| nodes[i].node())
}

/// The words of a command line as sequences of characters.
pub open spec fn words(tokens: Seq<String>) -> Seq<Seq<char>> {
    tokens.map_values(|t: String| t@)
}

/// Whether `i` is the position of the first node of `nodes` called `name`.
pub open spec fn first_named(nodes: Seq<Node>, name: Seq<char>, i: int) -> bool {
    &&& 0 <= i < nodes.len()
    &&& nodes[i].name == name
    &&& forall|j: int| 0 <= j < i ==> (#[trigger] nodes[j]).name != name
}

/// What `tokens` resolve to among `nodes`.
///
/// Each word selects, among the nodes of the current level, the first one
/// that bears it as its name, and the next word is looked up among that
/// node's children. The result is the handler of the node that the last word
/// selects. No words, a word that no node of its level bears, and a last
/// node without a handler all give `None`.
pub open spec fn resolve(nodes: Seq<Node>, tokens: Seq<Seq<char>>) -> Option<Command>
    decreases tokens.len(),
{
    if tokens.len() == 0 {
        None
    } else if exists|i: int| first_named(nodes, tokens[0], i) {
        let i = choose|i: int| first_named(nodes, tokens[0], i);
        if tokens.len() == 1 {
            nodes[i].handler
        } else {
            resolve(nodes[i].children, tokens.skip(1))
        }
    } else {
        None
    }
}

/// Whether the tree associates `command` with `path`: following `path` word
/// by word, each word the name of a node of the level reached, ends on a
/// node whose handler is `command`.
pub open spec fn registers(nodes: Seq<Node>, path: Seq<Seq<char>>, command: Command) -> bool
    decreases path.len(),
{
    &&& path.len() > 0
    &&& exists|i: int|
        #![trigger nodes[i]]
        {
            &&& 0 <= i < nodes.len()
            &&& nodes[i].name == path[0]
            &&& if path.len() == 1 {
                nodes[i].handler == Some(command)
            } else {
                registers(nodes[i].children, path.skip(1), command)
            }
        }
}

/// Whether no two nodes of one level bear the same name, on this level and
/// on every level below it.
pub open spec fn unique_names(nodes: Seq<Node>) -> bool
    decreases nodes,
{
    &&& forall|i: int, j: int|
        #![trigger nodes[i], nodes[j]]
        0 <= i < j < nodes.len() ==> nodes[i].name != nodes[j].name
    &&& forall|i: int| 0 <= i < nodes.len() ==> unique_names((#[trigger] nodes[i]).children)
}

/// The commands that a fresh [`Kubectl`] knows: `config view`.
pub open spec fn default_commands() -> Seq<Node> {
    seq![
        Node {
            name: "config"@,
            handler: None,
            children: seq![
                Node {
                    name: "view"@,
                    handler: Some(Command::ConfigView),
                    children: Seq::empty(),
                },
            ],
        },
    ]
}

/// The state of one invocation: the command tree, the subcommand words
/// given, and the two options.
pub struct Kubectl {
    pub command_map: Vec<Box<List>>,
    pub commands: Vec<String>,
    pub namespace: String,
    pub kubeconfig: String,
}

/// The mathematical content of a [`Kubectl`].
pub struct KubectlView {
    pub command_map: Seq<Node>,
    pub commands: Seq<Seq<char>>,
    pub namespace: Seq<char>,
    pub kubeconfig: Seq<char>,
}

impl View for Kubectl {
    type V = KubectlView;

    open spec fn view(&self) -> KubectlView {
        KubectlView {
            command_map: forest(self.command_map@),
            commands: words(self.commands@),
            namespace: self.namespace@,
            kubeconfig: self.kubeconfig@,
        }
    }
}

/// The state after the arguments of a call were read, and whether they
/// could be taken.
///
/// The namespace is set in any case. Where no path of the configuration
/// file can be had, the error says why and the rest of the state stays as it
/// was. Otherwise the path is set, and the subcommand words are those of
/// this call alone, whatever words the state held before: the leading
/// strings among the positional arguments. An argument of another type ends
/// them and is reported.
pub open spec fn parsed(before: KubectlView, call: CallArgsView, env: EnvironmentView) -> (
    KubectlView,
    Result<(), ArgumentError>,
) {
    let namespace = namespace_of(call.namespace);
    match kubeconfig_of(call.kubeconfig, env) {
        Err(e) => (KubectlView { namespace, ..before }, Err(e)),
        Ok(path) => (
            KubectlView {
                command_map: before.command_map,
                commands: words_of(call.positional),
                namespace,
                kubeconfig: path,
            },
            positional_outcome(call.positional),
        ),
    }
}

/// Adds the leading strings of `arguments` to `commands`, and reports the
/// first argument that is not a string.
fn take_words(commands: &mut Vec<String>, arguments: Vec<Argument>) -> (result: Result<
    (),
    ArgumentError,
>)
    ensures
        words(final(commands)@) == words(old(commands)@) + words_of(arguments_view(arguments@)),
        result == positional_outcome(arguments_view(arguments@)),
{
    let ghost given = arguments_view(arguments@);
    let ghost before = words(commands@);
    let count: usize = arguments.len();
    let mut index: usize = 0;
    assert(words(commands@) =~= before + Seq::new(0, |j: int| given[j]->Text_0));
    for argument in iter: arguments
        invariant
            index == iter.index(),
            iter.seq() == arguments@,
            count == arguments@.len(),
            before == words(old(commands)@),
            given == arguments_view(arguments@),
            forall|j: int| 0 <= j < index ==> (#[trigger] given[j]) is Text,
            words(commands@) == before + Seq::new(index as nat, |j: int| given[j]->Text_0),
    {
        assert(index < arguments@.len());
        assert(given[index as int] == argument@);
        let ghost prior = commands@;
        match argument {
            Argument::Text(word) => {
                commands.push(word);
                assert(words(commands@) =~= words(prior).push(word@));
                assert(words(commands@) =~= before + Seq::new(
                    (index + 1) as nat,
                    |j: int| given[j]->Text_0,
                ));
            },
            Argument::Other(span) => {
                assert(first_other(given, index as int));
                assert(leading_texts(given) == index);
                return Err(ArgumentError::Type { place: Place::Positional(index), span });
            },
        }
        index += 1;
    }
    assert(forall|j: int| !first_other(given, j));
    Ok(())
}

impl Default for Kubectl {
    /// The state before any argument is read: the tree of `config view`, no
    /// words, the namespace `default` and no path.
    fn default() -> (kubectl: Kubectl)
        ensures
            kubectl@ == (KubectlView {
                command_map: default_commands(),
                commands: Seq::empty(),
                namespace: "default"@,
                kubeconfig: Seq::empty(),
            }),
            unique_names(kubectl@.command_map),
    {
        let view = List::Cons("view".to_owned(), Some(Command::ConfigView), Vec::new());
        let mut under_config: Vec<Box<List>> = Vec::new();
        under_config.push(Box::new(view));
        let config = List::Cons("config".to_owned(), None, under_config);
        let mut command_map: Vec<Box<List>> = Vec::new();
        command_map.push(Box::new(config));
        let kubectl = Kubectl {
            command_map,
            commands: Vec::new(),
            namespace: "default".to_owned(),
            kubeconfig: String::new(),
        };
        proof {
            assert(view.node().children =~= Seq::empty());
            assert(config.node().children =~= seq![view.node()]);
            assert(forest(kubectl.command_map@) =~= default_commands());
            assert(words(kubectl.commands@) =~= Seq::empty());
            assert(unique_names(view.node().children));
            assert(unique_names(config.node().children));
        }
        kubectl
    }
}

impl Kubectl {
    /// The state before any argument is read.
    pub fn new() -> (kubectl: Kubectl)
        ensures
            kubectl@ == (KubectlView {
                command_map: default_commands(),
                commands: Seq::empty(),
                namespace: "default"@,
                kubeconfig: Seq::empty(),
            }),
            unique_names(kubectl@.command_map),
    {
        Default::default()
    }

    /// Reads the arguments of a call into the state.
    ///
    /// `env` holds the two environment variables as the caller found them.
    /// The subcommand words of an earlier call do not carry over.
    pub fn parse(&mut self, call: CallArgs, env: Environment) -> (result: Result<
        (),
        ArgumentError,
    >)
        ensures
            (final(self)@, result) == parsed(old(self)@, call@, env@),
    {
        self.namespace =
        match call.namespace {
            Some(Argument::Text(namespace)) => namespace,
            _ => "default".to_owned(),
        };
        match call.kubeconfig {
            Some(Argument::Text(path)) => {
                self.kubeconfig = path;
            },
            Some(Argument::Other(span)) => {
                return Err(ArgumentError::Type { place: Place::Kubeconfig, span });
            },
            None => match env.kubeconfig {
                Some(path) => {
                    self.kubeconfig = path;
                },
                None => match env.home {
                    Some(home) => {
                        let mut config = String::new();
                        config.append(home.as_str());
                        config.append("/.kube/config");
                        self.kubeconfig = config;
                    },
                    None => {
                        return Err(ArgumentError::PathResolution);
                    },
                },
            },
        }
        self.commands = Vec::new();
        assert(words(self.commands@) =~= Seq::empty());
        match call.positional {
            Some(arguments) => {
                let result = take_words(&mut self.commands, arguments);
                assert(words(self.commands@) =~= words_of(call@.positional));
                result
            },
            None => {
                assert(forall|j: int| !first_other(call@.positional, j));
                assert(words_of(call@.positional) =~= Seq::empty());
                Ok(())
            },
        }
    }

    /// What the words from `index` on resolve to among `nodes`.
    fn get_command(&self, index: usize, nodes: &Vec<Box<List>>) -> (found: Option<Command>)
        requires
            index < self.commands.len(),
        ensures
            found == resolve(forest(nodes@), self@.commands.skip(index as int)),
            found is Some ==> registers(
                forest(nodes@),
                self@.commands.skip(index as int),
                found->Some_0,
            ),
            unique_names(forest(nodes@)) ==> forall|command: Command|
                registers(forest(nodes@), self@.commands.skip(index as int), command) ==> found
                    == Some(command),
        decreases self.commands.len() - index,
    {
        proof {
            resolution_is_registration(forest(nodes@), self@.commands.skip(index as int));
        }
        let ghost level = forest(nodes@);
        let ghost rest = self@.commands.skip(index as int);
        assert(rest.len() == self.commands.len() - index);
        assert(rest[0] == self.commands@[index as int]@);
        let mut i: usize = 0;
        while i < nodes.len()
            invariant
                i <= nodes.len(),
                index < self.commands.len(),
                level == forest(nodes@),
                rest == self@.commands.skip(index as int),
                rest.len() == self.commands.len() - index,
                rest[0] == self.commands@[index as int]@,
                forall|j: int| 0 <= j < i ==> (#[trigger] level[j]).name != rest[0],
            decreases nodes.len() - i,
        {
            match &*nodes[i] {
                List::Cons(name, handler, children) => {
                    assert(level[i as int] == nodes@[i as int].node());
                    if *name == self.commands[index] {
                        proof {
                            resolution_is_registration(level, rest);
                        }
                        assert(first_named(level, rest[0], i as int));
                        assert(level[i as int].children =~= forest(children@));
                        if index + 1 == self.commands.len() {
                            return *handler;
                        }
                        assert(rest.skip(1) =~= self@.commands.skip(index + 1));
                        return self.get_command(index + 1, children);
                    }
                },
            }
            i += 1;
        }
        assert(forall|j: int| !first_named(level, rest[0], j));
        None
    }

    /// What the subcommand words resolve to in the command tree.
    ///
    /// A handler that is returned is one that the tree associates with the
    /// words. In a tree whose sibling names are unique the converse holds
    /// too: words that spell out a path with a handler give that handler,
    /// and words that spell out no such path, among them those that stop
    /// short of one, give `None`.
    pub fn resolve(&self) -> (found: Option<Command>)
        ensures
            found == resolve(self@.command_map, self@.commands),
            found is Some ==> registers(self@.command_map, self@.commands, found->Some_0),
            unique_names(self@.command_map) ==> forall|command: Command|
                registers(self@.command_map, self@.commands, command) ==> found == Some(command),
    {
        let found = if self.commands.len() == 0 {
            None
        } else {
            assert(self@.commands.skip(0) =~= self@.commands);
            self.get_command(0, &self.command_map)
        };
        proof {
            resolution_is_registration(self@.command_map, self@.commands);
        }
        found
    }

    /// Runs the command that the subcommand words resolve to.
    ///
    /// Words that resolve to nothing are answered with no rows at all, and
    /// `load` is not called. For `config view`, `load` is called once with
    /// the path of the configuration file, and what it returns decides the
    /// answer.
    pub fn exec<F: FnOnce(&String) -> LoadOutcome>(&self, load: F) -> (answer: Result<
        Vec<Row>,
        ConfigError,
    >)
        requires
            resolve(self@.command_map, self@.commands) is Some ==> call_requires(
                load,
                (&self.kubeconfig,),
            ),
        ensures
            resolve(self@.command_map, self@.commands) is None ==> answer_view(answer) == Ok::<
                Seq<Fields>,
                ConfigErrorView,
            >(Seq::empty()),
            resolve(self@.command_map, self@.commands) == Some(Command::ConfigView)
                ==> exists|outcome: LoadOutcome|
                call_ensures(load, (&self.kubeconfig,), outcome) && answer_view(answer)
                    == config_view_of(self.kubeconfig@, outcome@),
    {
        match self.resolve() {
            None => {
                let rows: Vec<Row> = Vec::new();
                assert(rows@.map_values(|r: Row| r@) =~= Seq::empty());
                Ok(rows)
            },
            Some(Command::ConfigView) => {
                let outcome = load(&self.kubeconfig);
                self.config_view(outcome)
            },
        }
    }
}

/// Whatever words resolve to, the tree associates with them.
pub proof fn resolved_is_registered(nodes: Seq<Node>, tokens: Seq<Seq<char>>, command: Command)
    requires
        resolve(nodes, tokens) == Some(command),
    ensures
        registers(nodes, tokens, command),
    decreases tokens.len(),
{
    let i = choose|i: int| first_named(nodes, tokens[0], i);
    assert(first_named(nodes, tokens[0], i));
    if tokens.len() > 1 {
        resolved_is_registered(nodes[i].children, tokens.skip(1), command);
    }
    assert(nodes[i].name == tokens[0]);
}

/// In a tree whose sibling names are unique, words that spell out a path
/// with a handler resolve to that handler.
pub proof fn registered_path_resolves(nodes: Seq<Node>, path: Seq<Seq<char>>, command: Command)
    requires
        unique_names(nodes),
        registers(nodes, path, command),
    ensures
        resolve(nodes, path) == Some(command),
    decreases path.len(),
{
    let k = choose|k: int|
        #![trigger nodes[k]]
        {
            &&& 0 <= k < nodes.len()
            &&& nodes[k].name == path[0]
            &&& if path.len() == 1 {
                nodes[k].handler == Some(command)
            } else {
                registers(nodes[k].children, path.skip(1), command)
            }
        };
    assert(first_named(nodes, path[0], k));
    let i = choose|i: int| first_named(nodes, path[0], i);
    assert(i == k);
    if path.len() > 1 {
        registered_path_resolves(nodes[k].children, path.skip(1), command);
    }
}

/// Resolution and registration agree: what words resolve to is registered
/// for them, and in a tree whose sibling names are unique every handler
/// registered for the words is what they resolve to.
pub proof fn resolution_is_registration(nodes: Seq<Node>, tokens: Seq<Seq<char>>)
    ensures
        resolve(nodes, tokens) is Some ==> registers(nodes, tokens, resolve(nodes, tokens)->Some_0),
        unique_names(nodes) ==> forall|command: Command|
            registers(nodes, tokens, command) ==> resolve(nodes, tokens) == Some(command),
{
    if let Some(command) = resolve(nodes, tokens) {
        resolved_is_registered(nodes, tokens, command);
    }
    if unique_names(nodes) {
        assert forall|command: Command| registers(nodes, tokens, command) implies resolve(
            nodes,
            tokens,
        ) == Some(command) by {
            registered_path_resolves(nodes, tokens, command);
        }
    }
}

/// Words that stop short of a path with a handler, on a node that has no
/// handler of its own, resolve to nothing.
pub proof fn unfinished_path_resolves_to_none(
    nodes: Seq<Node>,
    tokens: Seq<Seq<char>>,
    path: Seq<Seq<char>>,
    command: Command,
)
    requires
        registers(nodes, path, command),
        tokens.len() < path.len(),
        tokens == path.take(tokens.len() as int),
        forall|c: Command| !registers(nodes, tokens, c),
    ensures
        resolve(nodes, tokens) is None,
{
    if let Some(c) = resolve(nodes, tokens) {
        resolved_is_registered(nodes, tokens, c);
    }
}

} // verus!
