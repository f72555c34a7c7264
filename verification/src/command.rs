//! The command builder: from the values of a request to the program and the
//! argument vector that are handed to the process-spawn primitive. No value
//! of a request is ever joined into a line for a shell to take apart again.

use crate::text::{is_word, lemma_words_are_words, split_words, words};
use vstd::prelude::*;

verus! {

/// A request to run a command of the tool against one namespace of one
/// cluster. All three values come from the network and are not trusted.
#[derive(Debug, Clone, PartialEq, Eq)]
pub struct KubectlCommand {
    /// The cluster connection that the tool is to use; passed on as it is.
    pub context: String,
    /// The partition of the cluster; passed on as it is.
    pub namespace: String,
    /// A fragment in the tool's own argument syntax, such as `get pods`.
    pub command: String,
}

/// A program and the arguments to start it with, one string per argument.
#[derive(Debug, Clone, PartialEq, Eq)]
pub struct Invocation {
    /// The executable to start.
    pub program: String,
    /// Its arguments, each handed over as it stands.
    pub args: Vec<String>,
}

/// What an [`Invocation`] stands for: the program's name and its arguments.
pub struct InvocationView {
    /// The name of the program.
    pub program: Seq<char>,
    /// The arguments, in order.
    pub args: Seq<Seq<char>>,
}

impl View for Invocation {
    type V = InvocationView;

    open spec fn view(&self) -> InvocationView {
        InvocationView { program: self.program@, args: self.args.deep_view() }
    }
}

/// The name of the tool.
pub open spec fn tool() -> Seq<char> {
    "kubectl"@
}

/// The arguments for a command fragment: its words, then the namespace and
/// the context behind their flags.
pub open spec fn run_args(fragment: Seq<char>, namespace: Seq<char>, context: Seq<char>) -> Seq<
    Seq<char>,
> {
    words(fragment) + seq!["--namespace"@, namespace, "--context"@, context]
}

/// The arguments that list the namespaces of the cluster behind `context`.
pub open spec fn namespaces_args(context: Seq<char>) -> Seq<Seq<char>> {
    seq!["get"@, "namespaces"@, "--context"@, context]
}

/// The arguments that list the contexts known to the tool.
pub open spec fn contexts_args() -> Seq<Seq<char>> {
    seq!["config"@, "get-contexts"@, "-o"@, "name"@]
}

/// However a request is worded, the namespace and the context each reach the
/// tool whole, as the one argument behind their flag, and close the argument
/// vector. What stands before them are the words of the fragment: none is
/// empty and none holds a separator.
pub proof fn lemma_run_args_keep_values_whole(
    fragment: Seq<char>,
    namespace: Seq<char>,
    context: Seq<char>,
)
    ensures
        ({
            let args = run_args(fragment, namespace, context);
            let k = words(fragment).len() as int;
            &&& args.len() == k + 4
            &&& args[k] == "--namespace"@
            &&& args[k + 1] == namespace
            &&& args[k + 2] == "--context"@
            &&& args[k + 3] == context
            &&& forall|i: int|
                0 <= i < k ==> #[trigger] args[i] == words(fragment)[i] && is_word(args[i])
        }),
{
    lemma_words_are_words(fragment);
}

/// The namespace and the context of a request have no say in how its fragment
/// is split: two requests with one fragment differ in the two values alone.
pub proof fn lemma_run_args_values_are_inert(
    fragment: Seq<char>,
    namespace: Seq<char>,
    context: Seq<char>,
    other_namespace: Seq<char>,
    other_context: Seq<char>,
)
    ensures
        ({
            let a = run_args(fragment, namespace, context);
            let b = run_args(fragment, other_namespace, other_context);
            let k = words(fragment).len() as int;
            &&& a.len() == b.len()
            &&& forall|i: int| 0 <= i < a.len() && i != k + 1 && i != k + 3 ==> a[i] == b[i]
        }),
{
}

impl KubectlCommand {
    /// How to start the tool for this request: its program, and as arguments
    /// the words of the fragment followed by `--namespace`, the namespace,
    /// `--context` and the context. An empty fragment adds no argument; an
    /// empty namespace or context is an empty argument.
    pub fn invocation(&self) -> (inv: Invocation)
        ensures
            inv@.program == tool(),
            inv@.args == run_args(self.command@, self.namespace@, self.context@),
    {
        let mut args = split_words(self.command.as_str());
        args.push("--namespace".to_owned());
        args.push(self.namespace.clone());
        args.push("--context".to_owned());
        args.push(self.context.clone());
        Invocation { program: "kubectl".to_owned(), args }
    }
}

/// How to start the tool to list the namespaces of the cluster behind
/// `context`.
pub fn namespaces_invocation(context: &str) -> (inv: Invocation)
    ensures
        inv@.program == tool(),
        inv@.args == namespaces_args(context@),
{
    let mut args: Vec<String> = Vec::new();
    args.push("get".to_owned());
    args.push("namespaces".to_owned());
    args.push("--context".to_owned());
    args.push(context.to_owned());
    Invocation { program: "kubectl".to_owned(), args }
}

/// How to start the tool to list the contexts it knows.
pub fn contexts_invocation() -> (inv: Invocation)
    ensures
        inv@.program == tool(),
        inv@.args == contexts_args(),
{
    let mut args: Vec<String> = Vec::new();
    args.push("config".to_owned());
    args.push("get-contexts".to_owned());
    args.push("-o".to_owned());
    args.push("name".to_owned());
    Invocation { program: "kubectl".to_owned(), args }
}

} // verus!
