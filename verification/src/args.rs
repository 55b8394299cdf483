//! The argument value model: the shapes in which a caller may supply a
//! command's arguments, and their emptiness predicate.

use vstd::prelude::*;

verus! {

/// Caller-supplied command arguments: no arguments, a single string, or an
/// ordered list of strings.
pub enum ExecuteArgs {
    /// No arguments.
    NoArgs,
    /// A single string argument.
    Single(String),
    /// Multiple string arguments.
    List(Vec<String>),
}

/// The mathematical model of an [`ExecuteArgs`] value: the same three
/// shapes, over character sequences.
pub ghost enum ArgsView {
    NoArgs,
    Single(Seq<char>),
    List(Seq<Seq<char>>),
}

impl View for ExecuteArgs {
    type V = ArgsView;

    open spec fn view(&self) -> ArgsView {
        match self {
            ExecuteArgs::NoArgs => ArgsView::NoArgs,
            ExecuteArgs::Single(s) => ArgsView::Single(s@),
            ExecuteArgs::List(l) => ArgsView::List(Seq::new(l@.len(), |i: int| l@[i]@)),
        }
    }
}

/// Whether an argument value supplies nothing meaningful: no arguments, a
/// single empty string, or an empty list.
pub open spec fn args_empty(args: ArgsView) -> bool {
    match args {
        ArgsView::NoArgs => true,
        ArgsView::Single(s) => s.len() == 0,
        ArgsView::List(l) => l.len() == 0,
    }
}

impl From<()> for ExecuteArgs {
    /// No arguments.
    fn from(_v: ()) -> (r: Self) {
        ExecuteArgs::NoArgs
    }
}

impl vstd::std_specs::convert::FromSpecImpl<()> for ExecuteArgs {
    open spec fn obeys_from_spec() -> bool {
        true
    }

    open spec fn from_spec(v: ()) -> Self {
        ExecuteArgs::NoArgs
    }
}

impl From<String> for ExecuteArgs {
    /// A single string argument.
    fn from(string: String) -> (r: Self) {
        ExecuteArgs::Single(string)
    }
}

impl vstd::std_specs::convert::FromSpecImpl<String> for ExecuteArgs {
    open spec fn obeys_from_spec() -> bool {
        true
    }

    open spec fn from_spec(string: String) -> Self {
        ExecuteArgs::Single(string)
    }
}

impl From<Vec<String>> for ExecuteArgs {
    /// Multiple string arguments.
    fn from(vec: Vec<String>) -> (r: Self) {
        ExecuteArgs::List(vec)
    }
}

impl vstd::std_specs::convert::FromSpecImpl<Vec<String>> for ExecuteArgs {
    open spec fn obeys_from_spec() -> bool {
        true
    }

    open spec fn from_spec(vec: Vec<String>) -> Self {
        ExecuteArgs::List(vec)
    }
}

impl ExecuteArgs {
    /// Whether the argument value is empty: no arguments, a single empty
    /// string, or an empty list.
    pub fn is_empty(&self) -> (r: bool)
        ensures
            r == args_empty(self@),
    {
        match self {
            ExecuteArgs::NoArgs => true,
            ExecuteArgs::Single(s) => s.as_str().is_empty(),
            ExecuteArgs::List(l) => l.len() == 0,
        }
    }
}

} // verus!
