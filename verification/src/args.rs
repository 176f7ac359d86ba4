//! The argument model: a single command-line argument and a dialect's static
//! description.

use vstd::prelude::*;

verus! {

/// A command-line argument: a name and an optional value.
///
/// How the pair is rendered on a command line (joined, or as two separate
/// tokens) is the dialect's decision, not this type's.
#[derive(Clone, Debug, Hash)]
pub struct Arg {
    /// The argument's name, without any dialect-specific sigil.
    pub arg: String,
    /// The argument's value, if it carries one.
    pub value: Option<String>,
}

/// The mathematical value of an [`Arg`]: its name and value as sequences of
/// characters.
pub struct ArgView {
    pub arg: Seq<char>,
    pub value: Option<Seq<char>>,
}

impl View for Arg {
    type V = ArgView;

    open spec fn view(&self) -> ArgView {
        ArgView { arg: self.arg@, value: self.value.deep_view() }
    }
}

/// Basic options that all linkers should share.
///
/// An extension point: deliberately empty for now.
#[derive(Clone, Debug)]
pub struct BasicArgs {}

/// A dialect's static description: executable name, arguments that must be
/// present on every invocation (in order), and the basic arguments.
#[derive(Clone, Debug)]
pub struct Property {
    /// The command name of the linker.
    pub name: String,
    /// Required arguments which are always passed, in the order given here.
    pub required_args: Vec<Arg>,
    /// Basic arguments.
    pub basic_args: BasicArgs,
}

/// The mathematical value of a [`Property`].
pub struct PropertyView {
    pub name: Seq<char>,
    pub required_args: Seq<ArgView>,
}

impl View for Property {
    type V = PropertyView;

    open spec fn view(&self) -> PropertyView {
        PropertyView { name: self.name@, required_args: self.required_args.deep_view() }
    }
}

impl DeepView for Arg {
    type V = ArgView;

    open spec fn deep_view(&self) -> ArgView {
        self.view()
    }
}

} // verus!
