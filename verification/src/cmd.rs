//! The command in progress: an executable name and an ordered, growable
//! sequence of argument tokens, owned by one builder for one link job.

use vstd::prelude::*;

verus! {

/// An in-progress external command.
///
/// It only accumulates tokens; running the finished command is the caller's
/// affair, outside this library.
pub struct Cmd {
    program: String,
    args: Vec<String>,
}

/// The mathematical value of a [`Cmd`]: the executable name and the argument
/// tokens, each as a sequence of characters.
pub struct CmdView {
    pub program: Seq<char>,
    pub args: Seq<Seq<char>>,
}

impl View for Cmd {
    type V = CmdView;

    closed spec fn view(&self) -> CmdView {
        CmdView { program: self.program@, args: self.args.deep_view() }
    }
}

impl Cmd {
    /// Create a command bound to the given executable, with no arguments yet.
    pub fn new(program: String) -> (c: Cmd)
        ensures
            c@.program == program@,
            c@.args == Seq::<Seq<char>>::empty(),
    {
        let c = Cmd { program, args: Vec::new() };
        proof {
            assert(c@.args =~= Seq::<Seq<char>>::empty());
        }
        c
    }

    /// Append one argument token at the end.
    pub fn push_token(&mut self, token: String)
        ensures
            final(self)@.program == old(self)@.program,
            final(self)@.args == old(self)@.args + seq![token@],
    {
        self.args.push(token);
        proof {
            assert(self@.args =~= old(self)@.args + seq![token@]);
        }
    }

    /// The executable name the command is bound to.
    pub fn program(&self) -> (r: &String)
        ensures
            r@ == self@.program,
    {
        &self.program
    }

    /// The argument tokens accumulated so far, in order.
    pub fn args(&self) -> (r: &Vec<String>)
        ensures
            r.deep_view() == self@.args,
    {
        &self.args
    }
}

} // verus!
