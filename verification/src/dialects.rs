//! Concrete linker dialects: the Unix-style `ld` reference dialect, and a
//! `link`-style dialect whose arguments join name and value in one token.

use vstd::prelude::*;

use crate::args::ArgView;
use crate::args::BasicArgs;
use crate::args::Property;
use crate::cmd::Cmd;
use crate::linker::Linker;

verus! {

/// Relies on `String::push_str`: appends a string slice to the end of the
/// string.
#[verifier::external_body]
fn push_str(s: &mut String, t: &str)
    ensures
        final(s)@ == old(s)@ + t@,
{
    s.push_str(t);
}

/// The Unix-style `ld` dialect: no required arguments; an argument's name
/// goes on the command line as one token and its value, when present, as
/// the next token.
pub struct Ld;

impl Linker for Ld {
    open spec fn name_spec(&self) -> Seq<char> {
        "ld"@
    }

    open spec fn required_args_spec(&self) -> Seq<ArgView> {
        Seq::empty()
    }

    open spec fn arg_tokens(&self, name: Seq<char>, value: Option<Seq<char>>) -> Seq<Seq<char>> {
        match value {
            Some(v) => seq![name, v],
            None => seq![name],
        }
    }

    open spec fn object_tokens(&self, value: Seq<char>) -> Seq<Seq<char>> {
        seq![value]
    }

    open spec fn dylib_tokens(&self, path: Seq<char>) -> Seq<Seq<char>> {
        seq!["-l"@, path]
    }

    open spec fn staticlib_tokens(&self, path: Seq<char>) -> Seq<Seq<char>> {
        seq!["-l"@, path]
    }

    open spec fn search_path_tokens(&self, path: Seq<char>) -> Seq<Seq<char>> {
        seq!["-L"@, path]
    }

    open spec fn output_tokens(&self, path: Seq<char>) -> Seq<Seq<char>> {
        seq!["-o"@, path]
    }

    fn options(&self) -> (p: Property) {
        let p = Property {
            name: "ld".to_owned(),
            required_args: Vec::new(),
            basic_args: BasicArgs {},
        };
        proof {
            assert(p@.required_args =~= Seq::<ArgView>::empty());
        }
        p
    }

    fn preprocess(&self, cmd: &mut Cmd) {
        proof {
            let m = self.required_args_spec().map_values(
                |a: ArgView| self.arg_tokens(a.arg, a.value),
            );
            assert(m =~= Seq::<Seq<Seq<char>>>::empty());
            assert(m.flatten() =~= Seq::<Seq<char>>::empty());
            assert(cmd@.args + m.flatten() =~= cmd@.args);
        }
    }

    fn add_object(&self, cmd: &mut Cmd, value: &str) {
        let ghost args0 = cmd@.args;
        cmd.push_token(value.to_owned());
        proof {
            assert(cmd@.args =~= args0 + self.object_tokens(value@));
        }
    }

    fn add_dynamic_library(&self, cmd: &mut Cmd, path: &str) {
        let ghost args0 = cmd@.args;
        self.add_arg(cmd, "-l", Some(path.to_owned()));
        proof {
            assert(cmd@.args =~= args0 + self.dylib_tokens(path@));
        }
    }

    fn add_static_library(&self, cmd: &mut Cmd, path: &str) {
        let ghost args0 = cmd@.args;
        self.add_arg(cmd, "-l", Some(path.to_owned()));
        proof {
            assert(cmd@.args =~= args0 + self.staticlib_tokens(path@));
        }
    }

    fn add_search_path(&self, cmd: &mut Cmd, path: &str) {
        let ghost args0 = cmd@.args;
        self.add_arg(cmd, "-L", Some(path.to_owned()));
        proof {
            assert(cmd@.args =~= args0 + self.search_path_tokens(path@));
            assert(self.search_path_tokens(path@).last() == path@);
            assert(path@ =~= path@.subrange(0, path@.len() as int));
        }
    }

    fn set_output(&self, cmd: &mut Cmd, path: &str) {
        let ghost args0 = cmd@.args;
        self.add_arg(cmd, "-o", Some(path.to_owned()));
        proof {
            assert(cmd@.args =~= args0 + self.output_tokens(path@));
        }
    }

    fn add_arg(&self, cmd: &mut Cmd, name: &str, value: Option<String>) {
        let ghost args0 = cmd@.args;
        let ghost tokens = self.arg_tokens(name@, value.deep_view());
        cmd.push_token(name.to_owned());
        match value {
            Some(v) => {
                cmd.push_token(v);
            },
            None => {},
        }
        proof {
            assert(cmd@.args =~= args0 + tokens);
        }
    }
}

/// A `link`-style dialect (Microsoft's linker): no required arguments; an
/// argument is a single token, `/name` alone or `/name:value` with the
/// value joined by a colon.
pub struct Link;

impl Linker for Link {
    open spec fn name_spec(&self) -> Seq<char> {
        "link"@
    }

    open spec fn required_args_spec(&self) -> Seq<ArgView> {
        Seq::empty()
    }

    open spec fn arg_tokens(&self, name: Seq<char>, value: Option<Seq<char>>) -> Seq<Seq<char>> {
        match value {
            Some(v) => seq![seq!['/'] + name + seq![':'] + v],
            None => seq![seq!['/'] + name],
        }
    }

    open spec fn object_tokens(&self, value: Seq<char>) -> Seq<Seq<char>> {
        seq![value]
    }

    open spec fn dylib_tokens(&self, path: Seq<char>) -> Seq<Seq<char>> {
        seq![path]
    }

    open spec fn staticlib_tokens(&self, path: Seq<char>) -> Seq<Seq<char>> {
        seq![path]
    }

    open spec fn search_path_tokens(&self, path: Seq<char>) -> Seq<Seq<char>> {
        self.arg_tokens("LIBPATH"@, Some(path))
    }

    open spec fn output_tokens(&self, path: Seq<char>) -> Seq<Seq<char>> {
        self.arg_tokens("OUT"@, Some(path))
    }

    fn options(&self) -> (p: Property) {
        let p = Property {
            name: "link".to_owned(),
            required_args: Vec::new(),
            basic_args: BasicArgs {},
        };
        proof {
            assert(p@.required_args =~= Seq::<ArgView>::empty());
        }
        p
    }

    fn preprocess(&self, cmd: &mut Cmd) {
        proof {
            let m = self.required_args_spec().map_values(
                |a: ArgView| self.arg_tokens(a.arg, a.value),
            );
            assert(m =~= Seq::<Seq<Seq<char>>>::empty());
            assert(m.flatten() =~= Seq::<Seq<char>>::empty());
            assert(cmd@.args + m.flatten() =~= cmd@.args);
        }
    }

    fn add_object(&self, cmd: &mut Cmd, value: &str) {
        let ghost args0 = cmd@.args;
        cmd.push_token(value.to_owned());
        proof {
            assert(cmd@.args =~= args0 + self.object_tokens(value@));
        }
    }

    fn add_dynamic_library(&self, cmd: &mut Cmd, path: &str) {
        let ghost args0 = cmd@.args;
        cmd.push_token(path.to_owned());
        proof {
            assert(cmd@.args =~= args0 + self.dylib_tokens(path@));
        }
    }

    fn add_static_library(&self, cmd: &mut Cmd, path: &str) {
        let ghost args0 = cmd@.args;
        cmd.push_token(path.to_owned());
        proof {
            assert(cmd@.args =~= args0 + self.staticlib_tokens(path@));
        }
    }

    fn add_search_path(&self, cmd: &mut Cmd, path: &str) {
        let ghost args0 = cmd@.args;
        self.add_arg(cmd, "LIBPATH", Some(path.to_owned()));
        proof {
            assert(cmd@.args =~= args0 + self.search_path_tokens(path@));
            let t = self.search_path_tokens(path@).last();
            assert(path@ =~= t.subrange(t.len() - path@.len(), t.len() as int));
        }
    }

    fn set_output(&self, cmd: &mut Cmd, path: &str) {
        let ghost args0 = cmd@.args;
        self.add_arg(cmd, "OUT", Some(path.to_owned()));
        proof {
            assert(cmd@.args =~= args0 + self.output_tokens(path@));
        }
    }

    fn add_arg(&self, cmd: &mut Cmd, name: &str, value: Option<String>) {
        let ghost tokens = self.arg_tokens(name@, value.deep_view());
        let ghost args0 = cmd@.args;
        let mut token = "/".to_owned();
        proof {
            reveal_strlit("/");
            reveal_strlit(":");
        }
        push_str(&mut token, name);
        match value {
            Some(v) => {
                push_str(&mut token, ":");
                push_str(&mut token, v.as_str());
                cmd.push_token(token);
                proof {
                    assert(cmd@.args.last() =~= tokens.last());
                }
            },
            None => {
                cmd.push_token(token);
                proof {
                    assert(cmd@.args.last() =~= tokens.last());
                }
            },
        }
        proof {
            assert(cmd@.args =~= args0 + tokens);
        }
    }
}

} // verus!
