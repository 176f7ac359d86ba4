//! The linker capability: the contract every concrete linker dialect
//! implements, and the spec-level token vocabulary those contracts share.

use vstd::prelude::*;

use crate::args::ArgView;
use crate::args::Property;
use crate::cmd::Cmd;

verus! {

/// The tokens a dialect emits for a sequence of arguments: each argument's
/// tokens in turn, concatenated in order.
pub open spec fn args_tokens<L: Linker>(l: L, args: Seq<ArgView>) -> Seq<Seq<char>> {
    args.map_values(|a: ArgView| l.arg_tokens(a.arg, a.value)).flatten()
}

/// The fixed tokens a dialect places on every command it initializes: its
/// required arguments, rendered in order.
pub open spec fn required_tokens<L: Linker>(l: L) -> Seq<Seq<char>> {
    args_tokens(l, l.required_args_spec())
}

/// The tokens a dialect emits for a sequence of object-file paths,
/// concatenated in order.
pub open spec fn objects_tokens<L: Linker>(l: L, values: Seq<Seq<char>>) -> Seq<Seq<char>> {
    values.map_values(|v: Seq<char>| l.object_tokens(v)).flatten()
}

/// The tokens a dialect emits for a sequence of dynamic libraries,
/// concatenated in order.
pub open spec fn dylibs_tokens<L: Linker>(l: L, values: Seq<Seq<char>>) -> Seq<Seq<char>> {
    values.map_values(|v: Seq<char>| l.dylib_tokens(v)).flatten()
}

/// The tokens a dialect emits for a sequence of static libraries,
/// concatenated in order.
pub open spec fn staticlibs_tokens<L: Linker>(l: L, values: Seq<Seq<char>>) -> Seq<Seq<char>> {
    values.map_values(|v: Seq<char>| l.staticlib_tokens(v)).flatten()
}

/// The tokens a dialect emits for a sequence of search paths, concatenated
/// in order.
pub open spec fn search_paths_tokens<L: Linker>(l: L, values: Seq<Seq<char>>) -> Seq<Seq<char>> {
    values.map_values(|v: Seq<char>| l.search_path_tokens(v)).flatten()
}

/// The contract a concrete linker dialect implements.
///
/// The spec functions fix, dialect by dialect, which tokens each semantic
/// request turns into; the executable methods are bound to emit exactly
/// those tokens. The builder never branches on which linker is active: it
/// only calls through this trait.
pub trait Linker: Sized {
    /// The dialect's executable name.
    spec fn name_spec(&self) -> Seq<char>;

    /// The dialect's required arguments, in emission order.
    spec fn required_args_spec(&self) -> Seq<ArgView>;

    /// The tokens one argument (name and optional value) turns into.
    spec fn arg_tokens(&self, name: Seq<char>, value: Option<Seq<char>>) -> Seq<Seq<char>>;

    /// The tokens one object-file path turns into.
    spec fn object_tokens(&self, value: Seq<char>) -> Seq<Seq<char>>;

    /// The tokens one dynamic-library request turns into.
    spec fn dylib_tokens(&self, path: Seq<char>) -> Seq<Seq<char>>;

    /// The tokens one static-library request turns into.
    spec fn staticlib_tokens(&self, path: Seq<char>) -> Seq<Seq<char>>;

    /// The tokens one search-path request turns into.
    spec fn search_path_tokens(&self, path: Seq<char>) -> Seq<Seq<char>>;

    /// The tokens one output-file request turns into.
    spec fn output_tokens(&self, path: Seq<char>) -> Seq<Seq<char>>;

    /// Return the static description of this dialect.
    fn options(&self) -> (p: Property)
        ensures
            p@.name == self.name_spec(),
            p@.required_args == self.required_args_spec(),
    ;

    /// Append this dialect's fixed setup — its required arguments, in
    /// order — to a freshly created command.
    fn preprocess(&self, cmd: &mut Cmd)
        ensures
            final(cmd)@.program == old(cmd)@.program,
            final(cmd)@.args == old(cmd)@.args + self.required_args_spec().map_values(
                |a: ArgView| self.arg_tokens(a.arg, a.value),
            ).flatten(),
    ;

    /// Append one object file.
    fn add_object(&self, cmd: &mut Cmd, value: &str)
        ensures
            final(cmd)@.program == old(cmd)@.program,
            final(cmd)@.args == old(cmd)@.args + self.object_tokens(value@),
    ;

    /// Append one dynamic library.
    fn add_dynamic_library(&self, cmd: &mut Cmd, path: &str)
        ensures
            final(cmd)@.program == old(cmd)@.program,
            final(cmd)@.args == old(cmd)@.args + self.dylib_tokens(path@),
    ;

    /// Append one static library.
    fn add_static_library(&self, cmd: &mut Cmd, path: &str)
        ensures
            final(cmd)@.program == old(cmd)@.program,
            final(cmd)@.args == old(cmd)@.args + self.staticlib_tokens(path@),
    ;

    /// Append one library search path.
    ///
    /// Every dialect must keep the path recoverable: the request's tokens
    /// are never empty, and the path stands, dialect-specific prefix aside,
    /// at the end of the last token.
    fn add_search_path(&self, cmd: &mut Cmd, path: &str)
        ensures
            final(cmd)@.program == old(cmd)@.program,
            final(cmd)@.args == old(cmd)@.args + self.search_path_tokens(path@),
            self.search_path_tokens(path@).len() > 0,
            path@.is_suffix_of(self.search_path_tokens(path@).last()),
    ;

    /// Append the output-file request.
    fn set_output(&self, cmd: &mut Cmd, path: &str)
        ensures
            final(cmd)@.program == old(cmd)@.program,
            final(cmd)@.args == old(cmd)@.args + self.output_tokens(path@),
    ;

    /// Append one argument in this dialect's native syntax, with or without
    /// an attached value.
    fn add_arg(&self, cmd: &mut Cmd, name: &str, value: Option<String>)
        ensures
            final(cmd)@.program == old(cmd)@.program,
            final(cmd)@.args == old(cmd)@.args + self.arg_tokens(name@, value.deep_view()),
    ;
}

/// One more object at the end of a batch appends that object's tokens.
pub(crate) proof fn lemma_objects_tokens_push<L: Linker>(l: L, values: Seq<Seq<char>>, v: Seq<char>)
    ensures
        objects_tokens(l, values.push(v)) == objects_tokens(l, values) + l.object_tokens(v),
{
    let m = values.map_values(|x: Seq<char>| l.object_tokens(x));
    assert(values.push(v).map_values(|x: Seq<char>| l.object_tokens(x)) =~= m.push(
        l.object_tokens(v),
    ));
    m.lemma_flatten_push(l.object_tokens(v));
}

/// One more dynamic library at the end of a batch appends its tokens.
pub(crate) proof fn lemma_dylibs_tokens_push<L: Linker>(l: L, values: Seq<Seq<char>>, v: Seq<char>)
    ensures
        dylibs_tokens(l, values.push(v)) == dylibs_tokens(l, values) + l.dylib_tokens(v),
{
    let m = values.map_values(|x: Seq<char>| l.dylib_tokens(x));
    assert(values.push(v).map_values(|x: Seq<char>| l.dylib_tokens(x)) =~= m.push(
        l.dylib_tokens(v),
    ));
    m.lemma_flatten_push(l.dylib_tokens(v));
}

/// One more static library at the end of a batch appends its tokens.
pub(crate) proof fn lemma_staticlibs_tokens_push<L: Linker>(
    l: L,
    values: Seq<Seq<char>>,
    v: Seq<char>,
)
    ensures
        staticlibs_tokens(l, values.push(v)) == staticlibs_tokens(l, values)
            + l.staticlib_tokens(v),
{
    let m = values.map_values(|x: Seq<char>| l.staticlib_tokens(x));
    assert(values.push(v).map_values(|x: Seq<char>| l.staticlib_tokens(x)) =~= m.push(
        l.staticlib_tokens(v),
    ));
    m.lemma_flatten_push(l.staticlib_tokens(v));
}

/// One more search path at the end of a batch appends its tokens.
pub(crate) proof fn lemma_search_paths_tokens_push<L: Linker>(
    l: L,
    values: Seq<Seq<char>>,
    v: Seq<char>,
)
    ensures
        search_paths_tokens(l, values.push(v)) == search_paths_tokens(l, values)
            + l.search_path_tokens(v),
{
    let m = values.map_values(|x: Seq<char>| l.search_path_tokens(x));
    assert(values.push(v).map_values(|x: Seq<char>| l.search_path_tokens(x)) =~= m.push(
        l.search_path_tokens(v),
    ));
    m.lemma_flatten_push(l.search_path_tokens(v));
}

/// An empty batch emits no tokens, whatever the kind.
pub(crate) proof fn lemma_batch_tokens_empty<L: Linker>(l: L)
    ensures
        objects_tokens(l, Seq::<Seq<char>>::empty()) == Seq::<Seq<char>>::empty(),
        dylibs_tokens(l, Seq::<Seq<char>>::empty()) == Seq::<Seq<char>>::empty(),
        staticlibs_tokens(l, Seq::<Seq<char>>::empty()) == Seq::<Seq<char>>::empty(),
        search_paths_tokens(l, Seq::<Seq<char>>::empty()) == Seq::<Seq<char>>::empty(),
{
    let vs = Seq::<Seq<char>>::empty();
    assert(vs.map_values(|x: Seq<char>| l.object_tokens(x)) =~= Seq::<Seq<Seq<char>>>::empty());
    assert(vs.map_values(|x: Seq<char>| l.dylib_tokens(x)) =~= Seq::<Seq<Seq<char>>>::empty());
    assert(vs.map_values(|x: Seq<char>| l.staticlib_tokens(x)) =~= Seq::<Seq<Seq<char>>>::empty());
    assert(vs.map_values(|x: Seq<char>| l.search_path_tokens(x)) =~= Seq::<
        Seq<Seq<char>>,
    >::empty());
    assert(Seq::<Seq<Seq<char>>>::empty().flatten() =~= Seq::<Seq<char>>::empty());
}

/// Law: a dialect's required tokens, once a prefix of a command's argument
/// tokens, remain a prefix after any further tokens are appended. Together
/// with the builder's construction contract — a fresh command's arguments
/// are exactly the required tokens — the required arguments stay in front
/// of every caller-supplied input.
pub proof fn lemma_required_prefix_kept<L: Linker>(l: L, args: Seq<Seq<char>>, extra: Seq<Seq<char>>)
    requires
        required_tokens(l).is_prefix_of(args),
    ensures
        required_tokens(l).is_prefix_of(args + extra),
{
    let req = required_tokens(l);
    assert(req =~= (args + extra).subrange(0, req.len() as int)) by {
        assert(req =~= args.subrange(0, req.len() as int));
    }
}

} // verus!
