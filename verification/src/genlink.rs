//! The builder/driver: owns one in-progress command, accumulates objects,
//! libraries and search paths by delegating formatting to the active
//! dialect, and prepares the final invocation.
//!
//! Running the finished command is process I/O and lives outside this
//! library; [`link_outcome`] classifies what such a run came back with.

use vstd::prelude::*;

use crate::cmd::Cmd;
use crate::cmd::CmdView;
use crate::errors::LinkError;
use crate::errors::LinkResult;
use crate::linker::dylibs_tokens;
use crate::linker::lemma_batch_tokens_empty;
use crate::linker::lemma_dylibs_tokens_push;
use crate::linker::lemma_objects_tokens_push;
use crate::linker::lemma_search_paths_tokens_push;
use crate::linker::lemma_staticlibs_tokens_push;
use crate::linker::objects_tokens;
use crate::linker::required_tokens;
use crate::linker::search_paths_tokens;
use crate::linker::staticlibs_tokens;
use crate::linker::Linker;

verus! {

/// Relies on `which::which`: whether an executable of the given name is
/// discoverable on the current search path. The answer depends on the
/// environment at the moment of the call, so nothing is stated of it.
#[verifier::external_body]
fn executable_on_path(name: &str) -> bool {
    which::which(name).is_ok()
}

/// Relies on `dunce::canonicalize` (`std::fs::canonicalize` behind a
/// Windows-path cleanup): the canonical absolute form of an existing path,
/// or the I/O error's message for a path that does not resolve. The answer
/// depends on what is on disk, so nothing is stated of it.
#[verifier::external_body]
fn canonical_path(path: &str) -> Result<String, String> {
    match dunce::canonicalize(path) {
        Ok(p) => Ok(p.to_string_lossy().into_owned()),
        Err(e) => Err(e.to_string()),
    }
}

/// The general linker interface: a builder for one link job.
///
/// It exclusively owns its dialect and its command in progress; every
/// registration call appends that dialect's tokens for the request.
pub struct GenLink<L> {
    linker: L,
    output: String,
    command: Cmd,
}

impl<L: Linker> GenLink<L> {
    /// The active dialect.
    pub closed spec fn dialect(&self) -> L {
        self.linker
    }

    /// The pending output path.
    pub closed spec fn output_spec(&self) -> Seq<char> {
        self.output@
    }

    /// The command in progress.
    pub closed spec fn cmd_spec(&self) -> CmdView {
        self.command@
    }

    /// Create a new builder: bind a fresh command to the dialect's
    /// executable name, run the dialect's fixed setup on it, and set the
    /// conventional default output name.
    pub fn new(linker: L) -> (r: GenLink<L>)
        ensures
            r.dialect() == linker,
            r.cmd_spec().program == linker.name_spec(),
            r.cmd_spec().args == required_tokens(linker),
            required_tokens(linker).is_prefix_of(r.cmd_spec().args),
            r.output_spec() == "a.out"@,
    {
        let p = linker.options();
        let mut command = Cmd::new(p.name);
        linker.preprocess(&mut command);
        let r = GenLink { linker, output: "a.out".to_owned(), command };
        proof {
            assert(r.cmd_spec().args =~= required_tokens(r.dialect()));
            assert(required_tokens(r.dialect()) =~= r.cmd_spec().args.subrange(
                0,
                required_tokens(r.dialect()).len() as int,
            ));
        }
        r
    }

    /// Check whether the linker exists on the `PATH`.
    ///
    /// The answer reflects the environment at the moment of the call. A
    /// `false` is an answer, not a failure: the builder is left as it was
    /// and may still be used.
    pub fn ok(&self) -> bool {
        let p = self.linker.options();
        executable_on_path(p.name.as_str())
    }

    /// Set the output file, replacing the pending name.
    pub fn output(&mut self, path: String)
        ensures
            final(self).output_spec() == path@,
            final(self).dialect() == old(self).dialect(),
            final(self).cmd_spec() == old(self).cmd_spec(),
    {
        self.output = path;
    }

    /// Add an object by its already-resolved canonical path: the dialect's
    /// object tokens for it are appended to the command.
    ///
    /// [`GenLink::obj`] resolves a path and then comes here; a caller that
    /// already holds the canonical form may use this directly.
    pub fn obj_resolved(&mut self, canonical: &str)
        ensures
            final(self).cmd_spec().program == old(self).cmd_spec().program,
            final(self).cmd_spec().args == old(self).cmd_spec().args
                + old(self).dialect().object_tokens(canonical@),
            final(self).dialect() == old(self).dialect(),
            final(self).output_spec() == old(self).output_spec(),
    {
        self.linker.add_object(&mut self.command, canonical);
    }

    /// Add an object. The path is first resolved to a canonical absolute
    /// form, and that form — not the path as given — is handed to the
    /// dialect. A path that does not resolve yields the path-resolution
    /// failure and leaves the command untouched.
    pub fn obj(&mut self, path: &str) -> (r: LinkResult<()>)
        ensures
            final(self).dialect() == old(self).dialect(),
            final(self).output_spec() == old(self).output_spec(),
            final(self).cmd_spec().program == old(self).cmd_spec().program,
            match r {
                Ok(_) => exists|c: Seq<char>|
                    final(self).cmd_spec().args == old(self).cmd_spec().args
                        + #[trigger] old(self).dialect().object_tokens(c),
                Err(e) => e is PathResolutionFailure
                    && final(self).cmd_spec() == old(self).cmd_spec(),
            },
    {
        match canonical_path(path) {
            Ok(c) => {
                self.obj_resolved(c.as_str());
                proof {
                    assert(self.cmd_spec().args == old(self).cmd_spec().args
                        + old(self).dialect().object_tokens(c@));
                }
                Ok(())
            },
            Err(message) => Err(LinkError::PathResolutionFailure { message }),
        }
    }

    /// Add a dynamic library. No existence check is made: the name is
    /// handed to the dialect as given, since it may be a system library
    /// that is no local file.
    pub fn dylib(&mut self, path: &str)
        ensures
            final(self).cmd_spec().program == old(self).cmd_spec().program,
            final(self).cmd_spec().args == old(self).cmd_spec().args
                + old(self).dialect().dylib_tokens(path@),
            final(self).dialect() == old(self).dialect(),
            final(self).output_spec() == old(self).output_spec(),
    {
        self.linker.add_dynamic_library(&mut self.command, path);
    }

    /// Add a static library. No existence check is made, as for
    /// [`GenLink::dylib`].
    pub fn staticlib(&mut self, path: &str)
        ensures
            final(self).cmd_spec().program == old(self).cmd_spec().program,
            final(self).cmd_spec().args == old(self).cmd_spec().args
                + old(self).dialect().staticlib_tokens(path@),
            final(self).dialect() == old(self).dialect(),
            final(self).output_spec() == old(self).output_spec(),
    {
        self.linker.add_static_library(&mut self.command, path);
    }

    /// Add a library search path. No existence check is made: the entry is
    /// a dialect-interpreted token, not necessarily a local file.
    ///
    /// The path stays recoverable from the appended tokens: prefix aside,
    /// it ends their last token.
    pub fn path(&mut self, path: &str)
        ensures
            final(self).cmd_spec().program == old(self).cmd_spec().program,
            final(self).cmd_spec().args == old(self).cmd_spec().args
                + old(self).dialect().search_path_tokens(path@),
            old(self).dialect().search_path_tokens(path@).len() > 0,
            path@.is_suffix_of(old(self).dialect().search_path_tokens(path@).last()),
            path@.is_suffix_of(final(self).cmd_spec().args.last()),
            final(self).dialect() == old(self).dialect(),
            final(self).output_spec() == old(self).output_spec(),
    {
        self.linker.add_search_path(&mut self.command, path);
        proof {
            assert(self.cmd_spec().args.last() == old(self).dialect().search_path_tokens(
                path@,
            ).last());
        }
    }

    /// Add objects, applying [`GenLink::obj`] to each element in order and
    /// stopping at the first failure: entries before the failing one are
    /// already on the command and stay there (no rollback), entries after
    /// it are not processed.
    pub fn objs(&mut self, paths: &Vec<String>) -> (r: LinkResult<()>)
        ensures
            final(self).dialect() == old(self).dialect(),
            final(self).output_spec() == old(self).output_spec(),
            final(self).cmd_spec().program == old(self).cmd_spec().program,
            match r {
                Ok(_) => exists|cs: Seq<Seq<char>>|
                    cs.len() == paths@.len() && final(self).cmd_spec().args == old(
                        self,
                    ).cmd_spec().args + #[trigger] objects_tokens(old(self).dialect(), cs),
                Err(e) => e is PathResolutionFailure && exists|cs: Seq<Seq<char>>|
                    cs.len() < paths@.len() && final(self).cmd_spec().args == old(
                        self,
                    ).cmd_spec().args + #[trigger] objects_tokens(old(self).dialect(), cs),
            },
    {
        let ghost l = old(self).dialect();
        let ghost args0 = old(self).cmd_spec().args;
        let ghost mut cs: Seq<Seq<char>> = Seq::empty();
        proof {
            lemma_batch_tokens_empty(l);
            assert(args0 + objects_tokens(l, cs) =~= args0);
        }
        let mut i: usize = 0;
        while i < paths.len()
            invariant
                i <= paths@.len(),
                cs.len() == i as nat,
                l == old(self).dialect(),
                args0 == old(self).cmd_spec().args,
                self.dialect() == l,
                self.output_spec() == old(self).output_spec(),
                self.cmd_spec().program == old(self).cmd_spec().program,
                self.cmd_spec().args == args0 + objects_tokens(l, cs),
            decreases paths@.len() - i,
        {
            let ghost pre = self.cmd_spec().args;
            match self.obj(paths[i].as_str()) {
                Ok(_) => {
                    proof {
                        let c = choose|c: Seq<char>|
                            self.cmd_spec().args == pre + #[trigger] l.object_tokens(c);
                        assert(self.cmd_spec().args == pre + l.object_tokens(c));
                        lemma_objects_tokens_push(l, cs, c);
                        cs = cs.push(c);
                        assert(self.cmd_spec().args =~= args0 + objects_tokens(l, cs));
                    }
                },
                Err(e) => {
                    proof {
                        assert(exists|cs2: Seq<Seq<char>>|
                            cs2.len() < paths@.len() && self.cmd_spec().args == old(
                                self,
                            ).cmd_spec().args + #[trigger] objects_tokens(
                                old(self).dialect(),
                                cs2,
                            )) by {
                            assert(self.cmd_spec().args == old(self).cmd_spec().args
                                + objects_tokens(old(self).dialect(), cs));
                        }
                    }
                    return Err(e);
                },
            }
            i += 1;
        }
        proof {
            assert(exists|cs2: Seq<Seq<char>>|
                cs2.len() == paths@.len() && self.cmd_spec().args == old(self).cmd_spec().args
                    + #[trigger] objects_tokens(old(self).dialect(), cs2)) by {
                assert(self.cmd_spec().args == old(self).cmd_spec().args + objects_tokens(
                    old(self).dialect(),
                    cs,
                ));
            }
        }
        Ok(())
    }

    /// Add dynamic libraries, applying [`GenLink::dylib`] to each element
    /// in order.
    pub fn dylibs(&mut self, paths: &Vec<String>)
        ensures
            final(self).cmd_spec().program == old(self).cmd_spec().program,
            final(self).cmd_spec().args == old(self).cmd_spec().args + dylibs_tokens(
                old(self).dialect(),
                paths.deep_view(),
            ),
            final(self).dialect() == old(self).dialect(),
            final(self).output_spec() == old(self).output_spec(),
    {
        let ghost l = old(self).dialect();
        let ghost args0 = old(self).cmd_spec().args;
        let ghost dv = paths.deep_view();
        proof {
            lemma_batch_tokens_empty(l);
            assert(dv.take(0) =~= Seq::<Seq<char>>::empty());
            assert(args0 + dylibs_tokens(l, dv.take(0)) =~= args0);
        }
        let mut i: usize = 0;
        while i < paths.len()
            invariant
                i <= paths@.len(),
                dv == paths.deep_view(),
                l == old(self).dialect(),
                args0 == old(self).cmd_spec().args,
                self.dialect() == l,
                self.output_spec() == old(self).output_spec(),
                self.cmd_spec().program == old(self).cmd_spec().program,
                self.cmd_spec().args == args0 + dylibs_tokens(l, dv.take(i as int)),
            decreases paths@.len() - i,
        {
            self.dylib(paths[i].as_str());
            proof {
                assert(dv.take(i as int + 1) =~= dv.take(i as int).push(dv[i as int]));
                lemma_dylibs_tokens_push(l, dv.take(i as int), dv[i as int]);
                assert(args0 + dylibs_tokens(l, dv.take(i as int + 1)) =~= (args0
                    + dylibs_tokens(l, dv.take(i as int))) + l.dylib_tokens(dv[i as int]));
            }
            i += 1;
        }
        proof {
            assert(dv.take(paths@.len() as int) =~= dv);
        }
    }

    /// Add static libraries, applying [`GenLink::staticlib`] to each
    /// element in order.
    pub fn staticlibs(&mut self, paths: &Vec<String>)
        ensures
            final(self).cmd_spec().program == old(self).cmd_spec().program,
            final(self).cmd_spec().args == old(self).cmd_spec().args + staticlibs_tokens(
                old(self).dialect(),
                paths.deep_view(),
            ),
            final(self).dialect() == old(self).dialect(),
            final(self).output_spec() == old(self).output_spec(),
    {
        let ghost l = old(self).dialect();
        let ghost args0 = old(self).cmd_spec().args;
        let ghost dv = paths.deep_view();
        proof {
            lemma_batch_tokens_empty(l);
            assert(dv.take(0) =~= Seq::<Seq<char>>::empty());
            assert(args0 + staticlibs_tokens(l, dv.take(0)) =~= args0);
        }
        let mut i: usize = 0;
        while i < paths.len()
            invariant
                i <= paths@.len(),
                dv == paths.deep_view(),
                l == old(self).dialect(),
                args0 == old(self).cmd_spec().args,
                self.dialect() == l,
                self.output_spec() == old(self).output_spec(),
                self.cmd_spec().program == old(self).cmd_spec().program,
                self.cmd_spec().args == args0 + staticlibs_tokens(l, dv.take(i as int)),
            decreases paths@.len() - i,
        {
            self.staticlib(paths[i].as_str());
            proof {
                assert(dv.take(i as int + 1) =~= dv.take(i as int).push(dv[i as int]));
                lemma_staticlibs_tokens_push(l, dv.take(i as int), dv[i as int]);
                assert(args0 + staticlibs_tokens(l, dv.take(i as int + 1)) =~= (args0
                    + staticlibs_tokens(l, dv.take(i as int))) + l.staticlib_tokens(
                    dv[i as int],
                ));
            }
            i += 1;
        }
        proof {
            assert(dv.take(paths@.len() as int) =~= dv);
        }
    }

    /// Add library search paths, applying [`GenLink::path`] to each
    /// element in order.
    pub fn paths(&mut self, paths: &Vec<String>)
        ensures
            final(self).cmd_spec().program == old(self).cmd_spec().program,
            final(self).cmd_spec().args == old(self).cmd_spec().args + search_paths_tokens(
                old(self).dialect(),
                paths.deep_view(),
            ),
            final(self).dialect() == old(self).dialect(),
            final(self).output_spec() == old(self).output_spec(),
    {
        let ghost l = old(self).dialect();
        let ghost args0 = old(self).cmd_spec().args;
        let ghost dv = paths.deep_view();
        proof {
            lemma_batch_tokens_empty(l);
            assert(dv.take(0) =~= Seq::<Seq<char>>::empty());
            assert(args0 + search_paths_tokens(l, dv.take(0)) =~= args0);
        }
        let mut i: usize = 0;
        while i < paths.len()
            invariant
                i <= paths@.len(),
                dv == paths.deep_view(),
                l == old(self).dialect(),
                args0 == old(self).cmd_spec().args,
                self.dialect() == l,
                self.output_spec() == old(self).output_spec(),
                self.cmd_spec().program == old(self).cmd_spec().program,
                self.cmd_spec().args == args0 + search_paths_tokens(l, dv.take(i as int)),
            decreases paths@.len() - i,
        {
            self.path(paths[i].as_str());
            proof {
                assert(dv.take(i as int + 1) =~= dv.take(i as int).push(dv[i as int]));
                lemma_search_paths_tokens_push(l, dv.take(i as int), dv[i as int]);
                assert(args0 + search_paths_tokens(l, dv.take(i as int + 1)) =~= (args0
                    + search_paths_tokens(l, dv.take(i as int))) + l.search_path_tokens(
                    dv[i as int],
                ));
            }
            i += 1;
        }
        proof {
            assert(dv.take(paths@.len() as int) =~= dv);
        }
    }

    /// The command in progress, for the caller that will run it.
    pub fn command(&self) -> (r: &Cmd)
        ensures
            r@ == self.cmd_spec(),
    {
        &self.command
    }

    /// Resolve the registered output path to its canonical absolute form,
    /// hand that form to the dialect's output formatting, and return it as
    /// the destination of the link. A path that does not resolve yields
    /// the path-resolution failure and leaves the command untouched.
    ///
    /// This is the last step before the command is run; the caller runs it
    /// and classifies the result with [`link_outcome`].
    pub fn prepare_link(&mut self) -> (r: LinkResult<String>)
        ensures
            final(self).dialect() == old(self).dialect(),
            final(self).output_spec() == old(self).output_spec(),
            final(self).cmd_spec().program == old(self).cmd_spec().program,
            match r {
                Ok(dest) => final(self).cmd_spec().args == old(self).cmd_spec().args
                    + old(self).dialect().output_tokens(dest@),
                Err(e) => e is PathResolutionFailure
                    && final(self).cmd_spec() == old(self).cmd_spec(),
            },
    {
        match canonical_path(self.output.as_str()) {
            Ok(dest) => {
                self.linker.set_output(&mut self.command, dest.as_str());
                Ok(dest)
            },
            Err(message) => Err(LinkError::PathResolutionFailure { message }),
        }
    }
}

/// Classify the outcome of one linker run: a successful exit yields the
/// destination path, a non-zero exit wraps the captured exit code and
/// output streams as the link failure.
pub fn link_outcome(
    dest: String,
    success: bool,
    code: Option<i32>,
    stdout: Vec<u8>,
    stderr: Vec<u8>,
) -> (r: LinkResult<String>)
    ensures
        success ==> r == Ok::<String, LinkError>(dest),
        !success ==> r == Err::<String, LinkError>(
            LinkError::LinkFailure { code, stdout, stderr },
        ),
{
    if success {
        Ok(dest)
    } else {
        Err(LinkError::LinkFailure { code, stdout, stderr })
    }
}

} // verus!
