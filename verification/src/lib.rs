//! A general interface for platform linkers.
//!
//! A caller describes a link job — object files, libraries, search paths and
//! the output file — through one builder API, and a linker dialect turns each
//! request into that linker's own command-line tokens.

mod args;
mod cmd;
mod dialects;
mod errors;
mod genlink;
mod linker;

pub use args::Arg;
pub use args::ArgView;
pub use args::BasicArgs;
pub use args::Property;
pub use args::PropertyView;
pub use cmd::Cmd;
pub use cmd::CmdView;
pub use dialects::Ld;
pub use dialects::Link;
pub use errors::LinkError;
pub use errors::LinkResult;
pub use genlink::link_outcome;
pub use genlink::GenLink;
pub use linker::args_tokens;
pub use linker::dylibs_tokens;
pub use linker::lemma_required_prefix_kept;
pub use linker::objects_tokens;
pub use linker::required_tokens;
pub use linker::search_paths_tokens;
pub use linker::staticlibs_tokens;
pub use linker::Linker;
