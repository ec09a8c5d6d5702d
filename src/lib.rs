use vstd::prelude::*;
use crate::paths::PathParts;
use crate::timestamp::Timestamp;
use crate::text::{chars_of, string_of, split_lines, join_text, join_lines, lines_of};
use crate::rs2md::{rs2md_lines, rs2md_spec};
use crate::md2rs::{md2rs_lines, md2rs_spec, warnings_view};

pub mod timestamp;
pub mod text;
pub mod paths;
pub mod check;
pub mod syntax;
pub mod playground;
pub mod rs2md;
pub mod md2rs;
pub mod engine;
pub mod laws;
pub mod round_trip;

pub use crate::check::Transform;

verus! {

/// Name of the file whose modification time records the last successful run.
pub const STAMP: &'static str = "tango.stamp";

/// Name of the root directory of the source tree.
pub const SRC_DIR: &'static str = "src";

/// Name of the root directory of the literate tree. Both trees share one
/// directory, since build tools expect all sources under it.
pub const LIT_DIR: &'static str = "src";

#[verifier::external_type_specification]
#[verifier::external_body]
pub struct ExIoError(std::io::Error);

/// Where to run, and whether to list the tracked inputs for a build tool.
pub struct Config {
    pub root: PathParts,
    pub rerun_if: bool,
}

impl Config {
    pub fn new(root: PathParts) -> (r: Config)
        ensures
            r.root@ == root@,
            !r.rerun_if,
    {
        Config { root, rerun_if: false }
    }

    /// Asks for one `rerun-if-changed` line per tracked input.
    pub fn emit_rerun_if(&mut self) -> (r: &mut Config)
        ensures
            r.rerun_if,
            r.root@ == old(self).root@,
            *final(self) == *final(r),
    {
        self.rerun_if = true;
        self
    }
}

/// A condition met during conversion that does not stop it.
pub enum Warning {
    /// A playground link after a code block holds another address than the
    /// one computed from the block.
    EncodedUrlMismatch { actual: String, expect: String },
}

/// Why a run failed.
pub enum Error {
    IoError(std::io::Error),
    CheckInputError { error: check::Error },
    MtimeError(PathParts),
    ConcurrentUpdate { path_buf: PathParts, old_time: Timestamp, new_time: Timestamp },
    Warnings(Vec<Warning>),
}

/// Converts the text of a source file into the text of its Markdown form.
pub fn rs2md(source: &str) -> (r: String)
    ensures
        r@ == join_lines(rs2md_spec(lines_of(source@))),
{
    let lines = split_lines(&chars_of(source));
    string_of(&join_text(&rs2md_lines(&lines)))
}

/// Converts the text of a Markdown file into the text of its source form,
/// with the warnings met on the way.
pub fn md2rs(source: &str) -> (r: (String, Vec<Warning>))
    ensures
        r.0@ == join_lines(md2rs_spec(lines_of(source@)).0),
        warnings_view(r.1@) == md2rs_spec(lines_of(source@)).1,
{
    let lines = split_lines(&chars_of(source));
    let (out, warns) = md2rs_lines(&lines);
    (string_of(&join_text(&out)), warns)
}

} // verus!
