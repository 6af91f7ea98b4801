//! The request context: the data the editor session hands to a backend for
//! one invocation. It is captured once per run request, consumed by exactly
//! one backend instance, and replaced by an empty context after delivery.

use vstd::prelude::*;
use vstd::string::StringExecFns;

use crate::strings::join_nl;
use crate::strings::join_lines;
use crate::strings::split_after_last;
use crate::strings::tail_after_last;

verus! {

/// Everything the editor session and the host give to a backend.
///
/// Immutable once handed to a backend instance: a fresh value is built per
/// invocation and never mutated by a backend.
#[derive(Debug, Clone)]
pub struct DataHolder {
    /// Filetype of the edited file, as the host reports it.
    pub filetype: String,
    /// The line of code the run request was made from.
    pub current_line: String,
    /// The selected block of code, when the request covered a selection.
    pub current_bloc: String,
    /// Inclusive line numbers of the selected block.
    pub range: [i64; 2],
    /// Absolute path of the file being edited.
    pub filepath: String,
    /// Root of the project; left blank for now.
    pub projectroot: String,
    /// Paths of dependencies; left blank for now.
    pub dependencies_path: Vec<String>,
    /// The shared working/cache directory the core owns.
    pub work_dir: String,
    /// Root directory of the execution tool's own resources.
    pub sniprun_root_dir: String,
}

impl DataHolder {
    /// The two contexts carry the same captured values, as far as the
    /// pipeline reads them.
    pub open spec fn equiv(self, other: DataHolder) -> bool {
        &&& self.filetype@ == other.filetype@
        &&& self.current_line@ == other.current_line@
        &&& self.current_bloc@ == other.current_bloc@
        &&& self.range == other.range
        &&& self.filepath@ == other.filepath@
        &&& self.projectroot@ == other.projectroot@
        &&& self.work_dir@ == other.work_dir@
        &&& self.sniprun_root_dir@ == other.sniprun_root_dir@
    }

    /// A field-for-field copy of the context, for handing to a backend
    /// instance while the session keeps its own.
    pub fn clone_fields(&self) -> (r: DataHolder)
        ensures
            r.equiv(*self),
    {
        DataHolder {
            filetype: self.filetype.clone(),
            current_line: self.current_line.clone(),
            current_bloc: self.current_bloc.clone(),
            range: self.range,
            filepath: self.filepath.clone(),
            projectroot: self.projectroot.clone(),
            dependencies_path: self.dependencies_path.clone(),
            work_dir: self.work_dir.clone(),
            sniprun_root_dir: self.sniprun_root_dir.clone(),
        }
    }

    /// A fresh, almost empty context rooted at the given working directory.
    ///
    /// Creating the directory itself is the host side's task; the context
    /// only records where it is.
    pub fn new(work_dir: String) -> (r: DataHolder)
        ensures
            r.filetype@ == Seq::<char>::empty(),
            r.current_line@ == Seq::<char>::empty(),
            r.current_bloc@ == Seq::<char>::empty(),
            r.range@ == seq![-1i64, -1i64],
            r.filepath@ == Seq::<char>::empty(),
            r.projectroot@ == Seq::<char>::empty(),
            r.dependencies_path@.len() == 0,
            r.work_dir@ == work_dir@,
            r.sniprun_root_dir@ == Seq::<char>::empty(),
    {
        let r = DataHolder {
            filetype: String::new(),
            current_line: String::new(),
            current_bloc: String::new(),
            range: [-1, -1],
            filepath: String::new(),
            projectroot: String::new(),
            dependencies_path: Vec::new(),
            work_dir,
            sniprun_root_dir: String::new(),
        };
        proof {
            assert(r.range@ =~= seq![-1i64, -1i64]);
        }
        r
    }

    /// Fill the context from one run request: the requested line bounds and
    /// tool root, and what the host reported as filetype, current line,
    /// selected block lines and file path.
    ///
    /// The filetype is the text after the last `=` of the host's raw
    /// filetype report; the block is the reported lines joined with
    /// newlines.
    pub fn fill_data(
        &mut self,
        start: i64,
        end: i64,
        root: String,
        filetype_report: &str,
        line: String,
        bloc_lines: &Vec<String>,
        filepath: String,
    )
        ensures
            final(self).range@ == seq![start, end],
            final(self).sniprun_root_dir@ == root@,
            final(self).filetype@ == tail_after_last(filetype_report@, '='),
            final(self).current_line@ == line@,
            final(self).current_bloc@ == join_nl(bloc_lines@.map_values(|s: String| s@)),
            final(self).filepath@ == filepath@,
            final(self).projectroot == old(self).projectroot,
            final(self).dependencies_path == old(self).dependencies_path,
            final(self).work_dir == old(self).work_dir,
    {
        self.range = [start, end];
        self.sniprun_root_dir = root;
        self.filetype = split_after_last(filetype_report, '=');
        self.current_line = line;
        self.current_bloc = join_lines(bloc_lines);
        self.filepath = filepath;
        proof {
            assert(self.range@ =~= seq![start, end]);
        }
    }
}

/// Convert the request's inclusive one-based line bounds to the host
/// buffer's native indexing: zero-based start, end-exclusive at the
/// boundary.
pub fn to_host_line_range(start: i64, end: i64) -> (r: (i64, i64))
    requires
        start > i64::MIN,
    ensures
        r.0 == start - 1,
        r.1 == end,
{
    (start - 1, end)
}

} // verus!
