//! The execution contract and its Rust backend.
//!
//! Every backend stages code, wraps it in boilerplate, builds it and runs
//! it, in that fixed order on a freshly constructed instance. The build and
//! run of the toolchain are host-side work: the backend here decides what
//! to stage, says what to write and invoke (a [`BuildPlan`]), and maps the
//! outcome of each invocation into the error taxonomy.

use vstd::prelude::*;
use vstd::string::StringExecFns;

use crate::data::DataHolder;
use crate::error::SniprunError;
use crate::strings::dec_of;
use crate::strings::is_blank;
use crate::strings::is_dec_digit_char;
use crate::strings::lemma_concat_cancel_left;
use crate::strings::lemma_dec_digits;
use crate::strings::lemma_dec_injective;
use crate::strings::str_is_blank;
use crate::strings::u64_to_dec;
use crate::support::SupportLevel;

verus! {

/// What one invocation of a host-side process came back with: whether it
/// exited successfully, and its captured output and error streams.
#[derive(Debug, Clone)]
pub struct ProcessOutcome {
    pub success: bool,
    pub stdout: String,
    pub stderr: String,
}

/// What the host side must do to build a staged fragment: create the
/// working directory, write the staged code to the source path, and have
/// the toolchain compile that file into the directory; the artifact then
/// stands at the binary path.
#[derive(Debug, Clone)]
pub struct BuildPlan {
    pub work_dir: String,
    pub source_path: String,
    pub source_code: String,
    pub binary_path: String,
}

/// The code a backend stages for the given context and configured level:
/// the selected block when it is not blank and the level allows block
/// context, else the current line when it is not blank and the level allows
/// line context, else nothing. Most specific context wins.
pub open spec fn staged_code(data: DataHolder, level: SupportLevel) -> Seq<char> {
    if !is_blank(data.current_bloc@) && level.rank() >= SupportLevel::Bloc.rank() {
        data.current_bloc@
    } else if !is_blank(data.current_line@) && level.rank() >= SupportLevel::Line.rank() {
        data.current_line@
    } else {
        Seq::empty()
    }
}

/// The private working directory of one backend invocation: a subdirectory
/// of the shared cache directory, namespaced by backend family and by the
/// invocation's serial number.
pub open spec fn spec_work_dir(cache_dir: Seq<char>, invocation: u64) -> Seq<char> {
    cache_dir + "/rust_original/"@ + dec_of(invocation as nat)
}

/// The Rust backend: wraps the staged fragment in a `main` function, has
/// the host compile it with the Rust toolchain and run the produced binary.
#[allow(non_camel_case_types)]
#[derive(Debug, Clone)]
pub struct Rust_original {
    /// The configured support level; at most the backend's maximum.
    pub support_level: SupportLevel,
    /// The context captured for this invocation.
    pub data: DataHolder,
    /// The staged code.
    pub code: String,
    /// This invocation's private working directory.
    pub rust_work_dir: String,
    /// Where the produced binary stands.
    pub bin_path: String,
    /// Where the staged source file is written.
    pub main_file_path: String,
}

impl Rust_original {
    /// The instance invariant: the configured support level never passes
    /// the backend's maximum.
    pub open spec fn wf(self) -> bool {
        self.support_level.rank() <= SupportLevel::Bloc.rank()
    }

    /// A fresh backend instance for one invocation, bound to the captured
    /// context and a configured level, with a private working directory
    /// named after the invocation's serial number.
    pub fn new_with_level(data: DataHolder, support_level: SupportLevel, invocation: u64) -> (r:
        Rust_original)
        requires
            support_level.rank() <= SupportLevel::Bloc.rank(),
        ensures
            r.wf(),
            r.support_level == support_level,
            r.data == data,
            r.code@ == Seq::<char>::empty(),
            r.rust_work_dir@ == spec_work_dir(data.work_dir@, invocation),
            r.main_file_path@ == spec_work_dir(data.work_dir@, invocation) + "/main.rs"@,
            r.bin_path@ == spec_work_dir(data.work_dir@, invocation) + "/main"@,
    {
        let mut rwd = data.work_dir.clone();
        rwd.append("/rust_original/");
        let serial = u64_to_dec(invocation);
        rwd.append(serial.as_str());
        let mut mfp = rwd.clone();
        mfp.append("/main.rs");
        let mut bp = rwd.clone();
        bp.append("/main");
        Rust_original {
            support_level,
            data,
            code: String::new(),
            rust_work_dir: rwd,
            bin_path: bp,
            main_file_path: mfp,
        }
    }

    /// The filetype aliases this backend is registered for: exactly the
    /// aliases the registry answers to.
    pub fn get_supported_languages() -> (r: Vec<String>)
        ensures
            r@.len() == 3,
            r@[0]@ == "rust"@,
            r@[1]@ == "rust-lang"@,
            r@[2]@ == "rs"@,
            forall|k: int|
                0 <= k < r@.len() ==> crate::launcher::spec_registered(#[trigger] r@[k]@),
    {
        let mut v: Vec<String> = Vec::new();
        v.push(String::from_str("rust"));
        v.push(String::from_str("rust-lang"));
        v.push(String::from_str("rs"));
        v
    }

    /// The backend's display name for diagnostics.
    pub fn get_name() -> (r: String)
        ensures
            r@ == "Rust_original"@,
    {
        String::from_str("Rust_original")
    }

    /// The configured support level.
    pub fn get_current_level(&self) -> (r: SupportLevel)
        ensures
            r == self.support_level,
    {
        self.support_level
    }

    /// Reconfigure the support level; it may not pass the backend's
    /// maximum.
    pub fn set_current_level(&mut self, level: SupportLevel)
        requires
            level.rank() <= SupportLevel::Bloc.rank(),
        ensures
            final(self).wf(),
            final(self).support_level == level,
            final(self).data == old(self).data,
            final(self).code == old(self).code,
            final(self).rust_work_dir == old(self).rust_work_dir,
            final(self).bin_path == old(self).bin_path,
            final(self).main_file_path == old(self).main_file_path,
    {
        self.support_level = level;
    }

    /// The captured context.
    pub fn get_data(&self) -> (r: DataHolder)
        ensures
            r.filetype@ == self.data.filetype@,
            r.current_line@ == self.data.current_line@,
            r.current_bloc@ == self.data.current_bloc@,
            r.range == self.data.range,
            r.filepath@ == self.data.filepath@,
            r.work_dir@ == self.data.work_dir@,
            r.sniprun_root_dir@ == self.data.sniprun_root_dir@,
    {
        DataHolder {
            filetype: self.data.filetype.clone(),
            current_line: self.data.current_line.clone(),
            current_bloc: self.data.current_bloc.clone(),
            range: self.data.range,
            filepath: self.data.filepath.clone(),
            projectroot: self.data.projectroot.clone(),
            dependencies_path: self.data.dependencies_path.clone(),
            work_dir: self.data.work_dir.clone(),
            sniprun_root_dir: self.data.sniprun_root_dir.clone(),
        }
    }

    /// The most surrounding context this backend can make use of.
    pub fn get_max_support_level() -> (r: SupportLevel)
        ensures
            r == SupportLevel::Bloc,
    {
        SupportLevel::Bloc
    }

    /// Stage the most specific non-blank context the configured level
    /// admits: the selected block before the single line before nothing.
    /// Never fails for well-formed input.
    pub fn fetch_code(&mut self) -> (r: Result<(), SniprunError>)
        ensures
            r is Ok,
            final(self).code@ == staged_code(old(self).data, old(self).support_level),
            final(self).support_level == old(self).support_level,
            final(self).data == old(self).data,
            final(self).rust_work_dir == old(self).rust_work_dir,
            final(self).bin_path == old(self).bin_path,
            final(self).main_file_path == old(self).main_file_path,
    {
        if !str_is_blank(self.data.current_bloc.as_str()) && self.support_level.at_least(
            SupportLevel::Bloc,
        ) {
            self.code = self.data.current_bloc.clone();
        } else if !str_is_blank(self.data.current_line.as_str()) && self.support_level.at_least(
            SupportLevel::Line,
        ) {
            self.code = self.data.current_line.clone();
        } else {
            self.code = String::new();
        }
        Ok(())
    }

    /// Wrap the staged code into a runnable compilation unit.
    pub fn add_boilerplate(&mut self) -> (r: Result<(), SniprunError>)
        ensures
            r is Ok,
            final(self).code@ == "fn main() {"@ + old(self).code@ + "}"@,
            final(self).support_level == old(self).support_level,
            final(self).data == old(self).data,
            final(self).rust_work_dir == old(self).rust_work_dir,
            final(self).bin_path == old(self).bin_path,
            final(self).main_file_path == old(self).main_file_path,
    {
        let mut wrapped = String::from_str("fn main() {");
        wrapped.append(self.code.as_str());
        wrapped.append("}");
        self.code = wrapped;
        Ok(())
    }

    /// What the host side must write and invoke to build this instance's
    /// staged code.
    pub fn build_plan(&self) -> (r: BuildPlan)
        ensures
            r.work_dir@ == self.rust_work_dir@,
            r.source_path@ == self.main_file_path@,
            r.source_code@ == self.code@,
            r.binary_path@ == self.bin_path@,
    {
        BuildPlan {
            work_dir: self.rust_work_dir.clone(),
            source_path: self.main_file_path.clone(),
            source_code: self.code.clone(),
            binary_path: self.bin_path.clone(),
        }
    }

    /// Judge the toolchain's build invocation: a non-zero exit is a
    /// compilation error carrying the diagnostic text that was captured
    /// (possibly empty).
    pub fn build(&self, toolchain: &ProcessOutcome) -> (r: Result<(), SniprunError>)
        ensures
            toolchain.success <==> r is Ok,
            !toolchain.success ==> (r matches Err(e) && e matches SniprunError::CompilationError(d)
                && d@ == toolchain.stderr@),
    {
        if toolchain.success {
            Ok(())
        } else {
            Err(SniprunError::CompilationError(toolchain.stderr.clone()))
        }
    }

    /// Judge the artifact's run: on success the captured standard output is
    /// the result; a non-zero exit is a runtime error carrying the captured
    /// error stream.
    pub fn execute(&self, artifact: &ProcessOutcome) -> (r: Result<String, SniprunError>)
        ensures
            artifact.success ==> (r matches Ok(out) && out@ == artifact.stdout@),
            !artifact.success ==> (r matches Err(e) && e matches SniprunError::RuntimeError(d)
                && d@ == artifact.stderr@),
    {
        if artifact.success {
            Ok(artifact.stdout.clone())
        } else {
            Err(SniprunError::RuntimeError(artifact.stderr.clone()))
        }
    }
}

/// Two invocations with distinct serial numbers get working directories
/// that are distinct and not nested inside one another, whatever the shared
/// cache directory: directory isolation is what keeps concurrent runs from
/// touching each other's staged files.
pub proof fn lemma_private_dirs_disjoint(cache_dir: Seq<char>, i: u64, j: u64)
    requires
        i != j,
    ensures
        spec_work_dir(cache_dir, i) != spec_work_dir(cache_dir, j),
        !(spec_work_dir(cache_dir, i) + seq!['/']).is_prefix_of(spec_work_dir(cache_dir, j)),
        !(spec_work_dir(cache_dir, j) + seq!['/']).is_prefix_of(spec_work_dir(cache_dir, i)),
{
    let p = cache_dir + "/rust_original/"@;
    let di = dec_of(i as nat);
    let dj = dec_of(j as nat);
    assert(spec_work_dir(cache_dir, i) =~= p + di);
    assert(spec_work_dir(cache_dir, j) =~= p + dj);
    lemma_dec_digits(i as nat);
    lemma_dec_digits(j as nat);
    if p + di == p + dj {
        lemma_concat_cancel_left(p, di, dj);
        lemma_dec_injective(i as nat, j as nat);
        assert(false);
    }
    lemma_slashed_prefix_impossible(p, di, dj);
    lemma_slashed_prefix_impossible(p, dj, di);
}

/// A digits-only directory name followed by a slash is never a prefix of a
/// sibling digits-only name under the same parent.
proof fn lemma_slashed_prefix_impossible(p: Seq<char>, da: Seq<char>, db: Seq<char>)
    requires
        forall|k: int| 0 <= k < da.len() ==> is_dec_digit_char(da[k]),
        forall|k: int| 0 <= k < db.len() ==> is_dec_digit_char(db[k]),
    ensures
        !((p + da) + seq!['/']).is_prefix_of(p + db),
{
    let lhs = (p + da) + seq!['/'];
    if lhs.is_prefix_of(p + db) {
        let slash_at = p.len() + da.len();
        assert(lhs.len() == p.len() + da.len() + 1);
        assert(lhs.len() <= (p + db).len());
        assert(da.len() < db.len());
        assert(lhs[slash_at as int] == '/');
        assert((p + db)[slash_at as int] == db[da.len() as int]);
        assert(lhs[slash_at as int] == (p + db)[slash_at as int]);
        assert(is_dec_digit_char(db[da.len() as int]));
        assert(false);
    }
}

} // verus!
