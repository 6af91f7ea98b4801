//! The launcher: selects a backend for the request's filetype out of the
//! registry, instantiates it at the backend's maximum support level, and
//! drives the four pipeline stages in order, short-circuiting at the first
//! failure.

use vstd::prelude::*;

use crate::data::DataHolder;
use crate::error::SniprunError;
use crate::interpreter::ProcessOutcome;
use crate::interpreter::Rust_original;
use crate::interpreter::spec_work_dir;
use crate::interpreter::staged_code;
use crate::strings::str_eq;
use crate::support::SupportLevel;

verus! {

/// Whether some backend is registered for the filetype. The registry is a
/// static table: each backend's declared aliases, matched case-sensitively
/// and exactly, and no alias is claimed by two backends.
pub open spec fn spec_registered(filetype: Seq<char>) -> bool {
    filetype == "rust"@ || filetype == "rust-lang"@ || filetype == "rs"@
}

/// Registry lookup for one filetype alias.
pub fn is_registered(filetype: &str) -> (r: bool)
    ensures
        r == spec_registered(filetype@),
{
    str_eq(filetype, "rust") || str_eq(filetype, "rust-lang") || str_eq(filetype, "rs")
}

/// The result the whole pipeline owes for one request, given the captured
/// context and the outcomes of the two host-side process invocations. The
/// artifact outcome is immaterial unless the toolchain built successfully.
pub open spec fn spec_pipeline_result(
    data: DataHolder,
    toolchain: ProcessOutcome,
    artifact: ProcessOutcome,
    r: Result<String, SniprunError>,
) -> bool {
    if !spec_registered(data.filetype@) {
        r matches Err(e) && e matches SniprunError::UnsupportedLanguage(ft) && ft@
            == data.filetype@
    } else if !toolchain.success {
        r matches Err(e) && e matches SniprunError::CompilationError(d) && d@ == toolchain.stderr@
    } else if artifact.success {
        r matches Ok(out) && out@ == artifact.stdout@
    } else {
        r matches Err(e) && e matches SniprunError::RuntimeError(d) && d@ == artifact.stderr@
    }
}

/// Drives one request through backend selection and the pipeline.
pub struct Launcher {
    /// The context captured for the request being launched.
    pub data: DataHolder,
}

impl Launcher {
    /// A launcher bound to one captured context.
    pub fn new(data: DataHolder) -> (r: Launcher)
        ensures
            r.data == data,
    {
        Launcher { data }
    }

    /// Select the backend registered for the context's filetype and
    /// instantiate it, bound to this invocation's serial number and to the
    /// backend's maximum support level, with its code already staged and
    /// wrapped. No backend is constructed for an unregistered filetype.
    pub fn select(&self, invocation: u64) -> (r: Result<Rust_original, SniprunError>)
        ensures
            spec_registered(self.data.filetype@) <==> r is Ok,
            !spec_registered(self.data.filetype@) ==> (r matches Err(e) && e matches
                SniprunError::UnsupportedLanguage(ft) && ft@ == self.data.filetype@),
            r matches Ok(b) ==> {
                &&& b.wf()
                &&& b.support_level == SupportLevel::Bloc
                &&& b.data.equiv(self.data)
                &&& b.code@ == "fn main() {"@ + staged_code(self.data, SupportLevel::Bloc) + "}"@
                &&& b.rust_work_dir@ == spec_work_dir(self.data.work_dir@, invocation)
                &&& b.main_file_path@ == spec_work_dir(self.data.work_dir@, invocation)
                    + "/main.rs"@
                &&& b.bin_path@ == spec_work_dir(self.data.work_dir@, invocation) + "/main"@
            },
    {
        if !is_registered(self.data.filetype.as_str()) {
            return Err(SniprunError::UnsupportedLanguage(self.data.filetype.clone()));
        }
        let max = Rust_original::get_max_support_level();
        let mut backend = Rust_original::new_with_level(self.data.clone_fields(), max, invocation);
        if let Err(e) = backend.fetch_code() {
            return Err(e);
        }
        if let Err(e) = backend.add_boilerplate() {
            return Err(e);
        }
        Ok(backend)
    }

    /// The pipeline's decision core for one request: which backend runs,
    /// and how the two host-side invocations' outcomes map to the single
    /// result. The host side performs the toolchain build and, only when it
    /// succeeded, the artifact run; the first failure short-circuits the
    /// rest, and for an unregistered filetype, or a failed build, neither
    /// outcome is looked at past that point.
    pub fn select_and_run(
        &self,
        invocation: u64,
        toolchain: &ProcessOutcome,
        artifact: &ProcessOutcome,
    ) -> (r: Result<String, SniprunError>)
        ensures
            spec_pipeline_result(self.data, *toolchain, *artifact, r),
    {
        let backend = match self.select(invocation) {
            Ok(b) => b,
            Err(e) => {
                return Err(e);
            },
        };
        match backend.build(toolchain) {
            Ok(()) => (),
            Err(e) => {
                return Err(e);
            },
        }
        backend.execute(artifact)
    }
}

/// A filetype no backend is registered for is refused outright: whatever
/// the pipeline owes for such a request is the unsupported-language error
/// naming the filetype, untouched by any process outcome — no backend ever
/// ran.
pub proof fn lemma_unsupported_never_runs(
    data: DataHolder,
    toolchain: ProcessOutcome,
    artifact: ProcessOutcome,
    r: Result<String, SniprunError>,
)
    requires
        !spec_registered(data.filetype@),
        spec_pipeline_result(data, toolchain, artifact, r),
    ensures
        r matches Err(e) && e matches SniprunError::UnsupportedLanguage(ft) && ft@
            == data.filetype@,
{
}

/// A failed build short-circuits the pipeline: the result is the
/// compilation error carrying the toolchain's diagnostics, the same
/// whatever any artifact run would have come back with — the artifact is
/// never executed for that instance.
pub proof fn lemma_build_failure_short_circuits(
    data: DataHolder,
    toolchain: ProcessOutcome,
    artifact_a: ProcessOutcome,
    artifact_b: ProcessOutcome,
    r_a: Result<String, SniprunError>,
    r_b: Result<String, SniprunError>,
)
    requires
        spec_registered(data.filetype@),
        !toolchain.success,
        spec_pipeline_result(data, toolchain, artifact_a, r_a),
        spec_pipeline_result(data, toolchain, artifact_b, r_b),
    ensures
        r_a matches Err(e) && e matches SniprunError::CompilationError(d) && d@
            == toolchain.stderr@,
        r_b matches Err(e) && e matches SniprunError::CompilationError(d) && d@
            == toolchain.stderr@,
{
}

} // verus!
