//! The pipeline's planned steps and the fail-fast runner that issues them.
//!
//! A plan is an ordered list of steps; a driver asks for the next step,
//! performs it (filesystem work or an external process), and reports the
//! outcome. The first failure stops the run: after a failed report no further
//! step is ever issued.

use vstd::prelude::*;

verus! {

/// One planned pipeline step. Process steps carry the parameters of the
/// invocation; the exact argument lists come from the planners in `cmd` and
/// `cargo`.
pub enum Step {
    /// Create a directory (and its parents).
    CreateDir { path: String },
    /// Copy one file.
    CopyFile { from: String, to: String },
    /// Copy a directory tree onto the destination, overwriting shared paths.
    CopyDir { from: String, to: String },
    /// Rename a file or directory.
    Rename { from: String, to: String },
    /// Write a text file.
    WriteFile { path: String, contents: String },
    /// Delete a transient file.
    RemoveFile { path: String },
    /// Run the native compiler for one target.
    CargoBuild { dir: String, triple: String, cargo_args: Vec<String> },
    /// Run the interface-language compiler for one target.
    RunSwiftc { triple: String, module_name: String, frameworks_path: String },
    /// Insert an object into an archive.
    RunAr { archive: String, object: String },
    /// Combine per-target binaries into one universal binary.
    RunLipo { inputs: Vec<String>, output: String },
    /// Assemble one umbrella container from merged bundles.
    RunXcodebuild { name: String, paths: Vec<String>, output: String },
    /// Append text to a file, creating it when absent.
    AppendFile { path: String, contents: String },
    /// Run the version-control tool.
    RunGit { args: Vec<String> },
    /// Run the archiving tool.
    RunTar { args: Vec<String> },
}

/// The mathematical view of a step.
pub enum StepV {
    CreateDir { path: Seq<char> },
    CopyFile { from: Seq<char>, to: Seq<char> },
    CopyDir { from: Seq<char>, to: Seq<char> },
    Rename { from: Seq<char>, to: Seq<char> },
    WriteFile { path: Seq<char>, contents: Seq<char> },
    RemoveFile { path: Seq<char> },
    CargoBuild { dir: Seq<char>, triple: Seq<char>, cargo_args: Seq<Seq<char>> },
    RunSwiftc { triple: Seq<char>, module_name: Seq<char>, frameworks_path: Seq<char> },
    RunAr { archive: Seq<char>, object: Seq<char> },
    RunLipo { inputs: Seq<Seq<char>>, output: Seq<char> },
    RunXcodebuild { name: Seq<char>, paths: Seq<Seq<char>>, output: Seq<char> },
    AppendFile { path: Seq<char>, contents: Seq<char> },
    RunGit { args: Seq<Seq<char>> },
    RunTar { args: Seq<Seq<char>> },
}

impl View for Step {
    type V = StepV;

    open spec fn view(&self) -> StepV {
        match self {
            Step::CreateDir { path } => StepV::CreateDir { path: path@ },
            Step::CopyFile { from, to } => StepV::CopyFile { from: from@, to: to@ },
            Step::CopyDir { from, to } => StepV::CopyDir { from: from@, to: to@ },
            Step::Rename { from, to } => StepV::Rename { from: from@, to: to@ },
            Step::WriteFile { path, contents } => StepV::WriteFile {
                path: path@,
                contents: contents@,
            },
            Step::RemoveFile { path } => StepV::RemoveFile { path: path@ },
            Step::CargoBuild { dir, triple, cargo_args } => StepV::CargoBuild {
                dir: dir@,
                triple: triple@,
                cargo_args: crate::cmd::views(cargo_args@),
            },
            Step::RunSwiftc { triple, module_name, frameworks_path } => StepV::RunSwiftc {
                triple: triple@,
                module_name: module_name@,
                frameworks_path: frameworks_path@,
            },
            Step::RunAr { archive, object } => StepV::RunAr {
                archive: archive@,
                object: object@,
            },
            Step::RunLipo { inputs, output } => StepV::RunLipo {
                inputs: crate::cmd::views(inputs@),
                output: output@,
            },
            Step::RunXcodebuild { name, paths, output } => StepV::RunXcodebuild {
                name: name@,
                paths: crate::cmd::views(paths@),
                output: output@,
            },
            Step::AppendFile { path, contents } => StepV::AppendFile {
                path: path@,
                contents: contents@,
            },
            Step::RunGit { args } => StepV::RunGit { args: crate::cmd::views(args@) },
            Step::RunTar { args } => StepV::RunTar { args: crate::cmd::views(args@) },
        }
    }
}

/// The views of a step list.
pub open spec fn steps_view(s: Seq<Step>) -> Seq<StepV> {
    s.map_values(|x: Step| x@)
}

/// A native-compiler step: the artifact collector's compile phase.
pub open spec fn is_compile_step(s: StepV) -> bool {
    s is CargoBuild
}

/// A bundle-synthesis or merge step: everything that builds, rewrites or
/// combines bundle content.
pub open spec fn is_synth_step(s: StepV) -> bool {
    match s {
        StepV::CopyDir { .. } => true,
        StepV::Rename { .. } => true,
        StepV::WriteFile { .. } => true,
        StepV::RemoveFile { .. } => true,
        StepV::RunSwiftc { .. } => true,
        StepV::RunAr { .. } => true,
        StepV::RunLipo { .. } => true,
        StepV::RunXcodebuild { .. } => true,
        _ => false,
    }
}

/// No step of `s` is a synthesis or merge step.
pub open spec fn no_synth(s: Seq<StepV>) -> bool {
    forall|k: int| 0 <= k < s.len() ==> !is_synth_step(#[trigger] s[k])
}

/// No step of `s` is a native-compiler step.
pub open spec fn no_compile(s: Seq<StepV>) -> bool {
    forall|k: int| 0 <= k < s.len() ==> !is_compile_step(#[trigger] s[k])
}

pub proof fn lemma_no_synth_concat(a: Seq<StepV>, b: Seq<StepV>)
    requires
        no_synth(a),
        no_synth(b),
    ensures
        no_synth(a + b),
{
    assert forall|k: int| 0 <= k < (a + b).len() implies !is_synth_step(#[trigger] (a + b)[k]) by {
        if k < a.len() {
            assert((a + b)[k] == a[k]);
        } else {
            assert((a + b)[k] == b[k - a.len()]);
        }
    }
}

pub proof fn lemma_no_compile_concat(a: Seq<StepV>, b: Seq<StepV>)
    requires
        no_compile(a),
        no_compile(b),
    ensures
        no_compile(a + b),
{
    assert forall|k: int| 0 <= k < (a + b).len() implies !is_compile_step(
        #[trigger] (a + b)[k],
    ) by {
        if k < a.len() {
            assert((a + b)[k] == a[k]);
        } else {
            assert((a + b)[k] == b[k - a.len()]);
        }
    }
}

/// The fail-fast executor state over one plan: steps are issued in order and
/// the first reported failure is terminal — after it no step is issued again.
pub struct Runner {
    pub steps: Vec<Step>,
    pub pos: usize,
    pub failed: bool,
}

impl Runner {
    pub open spec fn wf(self) -> bool {
        self.pos <= self.steps@.len()
    }

    /// The steps issued so far.
    pub open spec fn issued(self) -> Seq<StepV> {
        steps_view(self.steps@).subrange(0, self.pos as int)
    }

    pub fn new(steps: Vec<Step>) -> (r: Runner)
        ensures
            r.wf(),
            r.steps@ == steps@,
            r.pos == 0,
            !r.failed,
    {
        Runner { steps, pos: 0, failed: false }
    }

    /// The next step to perform: `None` once the run has failed or finished.
    /// A failed run never issues another step.
    pub fn next(&self) -> (r: Option<&Step>)
        requires
            self.wf(),
        ensures
            match r {
                Some(s) => !self.failed && self.pos < self.steps@.len() && s@ == (
                self.steps@[self.pos as int])@,
                None => self.failed || self.pos == self.steps@.len(),
            },
    {
        if self.failed || self.pos >= self.steps.len() {
            None
        } else {
            Some(&self.steps[self.pos])
        }
    }

    /// Reports the outcome of the step last issued. Success advances the
    /// plan; failure is terminal and freezes the set of issued steps.
    pub fn report(&mut self, ok: bool)
        requires
            old(self).wf(),
            !old(self).failed,
            old(self).pos < old(self).steps@.len(),
        ensures
            final(self).wf(),
            final(self).steps@ == old(self).steps@,
            ok ==> final(self).pos == old(self).pos + 1 && !final(self).failed
                && final(self).issued() == old(self).issued().push(
                (old(self).steps@[old(self).pos as int])@,
            ),
            !ok ==> final(self).failed && final(self).pos == old(self).pos && final(self).issued()
                == old(self).issued(),
    {
        if ok {
            let n: usize = self.steps.len();
            proof {
                assert(self.pos < n);
            }
            self.pos = self.pos + 1;
            proof {
                assert(self.issued() =~= old(self).issued().push(
                    steps_view(self.steps@)[old(self).pos as int],
                ));
            }
        } else {
            self.failed = true;
        }
    }
}

} // verus!
