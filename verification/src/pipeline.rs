//! The order of the work. Packaging is a fixed run of steps, each of which
//! either succeeds or ends the run; what is decided here is which step comes
//! next. The steps themselves are carried out by the caller, who reports of
//! each whether it succeeded.

use vstd::prelude::*;

verus! {

/// What the user asked for.
#[derive(Clone, Copy, Debug, PartialEq, Eq, Structural)]
pub struct Options {
    /// Build a static binary, against the musl target.
    pub musl: bool,
    /// Check the project, and build nothing.
    pub dryrun: bool,
}

/// One step of the work.
#[derive(Clone, Copy, Debug, PartialEq, Eq, Structural)]
pub enum Step {
    /// See that the static target is installed.
    CheckMusl,
    /// Make the output directory.
    PrepareOutput,
    /// Read the manifest.
    ReadManifest,
    /// Find the license file in the project's directory.
    FindLicense,
    /// Run the release build.
    Build,
    /// Pack the binary, and the license file if there is one, into the
    /// archive.
    Pack,
    /// Compute the checksum of the archive.
    Checksum,
    /// Write the descriptor.
    WriteDescriptor,
    /// Nothing is left to do.
    Done,
    /// A step has failed, and the run has ended with it. Nothing is tried
    /// again and nothing is cleaned up.
    Failed,
}

impl Step {
    /// The place of a step in the run.
    pub open spec fn rank(self) -> nat {
        match self {
            Step::CheckMusl => 0,
            Step::PrepareOutput => 1,
            Step::ReadManifest => 2,
            Step::FindLicense => 3,
            Step::Build => 4,
            Step::Pack => 5,
            Step::Checksum => 6,
            Step::WriteDescriptor => 7,
            Step::Done => 8,
            Step::Failed => 9,
        }
    }

    /// Whether the run is over at this step.
    pub open spec fn is_end(self) -> bool {
        self == Step::Done || self == Step::Failed
    }

    /// Whether a step produces something: whether it belongs to the build and
    /// to what follows from it.
    pub open spec fn builds(self) -> bool {
        self == Step::Build || self == Step::Pack || self == Step::Checksum || self
            == Step::WriteDescriptor
    }
}

/// The step that the work begins with: the check of the static target where
/// a static build is asked for, the output directory where it is not.
pub open spec fn first(options: Options) -> Step {
    if options.musl {
        Step::CheckMusl
    } else {
        Step::PrepareOutput
    }
}

/// The step after the checks: the build, unless the run is a dry one.
pub open spec fn after_checks(options: Options) -> Step {
    if options.dryrun {
        Step::Done
    } else {
        Step::Build
    }
}

/// The step that follows `step` once it has succeeded. `copy_license` says
/// whether the package has to install the license itself; it is known once
/// the manifest is read, and only the step after that goes by it.
pub open spec fn following(step: Step, options: Options, copy_license: bool) -> Step {
    match step {
        Step::CheckMusl => Step::PrepareOutput,
        Step::PrepareOutput => Step::ReadManifest,
        Step::ReadManifest => if copy_license {
            Step::FindLicense
        } else {
            after_checks(options)
        },
        Step::FindLicense => after_checks(options),
        Step::Build => Step::Pack,
        Step::Pack => Step::Checksum,
        Step::Checksum => Step::WriteDescriptor,
        Step::WriteDescriptor => Step::Done,
        Step::Done => Step::Done,
        Step::Failed => Step::Failed,
    }
}

/// The step that follows `step`, which has just been carried out. Where it
/// succeeded the run goes on as `following` says; where it failed the run is
/// over. Once the run is over it stays so.
pub open spec fn after(step: Step, options: Options, copy_license: bool, succeeded: bool) -> Step {
    if step.is_end() {
        step
    } else if succeeded {
        following(step, options, copy_license)
    } else {
        Step::Failed
    }
}

/// The step to begin with.
pub fn first_step(options: Options) -> (step: Step)
    ensures
        step == first(options),
{
    if options.musl {
        Step::CheckMusl
    } else {
        Step::PrepareOutput
    }
}

/// The step to go on with after `step`, given whether it succeeded.
pub fn next_step(step: Step, options: Options, copy_license: bool, succeeded: bool) -> (next: Step)
    ensures
        next == after(step, options, copy_license, succeeded),
{
    match step {
        Step::Done => {
            return Step::Done;
        },
        Step::Failed => {
            return Step::Failed;
        },
        _ => {},
    }
    if !succeeded {
        return Step::Failed;
    }
    match step {
        Step::CheckMusl => Step::PrepareOutput,
        Step::PrepareOutput => Step::ReadManifest,
        Step::ReadManifest => {
            if copy_license {
                Step::FindLicense
            } else if options.dryrun {
                Step::Done
            } else {
                Step::Build
            }
        },
        Step::FindLicense => {
            if options.dryrun {
                Step::Done
            } else {
                Step::Build
            }
        },
        Step::Build => Step::Pack,
        Step::Pack => Step::Checksum,
        Step::Checksum => Step::WriteDescriptor,
        Step::WriteDescriptor => Step::Done,
        Step::Done => Step::Done,
        Step::Failed => Step::Failed,
    }
}

/// A step that fails ends the run, whichever step it is and whatever was
/// asked for: no later step is carried out, and none is tried again.
pub proof fn lemma_failure_ends_the_run(step: Step, options: Options, copy_license: bool)
    requires
        !step.is_end(),
    ensures
        after(step, options, copy_license, false) == Step::Failed,
        forall|o: Options, c: bool, s: bool| after(Step::Failed, o, c, s) == Step::Failed,
{
}

/// The work never turns back: each step leads to a later one, so every run
/// comes to its end.
pub proof fn lemma_steps_advance(
    step: Step,
    options: Options,
    copy_license: bool,
    succeeded: bool,
)
    requires
        !step.is_end(),
    ensures
        after(step, options, copy_license, succeeded).rank() > step.rank(),
{
}

/// A dry run checks and builds nothing: from no step before the build does it
/// go on to a step that produces something. It still reads the manifest and,
/// where the license has to be installed, looks for the license file.
pub proof fn lemma_dry_run_builds_nothing(step: Step, options: Options, copy_license: bool)
    requires
        options.dryrun,
        !step.builds(),
    ensures
        !first(options).builds(),
        !following(step, options, copy_license).builds(),
        forall|succeeded: bool| !after(step, options, copy_license, succeeded).builds(),
        following(Step::PrepareOutput, options, copy_license) == Step::ReadManifest,
        copy_license ==> following(Step::ReadManifest, options, copy_license)
            == Step::FindLicense,
{
}

} // verus!
