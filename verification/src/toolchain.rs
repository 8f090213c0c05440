//! The release build: what the build tool is asked for, where it leaves the
//! binary, and whether the toolchain for a static build is at hand.

use vstd::prelude::*;
use crate::error::Error;
use crate::text::{has_line, lines};

verus! {

/// The target of a static build.
pub open spec fn musl_target() -> Seq<char> {
    "x86_64-unknown-linux-musl"@
}

/// Whether the static target is among the installed ones. `installed` is the
/// list of installed targets as the toolchain's manager prints it, one to a
/// line.
pub fn musl_check(installed: &str) -> (checked: Result<(), Error>)
    ensures
        checked is Ok <==> lines(installed@).contains(musl_target()),
        checked is Err ==> checked == Err::<(), Error>(Error::MissingMuslTarget),
{
    if has_line(installed, "x86_64-unknown-linux-musl") {
        Ok(())
    } else {
        Err(Error::MissingMuslTarget)
    }
}

/// The arguments of a release build, with the static target where `musl`
/// asks for it.
pub open spec fn build_arguments(musl: bool) -> Seq<Seq<char>> {
    if musl {
        seq!["build"@, "--release"@, "--target=x86_64-unknown-linux-musl"@]
    } else {
        seq!["build"@, "--release"@]
    }
}

/// The arguments with which the build tool makes a release build.
pub fn release_build(musl: bool) -> (arguments: Vec<&'static str>)
    ensures
        arguments.deep_view() == build_arguments(musl),
{
    let mut arguments: Vec<&'static str> = Vec::new();
    arguments.push("build");
    arguments.push("--release");
    if musl {
        arguments.push("--target=x86_64-unknown-linux-musl");
    }
    assert(arguments.deep_view() =~= build_arguments(musl));
    arguments
}

/// The directory below the build tool's own in which a release build leaves
/// the binary.
pub open spec fn release_directory(musl: bool) -> Seq<char> {
    if musl {
        "x86_64-unknown-linux-musl/release"@
    } else {
        "release"@
    }
}

/// The directory, below the build tool's own, of the binary of a release
/// build.
pub fn release_dir(musl: bool) -> (directory: &'static str)
    ensures
        directory@ == release_directory(musl),
{
    if musl {
        "x86_64-unknown-linux-musl/release"
    } else {
        "release"
    }
}

} // verus!
