//! Whether a license comes with the distribution, or has to be installed
//! from a file of the project.

use vstd::prelude::*;
use crate::error::Error;
use crate::text::{same_text, starts_with};

verus! {

/// The licenses that the distribution's `licenses` package provides, as far
/// as projects are likely to use them.
pub const LICENSES: [&'static str; 14] = [
    "AGPL-3.0-only",
    "AGPL-3.0-or-later",
    "Apache-2.0",
    "BSL-1.0",
    "GPL-2.0-only",
    "GPL-2.0-or-later",
    "GPL-3.0-only",
    "GPL-3.0-or-later",
    "LGPL-2.0-only",
    "LGPL-2.0-or-later",
    "LGPL-3.0-only",
    "LGBL-3.0-or-later",
    "MPL-2.0",
    "Unlicense",
];

/// Whether the distribution provides `license`: whether the identifier is,
/// letter for letter, one of `LICENSES`.
pub open spec fn is_provided(license: Seq<char>) -> bool {
    exists|i: int| 0 <= i < 14 && LICENSES@[i]@ == license
}

/// Whether the package has to install the license itself. It has to unless
/// the distribution provides the license.
pub fn must_copy_license(license: &str) -> (copy: bool)
    ensures
        copy == !is_provided(license@),
{
    let mut i: usize = 0;
    while i < 14
        invariant
            i <= 14,
            forall|k: int| 0 <= k < i ==> LICENSES@[k]@ != license@,
        decreases 14 - i,
    {
        if same_text(LICENSES[i], license) {
            return false;
        }
        i += 1;
    }
    true
}

/// Whether a file of this name is taken for the project's license.
pub open spec fn is_license_name(name: Seq<char>) -> bool {
    "LICENSE"@.is_prefix_of(name)
}

/// Whether `names[i]` is the first license file among `names`.
pub open spec fn is_first_license(names: Seq<Seq<char>>, i: int) -> bool {
    &&& 0 <= i < names.len()
    &&& is_license_name(names[i])
    &&& forall|k: int| 0 <= k < i ==> !is_license_name(#[trigger] names[k])
}

/// The license file among the entries of the project's directory: the first
/// whose name begins with `LICENSE`. Without such a file a license that has
/// to be installed cannot be, and the project cannot be packaged.
pub fn license_file(names: &Vec<String>) -> (found: Result<String, Error>)
    ensures
        match found {
            Ok(file) => exists|i: int|
                is_first_license(names.deep_view(), i) && file@ == names[i]@,
            Err(error) => error == Error::MissingLicense && forall|i: int|
                0 <= i < names.len() ==> !is_license_name(#[trigger] names[i]@),
        },
{
    let mut i: usize = 0;
    while i < names.len()
        invariant
            i <= names.len(),
            forall|k: int| 0 <= k < i ==> !is_license_name(#[trigger] names[k]@),
        decreases names.len() - i,
    {
        if starts_with(names[i].as_str(), "LICENSE") {
            assert(is_first_license(names.deep_view(), i as int));
            return Ok(names[i].clone());
        }
        i += 1;
    }
    Err(Error::MissingLicense)
}

} // verus!
