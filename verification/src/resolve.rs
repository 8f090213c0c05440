//! What packaging goes by once the manifest's two generations of metadata are
//! reconciled: the `aur` block wherever the manifest has one, the older lists
//! where it has none, and a default for whatever neither gives.

use vstd::prelude::*;
use crate::config::{MetadataView, Package, PackageView};
use crate::host::{archive_location, classify};

verus! {

/// The metadata in effect for one package.
#[derive(Debug)]
pub struct Resolved {
    /// The name of the package that the descriptor builds.
    pub name: String,
    /// Where the release archive is kept: a URL, or a path below the
    /// repository.
    pub archive: String,
    /// The packages that this one cannot run without.
    pub depends: Vec<String>,
    /// The packages that this one can make use of.
    pub optdepends: Vec<String>,
}

/// A `Resolved` as plain values.
pub ghost struct ResolvedView {
    pub name: Seq<char>,
    pub archive: Seq<char>,
    pub depends: Seq<Seq<char>>,
    pub optdepends: Seq<Seq<char>>,
}

impl View for Resolved {
    type V = ResolvedView;

    open spec fn view(&self) -> ResolvedView {
        ResolvedView {
            name: self.name@,
            archive: self.archive@,
            depends: self.depends.deep_view(),
            optdepends: self.optdepends.deep_view(),
        }
    }
}

impl MetadataView {
    /// The needed packages: the list of the `aur` block where there is one,
    /// be it empty, and the older list only where there is none.
    pub open spec fn depends_in_effect(self) -> Seq<Seq<char>> {
        match self.aur {
            Some(aur) => aur.depends,
            None => self.depends,
        }
    }

    /// The optional packages, chosen as the needed ones are.
    pub open spec fn optdepends_in_effect(self) -> Seq<Seq<char>> {
        match self.aur {
            Some(aur) => aur.optdepends,
            None => self.optdepends,
        }
    }

    /// The package name that the manifest gives, if it gives one.
    pub open spec fn name_given(self) -> Option<Seq<char>> {
        match self.aur {
            Some(aur) => aur.name,
            None => None,
        }
    }

    /// The archive location that the manifest gives, if it gives one.
    pub open spec fn archive_given(self) -> Option<Seq<char>> {
        match self.aur {
            Some(aur) => aur.archive,
            None => None,
        }
    }
}

/// The name of the package: the one that the manifest gives, else the
/// project's name with `-bin` after it.
pub open spec fn package_name(package: PackageView) -> Seq<char> {
    match package.metadata.name_given() {
        Some(name) => name,
        None => package.name + "-bin"@,
    }
}

/// Where the release archive is kept: where the manifest says, else where
/// `given` says, else where the repository's forge keeps it.
pub open spec fn archive(package: PackageView, given: Option<Seq<char>>) -> Seq<char> {
    match package.metadata.archive_given() {
        Some(location) => location,
        None => archive_location(
            classify(package.repository),
            package.repository,
            package.name,
            given,
        ),
    }
}

/// The metadata in effect for `package`, with `given` as the archive
/// location handed in from outside the manifest.
pub open spec fn resolved(package: PackageView, given: Option<Seq<char>>) -> ResolvedView {
    ResolvedView {
        name: package_name(package),
        archive: archive(package, given),
        depends: package.metadata.depends_in_effect(),
        optdepends: package.metadata.optdepends_in_effect(),
    }
}

/// A copy of `items`.
fn copy_of(items: &Vec<String>) -> (copy: Vec<String>)
    ensures
        copy.deep_view() == items.deep_view(),
{
    let mut copy: Vec<String> = Vec::new();
    let mut i: usize = 0;
    while i < items.len()
        invariant
            i <= items.len(),
            copy.len() == i,
            forall|k: int| 0 <= k < i ==> copy[k]@ == items[k]@,
        decreases items.len() - i,
    {
        copy.push(items[i].clone());
        i += 1;
    }
    assert(copy.deep_view() =~= items.deep_view());
    copy
}

/// Resolves the metadata of `package`. Nothing here can fail: whatever the
/// manifest leaves out has its default. `given` is an archive location from
/// outside the manifest; it counts where the manifest names none.
pub fn resolve(package: &Package, given: Option<&str>) -> (out: Resolved)
    ensures
        out@ == resolved(package@, given.deep_view()),
{
    let host = package.git_host();
    match &package.metadata.aur {
        Some(aur) => {
            let name = match &aur.name {
                Some(name) => name.clone(),
                None => {
                    let mut name = package.name.clone();
                    name.append("-bin");
                    name
                },
            };
            let archive = match &aur.archive {
                Some(location) => location.clone(),
                None => host.source(package, given),
            };
            Resolved {
                name,
                archive,
                depends: copy_of(&aur.depends),
                optdepends: copy_of(&aur.optdepends),
            }
        },
        None => {
            let mut name = package.name.clone();
            name.append("-bin");
            Resolved {
                name,
                archive: host.source(package, given),
                depends: copy_of(&package.metadata.depends),
                optdepends: copy_of(&package.metadata.optdepends),
            }
        },
    }
}

/// A manifest with an `aur` block has that block's lists in effect exactly as
/// they stand, empty ones too, whatever the older lists hold.
pub proof fn lemma_aur_block_wins(package: PackageView, given: Option<Seq<char>>)
    requires
        package.metadata.aur is Some,
    ensures
        resolved(package, given).depends == package.metadata.aur->0.depends,
        resolved(package, given).optdepends == package.metadata.aur->0.optdepends,
{
}

/// A manifest without an `aur` block has the older lists in effect, and the
/// defaults for the package's name and for the archive.
pub proof fn lemma_older_lists_stand_in(package: PackageView, given: Option<Seq<char>>)
    requires
        package.metadata.aur is None,
    ensures
        resolved(package, given).depends == package.metadata.depends,
        resolved(package, given).optdepends == package.metadata.optdepends,
        resolved(package, given).name == package.name + "-bin"@,
        resolved(package, given).archive == archive_location(
            classify(package.repository),
            package.repository,
            package.name,
            given,
        ),
{
}

} // verus!
