//! The fields of a project's manifest that packaging reads.

use vstd::prelude::*;
use crate::host::{classify, GitHost};
use crate::text::starts_with;

verus! {

/// The values of a `[package.metadata.aur]` block: what the manifest says
/// about packaging in particular. Every field may be left out.
#[derive(Debug)]
pub struct Aur {
    /// Where the release archive is kept, if not where the forge keeps it.
    pub archive: Option<String>,
    /// The name of the package, if not the project's name with `-bin`.
    pub name: Option<String>,
    /// The packages that this one cannot run without.
    pub depends: Vec<String>,
    /// The packages that this one can make use of.
    pub optdepends: Vec<String>,
}

/// An `Aur` as plain values.
pub ghost struct AurView {
    pub archive: Option<Seq<char>>,
    pub name: Option<Seq<char>>,
    pub depends: Seq<Seq<char>>,
    pub optdepends: Seq<Seq<char>>,
}

impl View for Aur {
    type V = AurView;

    open spec fn view(&self) -> AurView {
        AurView {
            archive: self.archive.deep_view(),
            name: self.name.deep_view(),
            depends: self.depends.deep_view(),
            optdepends: self.optdepends.deep_view(),
        }
    }
}

impl Default for Aur {
    /// A block that says nothing.
    fn default() -> (aur: Aur)
        ensures
            aur@.archive is None,
            aur@.name is None,
            aur@.depends =~= Seq::empty(),
            aur@.optdepends =~= Seq::empty(),
    {
        Aur { archive: None, name: None, depends: Vec::new(), optdepends: Vec::new() }
    }
}

/// The `[package.metadata]` block. The dependency lists were once written
/// here; they now belong in the `aur` block beneath it, and the lists at this
/// level are read only where that block is absent.
#[derive(Debug)]
pub struct Metadata {
    /// Deprecated: the place of `Aur::depends` in older manifests.
    pub depends: Vec<String>,
    /// Deprecated: the place of `Aur::optdepends` in older manifests.
    pub optdepends: Vec<String>,
    /// The `[package.metadata.aur]` block, where the manifest has one.
    pub aur: Option<Aur>,
}

/// A `Metadata` as plain values.
pub ghost struct MetadataView {
    pub depends: Seq<Seq<char>>,
    pub optdepends: Seq<Seq<char>>,
    pub aur: Option<AurView>,
}

impl View for Metadata {
    type V = MetadataView;

    open spec fn view(&self) -> MetadataView {
        MetadataView {
            depends: self.depends.deep_view(),
            optdepends: self.optdepends.deep_view(),
            aur: match self.aur {
                Some(aur) => Some(aur@),
                None => None,
            },
        }
    }
}

impl Default for Metadata {
    /// A block without lists and without an `aur` block.
    fn default() -> (metadata: Metadata)
        ensures
            metadata@.depends =~= Seq::empty(),
            metadata@.optdepends =~= Seq::empty(),
            metadata@.aur is None,
    {
        Metadata { depends: Vec::new(), optdepends: Vec::new(), aur: None }
    }
}

/// The fields of the manifest's `[package]` table that the descriptor is
/// written from.
#[derive(Debug)]
pub struct Package {
    pub name: String,
    pub version: String,
    pub authors: Vec<String>,
    pub description: String,
    pub homepage: String,
    pub repository: String,
    pub license: String,
    pub metadata: Metadata,
}

/// A `Package` as plain values.
pub ghost struct PackageView {
    pub name: Seq<char>,
    pub version: Seq<char>,
    pub authors: Seq<Seq<char>>,
    pub description: Seq<char>,
    pub homepage: Seq<char>,
    pub repository: Seq<char>,
    pub license: Seq<char>,
    pub metadata: MetadataView,
}

impl View for Package {
    type V = PackageView;

    open spec fn view(&self) -> PackageView {
        PackageView {
            name: self.name@,
            version: self.version@,
            authors: self.authors.deep_view(),
            description: self.description@,
            homepage: self.homepage@,
            repository: self.repository@,
            license: self.license@,
            metadata: self.metadata@,
        }
    }
}

/// The name of the archive that holds a release of `name` at `version`.
pub open spec fn tarball_name(name: Seq<char>, version: Seq<char>) -> Seq<char> {
    name + "-"@ + version + "-x86_64.tar.gz"@
}

impl Package {
    /// The file name of the archive that is built from this package. It is
    /// the caller who places it in a directory.
    pub fn tarball(&self) -> (file: String)
        ensures
            file@ == tarball_name(self@.name, self@.version),
    {
        let mut file = self.name.clone();
        file.append("-");
        file.append(self.version.as_str());
        file.append("-x86_64.tar.gz");
        file
    }

    /// The forge of this package's repository: the first whose prefix the URL
    /// begins with, `Generic` where it begins with none.
    pub fn git_host(&self) -> (host: GitHost)
        ensures
            host == classify(self@.repository),
    {
        let repository = self.repository.as_str();
        if starts_with(repository, "https://github") {
            GitHost::Github
        } else if starts_with(repository, "https://gitlab") {
            GitHost::Gitlab
        } else {
            GitHost::Generic
        }
    }
}

/// One `[[bin]]` table of the manifest.
#[derive(Debug)]
pub struct Binary {
    pub name: String,
}

/// The manifest, as far as packaging reads it.
#[derive(Debug)]
pub struct Config {
    pub package: Package,
    /// The binaries that the manifest declares. It may declare none.
    pub bin: Vec<Binary>,
}

/// A `Config` as plain values: the package, and the names of its binaries.
pub ghost struct ConfigView {
    pub package: PackageView,
    pub bin: Seq<Seq<char>>,
}

impl ConfigView {
    /// The name of the binary that is installed: that of the first declared
    /// binary, and the package's name where none is declared.
    pub open spec fn binary_name(self) -> Seq<char> {
        if self.bin.len() > 0 {
            self.bin[0]
        } else {
            self.package.name
        }
    }
}

impl View for Config {
    type V = ConfigView;

    open spec fn view(&self) -> ConfigView {
        ConfigView {
            package: self.package@,
            bin: Seq::new(self.bin@.len(), |i: int| self.bin@[i].name@),
        }
    }
}

impl Config {
    /// The name of the main binary that this project compiles to.
    pub fn binary_name(&self) -> (name: &str)
        ensures
            name@ == self@.binary_name(),
    {
        if self.bin.len() > 0 {
            self.bin[0].name.as_str()
        } else {
            self.package.name.as_str()
        }
    }
}

} // verus!
