//! The forge that hosts a project's source, and where that forge keeps the
//! archive of a release.

use vstd::prelude::*;
use crate::config::Package;

verus! {

/// The forge in which a project's source code is stored.
#[derive(Clone, Copy, Debug, PartialEq, Eq, Structural)]
pub enum GitHost {
    /// A repository under `https://github`.
    Github,
    /// A repository under `https://gitlab`.
    Gitlab,
    /// Any other place. Nothing is known of its layout, so a release is
    /// looked for where `Github` would keep it.
    Generic,
}

/// What a repository URL on the first forge begins with.
pub open spec fn github_prefix() -> Seq<char> {
    "https://github"@
}

/// What a repository URL on the second forge begins with.
pub open spec fn gitlab_prefix() -> Seq<char> {
    "https://gitlab"@
}

/// The forge of a repository URL. The prefixes are tried in a fixed order and
/// the first that matches decides; a URL that matches none is `Generic`.
pub open spec fn classify(repository: Seq<char>) -> GitHost {
    if github_prefix().is_prefix_of(repository) {
        GitHost::Github
    } else if gitlab_prefix().is_prefix_of(repository) {
        GitHost::Gitlab
    } else {
        GitHost::Generic
    }
}

/// The archive of a release as the forge lays it out: the repository, the
/// forge's path to the files of a tag, and the file's name. The version is
/// left as the variable `$pkgver`, which the descriptor's interpreter fills in.
pub open spec fn archive_template(host: GitHost, repository: Seq<char>, name: Seq<char>) -> Seq<
    char,
> {
    match host {
        GitHost::Gitlab => repository + "/-/archive/v$pkgver/"@ + name + "-$pkgver-x86_64.tar.gz"@,
        _ => repository + "/releases/download/v$pkgver/"@ + name + "-$pkgver-x86_64.tar.gz"@,
    }
}

/// Where the archive of a release is expected: a location given from outside
/// as it stands, whatever the forge, and the forge's own layout otherwise.
pub open spec fn archive_location(
    host: GitHost,
    repository: Seq<char>,
    name: Seq<char>,
    given: Option<Seq<char>>,
) -> Seq<char> {
    match given {
        Some(location) => location,
        None => archive_template(host, repository, name),
    }
}

impl GitHost {
    /// The expected location of the release archive of `package`. A location
    /// in `given` is returned unchanged.
    pub fn source(&self, package: &Package, given: Option<&str>) -> (location: String)
        ensures
            location@ == archive_location(
                *self,
                package@.repository,
                package@.name,
                given.deep_view(),
            ),
    {
        match given {
            Some(path) => String::from_str(path),
            None => {
                let mut url = package.repository.clone();
                match self {
                    GitHost::Gitlab => url.append("/-/archive/v$pkgver/"),
                    _ => url.append("/releases/download/v$pkgver/"),
                }
                url.append(package.name.as_str());
                url.append("-$pkgver-x86_64.tar.gz");
                url
            },
        }
    }
}

/// Every URL that begins with the first forge's prefix is `Github`, whatever
/// follows the prefix.
pub proof fn lemma_github_prefix_decides(rest: Seq<char>)
    ensures
        classify(github_prefix() + rest) == GitHost::Github,
{
    assert((github_prefix() + rest).subrange(0, github_prefix().len() as int) =~= github_prefix());
}

/// Every URL that begins with the second forge's prefix is `Gitlab`, whatever
/// follows the prefix.
pub proof fn lemma_gitlab_prefix_decides(rest: Seq<char>)
    ensures
        classify(gitlab_prefix() + rest) == GitHost::Gitlab,
{
    let url = gitlab_prefix() + rest;
    assert(url.subrange(0, gitlab_prefix().len() as int) =~= gitlab_prefix());
    reveal_strlit("https://github");
    reveal_strlit("https://gitlab");
    assert(github_prefix()[11] == 'h');
    assert(url[11] == 'l');
    assert(!github_prefix().is_prefix_of(url)) by {
        if github_prefix().is_prefix_of(url) {
            assert(url.subrange(0, 14)[11] == github_prefix()[11]);
        }
    }
}

/// A URL that begins with neither prefix is `Generic`, and no other URL is.
pub proof fn lemma_generic_is_the_rest(repository: Seq<char>)
    ensures
        classify(repository) == GitHost::Generic <==> !github_prefix().is_prefix_of(repository)
            && !gitlab_prefix().is_prefix_of(repository),
{
}

} // verus!
