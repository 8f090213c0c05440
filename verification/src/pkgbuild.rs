//! The text of the build descriptor, a `PKGBUILD`: its fields in their fixed
//! order, and the function that installs the files.

use vstd::prelude::*;
use crate::config::{Config, ConfigView};
use crate::depends::{dependency_text, format_dependencies};
use crate::resolve::{resolve, resolved, ResolvedView};
use crate::text::{find, first_index, lemma_first_index, starts_with};

verus! {

/// One line that names a maintainer.
pub open spec fn maintainer(author: Seq<char>) -> Seq<char> {
    "# Maintainer: "@ + author
}

/// The maintainers, one to a line, with a line feed between two lines and
/// none after the last.
pub open spec fn maintainers(authors: Seq<Seq<char>>) -> Seq<char>
    decreases authors.len(),
{
    if authors.len() == 0 {
        Seq::empty()
    } else if authors.len() == 1 {
        maintainer(authors[0])
    } else {
        maintainers(authors.drop_last()) + "\n"@ + maintainer(authors.last())
    }
}

/// A value between two fixed pieces of text.
pub open spec fn field(before: Seq<char>, value: Seq<char>, after: Seq<char>) -> Seq<char> {
    before + value + after
}

/// The comment lines at the head of the descriptor, and the empty line that
/// follows them.
pub open spec fn preamble(authors: Seq<Seq<char>>) -> Seq<char> {
    maintainers(authors) + "\n"@ + "#\n"@
        + "# This PKGBUILD was generated by `cargo aur`: https://crates.io/crates/cargo-aur\n"@
        + "\n"@
}

/// The fields that describe the package, from its name to what it conflicts
/// with. The release number is always 1 and the architecture always x86_64;
/// the package provides, and conflicts with, the project of its own name.
pub open spec fn description_fields(config: ConfigView, name: Seq<char>) -> Seq<char> {
    field("pkgname="@, name, "\n"@) + field("pkgver="@, config.package.version, "\n"@)
        + "pkgrel=1\n"@ + field("pkgdesc=\""@, config.package.description, "\"\n"@) + field(
        "url=\""@,
        config.package.homepage,
        "\"\n"@,
    ) + field("license=(\""@, config.package.license, "\")\n"@) + "arch=(\"x86_64\")\n"@ + field(
        "provides=(\""@,
        config.package.name,
        "\")\n"@,
    ) + field("conflicts=(\""@, config.package.name, "\")\n"@)
}

/// The dependency lines, closed by a line feed; nothing where both lists are
/// empty.
pub open spec fn dependency_fields(depends: Seq<Seq<char>>, optdepends: Seq<Seq<char>>) -> Seq<
    char,
> {
    if dependency_text(depends, optdepends).len() > 0 {
        dependency_text(depends, optdepends) + "\n"@
    } else {
        Seq::empty()
    }
}

/// Whether a character is a letter of the basic alphabet.
pub open spec fn is_letter(c: char) -> bool {
    ('a' <= c && c <= 'z') || ('A' <= c && c <= 'Z')
}

/// Whether a character may stand in the scheme of a URL: a letter, a digit,
/// or one of `+`, `-` and `.`.
pub open spec fn is_scheme_char(c: char) -> bool {
    is_letter(c) || ('0' <= c && c <= '9') || c == '+' || c == '-' || c == '.'
}

/// Whether a text is the scheme of a URL, such as `https` or `ftp`: a letter,
/// and after it nothing but what may stand in a scheme.
pub open spec fn is_scheme(text: Seq<char>) -> bool {
    &&& text.len() > 0
    &&& is_letter(text[0])
    &&& forall|i: int| 0 <= i < text.len() ==> is_scheme_char(#[trigger] text[i])
}

/// Whether a location is a URL by itself, not a path below the repository:
/// whether what stands before its first colon is a scheme, and the colon has
/// two slashes behind it.
pub open spec fn is_absolute(location: Seq<char>) -> bool {
    let colon = first_index(location, ':') as int;
    is_scheme(location.take(colon)) && "://"@.is_prefix_of(location.skip(colon))
}

/// The URL of the archive: the location itself where it is absolute, and the
/// location below the repository where it is not.
pub open spec fn source_url(repository: Seq<char>, location: Seq<char>) -> Seq<char> {
    if is_absolute(location) {
        location
    } else {
        repository + "/"@ + location
    }
}

/// The source of the package and the checksum of that source.
pub open spec fn source_fields(repository: Seq<char>, location: Seq<char>, sha256: Seq<char>) -> Seq<
    char,
> {
    field("source=(\""@, source_url(repository, location), "\")\n"@) + field(
        "sha256sums=(\""@,
        sha256,
        "\")\n"@,
    )
}

/// The command that installs a license file under the package's own
/// directory of licenses.
pub open spec fn license_install(file: Seq<char>) -> Seq<char> {
    "    install -Dm644 "@ + file + " \"$pkgdir/usr/share/licenses/$pkgname/"@ + file + "\"\n"@
}

/// The function that installs the package: always the binary, and the
/// license file where there is one to install.
pub open spec fn install_block(binary: Seq<char>, license: Option<Seq<char>>) -> Seq<char> {
    "package() {\n"@ + field("    install -Dm755 "@, binary, " -t \"$pkgdir/usr/bin\"\n"@) + (
    match license {
        Some(file) => license_install(file),
        None => Seq::empty(),
    }) + "}\n"@
}

/// The whole descriptor: the comments, an empty line, the fields that
/// describe the package, its dependencies, its source and checksum, an empty
/// line, and the install function.
pub open spec fn descriptor(
    config: ConfigView,
    metadata: ResolvedView,
    sha256: Seq<char>,
    license: Option<Seq<char>>,
) -> Seq<char> {
    preamble(config.package.authors) + description_fields(config, metadata.name)
        + dependency_fields(metadata.depends, metadata.optdepends) + source_fields(
        config.package.repository,
        metadata.archive,
        sha256,
    ) + "\n"@ + install_block(config.binary_name(), license)
}

/// Appends `value` between `before` and `after`.
fn push_field(out: &mut String, before: &str, value: &str, after: &str)
    ensures
        final(out)@ == old(out)@ + field(before@, value@, after@),
{
    out.append(before);
    out.append(value);
    out.append(after);
    assert(out@ =~= old(out)@ + field(before@, value@, after@));
}

/// Appends the line of each maintainer.
fn push_maintainers(out: &mut String, authors: &Vec<String>)
    ensures
        final(out)@ == old(out)@ + maintainers(authors.deep_view()),
{
    let ghost all = authors.deep_view();
    let ghost head = out@;
    assert(all.take(0) =~= Seq::empty());
    let mut i: usize = 0;
    while i < authors.len()
        invariant
            i <= authors.len(),
            all == authors.deep_view(),
            out@ == head + maintainers(all.take(i as int)),
        decreases authors.len() - i,
    {
        if i > 0 {
            out.append("\n");
        }
        out.append("# Maintainer: ");
        out.append(authors[i].as_str());
        proof {
            let done = all.take(i + 1);
            assert(done.drop_last() =~= all.take(i as int));
            assert(done.last() == authors[i as int]@);
            if i == 0 {
                assert(maintainers(all.take(0)) =~= Seq::empty());
                assert(done[0] == done.last());
            }
            assert(out@ =~= head + maintainers(done));
        }
        i += 1;
    }
    assert(all.take(authors.len() as int) =~= all);
}

/// Appends the comment lines and the empty line after them.
fn push_preamble(out: &mut String, authors: &Vec<String>)
    ensures
        final(out)@ == old(out)@ + preamble(authors.deep_view()),
{
    push_maintainers(out, authors);
    out.append("\n");
    out.append("#\n");
    out.append(
        "# This PKGBUILD was generated by `cargo aur`: https://crates.io/crates/cargo-aur\n",
    );
    out.append("\n");
    assert(out@ =~= old(out)@ + preamble(authors.deep_view()));
}

/// Appends the fields that describe the package.
fn push_description(out: &mut String, config: &Config, name: &str)
    ensures
        final(out)@ == old(out)@ + description_fields(config@, name@),
{
    let package = &config.package;
    push_field(out, "pkgname=", name, "\n");
    push_field(out, "pkgver=", package.version.as_str(), "\n");
    out.append("pkgrel=1\n");
    push_field(out, "pkgdesc=\"", package.description.as_str(), "\"\n");
    push_field(out, "url=\"", package.homepage.as_str(), "\"\n");
    push_field(out, "license=(\"", package.license.as_str(), "\")\n");
    out.append("arch=(\"x86_64\")\n");
    push_field(out, "provides=(\"", package.name.as_str(), "\")\n");
    push_field(out, "conflicts=(\"", package.name.as_str(), "\")\n");
    assert(out@ =~= old(out)@ + description_fields(config@, name@));
}

/// Whether `c` is a letter of the basic alphabet.
fn letter(c: char) -> (is: bool)
    ensures
        is == is_letter(c),
{
    ('a' <= c && c <= 'z') || ('A' <= c && c <= 'Z')
}

/// Whether `c` may stand in the scheme of a URL.
fn scheme_char(c: char) -> (is: bool)
    ensures
        is == is_scheme_char(c),
{
    letter(c) || ('0' <= c && c <= '9') || c == '+' || c == '-' || c == '.'
}

/// Whether `location` is a URL by itself: a scheme, `://`, and whatever
/// follows. A location that is none is a path below the repository.
pub fn is_absolute_url(location: &str) -> (absolute: bool)
    ensures
        absolute == is_absolute(location@),
{
    assert(location@.skip(0) =~= location@);
    let len: usize = location.unicode_len();
    let colon: usize = find(location, 0, ':');
    let ghost scheme = location@.take(colon as int);
    if colon == 0 || !letter(location.get_char(0)) {
        return false;
    }
    let mut i: usize = 0;
    while i < colon
        invariant
            i <= colon <= len,
            len == location@.len(),
            colon == first_index(location@, ':'),
            scheme == location@.take(colon as int),
            forall|k: int| 0 <= k < i ==> is_scheme_char(#[trigger] scheme[k]),
        decreases colon - i,
    {
        let c = location.get_char(i);
        assert(scheme[i as int] == c);
        if !scheme_char(c) {
            return false;
        }
        i += 1;
    }
    assert(is_scheme(scheme));
    let rest = location.substring_char(colon, len);
    assert(rest@ =~= location@.skip(colon as int));
    starts_with(rest, "://")
}

/// A location that begins with a scheme and `://` is absolute, whatever the
/// scheme and whatever follows, and is the archive's URL as it stands.
pub proof fn lemma_scheme_makes_absolute(scheme: Seq<char>, rest: Seq<char>, repository: Seq<char>)
    requires
        is_scheme(scheme),
    ensures
        is_absolute(scheme + "://"@ + rest),
        source_url(repository, scheme + "://"@ + rest) == scheme + "://"@ + rest,
{
    reveal_strlit("://");
    let location = scheme + "://"@ + rest;
    let n = scheme.len() as int;
    assert forall|k: int| 0 <= k < n implies location[k] != ':' by {
        assert(is_scheme_char(scheme[k]));
    }
    assert(location[n] == ':');
    lemma_first_index(location, ':', n);
    assert(location.take(n) =~= scheme);
    assert(location.skip(n).subrange(0, 3) =~= "://"@);
}

/// A location without a colon is a path below the repository.
pub proof fn lemma_path_is_relative(location: Seq<char>, repository: Seq<char>)
    requires
        !location.contains(':'),
    ensures
        !is_absolute(location),
        source_url(repository, location) == repository + "/"@ + location,
{
    reveal_strlit("://");
    let colon = first_index(location, ':') as int;
    lemma_first_index(location, ':', location.len() as int);
    assert(location.skip(colon).len() == 0);
}

/// Appends the source of the package and its checksum.
fn push_source(out: &mut String, repository: &str, location: &str, sha256: &str)
    ensures
        final(out)@ == old(out)@ + source_fields(repository@, location@, sha256@),
{
    if is_absolute_url(location) {
        push_field(out, "source=(\"", location, "\")\n");
    } else {
        let mut url = String::from_str(repository);
        url.append("/");
        url.append(location);
        push_field(out, "source=(\"", url.as_str(), "\")\n");
    }
    push_field(out, "sha256sums=(\"", sha256, "\")\n");
    assert(out@ =~= old(out)@ + source_fields(repository@, location@, sha256@));
}

/// Appends the install function.
fn push_install(out: &mut String, binary: &str, license: Option<&str>)
    ensures
        final(out)@ == old(out)@ + install_block(binary@, license.deep_view()),
{
    out.append("package() {\n");
    push_field(out, "    install -Dm755 ", binary, " -t \"$pkgdir/usr/bin\"\n");
    let ghost before = out@;
    match license {
        Some(file) => {
            out.append("    install -Dm644 ");
            out.append(file);
            out.append(" \"$pkgdir/usr/share/licenses/$pkgname/");
            out.append(file);
            out.append("\"\n");
            assert(out@ =~= before + license_install(file@));
        },
        None => {
            assert(out@ =~= before + Seq::<char>::empty());
        },
    }
    out.append("}\n");
    assert(out@ =~= old(out)@ + install_block(binary@, license.deep_view()));
}

/// The text of the descriptor for `config`. `sha256` is the checksum of the
/// release archive, `license` the name of the license file that the package
/// has to install itself, and `given` an archive location from outside the
/// manifest. The same arguments always give the same text.
pub fn pkgbuild(config: &Config, sha256: &str, license: Option<&str>, given: Option<&str>) -> (text:
    String)
    ensures
        text@ == descriptor(
            config@,
            resolved(config@.package, given.deep_view()),
            sha256@,
            license.deep_view(),
        ),
{
    let package = &config.package;
    let metadata = resolve(package, given);
    let dependencies = format_dependencies(&metadata.depends, &metadata.optdepends);

    let mut text = String::new();
    push_preamble(&mut text, &package.authors);
    push_description(&mut text, config, metadata.name.as_str());
    let ghost before = text@;
    if !dependencies.as_str().is_empty() {
        text.append(dependencies.as_str());
        text.append("\n");
    }
    assert(text@ =~= before + dependency_fields(metadata@.depends, metadata@.optdepends));
    push_source(&mut text, package.repository.as_str(), metadata.archive.as_str(), sha256);
    text.append("\n");
    push_install(&mut text, config.binary_name(), license);
    assert(text@ =~= descriptor(config@, metadata@, sha256@, license.deep_view()));
    text
}

} // verus!
