use cargo_aur::pkgbuild::{is_absolute_url, pkgbuild};
use cargo_aur::{Aur, Binary, Config, Metadata, Package};

fn config() -> Config {
    Config {
        package: Package {
            name: "foo".to_string(),
            version: "1.2.3".to_string(),
            authors: vec!["Jane Doe <jane@example.org>".to_string()],
            description: "A tool.".to_string(),
            homepage: "https://example.org/foo".to_string(),
            repository: "https://github.com/u/foo".to_string(),
            license: "MIT".to_string(),
            metadata: Metadata::default(),
        },
        bin: vec![],
    }
}

const SUM: &str = "ba7816bf8f01cfea414140de5dae2223b00361a396177a9cb410ff61f20015ad";

#[test]
fn descriptor_of_a_plain_manifest() {
    let expected = "\
# Maintainer: Jane Doe <jane@example.org>
#
# This PKGBUILD was generated by `cargo aur`: https://crates.io/crates/cargo-aur

pkgname=foo-bin
pkgver=1.2.3
pkgrel=1
pkgdesc=\"A tool.\"
url=\"https://example.org/foo\"
license=(\"MIT\")
arch=(\"x86_64\")
provides=(\"foo\")
conflicts=(\"foo\")
source=(\"https://github.com/u/foo/releases/download/v$pkgver/foo-$pkgver-x86_64.tar.gz\")
sha256sums=(\"ba7816bf8f01cfea414140de5dae2223b00361a396177a9cb410ff61f20015ad\")

package() {
    install -Dm755 foo -t \"$pkgdir/usr/bin\"
    install -Dm644 LICENSE \"$pkgdir/usr/share/licenses/$pkgname/LICENSE\"
}
";
    assert_eq!(pkgbuild(&config(), SUM, Some("LICENSE"), None), expected);
}

#[test]
fn descriptor_with_everything() {
    let mut config = config();
    config.package.authors.push("John Roe".to_string());
    config.package.repository = "https://gitlab.com/u/foo".to_string();
    config.package.license = "GPL-3.0-only".to_string();
    config.package.metadata = Metadata {
        depends: vec!["ignored".to_string()],
        optdepends: vec![],
        aur: Some(Aur {
            archive: None,
            name: Some("foo-prebuilt".to_string()),
            depends: vec!["gcc-libs".to_string(), "openssl".to_string()],
            optdepends: vec!["git".to_string()],
        }),
    };
    config.bin = vec![Binary { name: "foo-cli".to_string() }];
    let expected = "\
# Maintainer: Jane Doe <jane@example.org>
# Maintainer: John Roe
#
# This PKGBUILD was generated by `cargo aur`: https://crates.io/crates/cargo-aur

pkgname=foo-prebuilt
pkgver=1.2.3
pkgrel=1
pkgdesc=\"A tool.\"
url=\"https://example.org/foo\"
license=(\"GPL-3.0-only\")
arch=(\"x86_64\")
provides=(\"foo\")
conflicts=(\"foo\")
depends=(\"gcc-libs\" \"openssl\")
optdepends=(\"git\")
source=(\"https://gitlab.com/u/foo/-/archive/v$pkgver/foo-$pkgver-x86_64.tar.gz\")
sha256sums=(\"ba7816bf8f01cfea414140de5dae2223b00361a396177a9cb410ff61f20015ad\")

package() {
    install -Dm755 foo-cli -t \"$pkgdir/usr/bin\"
}
";
    assert_eq!(pkgbuild(&config, SUM, None, None), expected);
}

#[test]
fn descriptor_without_authors_begins_with_an_empty_line() {
    let mut config = config();
    config.package.authors.clear();
    let text = pkgbuild(&config, SUM, None, None);
    assert!(text.starts_with("\n#\n# This PKGBUILD was generated by"));
}

#[test]
fn descriptor_with_one_list_has_one_dependency_line() {
    let mut config = config();
    config.package.metadata.optdepends = vec!["git".to_string()];
    let text = pkgbuild(&config, SUM, None, None);
    assert!(text.contains("conflicts=(\"foo\")\noptdepends=(\"git\")\nsource=("));
    assert!(!text.contains("\ndepends="));
}

#[test]
fn archive_below_the_repository() {
    let mut config = config();
    config.package.metadata.aur =
        Some(Aur { archive: Some("releases/foo.tar.gz".to_string()), name: None, depends: vec![], optdepends: vec![] });
    let text = pkgbuild(&config, SUM, None, None);
    assert!(text.contains("\nsource=(\"https://github.com/u/foo/releases/foo.tar.gz\")\n"));
}

#[test]
fn archive_with_a_url_of_its_own() {
    let mut config = config();
    config.package.metadata.aur = Some(Aur {
        archive: Some("https://mirror.example.org/foo.tar.gz".to_string()),
        name: None,
        depends: vec![],
        optdepends: vec![],
    });
    let text = pkgbuild(&config, SUM, None, None);
    assert!(text.contains("\nsource=(\"https://mirror.example.org/foo.tar.gz\")\n"));
}

#[test]
fn archive_given_from_outside() {
    let text = pkgbuild(&config(), SUM, None, Some("https://mirror.example.org/foo.tar.gz"));
    assert!(text.contains("\nsource=(\"https://mirror.example.org/foo.tar.gz\")\n"));
    let text = pkgbuild(&config(), SUM, None, Some("http://mirror.example.org/foo.tar.gz"));
    assert!(text.contains("\nsource=(\"http://mirror.example.org/foo.tar.gz\")\n"));
    let text = pkgbuild(&config(), SUM, None, Some("dist/foo.tar.gz"));
    assert!(text.contains("\nsource=(\"https://github.com/u/foo/dist/foo.tar.gz\")\n"));
    let text = pkgbuild(&config(), SUM, None, Some(""));
    assert!(text.contains("\nsource=(\"https://github.com/u/foo/\")\n"));
}

#[test]
fn same_manifest_same_descriptor() {
    assert_eq!(pkgbuild(&config(), SUM, Some("LICENSE"), None), pkgbuild(&config(), SUM, Some("LICENSE"), None));
}

#[test]
fn archive_with_a_url_that_is_not_https() {
    let mut config = config();
    config.package.metadata.aur = Some(Aur {
        archive: Some("http://example.org/foo.tar.gz".to_string()),
        name: None,
        depends: vec![],
        optdepends: vec![],
    });
    let text = pkgbuild(&config, SUM, None, None);
    assert!(text.contains("\nsource=(\"http://example.org/foo.tar.gz\")\n"));
    assert!(!text.contains("https://github.com/u/foo/http"));
}

#[test]
fn locations_with_a_scheme_are_absolute() {
    for location in [
        "https://example.org/foo.tar.gz",
        "http://example.org/foo.tar.gz",
        "ftp://example.org/pub/foo.tar.gz",
        "file:///srv/foo.tar.gz",
        "HTTPS://EXAMPLE.ORG",
        "git+ssh://example.org/foo",
        "a://",
        "x-1.y://z",
        "http://a:8080/b://c",
    ] {
        assert!(is_absolute_url(location), "{}", location);
    }
}

#[test]
fn locations_without_a_scheme_are_paths() {
    for location in [
        "",
        "foo.tar.gz",
        "dist/foo.tar.gz",
        "/dist/foo.tar.gz",
        "://example.org",
        "//example.org/foo",
        "http:/example.org",
        "http:example.org",
        "http//example.org",
        "http",
        "http:",
        "http:/",
        "1http://example.org",
        "+http://example.org",
        " http://example.org",
        "ht tp://example.org",
        "ht_tp://example.org",
        "dist/http://example.org",
        "a:b://c",
        "\u{e9}://example.org",
    ] {
        assert!(!is_absolute_url(location), "{}", location);
    }
}
