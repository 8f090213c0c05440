use cargo_aur::license::{license_file, must_copy_license};
use cargo_aur::{Error, LICENSES};

fn names(items: &[&str]) -> Vec<String> {
    items.iter().map(|item| item.to_string()).collect()
}

#[test]
fn fourteen_licenses_are_provided() {
    assert_eq!(LICENSES.len(), 14);
    assert_eq!(
        LICENSES,
        [
            "AGPL-3.0-only",
            "AGPL-3.0-or-later",
            "Apache-2.0",
            "BSL-1.0",
            "GPL-2.0-only",
            "GPL-2.0-or-later",
            "GPL-3.0-only",
            "GPL-3.0-or-later",
            "LGPL-2.0-only",
            "LGPL-2.0-or-later",
            "LGPL-3.0-only",
            "LGBL-3.0-or-later",
            "MPL-2.0",
            "Unlicense",
        ]
    );
}

#[test]
fn provided_licenses_are_not_copied() {
    for license in LICENSES {
        assert!(!must_copy_license(license), "{}", license);
    }
}

#[test]
fn other_licenses_are_copied() {
    for license in ["MIT", "BSD-3-Clause", "ISC", "Unlicensed", "", "Apache-2.0 OR MIT", "MIT OR Apache-2.0"] {
        assert!(must_copy_license(license), "{}", license);
    }
}

#[test]
fn licenses_match_letter_for_letter() {
    for license in ["apache-2.0", "Apache-2.0 ", " Apache-2.0", "Apache-2", "MPL-2.00", "unlicense", "GPL-3.0"] {
        assert!(must_copy_license(license), "{}", license);
    }
}

#[test]
fn first_license_file_is_found() {
    let entries = names(&["Cargo.toml", "src", "LICENSE-MIT", "LICENSE-APACHE", "README.md"]);
    assert_eq!(license_file(&entries), Ok("LICENSE-MIT".to_string()));
    let entries = names(&["LICENSE"]);
    assert_eq!(license_file(&entries), Ok("LICENSE".to_string()));
    let entries = names(&["LICENSE.md", "LICENSE"]);
    assert_eq!(license_file(&entries), Ok("LICENSE.md".to_string()));
}

#[test]
fn license_file_has_to_begin_with_the_word() {
    let entries = names(&["license", "License.txt", "COPYING", "MIT-LICENSE", " LICENSE", "LICENS"]);
    assert_eq!(license_file(&entries), Err(Error::MissingLicense));
}

#[test]
fn missing_license_in_an_empty_directory() {
    assert_eq!(license_file(&names(&[])), Err(Error::MissingLicense));
}

#[test]
fn errors_have_their_lines() {
    assert_eq!(Error::MissingLicense.message(), "Missing LICENSE file. See https://choosealicense.com/");
    assert_eq!(
        Error::MissingMuslTarget.message(),
        "Missing target! Try: rustup target add x86_64-unknown-linux-musl"
    );
}
