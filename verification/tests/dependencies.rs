use cargo_aur::depends::{format_dependencies, parse_dependencies};

fn list(items: &[&str]) -> Vec<String> {
    items.iter().map(|item| item.to_string()).collect()
}

#[test]
fn needed_packages_alone() {
    assert_eq!(format_dependencies(&list(&["a", "b"]), &list(&[])), "depends=(\"a\" \"b\")");
}

#[test]
fn optional_packages_alone() {
    assert_eq!(format_dependencies(&list(&[]), &list(&["x"])), "optdepends=(\"x\")");
}

#[test]
fn both_lists_take_a_line_each() {
    assert_eq!(
        format_dependencies(&list(&["gcc-libs", "openssl", "zlib"]), &list(&["git", "fzf"])),
        "depends=(\"gcc-libs\" \"openssl\" \"zlib\")\noptdepends=(\"git\" \"fzf\")"
    );
}

#[test]
fn empty_lists_give_no_text() {
    assert_eq!(format_dependencies(&list(&[]), &list(&[])), "");
}

#[test]
fn one_item_has_no_space_after_it() {
    assert_eq!(format_dependencies(&list(&["a"]), &list(&[])), "depends=(\"a\")");
    assert_eq!(format_dependencies(&list(&[""]), &list(&[""])), "depends=(\"\")\noptdepends=(\"\")");
}

#[test]
fn same_lists_same_text() {
    let depends = list(&["a", "b"]);
    let optdepends = list(&["c: for colours"]);
    assert_eq!(format_dependencies(&depends, &optdepends), format_dependencies(&depends, &optdepends));
}

#[test]
fn text_reads_back_to_both_lists() {
    let depends = list(&["gcc-libs", "openssl"]);
    let optdepends = list(&["git: to fetch sources", "fzf"]);
    let text = format_dependencies(&depends, &optdepends);
    assert_eq!(parse_dependencies(&text), (depends, optdepends));
}

#[test]
fn text_reads_back_to_one_list() {
    let text = format_dependencies(&list(&["a", "b"]), &list(&[]));
    assert_eq!(parse_dependencies(&text), (list(&["a", "b"]), list(&[])));
    let text = format_dependencies(&list(&[]), &list(&["x", "y", "z"]));
    assert_eq!(parse_dependencies(&text), (list(&[]), list(&["x", "y", "z"])));
    assert_eq!(parse_dependencies(""), (list(&[]), list(&[])));
}

#[test]
fn items_with_line_feeds_and_brackets_read_back() {
    let depends = list(&["a\nb", "c) d=(", "", " "]);
    let optdepends = list(&["optdepends=(", "\n"]);
    let text = format_dependencies(&depends, &optdepends);
    assert_eq!(parse_dependencies(&text), (depends, optdepends));
}

#[test]
fn items_beyond_ascii_read_back() {
    let depends = list(&["größe", "日本語"]);
    let optdepends = list(&["naïve: café"]);
    let text = format_dependencies(&depends, &optdepends);
    assert_eq!(text, "depends=(\"größe\" \"日本語\")\noptdepends=(\"naïve: café\")");
    assert_eq!(parse_dependencies(&text), (depends, optdepends));
}

#[test]
fn an_item_with_a_quote_does_not_read_back() {
    let depends = list(&["a\"b"]);
    let optdepends = list(&["x"]);
    let text = format_dependencies(&depends, &optdepends);
    assert_eq!(text, "depends=(\"a\"b\")\noptdepends=(\"x\")");
    assert_ne!(parse_dependencies(&text), (depends, optdepends));
}

#[test]
fn a_quote_left_open_holds_nothing() {
    assert_eq!(parse_dependencies("depends=(\"a\" \"b"), (list(&["a"]), list(&[])));
    assert_eq!(parse_dependencies("depends=(\"a\")\noptdepends=(\"b"), (list(&["a"]), list(&[])));
}

#[test]
fn a_third_line_is_not_read() {
    assert_eq!(
        parse_dependencies("depends=(\"a\")\noptdepends=(\"b\")\nmakedepends=(\"c\")"),
        (list(&["a"]), list(&["b"]))
    );
}
