use effect::text::{str_eq, str_eq_ignore_ascii_case, to_ascii_lower, trim_start};

#[test]
fn lowers_only_ascii_capitals() {
    assert_eq!(to_ascii_lower('H'), 'h');
    assert_eq!(to_ascii_lower('z'), 'z');
    assert_eq!(to_ascii_lower('['), '[');
    assert_eq!(to_ascii_lower('Ä'), 'Ä');
}

#[test]
fn compares_texts_exactly() {
    assert!(str_eq("index.html", "index.html"));
    assert!(!str_eq("index.html", "Index.html"));
    assert!(!str_eq("htm", "html"));
}

#[test]
fn compares_ignoring_ascii_case() {
    assert!(str_eq_ignore_ascii_case("HTML", "html"));
    assert!(str_eq_ignore_ascii_case("HtM", "htm"));
    assert!(!str_eq_ignore_ascii_case("htm", "html"));
    assert!(!str_eq_ignore_ascii_case("ÄHTML", "ähtml"));
}

#[test]
fn trims_every_leading_slash() {
    assert_eq!(trim_start("///css/style.css", '/'), "css/style.css");
    assert_eq!(trim_start("index.html", '/'), "index.html");
    assert_eq!(trim_start("///", '/'), "");
    assert_eq!(trim_start("", '/'), "");
    assert_eq!(trim_start("a/b/", '/'), "a/b/");
}
