use sbom_licenses::text::{chars_of, clone_optional, contains, eq_ignore_ascii_case};

fn chars(s: &str) -> Vec<char> {
    s.chars().collect()
}

#[test]
fn chars_of_gives_the_characters() {
    assert_eq!(chars_of("aé漢"), vec!['a', 'é', '漢']);
    assert_eq!(chars_of(""), Vec::<char>::new());
}

#[test]
fn contains_finds_a_text_anywhere() {
    assert!(contains(&chars("apache license 2.0"), &chars("apache")));
    assert!(contains(&chars("apache license 2.0"), &chars("license")));
    assert!(contains(&chars("apache license 2.0"), &chars("2.0")));
    assert!(contains(&chars("apache license 2.0"), &chars("")));
    assert!(contains(&chars(""), &chars("")));
    assert!(contains(&chars("aab"), &chars("ab")));
    assert!(!contains(&chars("apache license 2.0"), &chars("apache2")));
    assert!(!contains(&chars("ab"), &chars("abc")));
    assert!(!contains(&chars(""), &chars("a")));
    assert!(!contains(&chars("abab"), &chars("bb")));
}

#[test]
fn eq_ignore_ascii_case_folds_ascii_letters_only() {
    assert!(eq_ignore_ascii_case("Apache-2.0", "apache-2.0"));
    assert!(eq_ignore_ascii_case("MIT", "mIt"));
    assert!(eq_ignore_ascii_case("", ""));
    assert!(!eq_ignore_ascii_case("MIT", "MIT "));
    assert!(!eq_ignore_ascii_case("MIT", "MIX"));
    assert!(!eq_ignore_ascii_case("É", "é"));
    assert!(!eq_ignore_ascii_case("@", "`"));
    assert!(!eq_ignore_ascii_case("[", "{"));
    assert!(eq_ignore_ascii_case("Zz", "zZ"));
}

#[test]
fn clone_optional_copies() {
    assert_eq!(clone_optional(&Some("a".to_string())), Some("a".to_string()));
    assert_eq!(clone_optional(&None), None);
}
