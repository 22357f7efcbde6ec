use pseudoide_core::commands::{readme_content, FileEntry, ProjectData};
use pseudoide_core::text::{
    chars_of, find_in, has_suffix, is_space_char, lower_char, matches_at, spells, trim_bounds,
};

fn cs(s: &str) -> Vec<char> {
    s.chars().collect()
}

#[test]
fn chars_of_lists_every_character() {
    assert_eq!(chars_of("héllo"), cs("héllo"));
    assert_eq!(chars_of(""), Vec::<char>::new());
}

#[test]
fn whitespace_follows_unicode() {
    for c in [' ', '\t', '\n', '\r', '\u{b}', '\u{c}', '\u{85}', '\u{a0}', '\u{1680}', '\u{2000}',
        '\u{200a}', '\u{2028}', '\u{2029}', '\u{202f}', '\u{205f}', '\u{3000}']
    {
        assert!(is_space_char(c));
        assert!(c.is_whitespace());
    }
    for c in ['a', '0', '\u{200b}', '\u{feff}', '\u{1f}', '~'] {
        assert!(!is_space_char(c));
        assert!(!c.is_whitespace());
    }
}

#[test]
fn lower_char_folds_ascii_only() {
    assert_eq!(lower_char('A'), 'a');
    assert_eq!(lower_char('Z'), 'z');
    assert_eq!(lower_char('q'), 'q');
    assert_eq!(lower_char('+'), '+');
    assert_eq!(lower_char('É'), 'É');
    assert_eq!(lower_char('['), '[');
    assert_eq!(lower_char('@'), '@');
}

#[test]
fn trim_bounds_match_std_trim() {
    for s in ["", "   ", "a", " a", "a ", "  a b  ", "\n\tx\r\n", "\u{3000}x y\u{a0}"] {
        let v = cs(s);
        let (a, b) = trim_bounds(&v, 0, v.len());
        let got: String = v[a..b].iter().collect();
        assert_eq!(got, s.trim());
    }
    let v = cs("ab  cd  ef");
    assert_eq!(trim_bounds(&v, 2, 8), (4, 6));
    assert_eq!(trim_bounds(&v, 2, 4), (4, 4));
}

#[test]
fn find_in_gives_the_first_occurrence() {
    let v = cs("abcabc");
    assert_eq!(find_in(&v, 0, 6, &cs("bc")), Some(1));
    assert_eq!(find_in(&v, 2, 6, &cs("bc")), Some(2));
    assert_eq!(find_in(&v, 0, 6, &cs("cb")), None);
    assert_eq!(find_in(&v, 0, 6, &cs("")), Some(0));
    assert_eq!(find_in(&v, 0, 2, &cs("abc")), None);
    assert_eq!(find_in(&v, 3, 6, &cs("abc")), Some(0));
    assert_eq!(find_in(&v, 6, 6, &cs("")), Some(0));
}

#[test]
fn matches_at_and_suffix() {
    let v = cs("llama-server.exe");
    assert!(matches_at(&v, 0, &cs("llama")));
    assert!(!matches_at(&v, 1, &cs("llama")));
    assert!(has_suffix(&v, &cs(".exe")));
    assert!(has_suffix(&v, &cs("")));
    assert!(!has_suffix(&v, &cs(".zip")));
    assert!(!has_suffix(&cs("exe"), &cs(".exe")));
}

#[test]
fn spells_compares_without_case() {
    let v = cs("  GoLang ");
    assert!(spells(&v, 2, 8, "golang"));
    assert!(!spells(&v, 2, 8, "go"));
    assert!(!spells(&v, 0, 9, "golang"));
    assert!(!spells(&cs("golang"), 0, 6, "GOLANG"));
}

#[test]
fn readme_has_the_four_parts() {
    let data = ProjectData {
        name: "Demo".to_string(),
        description: "A demo.".to_string(),
        intent: "Show it.".to_string(),
        requirements: "None.".to_string(),
    };
    assert_eq!(
        readme_content(&data),
        "# Demo\n\nA demo.\n\n## Intent\nShow it.\n\n## Requirements\nNone."
    );
}

#[test]
fn file_entries_hold_plain_values() {
    let e = FileEntry { name: "a".to_string(), path: "/x/a".to_string(), is_dir: true };
    let f = e.clone();
    assert_eq!(f.name, "a");
    assert_eq!(f.path, "/x/a");
    assert!(f.is_dir);
}
