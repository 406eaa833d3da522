use buildfs::pairs::{extend_pairs, find_key, merge_pairs, same_text, upsert_pair};
use buildfs::text::{
    char_is_whitespace, contains, copy_optional, copy_optional_texts, copy_pairs, copy_texts,
    decimal_string, format_pairs, join_with, split_whitespace, starts_with, trim_start_matches,
};

fn pair(a: &str, b: &str) -> (String, String) {
    (String::from(a), String::from(b))
}

#[test]
fn decimal_numerals() {
    assert_eq!(decimal_string(0), "0");
    assert_eq!(decimal_string(7), "7");
    assert_eq!(decimal_string(10), "10");
    assert_eq!(decimal_string(1000), "1000");
    assert_eq!(decimal_string(4294967295), "4294967295");
    assert_eq!(decimal_string(u64::MAX), u64::MAX.to_string());
}

#[test]
fn prefixes() {
    assert!(starts_with("unix:///run/x.sock", "unix://"));
    assert!(!starts_with("http://host", "unix://"));
    assert!(starts_with("abc", ""));
    assert!(!starts_with("ab", "abc"));
    assert_eq!(trim_start_matches("unix://unix:///run/x.sock", "unix://"), "/run/x.sock");
    assert_eq!(trim_start_matches("unix:///run/x.sock", "unix://"), "/run/x.sock");
    assert_eq!(trim_start_matches("///a", "/"), "a");
    assert_eq!(trim_start_matches("abc", ""), "abc");
    assert_eq!(trim_start_matches("abc", "x"), "abc");
}

#[test]
fn containment() {
    assert!(contains("OK", "OK"));
    assert!(contains("status: OK\n", "OK"));
    assert!(!contains("O K", "OK"));
    assert!(!contains("", "OK"));
    assert!(contains("anything", ""));
    assert!(contains("", ""));
}

#[test]
fn white_space_is_what_std_calls_white_space() {
    let mut c = 0u32;
    while c < 0x3100 {
        if let Some(ch) = char::from_u32(c) {
            assert_eq!(char_is_whitespace(ch), ch.is_whitespace(), "{:x}", c);
        }
        c += 1;
    }
}

#[test]
fn words_of_a_command_line() {
    assert_eq!(split_whitespace("/bin/true"), vec!["/bin/true"]);
    assert_eq!(split_whitespace("  apk   add\tbash \n"), vec!["apk", "add", "bash"]);
    assert_eq!(split_whitespace(""), Vec::<String>::new());
    assert_eq!(split_whitespace("   "), Vec::<String>::new());
    assert_eq!(split_whitespace("a\u{a0}b"), vec!["a", "b"]);
    for line in ["sh -c 'echo hi'", " x", "x ", "a  b   c", "\tq\n"] {
        let expected: Vec<String> = line.split_whitespace().map(|s| s.to_owned()).collect();
        assert_eq!(split_whitespace(line), expected);
    }
}

#[test]
fn copies_keep_their_content() {
    assert_eq!(copy_optional(&Some(String::from("a"))), Some(String::from("a")));
    assert_eq!(copy_optional(&None), None);
    let texts = vec![String::from("a"), String::from("b")];
    assert_eq!(copy_texts(&texts), texts);
    assert_eq!(copy_optional_texts(&Some(texts.clone())), Some(texts));
    assert_eq!(copy_optional_texts(&None), None);
    let pairs = vec![pair("a", "1"), pair("b", "2")];
    assert_eq!(copy_pairs(&pairs), pairs);
}

#[test]
fn pairs_are_written_with_a_separator() {
    assert_eq!(join_with("PATH", "=", "/bin"), "PATH=/bin");
    let pairs = vec![pair("/host/a", "/ctr/a"), pair("/host/b", "/ctr/b")];
    assert_eq!(format_pairs(&pairs, ":"), vec!["/host/a:/ctr/a", "/host/b:/ctr/b"]);
    assert_eq!(format_pairs(&Vec::new(), "="), Vec::<String>::new());
}

#[test]
fn texts_are_compared() {
    assert!(same_text("toml", "toml"));
    assert!(!same_text("toml", "tom"));
    assert!(!same_text("toml", "yaml"));
    assert!(same_text("", ""));
}

#[test]
fn a_key_keeps_its_place_when_set_again() {
    let mut pairs = vec![pair("a", "1"), pair("b", "2")];
    assert_eq!(find_key(&pairs, "b"), Some(1));
    assert_eq!(find_key(&pairs, "c"), None);
    upsert_pair(&mut pairs, String::from("a"), String::from("9"));
    assert_eq!(pairs, vec![pair("a", "9"), pair("b", "2")]);
    upsert_pair(&mut pairs, String::from("c"), String::from("3"));
    assert_eq!(pairs, vec![pair("a", "9"), pair("b", "2"), pair("c", "3")]);
    extend_pairs(&mut pairs, &vec![pair("b", "8"), pair("d", "4"), pair("d", "5")]);
    assert_eq!(pairs, vec![pair("a", "9"), pair("b", "8"), pair("c", "3"), pair("d", "5")]);
}

#[test]
fn merging_prefers_the_second_mapping() {
    let base = vec![pair("HOME", "/root"), pair("LANG", "C")];
    let over = vec![pair("LANG", "en_US.UTF-8"), pair("TERM", "xterm")];
    assert_eq!(
        merge_pairs(&base, &over),
        vec![pair("HOME", "/root"), pair("LANG", "en_US.UTF-8"), pair("TERM", "xterm")]
    );
    assert_eq!(merge_pairs(&Vec::new(), &Vec::new()), Vec::new());
    let twice = vec![pair("A", "1"), pair("A", "2")];
    assert_eq!(merge_pairs(&twice, &Vec::new()), vec![pair("A", "2")]);
}
