use dependencies::text::{
    chars_of, contains, contains_chars, join, lines, mentions, same_first_lines, same_text, split,
};

fn strings(items: &[&str]) -> Vec<String> {
    items.iter().map(|s| s.to_string()).collect()
}

#[test]
fn chars_of_keeps_every_character() {
    assert_eq!(chars_of(""), Vec::<char>::new());
    assert_eq!(chars_of("añb"), vec!['a', 'ñ', 'b']);
}

#[test]
fn same_text_compares_whole_texts() {
    assert!(same_text("enabled", "enabled"));
    assert!(!same_text("enabled\n", "enabled"));
    assert!(same_text("", ""));
}

#[test]
fn contains_finds_a_text_anywhere() {
    assert!(contains("  Candidate: 5:24.0.2-1", "Candidate: 5:"));
    assert!(contains("docker", "docker"));
    assert!(contains("user sudo docker", "docker"));
    assert!(!contains("user sudo", "docker"));
    assert!(!contains("dock", "docker"));
    assert!(contains("anything", ""));
    assert!(contains("", ""));
    assert!(!contains("", "a"));
    assert!(contains("aab", "ab"));
}

#[test]
fn contains_agrees_with_the_standard_library() {
    let haystacks = ["", "a", "abcabd", "zsh 5.8 (x86_64)", "ünïcödé text", "aaa"];
    let needles = ["", "a", "abd", "zsh", "ö", "aaaa", "cab", "é t"];
    for h in haystacks {
        for n in needles {
            assert_eq!(contains(h, n), h.contains(n), "{:?} in {:?}", n, h);
            assert_eq!(contains_chars(&chars_of(h), &chars_of(n)), h.contains(n));
        }
    }
}

#[test]
fn split_gives_one_piece_more_than_separators() {
    assert_eq!(split("", ':'), strings(&[""]));
    assert_eq!(split("abc", ':'), strings(&["abc"]));
    assert_eq!(split("a:b", ':'), strings(&["a", "b"]));
    assert_eq!(split(":a::b:", ':'), strings(&["", "a", "", "b", ""]));
    assert_eq!(
        split("josiah:x:1000:1000:Josiah,,,:/home/josiah:/bin/zsh", ':'),
        strings(&["josiah", "x", "1000", "1000", "Josiah,,,", "/home/josiah", "/bin/zsh"])
    );
}

#[test]
fn split_agrees_with_the_standard_library() {
    for text in ["", "\n", "a\nb", "a\n\nb\n", "ssh-ed25519 AAAA\nssh-rsa BBBB"] {
        let expected: Vec<String> = text.split('\n').map(|s| s.to_string()).collect();
        assert_eq!(split(text, '\n'), expected);
    }
}

#[test]
fn lines_drop_their_endings() {
    assert_eq!(lines(""), Vec::<String>::new());
    assert_eq!(lines("\n"), strings(&[""]));
    assert_eq!(lines("a"), strings(&["a"]));
    assert_eq!(lines("a\n"), strings(&["a"]));
    assert_eq!(lines("a\r\nb\n\nc"), strings(&["a", "b", "", "c"]));
    assert_eq!(lines("foo\nbar\n\r\nbaz\r"), strings(&["foo", "bar", "", "baz\r"]));
}

#[test]
fn lines_agree_with_the_standard_library() {
    for text in ["", "\n", "\r\n", "a\r", "a\r\n\r\nb", "x\ny\n", "\n\n", "\r\r\n", "a\n\rb"] {
        let expected: Vec<String> = text.lines().map(|s| s.to_string()).collect();
        assert_eq!(lines(text), expected, "{:?}", text);
    }
}

#[test]
fn join_puts_the_separator_between() {
    assert_eq!(join(&strings(&[]), " "), "");
    assert_eq!(join(&strings(&["a"]), " "), "a");
    assert_eq!(join(&strings(&["install", "-y", "git"]), " "), "install -y git");
    assert_eq!(join(&strings(&["a", "", "b"]), ", "), "a, , b");
}

#[test]
fn same_first_lines_looks_at_the_head_only() {
    assert!(same_first_lines("a\nb\nuser", "a\nb\nbase", 2));
    assert!(!same_first_lines("a\nb\nuser", "a\nb\nbase", 3));
    assert!(!same_first_lines("a", "a\nb", 2));
    assert!(same_first_lines("a\r\nb", "a\nb\n", 33));
    assert!(same_first_lines("", "", 33));
    assert!(same_first_lines("x", "y", 0));
}

#[test]
fn mentions_ignores_case() {
    assert!(mentions("export NVM_DIR=\"$HOME/.nvm\"", "nvm"));
    assert!(mentions("source ~/.Nvm/nvm.sh", "nvm"));
    assert!(!mentions("export PATH=$PATH", "nvm"));
    // only the text is put in lower case, not the word
    assert!(!mentions("nvm", "NVM"));
    assert!(mentions("", ""));
}
