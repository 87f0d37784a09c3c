use rrpl::{
    make_text_replacer, parse_confirmation, replace_literal, run_replacement, CaseInsensitivity,
    RegexTextReplacer, ReplacementArgs, Replacer, StdTextReplacer, TextReplacer, WholeWordsOnly,
    BACKUP_SUFFIX,
};

fn args(from: &str, to: &str, ignore_case: bool, whole_words: bool) -> ReplacementArgs {
    ReplacementArgs {
        from: String::from(from),
        to: String::from(to),
        backup: false,
        ignore_case,
        prompt: false,
        whole_words,
    }
}

#[test]
fn literal_empty_from_leaves_body_unchanged() {
    assert_eq!(replace_literal("", "x", "abc"), "abc");
    assert_eq!(StdTextReplacer::default().replace("", "x", "abc").unwrap(), "abc");
}

#[test]
fn literal_absent_from_leaves_body_unchanged() {
    assert_eq!(replace_literal("zz", "x", "abc"), "abc");
}

#[test]
fn literal_replacement_is_idempotent_here() {
    let once = replace_literal("words", "souce", "words and more words");
    assert_eq!(once, "souce and more souce");
    assert_eq!(replace_literal("words", "souce", &once), once);
}

#[test]
fn literal_second_pass_can_differ_when_result_holds_from() {
    let once = replace_literal("ab", "a", "abb");
    assert_eq!(once, "ab");
    assert_eq!(replace_literal("ab", "a", &once), "a");
}

#[test]
fn literal_matches_do_not_overlap() {
    assert_eq!(replace_literal("aa", "b", "aaa"), "ba");
    assert_eq!(replace_literal("aa", "b", "aaaa"), "bb");
}

#[test]
fn literal_treats_metacharacters_as_text() {
    assert_eq!(replace_literal("(", "[", "f(x)"), "f[x)");
    assert_eq!(replace_literal(".", "!", "a.b"), "a!b");
}

#[test]
fn literal_handles_non_ascii_text() {
    assert_eq!(replace_literal("ö", "o", "wörld wörd"), "world word");
    assert_eq!(replace_literal("x", "ü", "axb"), "aüb");
}

#[test]
fn literal_with_empty_to_deletes() {
    assert_eq!(replace_literal("o", "", "foo bar"), "f bar");
}

#[test]
fn case_insensitive_matches_include_sensitive_ones() {
    let text = "Words words WORDS";
    let sensitive = RegexTextReplacer::new(CaseInsensitivity::Disabled, WholeWordsOnly::Disabled)
        .replace("words", "_", text)
        .unwrap();
    let insensitive = RegexTextReplacer::new(CaseInsensitivity::Enabled, WholeWordsOnly::Disabled)
        .replace("words", "_", text)
        .unwrap();
    assert_eq!(sensitive, "Words _ WORDS");
    assert_eq!(insensitive, "_ _ _");
}

#[test]
fn whole_words_skip_words_inside_longer_tokens() {
    let replacer = RegexTextReplacer::new(CaseInsensitivity::Disabled, WholeWordsOnly::Enabled);
    assert_eq!(replacer.replace("words", "X", "xwordsx").unwrap(), "xwordsx");
    assert_eq!(replacer.replace("words", "X", "words").unwrap(), "X");
}

#[test]
fn whole_words_and_case_insensitive_together() {
    let replacer = RegexTextReplacer::new(CaseInsensitivity::Enabled, WholeWordsOnly::Enabled);
    assert_eq!(
        replacer.replace("words", "X", "Words xWORDS WORDS").unwrap(),
        "X xWORDS X"
    );
}

#[test]
fn pattern_is_built_from_the_flags() {
    let from = "words";
    let both = RegexTextReplacer::new(CaseInsensitivity::Enabled, WholeWordsOnly::Enabled);
    let case = RegexTextReplacer::new(CaseInsensitivity::Enabled, WholeWordsOnly::Disabled);
    let word = RegexTextReplacer::new(CaseInsensitivity::Disabled, WholeWordsOnly::Enabled);
    let none = RegexTextReplacer::default();
    assert_eq!(both.pattern(from), "(?i)\\bwords");
    assert_eq!(case.pattern(from), "(?i)words");
    assert_eq!(word.pattern(from), "\\bwords");
    assert_eq!(none.pattern(from), "words");
}

#[test]
fn pattern_mode_inserts_replacement_verbatim() {
    let replacer = RegexTextReplacer::new(CaseInsensitivity::Enabled, WholeWordsOnly::Disabled);
    assert_eq!(replacer.replace("(w)ords", "$1", "words").unwrap(), "$1");
}

#[test]
fn pattern_mode_interprets_from_as_regex() {
    let replacer = RegexTextReplacer::new(CaseInsensitivity::Enabled, WholeWordsOnly::Disabled);
    assert_eq!(replacer.replace("a+", "-", "caaab").unwrap(), "c-b");
}

#[test]
fn malformed_pattern_is_an_error_in_pattern_mode() {
    let flags = [
        (CaseInsensitivity::Enabled, WholeWordsOnly::Disabled, "(?i)("),
        (CaseInsensitivity::Disabled, WholeWordsOnly::Enabled, "\\b("),
        (CaseInsensitivity::Enabled, WholeWordsOnly::Enabled, "(?i)\\b("),
    ];
    for (case, words, pattern) in flags {
        let err = RegexTextReplacer::new(case, words).replace("(", "x", "a(b").unwrap_err();
        assert_eq!(err.pattern, pattern);
    }
}

#[test]
fn malformed_pattern_is_plain_text_in_literal_mode() {
    let replacer = make_text_replacer(CaseInsensitivity::Disabled, WholeWordsOnly::Disabled);
    assert_eq!(replacer.replace("(", "x", "a(b").unwrap(), "axb");
}

#[test]
fn factory_picks_literal_only_when_both_flags_are_off() {
    assert!(matches!(
        make_text_replacer(CaseInsensitivity::Disabled, WholeWordsOnly::Disabled),
        Replacer::Literal(_)
    ));
    for (case, words) in [
        (CaseInsensitivity::Enabled, WholeWordsOnly::Disabled),
        (CaseInsensitivity::Disabled, WholeWordsOnly::Enabled),
        (CaseInsensitivity::Enabled, WholeWordsOnly::Enabled),
    ] {
        match make_text_replacer(case, words) {
            Replacer::Pattern(p) => {
                assert_eq!(p.case_insensitivity, case);
                assert_eq!(p.whole_words, words);
            }
            Replacer::Literal(_) => panic!("expected the pattern strategy"),
        }
    }
}

#[test]
fn flags_convert_from_bool() {
    assert_eq!(CaseInsensitivity::from(true), CaseInsensitivity::Enabled);
    assert_eq!(CaseInsensitivity::from(false), CaseInsensitivity::Disabled);
    assert_eq!(WholeWordsOnly::from(true), WholeWordsOnly::Enabled);
    assert_eq!(WholeWordsOnly::from(false), WholeWordsOnly::Disabled);
}

#[test]
fn run_replacement_carries_the_options() {
    let mut a = args("words", "souce", false, false);
    a.backup = true;
    a.prompt = true;
    let update = run_replacement(&a, "some words").unwrap();
    assert_eq!(update.new_content, "some souce");
    assert!(update.write_backup);
    assert!(update.confirm_first);
}

#[test]
fn run_replacement_uses_pattern_mode_for_either_flag() {
    let update = run_replacement(&args("w.rds", "x", true, false), "WORDS w.rds").unwrap();
    assert_eq!(update.new_content, "x x");
    assert!(!update.write_backup);
    assert!(!update.confirm_first);
    let update = run_replacement(&args("w.rds", "x", false, false), "WORDS w.rds").unwrap();
    assert_eq!(update.new_content, "WORDS x");
}

#[test]
fn run_replacement_reports_a_rejected_pattern() {
    let err = run_replacement(&args("(", "x", false, true), "a(b").unwrap_err();
    assert_eq!(err.pattern, "\\b(");
}

#[test]
fn empty_body_gives_empty_result_for_every_flag() {
    for (i, w) in [(false, false), (true, false), (false, true), (true, true)] {
        let update = run_replacement(&args("words", "souce", i, w), "").unwrap();
        assert_eq!(update.new_content, "");
    }
}

#[test]
fn confirmation_answers() {
    assert_eq!(parse_confirmation("y\n"), Some(true));
    assert_eq!(parse_confirmation("Y\n"), Some(true));
    assert_eq!(parse_confirmation("n\n"), Some(false));
    assert_eq!(parse_confirmation("N\n"), Some(false));
    assert_eq!(parse_confirmation("yes\n"), None);
    assert_eq!(parse_confirmation("y"), None);
    assert_eq!(parse_confirmation(""), None);
}

#[test]
fn backup_suffix_is_a_tilde() {
    assert_eq!(BACKUP_SUFFIX, "~");
}
