use ollama_translator::sanitize::strip_ansi;

#[test]
fn colour_sequences_are_removed() {
    assert_eq!(strip_ansi("\u{1b}[31mred\u{1b}[0m"), "red");
    assert_eq!(strip_ansi("a\u{1b}[1;32mb\u{1b}[Kc"), "abc");
}

#[test]
fn sequence_runs_through_the_first_letter() {
    assert_eq!(strip_ansi("\u{1b}[2Khello"), "hello");
    assert_eq!(strip_ansi("\u{1b}[?25lspinner\u{1b}[?25h"), "spinner");
    assert_eq!(strip_ansi("\u{1b}[mm"), "m");
    assert_eq!(strip_ansi("\u{1b}[12;34~xyz"), "yz");
}

#[test]
fn lone_escape_is_dropped_alone() {
    assert_eq!(strip_ansi("a\u{1b}b"), "ab");
    assert_eq!(strip_ansi("\u{1b}"), "");
    assert_eq!(strip_ansi("\u{1b}]0;title"), "]0;title");
    assert_eq!(strip_ansi("\u{1b}\u{1b}[0mx"), "x");
}

#[test]
fn unfinished_sequence_takes_the_rest() {
    assert_eq!(strip_ansi("x\u{1b}[12;3"), "x");
    assert_eq!(strip_ansi("x\u{1b}["), "x");
    assert_eq!(strip_ansi("x\u{1b}[\u{1b}[31"), "x");
}

#[test]
fn escape_inside_a_sequence_is_part_of_it() {
    assert_eq!(strip_ansi("\u{1b}[1\u{1b}2mok"), "ok");
}

#[test]
fn text_without_escape_is_unchanged() {
    let samples = ["", "plain", "[31m not a sequence", "日本語 🙂 [K", "line\nbreak\ttab"];
    for s in samples {
        assert_eq!(strip_ansi(s), s);
    }
}

#[test]
fn multibyte_text_around_sequences_is_kept() {
    assert_eq!(strip_ansi("翻訳\u{1b}[32m中\u{1b}[0m…🙂"), "翻訳中…🙂");
    assert_eq!(strip_ansi("\u{1b}[3é5mz"), "z");
}

#[test]
fn stripping_twice_is_stripping_once() {
    let samples = [
        "\u{1b}[31mred\u{1b}[0m",
        "a\u{1b}b\u{1b}[",
        "\u{1b}\u{1b}[[Aleft",
        "\u{1b}[\u{1b}[mtail",
        "no escape",
        "",
    ];
    for s in samples {
        let once = strip_ansi(s);
        assert_eq!(strip_ansi(&once), once);
        assert!(!once.contains('\u{1b}'));
    }
}
