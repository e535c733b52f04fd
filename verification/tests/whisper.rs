use camouflage::{count_words, WhisperResult};

#[test]
fn word_counting_splits_on_whitespace_runs() {
    assert_eq!(count_words(""), 0);
    assert_eq!(count_words("   \t\n"), 0);
    assert_eq!(count_words("hello"), 1);
    assert_eq!(count_words("hello world"), 2);
    assert_eq!(count_words("  a  b\tc \n"), 3);
    assert_eq!(count_words("one, two, three."), 3);
}

#[test]
fn a_transcript_of_two_words_or_fewer_counts_as_jammed() {
    let jammed = WhisperResult { transcript: String::new(), word_count: 0 };
    assert!(jammed.is_effectively_jammed());

    let hallucinated = WhisperResult { transcript: "thank you".to_owned(), word_count: 2 };
    assert!(hallucinated.is_effectively_jammed());

    let through = WhisperResult {
        transcript: "this speech came through".to_owned(),
        word_count: 4,
    };
    assert!(!through.is_effectively_jammed());
}
