use gratitude::journal::{
    append_to_journal, journal_entries, prompt_gate, sample, sample_at, should_prompt,
};

#[test]
fn sampling_an_empty_journal_returns_nothing() {
    let entries: Vec<Vec<u8>> = Vec::new();
    assert_eq!(sample(&entries), None);
    assert_eq!(sample_at(&entries, 3), None);
}

#[test]
fn after_one_append_sampling_returns_that_entry() {
    let blob = append_to_journal(None, &b"x".to_vec()).expect("an absent journal is empty");
    let entries = journal_entries(Some(&blob)).expect("the written blob parses");
    assert_eq!(entries, vec![b"x".to_vec()]);
    for _ in 0..64 {
        assert_eq!(sample(&entries), Some(b"x".to_vec()));
    }
}

#[test]
fn append_keeps_the_old_entries_in_order() {
    let first = append_to_journal(None, &b"one".to_vec()).unwrap();
    let second = append_to_journal(Some(&first), &b"two".to_vec()).unwrap();
    let entries = journal_entries(Some(&second)).unwrap();
    assert_eq!(entries, vec![b"one".to_vec(), b"two".to_vec()]);
}

#[test]
fn appending_to_a_malformed_journal_fails() {
    assert_eq!(append_to_journal(Some(&b"not a journal".to_vec()), &b"x".to_vec()), None);
}

#[test]
fn sample_at_picks_by_position_modulo_length() {
    let entries = vec![b"a".to_vec(), b"b".to_vec(), b"c".to_vec()];
    assert_eq!(sample_at(&entries, 0), Some(b"a".to_vec()));
    assert_eq!(sample_at(&entries, 1), Some(b"b".to_vec()));
    assert_eq!(sample_at(&entries, 5), Some(b"c".to_vec()));
}

#[test]
fn sample_returns_an_existing_entry() {
    let entries = vec![b"a".to_vec(), b"b".to_vec(), b"c".to_vec()];
    for _ in 0..64 {
        let got = sample(&entries).expect("the journal is not empty");
        assert!(entries.contains(&got));
    }
}

#[test]
fn only_the_zero_draw_prompts() {
    assert!(should_prompt(0));
    for draw in 1..60 {
        assert!(!should_prompt(draw));
    }
}

#[test]
fn the_prompt_gate_draws_a_fresh_decision() {
    let mut seen_any = false;
    for _ in 0..400 {
        if !prompt_gate() {
            seen_any = true;
        }
    }
    // Skipping is 59 times likelier than prompting on each draw, so 400
    // draws see at least one skip.
    assert!(seen_any);
}
