use oeis::session::{Cli, Key, Outcome, SideEffect};
use oeis::{Error, Sequence};

fn record(id: u64, name: &str, values: Vec<i64>) -> Sequence {
    Sequence { id, name: name.to_string(), values }
}

fn primes_and_fibonacci() -> Vec<Sequence> {
    vec![
        record(40, "The prime numbers.", vec![2, 3, 5, 7, 11, 13, 17, 19, 23, 29]),
        record(45, "Fibonacci numbers.", vec![0, 1, 1, 2, 3, 5, 8, 13, 21, 34]),
    ]
}

fn session(records: Vec<Sequence>) -> Cli {
    Cli::new(records, (1, 1), 40).expect("a valid session")
}

#[test]
fn empty_result_list_is_rejected() {
    let r = Cli::new(vec![], (1, 1), 80);
    assert_eq!(r.err(), Some(Error::SearchFailed));
}

#[test]
fn too_narrow_terminal_is_rejected() {
    let r = Cli::new(primes_and_fibonacci(), (1, 1), 4);
    assert_eq!(r.err(), Some(Error::TerminalInitFailed));
}

#[test]
fn origin_on_last_row_is_rejected() {
    let r = Cli::new(primes_and_fibonacci(), (1, 65535), 80);
    assert_eq!(r.err(), Some(Error::TerminalInitFailed));
}

#[test]
fn new_session_starts_at_first_record() {
    let cli = session(primes_and_fibonacci());
    assert_eq!(cli.selected_index, 0);
    assert_eq!(cli.selected_sequence().id, 40);
}

#[test]
fn down_down_clamps_then_quit_terminates() {
    let mut cli = session(primes_and_fibonacci());
    assert_eq!(cli.process_keystroke(Key::Down), Outcome::Continue);
    assert_eq!(cli.selected_index, 1);
    assert_eq!(cli.process_keystroke(Key::Down), Outcome::Continue);
    assert_eq!(cli.selected_index, 1);
    assert_eq!(cli.process_keystroke(Key::Char('q')), Outcome::Terminate);
    assert_eq!(cli.selected_index, 1);
}

#[test]
fn vi_keys_move_the_selection() {
    let mut cli = session(primes_and_fibonacci());
    assert_eq!(cli.process_keystroke(Key::Char('j')), Outcome::Continue);
    assert_eq!(cli.selected_index, 1);
    assert_eq!(cli.process_keystroke(Key::Char('k')), Outcome::Continue);
    assert_eq!(cli.selected_index, 0);
}

#[test]
fn up_saturates_at_first_record() {
    let mut cli = session(primes_and_fibonacci());
    for _ in 0..10 {
        assert_eq!(cli.process_keystroke(Key::Up), Outcome::Continue);
        assert_eq!(cli.selected_index, 0);
    }
}

#[test]
fn single_record_list_never_moves() {
    let mut cli = session(vec![record(45, "Fibonacci numbers.", vec![0, 1, 1, 2, 3])]);
    for i in 0..50 {
        let key = if i % 2 == 0 { Key::Down } else { Key::Up };
        assert_eq!(cli.process_keystroke(key), Outcome::Continue);
        assert_eq!(cli.selected_index, 0);
    }
}

#[test]
fn quit_keys_terminate_from_any_state() {
    for key in [Key::Esc, Key::Ctrl('c'), Key::Char('q')] {
        for start_down in 0..2 {
            let mut cli = session(primes_and_fibonacci());
            for _ in 0..start_down {
                cli.process_keystroke(Key::Down);
            }
            let before = cli.selected_index;
            assert_eq!(cli.process_keystroke(key), Outcome::Terminate);
            assert_eq!(cli.selected_index, before);
        }
    }
}

#[test]
fn unknown_key_only_rings_the_bell() {
    for key in [Key::Char('x'), Key::Ctrl('d'), Key::Unknown] {
        let mut cli = session(primes_and_fibonacci());
        let before = cli.selected_index;
        assert_eq!(
            cli.process_keystroke(key),
            Outcome::ContinueWithSideEffect(SideEffect::Bell)
        );
        assert_eq!(cli.selected_index, before);
        assert_eq!(cli.sequences.len(), 2);
    }
}

#[test]
fn enter_requests_opening_the_selected_record() {
    let mut cli = session(primes_and_fibonacci());
    match cli.process_keystroke(Key::Char('\n')) {
        Outcome::TerminateWithSideEffect(SideEffect::OpenSequence(id)) => {
            assert_eq!(id, "A000040");
        }
        other => panic!("expected an open request, got {:?}", other),
    }
}

#[test]
fn error_messages_name_each_condition() {
    assert_eq!(Error::InputEmpty.message(), "Sequence cannot be empty.");
    assert_eq!(
        Error::SearchFailed.message(),
        "The search returned no usable sequences."
    );
    assert_eq!(
        Error::TerminalInitFailed.message(),
        "The terminal could not be prepared."
    );
    assert_eq!(
        Error::ExternalOpenFailed.message(),
        "Unable to open sequence on OEIS."
    );
}

#[test]
fn render_is_idempotent() {
    let cli = session(primes_and_fibonacci());
    let first = cli.render_cli();
    let second = cli.render_cli();
    assert_eq!(first, second);
}

#[test]
fn render_places_cursor_at_anchor() {
    let cli = Cli::new(primes_and_fibonacci(), (3, 7), 40).expect("a valid session");
    let out = cli.render_cli();
    assert!(out.starts_with("\u{1b}[8;3H"));
}

#[test]
fn render_marks_the_selected_row() {
    let mut cli = session(primes_and_fibonacci());
    let out = cli.render_cli();
    assert!(out.contains("\u{1b}[2K> \u{1b}[1m\u{1b}[38;5;2mA000040: The prime numbers."));
    assert!(out.contains("\u{1b}[2K  A000045: Fibonacci numbers."));
    cli.process_keystroke(Key::Down);
    let out = cli.render_cli();
    assert!(out.contains("\u{1b}[2K  A000040: The prime numbers."));
    assert!(out.contains("\u{1b}[2K> \u{1b}[1m\u{1b}[38;5;2mA000045: Fibonacci numbers."));
}

#[test]
fn render_truncates_long_names_to_the_width() {
    let long_name = "a".repeat(60);
    let cli = Cli::new(vec![record(7, &long_name, vec![1])], (1, 1), 20).expect("a valid session");
    // 20 columns less the five for the marker and ellipsis leave 15 for the
    // line text, of which "A000007: " takes nine.
    let line = cli.render_menu_item(&cli.sequences[0], true);
    assert_eq!(
        line,
        format!(
            "\u{1b}[2K> \u{1b}[1m\u{1b}[38;5;2mA000007: {}...\u{1b}[m\r\n",
            "a".repeat(6)
        )
    );
}

#[test]
fn render_clears_below_the_list_before_the_detail_pane() {
    let cli = session(primes_and_fibonacci());
    let out = cli.render_cli();
    assert!(out.contains("\u{1b}[J\n"));
}

#[test]
fn detail_pane_shows_id_description_and_terms() {
    let cli = session(primes_and_fibonacci());
    let info = cli.render_full_sequence_info();
    assert!(info.contains("\u{1b}[1;36mSequence: \u{1b}[0mA000040\r\n"));
    assert!(info.contains("\u{1b}[1;36mDescription: \u{1b}[0m"));
    assert!(info.contains("The prime numbers."));
    assert!(info.ends_with("...\r\n"));
    assert!(info.contains("2, 3, 5, 7, 11, 13, 17, 19, 23, 29..."));
}

#[test]
fn detail_pane_shows_at_most_fifteen_terms() {
    let values: Vec<i64> = (1..=20).collect();
    let cli = Cli::new(vec![record(27, "The positive integers.", values)], (1, 1), 80)
        .expect("a valid session");
    let info = cli.render_full_sequence_info();
    assert!(info.contains("1, 2, 3, 4, 5, 6, 7, 8, 9, 10, 11, 12, 13, 14, 15..."));
    assert!(!info.contains("16"));
}

#[test]
fn detail_pane_wraps_a_long_description() {
    let name = "a sequence with a very long description that cannot stay on one line";
    let cli = Cli::new(vec![record(1, name, vec![1, 2])], (1, 1), 30).expect("a valid session");
    let info = cli.render_full_sequence_info();
    let description_part = info
        .split("\u{1b}[1;36mDescription: \u{1b}[0m")
        .nth(1)
        .expect("a labelled description");
    assert!(description_part.contains("\r\n"));
    assert!(info.contains("long"));
}
