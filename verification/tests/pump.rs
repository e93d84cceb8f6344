use ansi_grep::pattern::Pattern;
use ansi_grep::pump::{step, Action, Event, LinePump, State};

/// Drives a pump over `lines` as a loop around it would, and collects what
/// it is told to write.
fn run(pattern: &str, lines: &[&[u8]]) -> Vec<u8> {
    let mut pump = LinePump::new(Pattern::new(pattern).unwrap());
    let mut written = Vec::new();
    for line in lines {
        match pump.on_read(line) {
            Action::Emit(bytes) => written.extend_from_slice(bytes),
            Action::Skip => {}
            Action::Stop => break,
        }
    }
    written
}

#[test]
fn step_emits_a_line_that_matched() {
    let raw: &[u8] = b"\x1b[1mline\x1b[0m\n";
    assert_eq!(
        step(State::Reading, Event::Line { raw, matched: true }),
        (State::Reading, Action::Emit(raw))
    );
}

#[test]
fn step_skips_a_line_that_did_not_match() {
    let raw: &[u8] = b"line\n";
    assert_eq!(
        step(State::Reading, Event::Line { raw, matched: false }),
        (State::Reading, Action::Skip)
    );
}

#[test]
fn step_ends_the_run_at_the_end_of_input() {
    assert_eq!(step(State::Reading, Event::EndOfInput), (State::Done, Action::Stop));
}

#[test]
fn step_ends_the_run_on_a_failure() {
    assert_eq!(step(State::Reading, Event::Failure), (State::Done, Action::Stop));
}

#[test]
fn step_leaves_a_finished_run_finished() {
    let raw: &[u8] = b"line\n";
    assert_eq!(step(State::Done, Event::Line { raw, matched: true }), (State::Done, Action::Stop));
    assert_eq!(step(State::Done, Event::Line { raw, matched: false }), (State::Done, Action::Stop));
    assert_eq!(step(State::Done, Event::EndOfInput), (State::Done, Action::Stop));
    assert_eq!(step(State::Done, Event::Failure), (State::Done, Action::Stop));
}

#[test]
fn new_pump_is_reading_with_an_empty_buffer() {
    let pump = LinePump::new(Pattern::new("x").unwrap());
    assert_eq!(pump.state(), State::Reading);
    assert!(pump.cleaned().is_empty());
}

#[test]
fn line_with_styling_is_judged_clean_and_emitted_as_read() {
    let line: &[u8] = b"with \x1b[38;2;102;102;102mansi\x1b[0m codes\n";
    let mut pump = LinePump::new(Pattern::new("ansi").unwrap());
    assert_eq!(pump.on_read(line), Action::Emit(line));
    assert_eq!(pump.cleaned(), b"with ansi codes\n");
    assert_eq!(pump.state(), State::Reading);
}

#[test]
fn line_without_styling_is_emitted_as_read() {
    let line: &[u8] = b"no ansi codes\n";
    let mut pump = LinePump::new(Pattern::new("ansi").unwrap());
    assert_eq!(pump.on_read(line), Action::Emit(line));
    assert_eq!(pump.cleaned(), line);
}

#[test]
fn line_that_does_not_match_is_dropped() {
    let mut pump = LinePump::new(Pattern::new("goodbye").unwrap());
    assert_eq!(pump.on_read(b"hello\n"), Action::Skip);
    assert_eq!(pump.state(), State::Reading);
}

#[test]
fn empty_read_ends_the_run() {
    let mut pump = LinePump::new(Pattern::new("ansi").unwrap());
    assert_eq!(pump.on_read(b""), Action::Stop);
    assert_eq!(pump.state(), State::Done);
}

#[test]
fn empty_read_ends_the_run_even_where_the_pattern_matches_nothing() {
    // The empty pattern matches the empty haystack, yet no bytes means no line.
    let mut pump = LinePump::new(Pattern::new("").unwrap());
    assert_eq!(pump.on_read(b""), Action::Stop);
    assert_eq!(pump.state(), State::Done);
}

#[test]
fn match_is_sought_in_the_cleaned_form_only() {
    // The pattern occurs in the styling sequence, not in the text.
    let mut pump = LinePump::new(Pattern::new("38;2").unwrap());
    assert_eq!(pump.on_read(b"with \x1b[38;2;102;102;102mansi\x1b[0m codes\n"), Action::Skip);
    // The pattern spans text that a styling sequence parts.
    let line: &[u8] = b"he\x1b[1mllo\x1b[0m\n";
    let mut pump = LinePump::new(Pattern::new("^hello").unwrap());
    assert_eq!(pump.on_read(line), Action::Emit(line));
}

#[test]
fn earlier_line_does_not_bear_on_the_next() {
    let mut pump = LinePump::new(Pattern::new("ansi").unwrap());
    let first: &[u8] = b"a long line about ansi codes\n";
    assert_eq!(pump.on_read(first), Action::Emit(first));
    assert_eq!(pump.on_read(b"x\n"), Action::Skip);
    assert_eq!(pump.cleaned(), b"x\n");
    assert_eq!(pump.on_read(b"\x1b[ansi"), Action::Skip);
    assert!(pump.cleaned().is_empty());
}

#[test]
fn finished_run_takes_no_more_lines() {
    let mut pump = LinePump::new(Pattern::new("ansi").unwrap());
    assert_eq!(pump.on_read(b"ansi\n"), Action::Emit(b"ansi\n"));
    assert_eq!(pump.on_read(b""), Action::Stop);
    assert_eq!(pump.on_read(b"ansi\n"), Action::Stop);
    assert_eq!(pump.state(), State::Done);
    assert_eq!(pump.cleaned(), b"ansi\n");
}

#[test]
fn failure_ends_the_run() {
    let mut pump = LinePump::new(Pattern::new("ansi").unwrap());
    assert_eq!(pump.on_read(b"ansi\n"), Action::Emit(b"ansi\n"));
    pump.on_failure();
    assert_eq!(pump.state(), State::Done);
    assert_eq!(pump.cleaned(), b"ansi\n");
    assert_eq!(pump.on_read(b"ansi\n"), Action::Stop);
    pump.on_failure();
    assert_eq!(pump.state(), State::Done);
}

#[test]
fn run_over_a_styled_line_writes_it_with_its_styling() {
    let line: &[u8] = b"with \x1b[38;2;102;102;102mansi\x1b[0m codes\n";
    assert_eq!(run("ansi", &[line, b""]), line.to_vec());
}

#[test]
fn run_over_a_plain_matching_line_writes_it() {
    assert_eq!(run("ansi", &[b"no ansi codes\n", b""]), b"no ansi codes\n".to_vec());
}

#[test]
fn run_over_a_line_that_does_not_match_writes_nothing() {
    assert_eq!(run("goodbye", &[b"hello\n", b""]), Vec::<u8>::new());
}

#[test]
fn run_over_empty_input_writes_nothing() {
    assert_eq!(run("ansi", &[b""]), Vec::<u8>::new());
}

#[test]
fn run_is_not_started_on_an_invalid_pattern() {
    assert!(Pattern::new("(").is_err());
}

#[test]
fn run_keeps_the_order_of_the_lines_and_a_last_line_without_terminator() {
    let lines: [&[u8]; 5] =
        [b"\x1b[31mred ansi\x1b[0m\n", b"nothing\n", b"ansi two\n", b"last ansi", b""];
    assert_eq!(
        run("ansi", &lines),
        b"\x1b[31mred ansi\x1b[0m\nansi two\nlast ansi".to_vec()
    );
}
