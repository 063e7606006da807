use testy::chars::chars_of;
use testy::reduce_event;
use testy::Cli;
use testy::Event;
use testy::Key;
use testy::MouseButton;
use testy::Reduction;
use testy::State;
use testy::UserEvent;

fn key(k: Key) -> Event {
    Event::UserEvent(UserEvent::Key(k))
}

fn wheel(button: MouseButton) -> Event {
    Event::UserEvent(UserEvent::MousePress(button))
}

fn drawn(count: usize, line: usize, rows: usize) -> State {
    let mut state = output(count, line);
    state.rows = rows;
    state
}

fn output(count: usize, line: usize) -> State {
    let mut state = State::default();
    let mut i: usize = 0;
    while i < count {
        state.text.push(format!("{}\n", i));
        i += 1;
    }
    state.line = line;
    state
}

fn speed(scroll_speed: u8) -> Cli {
    Cli { no_scroll: false, shell: "bash".to_string(), scroll_speed }
}

fn going_on() -> Reduction {
    Reduction { running: true, submit: None }
}

#[test]
fn typing_inserts_at_the_cursor_and_moves_it_right() {
    let flags = Cli::default();
    let mut state = State::default();
    let mut command: Vec<char> = Vec::new();
    for c in "ls".chars() {
        assert_eq!(reduce_event(key(Key::Char(c)), &mut state, &mut command, &flags), going_on());
    }
    assert_eq!(command, chars_of("ls"));
    assert_eq!(state.cursor, 2);
    state.cursor = 1;
    reduce_event(key(Key::Char('x')), &mut state, &mut command, &flags);
    assert_eq!(command, chars_of("lxs"));
    assert_eq!(state.cursor, 2);
    state.cursor = 0;
    reduce_event(key(Key::Char('é')), &mut state, &mut command, &flags);
    assert_eq!(command, chars_of("élxs"));
    assert_eq!(state.cursor, 1);
}

#[test]
fn characters_of_several_bytes_count_as_one() {
    let flags = Cli::default();
    let mut state = State::default();
    let mut command: Vec<char> = Vec::new();
    for c in "日本".chars() {
        reduce_event(key(Key::Char(c)), &mut state, &mut command, &flags);
    }
    assert_eq!(state.cursor, 2);
    reduce_event(key(Key::Left), &mut state, &mut command, &flags);
    reduce_event(key(Key::Char('-')), &mut state, &mut command, &flags);
    assert_eq!(command, chars_of("日-本"));
    assert_eq!(state.cursor, 2);
    reduce_event(key(Key::Backspace), &mut state, &mut command, &flags);
    reduce_event(key(Key::Backspace), &mut state, &mut command, &flags);
    assert_eq!(command, chars_of("本"));
    assert_eq!(state.cursor, 0);
}

#[test]
fn backspace_deletes_before_the_cursor() {
    let flags = Cli::default();
    let mut state = State::default();
    let mut command: Vec<char> = chars_of("abc");
    state.cursor = 3;
    assert_eq!(reduce_event(key(Key::Backspace), &mut state, &mut command, &flags), going_on());
    assert_eq!(command, chars_of("ab"));
    assert_eq!(state.cursor, 2);
    state.cursor = 1;
    reduce_event(key(Key::Backspace), &mut state, &mut command, &flags);
    assert_eq!(command, chars_of("b"));
    assert_eq!(state.cursor, 0);
}

#[test]
fn backspace_at_the_start_changes_nothing() {
    let flags = Cli::default();
    let mut state = State::default();
    let mut command: Vec<char> = chars_of("abc");
    reduce_event(key(Key::Backspace), &mut state, &mut command, &flags);
    assert_eq!(command, chars_of("abc"));
    assert_eq!(state.cursor, 0);
    let mut empty: Vec<char> = Vec::new();
    reduce_event(key(Key::Backspace), &mut state, &mut empty, &flags);
    assert_eq!(empty, Vec::<char>::new());
    assert_eq!(state.cursor, 0);
}

#[test]
fn arrows_move_the_cursor_within_the_command() {
    let flags = Cli::default();
    let mut state = State::default();
    let mut command: Vec<char> = chars_of("ab");
    reduce_event(key(Key::Left), &mut state, &mut command, &flags);
    assert_eq!(state.cursor, 0);
    reduce_event(key(Key::Right), &mut state, &mut command, &flags);
    assert_eq!(state.cursor, 1);
    reduce_event(key(Key::Right), &mut state, &mut command, &flags);
    assert_eq!(state.cursor, 2);
    reduce_event(key(Key::Right), &mut state, &mut command, &flags);
    assert_eq!(state.cursor, 2);
    reduce_event(key(Key::Left), &mut state, &mut command, &flags);
    assert_eq!(state.cursor, 1);
    assert_eq!(command, chars_of("ab"));
}

#[test]
fn enter_submits_the_command_and_keeps_it() {
    let flags = Cli::default();
    for enter in ['\n', '\r'] {
        let mut state = State::default();
        let mut command: Vec<char> = chars_of("echo hi");
        state.cursor = 4;
        let outcome = reduce_event(key(Key::Char(enter)), &mut state, &mut command, &flags);
        assert_eq!(outcome, Reduction { running: true, submit: Some("echo hi".to_string()) });
        assert_eq!(command, chars_of("echo hi"));
        assert_eq!(state.cursor, 4);
        assert_eq!(state.last_sent_command, "echo hi");
    }
}

#[test]
fn the_interrupt_key_ends_the_loop() {
    let flags = Cli::default();
    let mut state = State::default();
    let mut command: Vec<char> = chars_of("ls");
    let outcome = reduce_event(key(Key::Ctrl('c')), &mut state, &mut command, &flags);
    assert_eq!(outcome, Reduction { running: false, submit: None });
    assert_eq!(command, chars_of("ls"));
    assert_eq!(state, State::default());
}

#[test]
fn other_keys_and_events_change_nothing() {
    let flags = Cli::default();
    let events: Vec<Event> = vec![
        key(Key::Ctrl('d')),
        key(Key::Ctrl('C')),
        key(Key::Other),
        wheel(MouseButton::Other),
        Event::UserEvent(UserEvent::Other),
        Event::Update,
    ];
    for evt in events {
        let mut state = output(5, 2);
        state.cursor = 1;
        let mut command: Vec<char> = chars_of("ls");
        assert_eq!(reduce_event(evt, &mut state, &mut command, &flags), going_on());
        assert_eq!(command, chars_of("ls"));
        assert_eq!(state.cursor, 1);
        assert_eq!(state.line, 2);
        assert_eq!(state.text.len(), 5);
    }
}

#[test]
fn tab_is_typed_like_any_character() {
    let flags = Cli::default();
    let mut state = State::default();
    let mut command: Vec<char> = Vec::new();
    reduce_event(key(Key::Char('\t')), &mut state, &mut command, &flags);
    assert_eq!(command, vec!['\t']);
    assert_eq!(state.cursor, 1);
}

#[test]
fn wheel_down_moves_by_three_and_is_clamped_at_the_last_full_pane() {
    let flags = speed(3);
    assert!(!flags.no_scroll);
    let mut state = drawn(20, 0, 6);
    let mut command: Vec<char> = Vec::new();
    let expected: Vec<usize> = vec![3, 6, 9, 12, 14, 14, 14];
    for offset in expected {
        assert_eq!(
            reduce_event(wheel(MouseButton::WheelDown), &mut state, &mut command, &flags),
            going_on()
        );
        assert_eq!(state.line, offset);
    }
    assert_eq!(state.text.len(), 20);
    assert_eq!(state.rows, 6);
}

#[test]
fn wheel_down_in_a_hundred_lines_moves_by_three_each_time() {
    let flags = speed(3);
    let mut state = drawn(100, 0, 10);
    let mut command: Vec<char> = Vec::new();
    let mut ticks: usize = 1;
    while ticks <= 30 {
        reduce_event(wheel(MouseButton::WheelDown), &mut state, &mut command, &flags);
        assert_eq!(state.line, 3 * ticks);
        ticks += 1;
    }
    reduce_event(wheel(MouseButton::WheelDown), &mut state, &mut command, &flags);
    assert_eq!(state.line, 90);
}

#[test]
fn wheel_down_does_not_move_while_the_buffer_fits_the_pane() {
    let flags = speed(3);
    let mut state = drawn(5, 0, 10);
    let mut command: Vec<char> = Vec::new();
    reduce_event(wheel(MouseButton::WheelDown), &mut state, &mut command, &flags);
    assert_eq!(state.line, 0);
}

#[test]
fn wheel_up_moves_by_the_speed_and_is_clamped_at_zero() {
    let flags = speed(4);
    let mut state = drawn(20, 10, 5);
    let mut command: Vec<char> = Vec::new();
    let expected: Vec<usize> = vec![6, 2, 0, 0];
    for offset in expected {
        reduce_event(wheel(MouseButton::WheelUp), &mut state, &mut command, &flags);
        assert_eq!(state.line, offset);
    }
}

#[test]
fn wheel_with_speed_zero_stays() {
    let flags = speed(0);
    let mut state = output(20, 10);
    let mut command: Vec<char> = Vec::new();
    reduce_event(wheel(MouseButton::WheelUp), &mut state, &mut command, &flags);
    assert_eq!(state.line, 10);
    reduce_event(wheel(MouseButton::WheelDown), &mut state, &mut command, &flags);
    assert_eq!(state.line, 10);
}

#[test]
fn cursor_stays_within_the_command_over_a_long_run_of_edits() {
    let flags = Cli::default();
    let mut state = State::default();
    let mut command: Vec<char> = Vec::new();
    let keys: Vec<Key> = vec![
        Key::Left,
        Key::Backspace,
        Key::Char('a'),
        Key::Right,
        Key::Right,
        Key::Char('b'),
        Key::Left,
        Key::Left,
        Key::Left,
        Key::Char('c'),
        Key::Backspace,
        Key::Backspace,
        Key::Right,
        Key::Right,
        Key::Right,
        Key::Backspace,
        Key::Backspace,
        Key::Backspace,
        Key::Char('\n'),
        Key::Char('z'),
    ];
    let mut seed: usize = 7;
    let mut round: usize = 0;
    while round < 400 {
        seed = (seed * 31 + 11) % 1009;
        let k = keys[seed % keys.len()];
        reduce_event(key(k), &mut state, &mut command, &flags);
        assert!(state.cursor <= command.len());
        round += 1;
    }
}

#[test]
fn scroll_offset_stays_within_the_pane_over_a_long_run_of_wheel_events() {
    let flags = speed(3);
    let mut rows: usize = 0;
    while rows <= 20 {
        let mut state = drawn(17, 0, rows);
        let bound: usize = if rows <= 17 { 17 - rows } else { 0 };
        let mut command: Vec<char> = Vec::new();
        let mut seed: usize = 3;
        let mut round: usize = 0;
        while round < 200 {
            seed = (seed * 29 + 5) % 1013;
            let button = if seed % 3 == 0 { MouseButton::WheelUp } else { MouseButton::WheelDown };
            reduce_event(wheel(button), &mut state, &mut command, &flags);
            assert!(state.line <= bound, "rows {} round {}", rows, round);
            round += 1;
        }
        rows += 1;
    }
}

#[test]
fn the_wheel_brings_an_offset_past_the_pane_back_into_it() {
    let flags = speed(3);
    for button in [MouseButton::WheelUp, MouseButton::WheelDown] {
        let mut state = drawn(10, 10, 4);
        let mut command: Vec<char> = Vec::new();
        reduce_event(wheel(button), &mut state, &mut command, &flags);
        assert!(state.line <= 6);
    }
    let mut up = drawn(10, 10, 4);
    let mut command: Vec<char> = Vec::new();
    reduce_event(wheel(MouseButton::WheelUp), &mut up, &mut command, &flags);
    assert_eq!(up.line, 3);
}

#[test]
fn wheel_down_never_passes_the_last_full_pane() {
    let flags = speed(3);
    let mut command: Vec<char> = Vec::new();
    let mut state = drawn(10, 4, 5);
    reduce_event(wheel(MouseButton::WheelDown), &mut state, &mut command, &flags);
    assert_eq!(state.line, 5);
    let mut other = drawn(10, 5, 4);
    reduce_event(wheel(MouseButton::WheelDown), &mut other, &mut command, &flags);
    assert_eq!(other.line, 6);
}
