use retro_cube::lcd::{clear_steps, init_steps, print_steps, set_cursor_steps, LcdStep};
use retro_cube::state::Config;

use LcdStep::{WaitMicros as W, Write as B};

#[test]
fn printing_a_character_sends_two_nibbles() {
    // 'h' is 0x68: high nibble 0x6, low nibble 0x8, register select on
    assert_eq!(
        print_steps("h"),
        vec![
            B(0x69), B(0x6D), W(1), B(0x69), W(50),
            B(0x89), B(0x8D), W(1), B(0x89), W(50),
            W(100)
        ]
    );
}

#[test]
fn printing_skips_non_ascii() {
    assert_eq!(print_steps("é"), vec![]);
    assert_eq!(print_steps("aé"), print_steps("a"));
    assert_eq!(print_steps("hello world").len(), 11 * 11);
}

#[test]
fn cursor_to_second_row() {
    assert_eq!(
        set_cursor_steps(0, 1),
        vec![
            B(0xC8), B(0xCC), W(1), B(0xC8), W(50),
            B(0x08), B(0x0C), W(1), B(0x08), W(50),
            W(100)
        ]
    );
    assert_eq!(set_cursor_steps(3, 0)[0], B(0x88));
}

#[test]
fn clear_waits_after_command() {
    let steps = clear_steps();
    assert_eq!(steps.len(), 12);
    assert_eq!(steps[0], B(0x08));
    assert_eq!(steps[5], B(0x18));
    assert_eq!(steps[11], W(2000));
}

#[test]
fn init_sequence_shape() {
    let steps = init_steps();
    assert_eq!(steps.len(), 70);
    assert_eq!(steps[0], W(50_000));
    assert_eq!(&steps[1..6], &[B(0x38), B(0x3C), W(1), B(0x38), W(50)]);
    assert_eq!(steps[6], W(5_000));
    assert_eq!(steps[19], B(0x28));
    // function set 0x28, then display control 0x0C
    assert_eq!(steps[25], B(0x28));
    assert_eq!(steps[30], B(0x88));
    assert_eq!(steps[36], B(0x08));
    assert_eq!(steps[41], B(0xC8));
}

#[test]
fn default_config() {
    let c = Config::default();
    assert_eq!(c.timezone, "UTC");
    assert_eq!(c.refresh_interval_secs, 10);
}
