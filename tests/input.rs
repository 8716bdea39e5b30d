use chaser_oxide::bezier::Point;
use chaser_oxide::keyboard::{keystrokes, KeyAction, KeystrokeDraw};
use chaser_oxide::page::GhostPage;
use chaser_oxide::scroll::{scroll_deltas, scroll_step_count};

fn downs(actions: &[KeyAction]) -> usize {
    actions
        .iter()
        .filter(|a| matches!(a, KeyAction::TypeDown(_) | KeyAction::KeyDown(_)))
        .count()
}

fn ups(actions: &[KeyAction]) -> usize {
    actions.iter().filter(|a| matches!(a, KeyAction::TypeUp | KeyAction::KeyUp(_))).count()
}

/// The text left in a field after the events: typed characters are
/// appended, a backspace removes the last one.
fn typed(actions: &[KeyAction]) -> String {
    let mut s = String::new();
    for a in actions {
        match a {
            KeyAction::TypeDown(c) => s.push(*c),
            KeyAction::KeyDown(k) if k == "Backspace" => {
                s.pop();
            }
            _ => {}
        }
    }
    s
}

fn plain(pause_ms: u64) -> KeystrokeDraw {
    KeystrokeDraw { typo: None, notice_ms: 0, fix_ms: 0, pause_ms }
}

#[test]
fn typing_twenty_letters_dispatches_at_least_twenty_pairs() {
    let page = GhostPage::new();
    let text = "abcdefghijklmnopqrst";
    for _ in 0..50 {
        let actions = page.type_text_with_typos(text);
        assert!(downs(&actions) >= 20);
        assert_eq!(downs(&actions), ups(&actions));
        assert_eq!(typed(&actions), text);
    }
}

#[test]
fn type_text_types_each_character_with_a_pause() {
    let page = GhostPage::new();
    let actions = page.type_text("hi!");
    assert_eq!(actions.len(), 9);
    assert_eq!(actions[0], KeyAction::TypeDown('h'));
    assert_eq!(actions[1], KeyAction::TypeUp);
    assert_eq!(actions[3], KeyAction::TypeDown('i'));
    assert_eq!(actions[6], KeyAction::TypeDown('!'));
    for k in [2, 5, 8] {
        match actions[k] {
            KeyAction::Pause(ms) => assert!((50..150).contains(&ms) || (200..400).contains(&ms)),
            ref other => panic!("expected a pause, got {:?}", other),
        }
    }
    assert!(page.type_text("").is_empty());
}

#[test]
fn type_text_with_delay_keeps_pauses_in_range() {
    let page = GhostPage::new();
    let actions = page.type_text_with_delay("delay", 10, 12);
    assert_eq!(downs(&actions), 5);
    for a in &actions {
        if let KeyAction::Pause(ms) = a {
            assert!((10..12).contains(ms) || (200..400).contains(ms));
        }
    }
}

#[test]
fn digits_are_never_mistyped() {
    let page = GhostPage::new();
    for _ in 0..20 {
        let actions = page.type_text_with_typos("0123456789012345678901234567890123456789");
        assert_eq!(downs(&actions), 40);
    }
}

#[test]
fn keystrokes_with_a_typo_correct_it() {
    let draws = vec![
        KeystrokeDraw { typo: Some('q'), notice_ms: 150, fix_ms: 40, pause_ms: 60 },
        plain(70),
    ];
    let actions = keystrokes("ab", &draws);
    assert_eq!(
        actions,
        vec![
            KeyAction::TypeDown('q'),
            KeyAction::TypeUp,
            KeyAction::Pause(150),
            KeyAction::KeyDown("Backspace".to_string()),
            KeyAction::KeyUp("Backspace".to_string()),
            KeyAction::Pause(40),
            KeyAction::TypeDown('a'),
            KeyAction::TypeUp,
            KeyAction::Pause(60),
            KeyAction::TypeDown('b'),
            KeyAction::TypeUp,
            KeyAction::Pause(70),
        ]
    );
    assert_eq!(typed(&actions), "ab");
}

#[test]
fn keystrokes_handle_non_ascii_text() {
    let actions = keystrokes("é京", &vec![plain(1), plain(2)]);
    assert_eq!(actions[0], KeyAction::TypeDown('é'));
    assert_eq!(actions[3], KeyAction::TypeDown('京'));
    assert_eq!(actions[5], KeyAction::Pause(2));
}

#[test]
fn press_key_sends_raw_down_and_up() {
    let page = GhostPage::new();
    assert_eq!(
        page.press_key("Escape"),
        vec![KeyAction::KeyDown("Escape".to_string()), KeyAction::KeyUp("Escape".to_string())]
    );
    assert_eq!(
        page.press_key("F5"),
        vec![KeyAction::KeyDown("F5".to_string()), KeyAction::KeyUp("F5".to_string())]
    );
}

#[test]
fn press_enter_and_tab_pause_first() {
    let page = GhostPage::new();
    let enter = page.press_enter();
    assert!(matches!(enter[0], KeyAction::Pause(ms) if (100..300).contains(&ms)));
    assert_eq!(enter[1], KeyAction::KeyDown("Enter".to_string()));
    assert_eq!(enter[2], KeyAction::KeyUp("Enter".to_string()));
    let tab = page.press_tab();
    assert!(matches!(tab[0], KeyAction::Pause(ms) if (50..150).contains(&ms)));
    assert_eq!(tab[1], KeyAction::KeyDown("Tab".to_string()));
}

#[test]
fn scroll_step_count_stays_between_three_and_fifteen() {
    assert_eq!(scroll_step_count(0), 3);
    assert_eq!(scroll_step_count(149), 3);
    assert_eq!(scroll_step_count(200), 4);
    assert_eq!(scroll_step_count(-500), 10);
    assert_eq!(scroll_step_count(750), 15);
    assert_eq!(scroll_step_count(100000), 15);
    assert_eq!(scroll_step_count(i32::MIN), 15);
    assert_eq!(scroll_step_count(i32::MAX), 15);
}

#[test]
fn scroll_deltas_follow_the_easing() {
    assert_eq!(scroll_deltas(100, &vec![0, 0, 0]), vec![16, 42, 42]);
    assert_eq!(scroll_deltas(-100, &vec![0, 0, 0]), vec![-16, -42, -42]);
    assert_eq!(
        scroll_deltas(1000, &vec![0; 15]),
        vec![33, 34, 35, 37, 39, 82, 82, 82, 82, 82, 82, 41, 48, 60, 90]
    );
}

#[test]
fn scroll_deltas_skip_zero_steps_and_clamp() {
    assert_eq!(scroll_deltas(0, &vec![0, 0, 0]), Vec::<i32>::new());
    assert_eq!(scroll_deltas(0, &vec![5, 0, -3]), vec![5, -2, -6]);
    let big = scroll_deltas(100000, &vec![9; 15]);
    assert_eq!(big.len(), 15);
    assert!(big.iter().all(|d| *d == 200));
}

#[test]
fn small_scroll_adds_up_within_the_jitter() {
    let page = GhostPage::new();
    for delta in [-199, -120, -1, 1, 57, 199] {
        for _ in 0..20 {
            let steps = page.scroll_human(delta);
            let sum: i64 = steps.iter().map(|s| s.delta_y as i64).sum();
            assert!((delta as i64 - sum).abs() <= 10, "{} scrolled {}", delta, sum);
            assert!(steps.len() <= 3);
        }
    }
}

#[test]
fn scroll_steps_are_bounded_and_paused() {
    let mut page = GhostPage::new();
    page.record_mouse_position(Point { x: 40, y: 60 });
    let steps = page.scroll_human(-5000);
    assert!(steps.len() <= 15);
    for s in &steps {
        assert_eq!((s.at.x, s.at.y), (40, 60));
        assert!(s.delta_y != 0 && s.delta_y.abs() <= 200);
        assert!((16..50).contains(&s.pause_ms));
    }
}

#[test]
fn letters_are_sometimes_mistyped_and_corrected() {
    let page = GhostPage::new();
    let text = "abcdefghijklmnopqrst";
    let mut slips = 0;
    for _ in 0..100 {
        let actions = page.type_text_with_typos(text);
        slips += downs(&actions) - 20;
        assert_eq!(typed(&actions), text);
    }
    assert!(slips > 0);
}

#[test]
fn keystroke_pauses_vary() {
    let page = GhostPage::new();
    let actions = page.type_text("abcdefghijklmnopqrstuvwxyz");
    let pauses: Vec<u64> = actions
        .iter()
        .filter_map(|a| if let KeyAction::Pause(ms) = a { Some(*ms) } else { None })
        .collect();
    assert_eq!(pauses.len(), 26);
    assert!(pauses.iter().any(|p| *p != pauses[0]));
}
