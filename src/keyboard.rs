//! Keyboard input: plans of key events and pauses that type a text, with
//! or without the odd corrected typo, or press a named key.

use vstd::prelude::*;
use crate::chance::{random_range, random_ratio};
use crate::page::GhostPage;

verus! {

/// One keyboard event of a plan, or a pause between events.
#[derive(Debug, Clone, PartialEq, Eq)]
pub enum KeyAction {
    /// A key-down event that types the character.
    TypeDown(char),
    /// The key-up event that follows a typed character.
    TypeUp,
    /// A raw key-down event of the named key (its key and code alike).
    KeyDown(String),
    /// The key-up event of the named key.
    KeyUp(String),
    /// A pause, in milliseconds.
    Pause(u64),
}

/// A keyboard event or pause, as plain values.
pub ghost enum KeyEvent {
    TypeDown(char),
    TypeUp,
    KeyDown(Seq<char>),
    KeyUp(Seq<char>),
    Pause(nat),
}

impl View for KeyAction {
    type V = KeyEvent;

    open spec fn view(&self) -> KeyEvent {
        match self {
            KeyAction::TypeDown(c) => KeyEvent::TypeDown(*c),
            KeyAction::TypeUp => KeyEvent::TypeUp,
            KeyAction::KeyDown(k) => KeyEvent::KeyDown(k@),
            KeyAction::KeyUp(k) => KeyEvent::KeyUp(k@),
            KeyAction::Pause(ms) => KeyEvent::Pause(*ms as nat),
        }
    }
}

/// The events of a plan.
pub open spec fn events(actions: Seq<KeyAction>) -> Seq<KeyEvent> {
    actions.map_values(|a: KeyAction| a@)
}

/// The random choices behind typing one character: the wrong letter typed
/// first and corrected, if any, the pause before the correction and after
/// it, and the pause after the character.
#[derive(Debug, Clone, Copy, PartialEq, Eq, Structural)]
pub struct KeystrokeDraw {
    pub typo: Option<char>,
    pub notice_ms: u64,
    pub fix_ms: u64,
    pub pause_ms: u64,
}

/// The events that type `c` and then pause.
pub open spec fn typed_events(c: char, pause_ms: u64) -> Seq<KeyEvent> {
    seq![KeyEvent::TypeDown(c), KeyEvent::TypeUp, KeyEvent::Pause(pause_ms as nat)]
}

/// The events of a slip: the wrong letter `w`, a pause, a backspace, and
/// a second pause.
pub open spec fn slip_events(w: char, notice_ms: u64, fix_ms: u64) -> Seq<KeyEvent> {
    seq![
        KeyEvent::TypeDown(w),
        KeyEvent::TypeUp,
        KeyEvent::Pause(notice_ms as nat),
        KeyEvent::KeyDown("Backspace"@),
        KeyEvent::KeyUp("Backspace"@),
        KeyEvent::Pause(fix_ms as nat),
    ]
}

/// The events that type `c`: with a typo, the slip and its correction come
/// first; then the character itself and the pause after it.
pub open spec fn char_events(c: char, d: KeystrokeDraw) -> Seq<KeyEvent> {
    match d.typo {
        Some(w) => slip_events(w, d.notice_ms, d.fix_ms) + typed_events(c, d.pause_ms),
        None => typed_events(c, d.pause_ms),
    }
}

/// The events that type `text`, character by character, with the choices
/// `draws` (one for each character).
pub open spec fn typing_events(text: Seq<char>, draws: Seq<KeystrokeDraw>) -> Seq<KeyEvent>
    decreases text.len(),
{
    if text.len() == 0 {
        Seq::empty()
    } else {
        let k = text.len() - 1;
        typing_events(text.subrange(0, k), draws) + char_events(text[k], draws[k])
    }
}

/// A pause between keystrokes: within `[min, max)`, or a longer thinking
/// pause within `[200, 400)`.
pub open spec fn pause_ok(ms: u64, min: u64, max: u64) -> bool {
    (min <= ms < max) || (200 <= ms < 400)
}

/// Choices for typing without typos.
pub open spec fn delay_draws_ok(draws: Seq<KeystrokeDraw>, min: u64, max: u64) -> bool {
    forall|i: int| 0 <= i < draws.len() ==> (#[trigger] draws[i]).typo is None
        && pause_ok(draws[i].pause_ms, min, max)
}

/// The letters a slip of the finger types.
pub open spec fn is_typo_letter(c: char) -> bool {
    c == 'q' || c == 'w' || c == 'e' || c == 'r' || c == 't' || c == 'a' || c == 's' || c == 'd'
        || c == 'f' || c == 'g'
}

/// Whether a character has the Unicode `Alphabetic` property.
pub uninterp spec fn alphabetic(c: char) -> bool;

/// Choices for typing with typos: only an alphabetic character is ever
/// mistyped, as one of the typo letters, with a pause of 100 to 299 ms
/// before the backspace and 30 to 79 ms after it.
pub open spec fn typo_draws_ok(text: Seq<char>, draws: Seq<KeystrokeDraw>) -> bool {
    forall|i: int| 0 <= i < draws.len() ==> {
        &&& pause_ok((#[trigger] draws[i]).pause_ms, 50, 150)
        &&& match draws[i].typo {
            None => true,
            Some(w) => alphabetic(text[i]) && is_typo_letter(w) && 100 <= draws[i].notice_ms < 300
                && 30 <= draws[i].fix_ms < 80,
        }
    }
}

/// Relies on `char::is_alphabetic`: whether `c` has the Unicode
/// `Alphabetic` property, which depends on `c` alone.
#[verifier::external_body]
fn is_alphabetic(c: char) -> (r: bool)
    ensures
        r == alphabetic(c),
{
    c.is_alphabetic()
}

/// One of the typo letters.
fn typo_letter(k: u64) -> (r: char)
    ensures
        is_typo_letter(r),
{
    if k == 0 { 'q' }
    else if k == 1 { 'w' }
    else if k == 2 { 'e' }
    else if k == 3 { 'r' }
    else if k == 4 { 't' }
    else if k == 5 { 'a' }
    else if k == 6 { 's' }
    else if k == 7 { 'd' }
    else if k == 8 { 'f' }
    else { 'g' }
}

/// A pause after a keystroke: within `[min, max)`, or, one time in twenty,
/// a thinking pause within `[200, 400)`.
fn keystroke_pause(min: u64, max: u64) -> (r: u64)
    requires
        min < max,
    ensures
        pause_ok(r, min, max),
{
    if random_ratio(1, 20) {
        random_range(200, 400) as u64
    } else {
        random_range(min as i128, max as i128) as u64
    }
}

/// Appends the events that type `c` and then pause.
fn push_typed(out: &mut Vec<KeyAction>, c: char, pause_ms: u64)
    ensures
        events(final(out)@) == events(old(out)@) + typed_events(c, pause_ms),
{
    let ghost before = out@;
    out.push(KeyAction::TypeDown(c));
    out.push(KeyAction::TypeUp);
    out.push(KeyAction::Pause(pause_ms));
    assert(events(out@) =~= events(before) + typed_events(c, pause_ms));
}

/// Appends the events of a slip and its correction.
fn push_slip(out: &mut Vec<KeyAction>, w: char, notice_ms: u64, fix_ms: u64)
    ensures
        events(final(out)@) == events(old(out)@) + slip_events(w, notice_ms, fix_ms),
{
    let ghost before = out@;
    out.push(KeyAction::TypeDown(w));
    out.push(KeyAction::TypeUp);
    out.push(KeyAction::Pause(notice_ms));
    out.push(KeyAction::KeyDown(String::from_str("Backspace")));
    out.push(KeyAction::KeyUp(String::from_str("Backspace")));
    out.push(KeyAction::Pause(fix_ms));
    assert(events(out@) =~= events(before) + slip_events(w, notice_ms, fix_ms));
}

/// Appends the key events that type `c` with the choices `d`.
fn push_char_keystrokes(out: &mut Vec<KeyAction>, c: char, d: KeystrokeDraw)
    ensures
        events(final(out)@) == events(old(out)@) + char_events(c, d),
{
    let ghost before = out@;
    match d.typo {
        Some(w) => {
            push_slip(out, w, d.notice_ms, d.fix_ms);
            push_typed(out, c, d.pause_ms);
            assert(events(before) + slip_events(w, d.notice_ms, d.fix_ms) + typed_events(c, d.pause_ms)
                =~= events(before) + char_events(c, d));
        },
        None => {
            push_typed(out, c, d.pause_ms);
        },
    }
}

/// The key events that type `text` with the given choices, one for each
/// character.
pub fn keystrokes(text: &str, draws: &Vec<KeystrokeDraw>) -> (r: Vec<KeyAction>)
    requires
        draws@.len() == text@.len(),
    ensures
        events(r@) == typing_events(text@, draws@),
{
    let n = text.unicode_len();
    let mut out: Vec<KeyAction> = Vec::new();
    let mut i: usize = 0;
    proof {
        assert(text@.subrange(0, 0) =~= Seq::<char>::empty());
        assert(events(out@) =~= Seq::<KeyEvent>::empty());
    }
    while i < n
        invariant
            n == text@.len(),
            draws@.len() == n,
            i <= n,
            events(out@) == typing_events(text@.subrange(0, i as int), draws@),
        decreases n - i,
    {
        let c = text.get_char(i);
        let d = draws[i];
        push_char_keystrokes(&mut out, c, d);
        proof {
            let next = text@.subrange(0, i + 1);
            assert(next.subrange(0, i as int) =~= text@.subrange(0, i as int));
            assert(next[i as int] == c);
        }
        i = i + 1;
    }
    assert(text@.subrange(0, n as int) =~= text@);
    out
}

/// Whether an event presses a key down, typed or named.
pub open spec fn is_key_down(e: KeyEvent) -> bool {
    e is TypeDown || e is KeyDown
}

/// Whether an event releases a key, typed or named.
pub open spec fn is_key_up(e: KeyEvent) -> bool {
    e is TypeUp || e is KeyUp
}

/// The events of pressing the named key: a raw key-down and a key-up.
pub open spec fn press_events(key: Seq<char>) -> Seq<KeyEvent> {
    seq![KeyEvent::KeyDown(key), KeyEvent::KeyUp(key)]
}

impl GhostPage {
    /// Typing `text` with 50 to 149 ms between keystrokes, and now and then
    /// a thinking pause of 200 to 399 ms instead.
    pub fn type_text(&self, text: &str) -> (r: Vec<KeyAction>)
        ensures
            exists|draws: Seq<KeystrokeDraw>| #![trigger typing_events(text@, draws)]
                draws.len() == text@.len() && delay_draws_ok(draws, 50, 150)
                && events(r@) == typing_events(text@, draws),
    {
        self.type_text_with_delay(text, 50, 150)
    }

    /// Typing `text`: for each character a key-down that types it, a key-up,
    /// and a pause within `[min_delay_ms, max_delay_ms)`, or one time in
    /// twenty a thinking pause of 200 to 399 ms instead.
    pub fn type_text_with_delay(&self, text: &str, min_delay_ms: u64, max_delay_ms: u64) -> (r: Vec<KeyAction>)
        requires
            min_delay_ms < max_delay_ms,
        ensures
            exists|draws: Seq<KeystrokeDraw>| #![trigger typing_events(text@, draws)]
                draws.len() == text@.len() && delay_draws_ok(draws, min_delay_ms, max_delay_ms)
                && events(r@) == typing_events(text@, draws),
    {
        let n = text.unicode_len();
        let mut draws: Vec<KeystrokeDraw> = Vec::new();
        let mut i: usize = 0;
        while i < n
            invariant
                n == text@.len(),
                i <= n,
                draws@.len() == i,
                min_delay_ms < max_delay_ms,
                delay_draws_ok(draws@, min_delay_ms, max_delay_ms),
            decreases n - i,
        {
            let pause = keystroke_pause(min_delay_ms, max_delay_ms);
            draws.push(KeystrokeDraw { typo: None, notice_ms: 0, fix_ms: 0, pause_ms: pause });
            i = i + 1;
        }
        let r = keystrokes(text, &draws);
        assert(events(r@) == typing_events(text@, draws@));
        r
    }

    /// Typing `text` with the odd slip: each alphabetic character is, with
    /// a chance of 3 in 100, preceded by a wrong letter, a pause of 100 to
    /// 299 ms, a backspace and a pause of 30 to 79 ms. Pauses after the
    /// characters are as in [`GhostPage::type_text`].
    pub fn type_text_with_typos(&self, text: &str) -> (r: Vec<KeyAction>)
        ensures
            exists|draws: Seq<KeystrokeDraw>| #![trigger typing_events(text@, draws)]
                draws.len() == text@.len() && typo_draws_ok(text@, draws)
                && events(r@) == typing_events(text@, draws),
    {
        let n = text.unicode_len();
        let mut draws: Vec<KeystrokeDraw> = Vec::new();
        let mut i: usize = 0;
        while i < n
            invariant
                n == text@.len(),
                i <= n,
                draws@.len() == i,
                typo_draws_ok(text@, draws@),
            decreases n - i,
        {
            let c = text.get_char(i);
            let slip = random_ratio(3, 100);
            let typo = if slip && is_alphabetic(c) {
                Some(typo_letter(random_range(0, 10) as u64))
            } else {
                None
            };
            let notice_ms = random_range(100, 300) as u64;
            let fix_ms = random_range(30, 80) as u64;
            let pause_ms = keystroke_pause(50, 150);
            let d = KeystrokeDraw { typo, notice_ms, fix_ms, pause_ms };
            let ghost before = draws@;
            draws.push(d);
            proof {
                assert forall|j: int| 0 <= j < draws@.len() implies {
                    &&& pause_ok((#[trigger] draws@[j]).pause_ms, 50, 150)
                    &&& match draws@[j].typo {
                        None => true,
                        Some(w) => alphabetic(text@[j]) && is_typo_letter(w) && 100 <= draws@[j].notice_ms < 300
                            && 30 <= draws@[j].fix_ms < 80,
                    }
                } by {
                    if j < i {
                        assert(draws@[j] == before[j]);
                    }
                }
            }
            i = i + 1;
        }
        keystrokes(text, &draws)
    }

    /// Pressing the named key (`Enter`, `Tab`, `Escape`, `Backspace`,
    /// `Delete`, an arrow key, or any other key name): a raw key-down and a
    /// key-up, each with the name as both key and code.
    pub fn press_key(&self, key: &str) -> (r: Vec<KeyAction>)
        ensures
            r@.len() == 2,
            events(r@) == press_events(key@),
    {
        let mut r: Vec<KeyAction> = Vec::new();
        r.push(KeyAction::KeyDown(String::from_str(key)));
        r.push(KeyAction::KeyUp(String::from_str(key)));
        assert(events(r@) =~= press_events(key@));
        r
    }

    /// Pressing Enter after a pause of 100 to 299 ms.
    pub fn press_enter(&self) -> (r: Vec<KeyAction>)
        ensures
            r@.len() == 3,
            r@[0] matches KeyAction::Pause(ms) && 100 <= ms < 300,
            events(r@).subrange(1, 3) == press_events("Enter"@),
    {
        let pause = random_range(100, 300) as u64;
        let mut r: Vec<KeyAction> = Vec::new();
        r.push(KeyAction::Pause(pause));
        r.push(KeyAction::KeyDown(String::from_str("Enter")));
        r.push(KeyAction::KeyUp(String::from_str("Enter")));
        assert(events(r@).subrange(1, 3) =~= press_events("Enter"@));
        r
    }

    /// Pressing Tab after a pause of 50 to 149 ms.
    pub fn press_tab(&self) -> (r: Vec<KeyAction>)
        ensures
            r@.len() == 3,
            r@[0] matches KeyAction::Pause(ms) && 50 <= ms < 150,
            events(r@).subrange(1, 3) == press_events("Tab"@),
    {
        let pause = random_range(50, 150) as u64;
        let mut r: Vec<KeyAction> = Vec::new();
        r.push(KeyAction::Pause(pause));
        r.push(KeyAction::KeyDown(String::from_str("Tab")));
        r.push(KeyAction::KeyUp(String::from_str("Tab")));
        assert(events(r@).subrange(1, 3) =~= press_events("Tab"@));
        r
    }
}

/// How many key-down events a list of events holds.
pub open spec fn key_downs(ev: Seq<KeyEvent>) -> nat
    decreases ev.len(),
{
    if ev.len() == 0 {
        0
    } else {
        key_downs(ev.drop_last()) + if is_key_down(ev.last()) { 1nat } else { 0nat }
    }
}

/// How many key-up events a list of events holds.
pub open spec fn key_ups(ev: Seq<KeyEvent>) -> nat
    decreases ev.len(),
{
    if ev.len() == 0 {
        0
    } else {
        key_ups(ev.drop_last()) + if is_key_up(ev.last()) { 1nat } else { 0nat }
    }
}

proof fn lemma_counts_add(a: Seq<KeyEvent>, b: Seq<KeyEvent>)
    ensures
        key_downs(a + b) == key_downs(a) + key_downs(b),
        key_ups(a + b) == key_ups(a) + key_ups(b),
    decreases b.len(),
{
    if b.len() == 0 {
        assert(a + b =~= a);
    } else {
        assert((a + b).drop_last() =~= a + b.drop_last());
        lemma_counts_add(a, b.drop_last());
    }
}

proof fn lemma_counts_push(a: Seq<KeyEvent>, e: KeyEvent)
    ensures
        key_downs(a.push(e)) == key_downs(a) + if is_key_down(e) { 1nat } else { 0nat },
        key_ups(a.push(e)) == key_ups(a) + if is_key_up(e) { 1nat } else { 0nat },
{
    assert(a.push(e).drop_last() =~= a);
}

proof fn lemma_typed_counts(c: char, pause_ms: u64)
    ensures
        key_downs(typed_events(c, pause_ms)) == 1,
        key_ups(typed_events(c, pause_ms)) == 1,
{
    let e = Seq::<KeyEvent>::empty();
    let s1 = e.push(KeyEvent::TypeDown(c));
    let s2 = s1.push(KeyEvent::TypeUp);
    lemma_counts_push(e, KeyEvent::TypeDown(c));
    lemma_counts_push(s1, KeyEvent::TypeUp);
    lemma_counts_push(s2, KeyEvent::Pause(pause_ms as nat));
    assert(s2.push(KeyEvent::Pause(pause_ms as nat)) =~= typed_events(c, pause_ms));
}

proof fn lemma_slip_counts(w: char, notice_ms: u64, fix_ms: u64)
    ensures
        key_downs(slip_events(w, notice_ms, fix_ms)) == 2,
        key_ups(slip_events(w, notice_ms, fix_ms)) == 2,
{
    let e = Seq::<KeyEvent>::empty();
    let s1 = e.push(KeyEvent::TypeDown(w));
    let s2 = s1.push(KeyEvent::TypeUp);
    let s3 = s2.push(KeyEvent::Pause(notice_ms as nat));
    let s4 = s3.push(KeyEvent::KeyDown("Backspace"@));
    let s5 = s4.push(KeyEvent::KeyUp("Backspace"@));
    lemma_counts_push(e, KeyEvent::TypeDown(w));
    lemma_counts_push(s1, KeyEvent::TypeUp);
    lemma_counts_push(s2, KeyEvent::Pause(notice_ms as nat));
    lemma_counts_push(s3, KeyEvent::KeyDown("Backspace"@));
    lemma_counts_push(s4, KeyEvent::KeyUp("Backspace"@));
    lemma_counts_push(s5, KeyEvent::Pause(fix_ms as nat));
    assert(s5.push(KeyEvent::Pause(fix_ms as nat)) =~= slip_events(w, notice_ms, fix_ms));
}

/// Typing one character presses and releases three keys when a typo is
/// made first, and one otherwise.
proof fn lemma_char_counts(c: char, d: KeystrokeDraw)
    ensures
        key_downs(char_events(c, d)) == if d.typo is Some { 3nat } else { 1nat },
        key_ups(char_events(c, d)) == key_downs(char_events(c, d)),
{
    lemma_typed_counts(c, d.pause_ms);
    if let Some(w) = d.typo {
        lemma_slip_counts(w, d.notice_ms, d.fix_ms);
        lemma_counts_add(slip_events(w, d.notice_ms, d.fix_ms), typed_events(c, d.pause_ms));
    }
}

/// Typing dispatches a key-down and a key-up for every character of the
/// text, never fewer, and one pair more for each typo and for each
/// correction.
pub proof fn lemma_typing_dispatches_every_character(text: Seq<char>, draws: Seq<KeystrokeDraw>)
    requires
        draws.len() >= text.len(),
    ensures
        key_downs(typing_events(text, draws)) >= text.len(),
        key_ups(typing_events(text, draws)) == key_downs(typing_events(text, draws)),
    decreases text.len(),
{
    if text.len() > 0 {
        let k = text.len() - 1;
        let prefix = text.subrange(0, k);
        lemma_typing_dispatches_every_character(prefix, draws);
        lemma_counts_add(typing_events(prefix, draws), char_events(text[k], draws[k]));
        lemma_char_counts(text[k], draws[k]);
    }
}

/// What a text field holds after one event: a typed character is
/// appended, a backspace removes the last character.
pub open spec fn field_step(field: Seq<char>, e: KeyEvent) -> Seq<char> {
    match e {
        KeyEvent::TypeDown(c) => field.push(c),
        KeyEvent::KeyDown(k) => if k == "Backspace"@ && field.len() > 0 { field.drop_last() } else { field },
        _ => field,
    }
}

/// What a text field holding `field` holds after the events.
pub open spec fn field_after(field: Seq<char>, ev: Seq<KeyEvent>) -> Seq<char>
    decreases ev.len(),
{
    if ev.len() == 0 {
        field
    } else {
        field_step(field_after(field, ev.drop_last()), ev.last())
    }
}

proof fn lemma_field_after_add(field: Seq<char>, a: Seq<KeyEvent>, b: Seq<KeyEvent>)
    ensures
        field_after(field, a + b) == field_after(field_after(field, a), b),
    decreases b.len(),
{
    if b.len() == 0 {
        assert(a + b =~= a);
    } else {
        assert((a + b).drop_last() =~= a + b.drop_last());
        lemma_field_after_add(field, a, b.drop_last());
    }
}

proof fn lemma_field_after_push(field: Seq<char>, ev: Seq<KeyEvent>, e: KeyEvent)
    ensures
        field_after(field, ev.push(e)) == field_step(field_after(field, ev), e),
{
    assert(ev.push(e).drop_last() =~= ev);
}

/// Typing one character, with or without a slip, appends exactly that
/// character.
proof fn lemma_char_field(field: Seq<char>, c: char, d: KeystrokeDraw)
    ensures
        field_after(field, char_events(c, d)) == field.push(c),
{
    let e = Seq::<KeyEvent>::empty();
    let t1 = e.push(KeyEvent::TypeDown(c));
    let t2 = t1.push(KeyEvent::TypeUp);
    assert(t2.push(KeyEvent::Pause(d.pause_ms as nat)) =~= typed_events(c, d.pause_ms));
    lemma_field_after_push(field, t2, KeyEvent::Pause(d.pause_ms as nat));
    lemma_field_after_push(field, t1, KeyEvent::TypeUp);
    lemma_field_after_push(field, e, KeyEvent::TypeDown(c));
    if let Some(w) = d.typo {
        lemma_slip_field(field, w, d.notice_ms, d.fix_ms);
        lemma_field_after_add(field, slip_events(w, d.notice_ms, d.fix_ms), typed_events(c, d.pause_ms));
    }
}

/// A slip and its correction leave the field as it was.
proof fn lemma_slip_field(field: Seq<char>, w: char, notice_ms: u64, fix_ms: u64)
    ensures
        field_after(field, slip_events(w, notice_ms, fix_ms)) == field,
{
    let e = Seq::<KeyEvent>::empty();
    let s1 = e.push(KeyEvent::TypeDown(w));
    let s2 = s1.push(KeyEvent::TypeUp);
    let s3 = s2.push(KeyEvent::Pause(notice_ms as nat));
    let s4 = s3.push(KeyEvent::KeyDown("Backspace"@));
    let s5 = s4.push(KeyEvent::KeyUp("Backspace"@));
    lemma_field_after_push(field, e, KeyEvent::TypeDown(w));
    lemma_field_after_push(field, s1, KeyEvent::TypeUp);
    lemma_field_after_push(field, s2, KeyEvent::Pause(notice_ms as nat));
    lemma_field_after_push(field, s3, KeyEvent::KeyDown("Backspace"@));
    lemma_field_after_push(field, s4, KeyEvent::KeyUp("Backspace"@));
    lemma_field_after_push(field, s5, KeyEvent::Pause(fix_ms as nat));
    assert(field.push(w).drop_last() =~= field);
    assert(s5.push(KeyEvent::Pause(fix_ms as nat)) =~= slip_events(w, notice_ms, fix_ms));
}

/// Typing, typos and their corrections included, leaves exactly the text
/// in an empty field.
pub proof fn lemma_typing_leaves_the_text(text: Seq<char>, draws: Seq<KeystrokeDraw>)
    requires
        draws.len() >= text.len(),
    ensures
        field_after(Seq::empty(), typing_events(text, draws)) == text,
    decreases text.len(),
{
    if text.len() == 0 {
        assert(text =~= Seq::<char>::empty());
    } else {
        let k = text.len() - 1;
        let prefix = text.subrange(0, k);
        lemma_typing_leaves_the_text(prefix, draws);
        lemma_field_after_add(Seq::empty(), typing_events(prefix, draws), char_events(text[k], draws[k]));
        lemma_char_field(prefix, text[k], draws[k]);
        assert(prefix.push(text[k]) =~= text);
    }
}

} // verus!
