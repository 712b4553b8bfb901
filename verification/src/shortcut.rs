//! The global keyboard shortcut: which keys it may be set to, and the
//! decision taken on every physical key press.
use vstd::prelude::*;
use crate::text::{ascii_upper, chars_of, is_ascii_digit, is_ascii_upper, trim, trimmed};

verus! {

/// Virtual-key code of `C`, the shortcut key used when none is set.
pub const VK_C: u32 = 0x43;

/// Virtual-key code of `F1`; `F2` to `F12` follow it.
pub const VK_F1: u32 = 0x70;

pub const MOD_CTRL: u32 = 0x01;
pub const MOD_ALT: u32 = 0x02;
pub const MOD_SHIFT: u32 = 0x04;
pub const MOD_WIN: u32 = 0x08;

/// `WM_KEYDOWN`, `WM_SYSKEYDOWN` and the `LLKHF_INJECTED` flag of a
/// low-level keyboard hook event.
pub const WM_KEYDOWN: u32 = 0x0100;
pub const WM_SYSKEYDOWN: u32 = 0x0104;
pub const LLKHF_INJECTED: u32 = 0x10;

/// The value of a string of decimal digits.
pub open spec fn digits_value(s: Seq<char>) -> nat
    decreases s.len(),
{
    if s.len() == 0 {
        0
    } else {
        digits_value(s.drop_last()) * 10 + ((s.last() as u32) - ('0' as u32)) as nat
    }
}

pub open spec fn all_digits(s: Seq<char>) -> bool {
    forall|i: int| 0 <= i < s.len() ==> is_ascii_digit(#[trigger] s[i])
}

/// `str::parse::<u32>`: an optional `+` and then at least one digit, with a
/// value that fits in `u32`.
pub open spec fn parse_u32_spec(s: Seq<char>) -> Option<u32> {
    parse_digits_spec(
        if s.len() > 0 && s[0] == '+' {
            s.drop_first()
        } else {
            s
        },
    )
}

/// At least one digit, and nothing else, with a value that fits in `u32`.
pub open spec fn parse_digits_spec(d: Seq<char>) -> Option<u32> {
    if d.len() > 0 && all_digits(d) && digits_value(d) <= u32::MAX {
        Some(digits_value(d) as u32)
    } else {
        None
    }
}

pub open spec fn upper_seq(s: Seq<char>) -> Seq<char> {
    s.map_values(|c: char| ascii_upper(c))
}

/// The virtual-key code for a shortcut key setting: after trimming and
/// upper-casing, one letter `A`-`Z` or digit `0`-`9` stands for its own
/// code, and `F1` to `F12` for the function keys.
pub open spec fn shortcut_vk_spec(key: Seq<char>) -> Option<u32> {
    let k = upper_seq(trimmed(key));
    if k.len() == 1 && (is_ascii_upper(k[0]) || is_ascii_digit(k[0])) {
        Some(k[0] as u32)
    } else if k.len() >= 1 && k[0] == 'F' {
        match parse_u32_spec(k.drop_first()) {
            Some(n) => if 1 <= n && n <= 12 {
                Some((VK_F1 + n - 1) as u32)
            } else {
                None
            },
            None => None,
        }
    } else {
        None
    }
}

proof fn lemma_digits_value_grows(s: Seq<char>, i: int)
    requires
        0 <= i <= s.len(),
        all_digits(s),
    ensures
        digits_value(s) >= digits_value(s.take(i)),
    decreases s.len(),
{
    if i < s.len() {
        let t = s.drop_last();
        assert(all_digits(t)) by {
            assert forall|j: int| 0 <= j < t.len() implies is_ascii_digit(#[trigger] t[j]) by {
                assert(t[j] == s[j]);
            }
        }
        lemma_digits_value_grows(t, i);
        assert(t.take(i) =~= s.take(i));
    } else {
        assert(s.take(i) =~= s);
    }
}

/// `c.to_ascii_uppercase()`.
pub fn to_ascii_upper(c: char) -> (r: char)
    ensures
        r == ascii_upper(c),
{
    if 'a' <= c && c <= 'z' {
        let b: u8 = (c as u8) - 32;
        b as char
    } else {
        c
    }
}

/// `str::parse::<u32>` on the characters of `s` from index `from` on.
pub fn parse_u32(s: &Vec<char>, from: usize) -> (r: Option<u32>)
    requires
        from <= s@.len(),
    ensures
        r == parse_u32_spec(s@.skip(from as int)),
{
    let ghost all = s@.skip(from as int);
    let n = s.len();
    let mut start = from;
    if start < n && s[start] == '+' {
        start = start + 1;
    }
    let ghost d = s@.skip(start as int);
    assert(d =~= (if all.len() > 0 && all[0] == '+' { all.drop_first() } else { all }));
    if start == n {
        return None;
    }
    let mut value: u64 = 0;
    let mut i = start;
    while i < n
        invariant
            start <= i <= n,
            n == s@.len(),
            start < n,
            d == s@.skip(start as int),
            value == digits_value(d.take(i - start)),
            value <= u32::MAX,
            parse_u32_spec(s@.skip(from as int)) == parse_digits_spec(d),
            forall|j: int| start <= j < i ==> is_ascii_digit(#[trigger] s@[j]),
        decreases n - i,
    {
        let c = s[i];
        if !('0' <= c && c <= '9') {
            assert(!is_ascii_digit(d[i - start]));
            return None;
        }
        let digit = (c as u64) - ('0' as u64);
        let ghost before = d.take(i - start);
        let ghost after = d.take(i - start + 1);
        assert(after.drop_last() =~= before);
        assert(after.last() == c);
        value = value * 10 + digit;
        assert(value == digits_value(after));
        i = i + 1;
        if value > 0xFFFF_FFFF {
            proof {
                if all_digits(d) {
                    lemma_digits_value_grows(d, i - start);
                }
            }
            return None;
        }
    }
    assert(d.take(n - start) =~= d);
    assert(all_digits(d)) by {
        assert forall|j: int| 0 <= j < d.len() implies is_ascii_digit(#[trigger] d[j]) by {
            assert(d[j] == s@[j + start]);
        }
    }
    Some(value as u32)
}

/// The virtual-key code for a shortcut key setting, or `None` when it is not
/// one of `A`-`Z`, `0`-`9`, `F1`-`F12` (case and surrounding white space do
/// not matter).
pub fn shortcut_vk(key: &str) -> (r: Option<u32>)
    ensures
        r == shortcut_vk_spec(key@),
{
    let t = trim(key);
    let raw = chars_of(t);
    let n = raw.len();
    let mut k: Vec<char> = Vec::new();
    let mut i: usize = 0;
    while i < n
        invariant
            n == raw@.len(),
            0 <= i <= n,
            k@ == upper_seq(raw@.take(i as int)),
        decreases n - i,
    {
        k.push(to_ascii_upper(raw[i]));
        i = i + 1;
        assert(k@ =~= upper_seq(raw@.take(i as int)));
    }
    assert(raw@.take(n as int) =~= raw@);
    let ghost ks = upper_seq(trimmed(key@));
    assert(k@ == ks);
    if n == 1 {
        let c = k[0];
        if ('A' <= c && c <= 'Z') || ('0' <= c && c <= '9') {
            return Some(c as u32);
        }
    }
    if n >= 1 && k[0] == 'F' {
        assert(k@.skip(1) =~= ks.drop_first());
        match parse_u32(&k, 1) {
            Some(v) => {
                if 1 <= v && v <= 12 {
                    return Some(VK_F1 + v - 1);
                }
            },
            None => {},
        }
    }
    None
}

/// The modifier bit mask of the configured shortcut.
pub open spec fn modifier_mask(ctrl: bool, alt: bool, shift: bool, win: bool) -> u32 {
    (if ctrl {
        MOD_CTRL
    } else {
        0
    }) | (if alt {
        MOD_ALT
    } else {
        0
    }) | (if shift {
        MOD_SHIFT
    } else {
        0
    }) | (if win {
        MOD_WIN
    } else {
        0
    })
}

/// Which keys are held down when a key press arrives, where it arrives,
/// and when.
#[derive(Clone, Copy, Debug)]
pub struct KeyPress {
    /// Virtual-key code of the pressed key.
    pub vk: u32,
    pub ctrl: bool,
    pub alt: bool,
    pub shift: bool,
    pub left_win: bool,
    pub right_win: bool,
    /// The foreground window belongs to this application.
    pub own_window_foreground: bool,
    /// Milliseconds since the Unix epoch.
    pub now_ms: u64,
}

/// What to do about a key press.
#[derive(Clone, Copy, PartialEq, Eq, Structural, Debug)]
pub enum ShortcutAction {
    /// Nothing.
    Ignore,
    /// `Ctrl+Alt+C` while a selection fix is still running: nothing, but
    /// worth logging.
    SelectionBusy,
    /// Select all text in the active application, copy it, fix it, paste it.
    FixSelection,
    /// Fix the clipboard.
    FixClipboard,
}

/// The shortcut settings in force and the press counting state.
pub struct ShortcutModel {
    pub enabled: bool,
    pub vk: u32,
    pub mods: u32,
    pub presses: u32,
    pub window_ms: u64,
    pub last_tick: u64,
    pub count: u32,
    pub selection_in_flight: bool,
}

impl ShortcutModel {
    /// Presses needed and the time window are in range, and the count of
    /// presses so far is below the number needed.
    pub open spec fn wf(self) -> bool {
        &&& 1 <= self.presses <= 4
        &&& 150 <= self.window_ms <= 2000
        &&& self.count < self.presses
    }
}

/// The shortcut state.
pub struct ShortcutState {
    enabled: bool,
    vk: u32,
    mods: u32,
    presses: u32,
    window_ms: u64,
    last_tick: u64,
    count: u32,
    selection_in_flight: bool,
}

impl View for ShortcutState {
    type V = ShortcutModel;

    closed spec fn view(&self) -> ShortcutModel {
        ShortcutModel {
            enabled: self.enabled,
            vk: self.vk,
            mods: self.mods,
            presses: self.presses,
            window_ms: self.window_ms,
            last_tick: self.last_tick,
            count: self.count,
            selection_in_flight: self.selection_in_flight,
        }
    }
}

/// Whether the modifier keys held down are exactly those of `mods`; either
/// Windows key counts as Win.
pub open spec fn modifiers_match_spec(mods: u32, key: KeyPress) -> bool {
    &&& ((mods & MOD_CTRL) != 0) == key.ctrl
    &&& ((mods & MOD_ALT) != 0) == key.alt
    &&& ((mods & MOD_SHIFT) != 0) == key.shift
    &&& ((mods & MOD_WIN) != 0) == (key.left_win || key.right_win)
}

/// `Ctrl+Alt+C` with neither Shift nor a Windows key.
pub open spec fn is_selection_chord(key: KeyPress) -> bool {
    key.vk == VK_C && key.ctrl && key.alt && !key.shift && !key.left_win && !key.right_win
}

/// `now.saturating_sub(last)`.
pub open spec fn elapsed(now: u64, last: u64) -> u64 {
    if now >= last {
        (now - last) as u64
    } else {
        0
    }
}

/// A press of the configured key with the configured modifiers: the press
/// continues the series when the previous one was less than the window ago,
/// and the series fires once it reaches the number of presses needed.
pub open spec fn count_press(m: ShortcutModel, now: u64) -> (ShortcutModel, ShortcutAction) {
    let count = if m.last_tick != 0 && elapsed(now, m.last_tick) <= m.window_ms {
        (m.count + 1) as u32
    } else {
        1u32
    };
    if count == m.presses {
        (ShortcutModel { last_tick: now, count: 0, ..m }, ShortcutAction::FixClipboard)
    } else {
        (ShortcutModel { last_tick: now, count, ..m }, ShortcutAction::Ignore)
    }
}

/// The decision taken on a physical key press, and the state after it.
pub open spec fn on_key_spec(m: ShortcutModel, key: KeyPress) -> (ShortcutModel, ShortcutAction) {
    if !m.enabled {
        (m, ShortcutAction::Ignore)
    } else if is_selection_chord(key) {
        if key.own_window_foreground {
            (m, ShortcutAction::Ignore)
        } else if m.selection_in_flight {
            (m, ShortcutAction::SelectionBusy)
        } else {
            (ShortcutModel { selection_in_flight: true, ..m }, ShortcutAction::FixSelection)
        }
    } else if key.vk != m.vk || !modifiers_match_spec(m.mods, key) || key.own_window_foreground {
        (m, ShortcutAction::Ignore)
    } else {
        count_press(m, key.now_ms)
    }
}

/// The shortcut settings taken from a configuration, with the press count
/// started afresh.
pub open spec fn sync_spec(
    m: ShortcutModel,
    enabled: bool,
    key: Seq<char>,
    ctrl: bool,
    alt: bool,
    shift: bool,
    win: bool,
    presses: u32,
    window_ms: u64,
) -> ShortcutModel {
    ShortcutModel {
        enabled,
        vk: match shortcut_vk_spec(key) {
            Some(vk) => vk,
            None => VK_C,
        },
        mods: modifier_mask(ctrl, alt, shift, win),
        presses: clamp_u32(presses, 1, 4),
        window_ms: clamp_u64(window_ms, 150, 2000),
        last_tick: 0,
        count: 0,
        selection_in_flight: m.selection_in_flight,
    }
}

pub open spec fn clamp_u32(v: u32, lo: u32, hi: u32) -> u32 {
    if v < lo {
        lo
    } else if v > hi {
        hi
    } else {
        v
    }
}

pub open spec fn clamp_u64(v: u64, lo: u64, hi: u64) -> u64 {
    if v < lo {
        lo
    } else if v > hi {
        hi
    } else {
        v
    }
}

/// Whether the modifier keys held down are exactly those of `mods`.
pub fn modifiers_match(mods: u32, key: &KeyPress) -> (b: bool)
    ensures
        b == modifiers_match_spec(mods, *key),
{
    ((mods & MOD_CTRL) != 0) == key.ctrl && ((mods & MOD_ALT) != 0) == key.alt && ((mods
        & MOD_SHIFT) != 0) == key.shift && ((mods & MOD_WIN) != 0) == (key.left_win
        || key.right_win)
}

/// Whether a low-level keyboard hook event is a key press typed by the user:
/// a non-negative hook code, a `WM_KEYDOWN` or `WM_SYSKEYDOWN` message, and
/// no `LLKHF_INJECTED` flag.
pub fn is_user_key_down(code: i32, message: usize, flags: u32) -> (b: bool)
    ensures
        b == (code >= 0 && ((message as u32) == WM_KEYDOWN || (message as u32) == WM_SYSKEYDOWN)
            && (flags & LLKHF_INJECTED) == 0),
{
    let m = message as u32;
    code >= 0 && (m == WM_KEYDOWN || m == WM_SYSKEYDOWN) && (flags & LLKHF_INJECTED) == 0
}

/// Whether a `GetAsyncKeyState` result says the key is down: its top bit.
pub fn key_state_is_down(state: i16) -> (b: bool)
    ensures
        b == (state < 0),
{
    let r = (state & i16::MIN) != 0;
    assert(((state & i16::MIN) != 0) == (state < 0)) by (bit_vector);
    r
}

impl ShortcutState {
    #[verifier::type_invariant]
    spec fn inv(self) -> bool {
        self@.wf()
    }

    /// The state before any configuration: enabled, `Ctrl+C` pressed twice
    /// within 650 ms.
    pub fn new() -> (s: Self)
        ensures
            s@ == (ShortcutModel {
                enabled: true,
                vk: VK_C,
                mods: MOD_CTRL,
                presses: 2,
                window_ms: 650,
                last_tick: 0,
                count: 0,
                selection_in_flight: false,
            }),
            s@.wf(),
    {
        ShortcutState {
            enabled: true,
            vk: VK_C,
            mods: MOD_CTRL,
            presses: 2,
            window_ms: 650,
            last_tick: 0,
            count: 0,
            selection_in_flight: false,
        }
    }

    /// Takes on a shortcut configuration and restarts the press count.
    pub fn sync(
        &mut self,
        enabled: bool,
        key: &str,
        ctrl: bool,
        alt: bool,
        shift: bool,
        win: bool,
        presses: u32,
        window_ms: u64,
    )
        ensures
            final(self)@ == sync_spec(old(self)@, enabled, key@, ctrl, alt, shift, win, presses, window_ms),
            final(self)@.wf(),
    {
        let mods: u32 = (if ctrl {
            MOD_CTRL
        } else {
            0
        }) | (if alt {
            MOD_ALT
        } else {
            0
        }) | (if shift {
            MOD_SHIFT
        } else {
            0
        }) | (if win {
            MOD_WIN
        } else {
            0
        });
        let vk = match shortcut_vk(key) {
            Some(vk) => vk,
            None => VK_C,
        };
        let presses = if presses < 1 {
            1
        } else if presses > 4 {
            4
        } else {
            presses
        };
        let window_ms = if window_ms < 150 {
            150
        } else if window_ms > 2000 {
            2000
        } else {
            window_ms
        };
        *self = ShortcutState {
            enabled,
            vk,
            mods,
            presses,
            window_ms,
            last_tick: 0,
            count: 0,
            selection_in_flight: self.selection_in_flight,
        };
    }

    /// Decides what a physical key press does, and records it.
    pub fn on_key_down(&mut self, key: &KeyPress) -> (action: ShortcutAction)
        ensures
            (final(self)@, action) == on_key_spec(old(self)@, *key),
            old(self)@.wf(),
            final(self)@.wf(),
    {
        proof {
            use_type_invariant(&*self);
        }
        if !self.enabled {
            return ShortcutAction::Ignore;
        }
        if key.vk == VK_C && key.ctrl && key.alt && !key.shift && !key.left_win && !key.right_win {
            if key.own_window_foreground {
                return ShortcutAction::Ignore;
            }
            if self.selection_in_flight {
                return ShortcutAction::SelectionBusy;
            }
            self.selection_in_flight = true;
            return ShortcutAction::FixSelection;
        }
        if key.vk != self.vk || !modifiers_match(self.mods, key) || key.own_window_foreground {
            return ShortcutAction::Ignore;
        }
        let now = key.now_ms;
        let last = self.last_tick;
        let since = if now >= last {
            now - last
        } else {
            0
        };
        let count: u32 = if last != 0 && since <= self.window_ms {
            self.count + 1
        } else {
            1
        };
        if count == self.presses {
            self.last_tick = now;
            self.count = 0;
            ShortcutAction::FixClipboard
        } else {
            *self = ShortcutState { last_tick: now, count, ..*self };
            ShortcutAction::Ignore
        }
    }

    /// A selection fix has ended; `Ctrl+Alt+C` may start another.
    pub fn finish_selection(&mut self)
        ensures
            final(self)@ == (ShortcutModel { selection_in_flight: false, ..old(self)@ }),
            final(self)@.wf(),
    {
        proof {
            use_type_invariant(&*self);
        }
        self.selection_in_flight = false;
    }

    /// Whether the shortcut is on.
    pub fn is_enabled(&self) -> (b: bool)
        ensures
            b == self@.enabled,
    {
        self.enabled
    }
}

/// The actions taken on a series of presses of one chord at the given
/// times, and the state after them.
pub open spec fn run_presses(m: ShortcutModel, key: KeyPress, times: Seq<u64>) -> (ShortcutModel, Seq<ShortcutAction>)
    decreases times.len(),
{
    if times.len() == 0 {
        (m, Seq::empty())
    } else {
        let step = on_key_spec(m, KeyPress { now_ms: times[0], ..key });
        let rest = run_presses(step.0, key, times.drop_first());
        (rest.0, seq![step.1] + rest.1)
    }
}

/// The configured shortcut chord, pressed outside this application's
/// windows.
pub open spec fn is_configured_press(m: ShortcutModel, key: KeyPress) -> bool {
    &&& m.enabled
    &&& !is_selection_chord(key)
    &&& key.vk == m.vk
    &&& modifiers_match_spec(m.mods, key)
    &&& !key.own_window_foreground
}

/// Each press comes at most the window after the one before it (and the
/// clock is past the epoch), so the series is not broken.
pub open spec fn presses_in_window(m: ShortcutModel, times: Seq<u64>) -> bool {
    forall|i: int| 0 <= i < times.len() - 1 ==> #[trigger] times[i] != 0 && elapsed(times[i + 1], times[i]) <= m.window_ms
}

proof fn lemma_series(m: ShortcutModel, key: KeyPress, times: Seq<u64>)
    requires
        m.wf(),
        is_configured_press(m, key),
        times.len() >= 1,
        times.len() + m.count == m.presses,
        m.count == 0 || (m.last_tick != 0 && elapsed(times[0], m.last_tick) <= m.window_ms),
        presses_in_window(m, times),
    ensures
        ({
            let r = run_presses(m, key, times);
            &&& r.1.len() == times.len()
            &&& forall|i: int| 0 <= i < times.len() - 1 ==> #[trigger] r.1[i] == ShortcutAction::Ignore
            &&& r.1[times.len() - 1] == ShortcutAction::FixClipboard
            &&& r.0.count == 0
            &&& r.0.wf()
        }),
    decreases times.len(),
{
    let k0 = KeyPress { now_ms: times[0], ..key };
    let step = on_key_spec(m, k0);
    assert(!is_selection_chord(k0));
    assert(modifiers_match_spec(m.mods, k0));
    let rest = times.drop_first();
    if times.len() == 1 {
        assert(step.1 == ShortcutAction::FixClipboard);
        assert(rest.len() == 0);
    } else {
        let m1 = step.0;
        assert(step.1 == ShortcutAction::Ignore);
        assert(m1.count == m.count + 1);
        assert(m1.last_tick == times[0]);
        assert(times[0] != 0 && elapsed(times[1], times[0]) <= m.window_ms);
        assert(rest[0] == times[1]);
        assert(presses_in_window(m1, rest)) by {
            assert forall|i: int| 0 <= i < rest.len() - 1 implies #[trigger] rest[i] != 0 && elapsed(rest[i + 1], rest[i]) <= m1.window_ms by {
                assert(rest[i] == times[i + 1]);
                assert(rest[i + 1] == times[i + 2]);
            }
        }
        lemma_series(m1, key, rest);
        let r = run_presses(m1, key, rest);
        let all = run_presses(m, key, times);
        assert(all.1 == seq![step.1] + r.1);
        assert forall|i: int| 0 <= i < times.len() - 1 implies #[trigger] all.1[i] == ShortcutAction::Ignore by {
            if i > 0 {
                assert(all.1[i] == r.1[i - 1]);
            }
        }
        assert(all.1[times.len() - 1] == r.1[rest.len() - 1]);
    }
}

/// From a state with no press counted (as after `sync`), pressing the
/// configured shortcut the configured number of times, each within the
/// window of the one before, fixes the clipboard on the last press and on
/// no press before it, and leaves the count at zero again.
pub proof fn lemma_presses_trigger_fix(m: ShortcutModel, key: KeyPress, times: Seq<u64>)
    requires
        m.wf(),
        m.count == 0,
        is_configured_press(m, key),
        times.len() == m.presses,
        presses_in_window(m, times),
    ensures
        ({
            let r = run_presses(m, key, times);
            &&& forall|i: int| 0 <= i < times.len() - 1 ==> #[trigger] r.1[i] == ShortcutAction::Ignore
            &&& r.1[times.len() - 1] == ShortcutAction::FixClipboard
            &&& r.0.count == 0
        }),
{
    lemma_series(m, key, times);
}

/// Once `Ctrl+Alt+C` has started a selection fix, pressing it again before
/// that fix ends starts nothing: only one selection fix runs at a time.
pub proof fn lemma_one_selection_at_a_time(m: ShortcutModel, first: KeyPress, second: KeyPress)
    requires
        m.enabled,
        !m.selection_in_flight,
        is_selection_chord(first),
        !first.own_window_foreground,
        is_selection_chord(second),
        !second.own_window_foreground,
    ensures
        on_key_spec(m, first).1 == ShortcutAction::FixSelection,
        on_key_spec(on_key_spec(m, first).0, second).1 == ShortcutAction::SelectionBusy,
        on_key_spec(ShortcutModel { selection_in_flight: false, ..on_key_spec(m, first).0 }, second).1
            == ShortcutAction::FixSelection,
{
}

/// A key press other than Ctrl+Alt+C that is not the configured shortcut
/// (another key, other modifiers, or in this application's own window)
/// does nothing and changes nothing: it neither counts as a press nor
/// breaks a series of presses.
pub proof fn lemma_other_keys_change_nothing(m: ShortcutModel, key: KeyPress)
    requires
        !is_selection_chord(key),
    ensures
        key.vk != m.vk ==> on_key_spec(m, key) == (m, ShortcutAction::Ignore),
        !modifiers_match_spec(m.mods, key) ==> on_key_spec(m, key) == (m, ShortcutAction::Ignore),
        key.own_window_foreground ==> on_key_spec(m, key) == (m, ShortcutAction::Ignore),
{
}

/// With the shortcut set to two presses, a press, any other key, and a
/// second press within the window of the first fix the clipboard on the
/// second press.
pub proof fn lemma_double_press_survives_other_keys(
    m: ShortcutModel,
    press: KeyPress,
    other: KeyPress,
    t1: u64,
    t2: u64,
)
    requires
        m.wf(),
        m.count == 0,
        m.presses == 2,
        is_configured_press(m, press),
        other.vk != m.vk,
        !is_selection_chord(other),
        t1 != 0,
        elapsed(t2, t1) <= m.window_ms,
    ensures
        ({
            let s1 = on_key_spec(m, KeyPress { now_ms: t1, ..press });
            let s2 = on_key_spec(s1.0, other);
            let s3 = on_key_spec(s2.0, KeyPress { now_ms: t2, ..press });
            &&& s1.1 == ShortcutAction::Ignore
            &&& s2.1 == ShortcutAction::Ignore
            &&& s3.1 == ShortcutAction::FixClipboard
        }),
{
    let k1 = KeyPress { now_ms: t1, ..press };
    let k2 = KeyPress { now_ms: t2, ..press };
    assert(!is_selection_chord(k1) && modifiers_match_spec(m.mods, k1));
    assert(!is_selection_chord(k2) && modifiers_match_spec(m.mods, k2));
}

} // verus!
