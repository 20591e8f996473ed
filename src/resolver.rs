//! Action resolution: an input event, looked up in the action table, becomes
//! the action it is configured for.
use vstd::prelude::*;
use crate::config::{Config, find_entry, find_line, position_of_key, position_of_line};

verus! {

/// The kind of hardware an input event comes from.
#[derive(Clone, Copy, Debug, PartialEq, Eq, Structural)]
pub enum InputDeviceType {
    /// An input device that delivers digit strings closed by "enter".
    Evdev,
    /// A GPIO chip whose lines are buttons; the raw id is the line number.
    Gpio,
}

/// One completed identifier read from a device.
#[derive(Debug)]
pub struct InputChannelMessage {
    pub device_type: InputDeviceType,
    pub device: String,
    pub id: String,
}

/// An action, as the playback session controller receives it.
#[derive(Debug)]
pub enum ResolvedAction {
    Play(String),
    Pause,
    Resume,
    VolumeUp,
    VolumeDown,
    Unknown,
}

/// The mathematical content of a `ResolvedAction`.
pub enum ActionModel {
    Play(Seq<char>),
    Pause,
    Resume,
    VolumeUp,
    VolumeDown,
    Unknown,
}

impl View for ResolvedAction {
    type V = ActionModel;

    open spec fn view(&self) -> ActionModel {
        match self {
            ResolvedAction::Play(r) => ActionModel::Play(r@),
            ResolvedAction::Pause => ActionModel::Pause,
            ResolvedAction::Resume => ActionModel::Resume,
            ResolvedAction::VolumeUp => ActionModel::VolumeUp,
            ResolvedAction::VolumeDown => ActionModel::VolumeDown,
            ResolvedAction::Unknown => ActionModel::Unknown,
        }
    }
}

pub open spec fn is_digit(c: char) -> bool {
    '0' <= c <= '9'
}

pub open spec fn all_digits(s: Seq<char>) -> bool {
    forall|i: int| 0 <= i < s.len() ==> is_digit(#[trigger] s[i])
}

/// The number that the decimal digits `s` spell.
pub open spec fn digits_value(s: Seq<char>) -> nat
    decreases s.len(),
{
    if s.len() == 0 {
        0
    } else {
        digits_value(s.drop_last()) * 10 + (s.last() as nat - '0' as nat) as nat
    }
}

/// `s` without a leading `+`, which an unsigned decimal number may carry.
pub open spec fn unsigned_digits(s: Seq<char>) -> Seq<char> {
    if s.len() > 0 && s[0] == '+' {
        s.subrange(1, s.len() as int)
    } else {
        s
    }
}

/// `s` read as a GPIO line number: an optional `+`, then one or more decimal
/// digits whose value fits in 32 bits.
pub open spec fn parsed_line(s: Seq<char>) -> Option<u32> {
    let d = unsigned_digits(s);
    if d.len() > 0 && all_digits(d) && digits_value(d) <= u32::MAX {
        Some(digits_value(d) as u32)
    } else {
        None
    }
}

proof fn lemma_digits_value_grows(s: Seq<char>, j: int)
    requires
        0 <= j <= s.len(),
        all_digits(s),
    ensures
        digits_value(s.subrange(0, j)) <= digits_value(s),
    decreases s.len() - j,
{
    if j < s.len() {
        lemma_digits_value_grows(s, j + 1);
        assert(s.subrange(0, j + 1).drop_last() =~= s.subrange(0, j));
        assert(is_digit(s[j]));
    } else {
        assert(s.subrange(0, j) =~= s);
    }
}

/// Reads a GPIO line number; `None` where `s` is not one.
pub fn parse_line(s: &String) -> (r: Option<u32>)
    ensures
        r == parsed_line(s@),
{
    let n = s.as_str().unicode_len();
    let mut i: usize = 0;
    if n > 0 && s.as_str().get_char(0) == '+' {
        i = 1;
    }
    let start = i;
    let ghost d = unsigned_digits(s@);
    assert(d =~= s@.subrange(start as int, n as int));
    if start == n {
        return None;
    }
    let mut value: u64 = 0;
    while i < n
        invariant
            start <= i <= n,
            n == s@.len(),
            d == s@.subrange(start as int, n as int),
            d == unsigned_digits(s@),
            forall|k: int| start <= k < i ==> is_digit(#[trigger] s@[k]),
            value == digits_value(s@.subrange(start as int, i as int)),
            value <= u32::MAX,
        decreases n - i,
    {
        let c = s.as_str().get_char(i);
        if !('0' <= c && c <= '9') {
            assert(d[i - start] == c);
            assert(!is_digit(d[i - start]));
            return None;
        }
        let next = value * 10 + (c as u32 - '0' as u32) as u64;
        assert(s@.subrange(start as int, i + 1).drop_last() =~= s@.subrange(start as int, i as int));
        assert(s@.subrange(start as int, i + 1).last() == c);
        assert(next == digits_value(s@.subrange(start as int, i + 1)));
        if next > u32::MAX as u64 {
            proof {
                if all_digits(d) {
                    lemma_digits_value_grows(d, i + 1 - start);
                    assert(d.subrange(0, i + 1 - start) =~= s@.subrange(start as int, i + 1));
                }
            }
            return None;
        }
        value = next;
        i = i + 1;
    }
    assert(s@.subrange(start as int, n as int) =~= d);
    Some(value as u32)
}

/// The action configured for `device_type`, `device` and raw id `id`; `None`
/// where the device is not configured or has no action for that id (for GPIO,
/// also where `id` is no line number).
pub open spec fn configured_action(
    conf: Config,
    device_type: InputDeviceType,
    device: Seq<char>,
    id: Seq<char>,
) -> Option<String> {
    match device_type {
        InputDeviceType::Evdev => match find_entry(conf.input@, device) {
            Some(codes) => find_entry(codes@, id),
            None => None,
        },
        InputDeviceType::Gpio => match find_entry(conf.gpio@, device) {
            Some(lines) => match parsed_line(id) {
                Some(line) => find_line(lines@, line),
                None => None,
            },
            None => None,
        },
    }
}

/// Looks up the action configured for the device and raw id of `message`.
pub fn handle_input_get_action(conf: &Config, message: &InputChannelMessage) -> (r: Option<String>)
    ensures
        r == configured_action(*conf, message.device_type, message.device@, message.id@),
{
    match message.device_type {
        InputDeviceType::Evdev => match position_of_key(&conf.input, &message.device) {
            Some(d) => match position_of_key(&conf.input[d].1, &message.id) {
                Some(k) => Some(conf.input[d].1[k].1.clone()),
                None => None,
            },
            None => None,
        },
        InputDeviceType::Gpio => match position_of_key(&conf.gpio, &message.device) {
            Some(d) => match parse_line(&message.id) {
                Some(line) => match position_of_line(&conf.gpio[d].1, line) {
                    Some(k) => Some(conf.gpio[d].1[k].1.clone()),
                    None => None,
                },
                None => None,
            },
            None => None,
        },
    }
}

pub open spec fn word_pause() -> Seq<char> {
    seq!['P', 'A', 'U', 'S', 'E']
}

pub open spec fn word_resume() -> Seq<char> {
    seq!['R', 'E', 'S', 'U', 'M', 'E']
}

pub open spec fn word_volume_increase() -> Seq<char> {
    seq!['V', 'O', 'L', 'U', 'M', 'E', '_', 'I', 'N', 'C', 'R', 'E', 'A', 'S', 'E']
}

pub open spec fn word_volume_up() -> Seq<char> {
    seq!['V', 'O', 'L', 'U', 'M', 'E', '_', 'U', 'P']
}

pub open spec fn word_volume_decrease() -> Seq<char> {
    seq!['V', 'O', 'L', 'U', 'M', 'E', '_', 'D', 'E', 'C', 'R', 'E', 'A', 'S', 'E']
}

pub open spec fn word_volume_down() -> Seq<char> {
    seq!['V', 'O', 'L', 'U', 'M', 'E', '_', 'D', 'O', 'W', 'N']
}

/// What a configured action string means: one of the control words, or else a
/// media reference to play.
pub open spec fn action_of(a: Seq<char>) -> ActionModel {
    if a == word_pause() {
        ActionModel::Pause
    } else if a == word_resume() {
        ActionModel::Resume
    } else if a == word_volume_increase() || a == word_volume_up() {
        ActionModel::VolumeUp
    } else if a == word_volume_decrease() || a == word_volume_down() {
        ActionModel::VolumeDown
    } else {
        ActionModel::Play(a)
    }
}

/// Turns a configured action string into an action.
pub fn classify_action(a: String) -> (r: ResolvedAction)
    ensures
        r@ == action_of(a@),
{
    proof {
        reveal_strlit("PAUSE");
        reveal_strlit("RESUME");
        reveal_strlit("VOLUME_INCREASE");
        reveal_strlit("VOLUME_UP");
        reveal_strlit("VOLUME_DECREASE");
        reveal_strlit("VOLUME_DOWN");
    }
    assert("PAUSE"@ =~= word_pause());
    assert("RESUME"@ =~= word_resume());
    assert("VOLUME_INCREASE"@ =~= word_volume_increase());
    assert("VOLUME_UP"@ =~= word_volume_up());
    assert("VOLUME_DECREASE"@ =~= word_volume_decrease());
    assert("VOLUME_DOWN"@ =~= word_volume_down());
    if a == String::from_str("PAUSE") {
        ResolvedAction::Pause
    } else if a == String::from_str("RESUME") {
        ResolvedAction::Resume
    } else if a == String::from_str("VOLUME_INCREASE") || a == String::from_str("VOLUME_UP") {
        ResolvedAction::VolumeUp
    } else if a == String::from_str("VOLUME_DECREASE") || a == String::from_str("VOLUME_DOWN") {
        ResolvedAction::VolumeDown
    } else {
        ResolvedAction::Play(a)
    }
}

/// The action an event resolves to: `Unknown` where the table has none.
pub open spec fn resolved_action(conf: Config, message: InputChannelMessage) -> ActionModel {
    match configured_action(conf, message.device_type, message.device@, message.id@) {
        Some(a) => action_of(a@),
        None => ActionModel::Unknown,
    }
}

/// Resolves an input event against the action table.
pub fn resolve(conf: &Config, message: &InputChannelMessage) -> (r: ResolvedAction)
    ensures
        r@ == resolved_action(*conf, *message),
{
    match handle_input_get_action(conf, message) {
        Some(a) => classify_action(a),
        None => ResolvedAction::Unknown,
    }
}

} // verus!
