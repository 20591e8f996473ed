//! The debounce filter: a time gate per input line that lets through at most
//! one event per window, measured from the last event it accepted.
use vstd::prelude::*;

verus! {

/// The debounce window in milliseconds.
pub const DEBOUNCE_WINDOW_MS: u64 = 200;

/// The key of one physical input line: a device and the raw id it reports.
pub type LineKey = (Seq<char>, Seq<char>);

/// Whether an event at `now` on a line last accepted at `last` is accepted.
pub open spec fn outside_window(last: u64, now: u64) -> bool {
    now as int - last as int >= DEBOUNCE_WINDOW_MS as int
}

/// Whether an event on `key` at `now` is accepted, given the times of the
/// last accepted event of each line.
pub open spec fn accepts(state: Map<LineKey, u64>, key: LineKey, now: u64) -> bool {
    !state.contains_key(key) || outside_window(state[key], now)
}

/// The time of the last accepted event on one line.
struct LastAccepted {
    device: String,
    id: String,
    at_ms: u64,
}

impl LastAccepted {
    spec fn key(&self) -> LineKey {
        (self.device@, self.id@)
    }
}

/// Per-line time of the last accepted event.
pub struct DebounceFilter {
    entries: Vec<LastAccepted>,
    last: Ghost<Map<LineKey, u64>>,
}

impl View for DebounceFilter {
    type V = Map<LineKey, u64>;

    closed spec fn view(&self) -> Map<LineKey, u64> {
        self.last@
    }
}

impl DebounceFilter {
    /// The entries hold one line each, and exactly the lines of the view with
    /// their times.
    pub closed spec fn wf(&self) -> bool {
        &&& forall|i: int, j: int|
            0 <= i < j < self.entries@.len() ==> self.entries@[i].key()
                != self.entries@[j].key()
        &&& forall|i: int|
            0 <= i < self.entries@.len() ==> {
                &&& #[trigger] self.last@.contains_key(self.entries@[i].key())
                &&& self.last@[self.entries@[i].key()] == self.entries@[i].at_ms
            }
        &&& forall|k: LineKey|
            #[trigger] self.last@.contains_key(k) ==> exists|i: int|
                0 <= i < self.entries@.len() && self.entries@[i].key() == k
    }

    /// A filter that has accepted nothing yet.
    pub fn new() -> (r: DebounceFilter)
        ensures
            r.wf(),
            r@ == Map::<LineKey, u64>::empty(),
    {
        DebounceFilter { entries: Vec::new(), last: Ghost(Map::empty()) }
    }

    /// Decides on an event of line (`device`, `id`) at time `now` (in
    /// milliseconds): it is accepted where that line has accepted nothing yet or
    /// its last accepted event lies at least the window back. An accepted event
    /// becomes the line's last accepted one; a rejected one changes nothing.
    pub fn accept(&mut self, device: &String, id: &String, now: u64) -> (r: bool)
        requires
            old(self).wf(),
        ensures
            final(self).wf(),
            r == accepts(old(self)@, (device@, id@), now),
            r ==> final(self)@ == old(self)@.insert((device@, id@), now),
            !r ==> final(self)@ == old(self)@,
    {
        let ghost key = (device@, id@);
        let n = self.entries.len();
        let mut i: usize = 0;
        while i < n
            invariant
                key == (device@, id@),
                n == self.entries@.len(),
                i <= n,
                forall|j: int| 0 <= j < i ==> self.entries@[j].key() != key,
            ensures
                i <= n,
                forall|j: int| 0 <= j < i ==> self.entries@[j].key() != key,
                i < n ==> self.entries@[i as int].key() == key,
            decreases n - i,
        {
            if self.entries[i].device == *device && self.entries[i].id == *id {
                break;
            }
            i = i + 1;
        }
        if i < n {
            assert(self.entries@[i as int].key() == key);
            let last = self.entries[i].at_ms;
            if now >= last && now - last >= DEBOUNCE_WINDOW_MS {
                let e = LastAccepted {
                    device: self.entries[i].device.clone(),
                    id: self.entries[i].id.clone(),
                    at_ms: now,
                };
                let ghost before = self.entries@;
                self.entries.set(i, e);
                self.last = Ghost(self.last@.insert(key, now));
                assert forall|k: LineKey| #[trigger] self.last@.contains_key(k) implies exists|j: int|
                    0 <= j < self.entries@.len() && self.entries@[j].key() == k by {
                    if k != key {
                        let j = choose|j: int| 0 <= j < before.len() && before[j].key() == k;
                        assert(self.entries@[j].key() == k);
                    } else {
                        assert(self.entries@[i as int].key() == k);
                    }
                }
                true
            } else {
                false
            }
        } else {
            let ghost before = self.entries@;
            self.entries.push(LastAccepted { device: device.clone(), id: id.clone(), at_ms: now });
            self.last = Ghost(self.last@.insert(key, now));
            assert(!old(self)@.contains_key(key)) by {
                if old(self)@.contains_key(key) {
                    let j = choose|j: int| 0 <= j < before.len() && before[j].key() == key;
                }
            }
            assert forall|k: LineKey| #[trigger] self.last@.contains_key(k) implies exists|j: int|
                0 <= j < self.entries@.len() && self.entries@[j].key() == k by {
                if k != key {
                    let j = choose|j: int| 0 <= j < before.len() && before[j].key() == k;
                    assert(self.entries@[j].key() == k);
                } else {
                    assert(self.entries@[n as int].key() == k);
                }
            }
            true
        }
    }
}

/// Debounce, stated over two events on one line: after an event accepted at
/// `t0`, an event at `t1` is accepted exactly when it comes at least the window
/// later.
pub proof fn lemma_debounce_window(state: Map<LineKey, u64>, key: LineKey, t0: u64, t1: u64)
    requires
        accepts(state, key, t0),
    ensures
        accepts(state.insert(key, t0), key, t1) <==> t1 as int - t0 as int >= DEBOUNCE_WINDOW_MS
            as int,
{
}

} // verus!
