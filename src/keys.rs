//! Assembly of tag identifiers from the key presses of a reader that types
//! digits and closes each identifier with "enter".
use vstd::prelude::*;

verus! {

/// A key event as the reader reports it, reduced to what assembly needs.
#[derive(Clone, Copy, Debug, PartialEq, Eq, Structural)]
pub enum KeyPress {
    /// One of the digit keys, `0` to `9`.
    Digit(u8),
    Enter,
    /// Any other key.
    Other,
}

/// The character of digit `d`.
pub open spec fn digit_char(d: u8) -> char {
    if d == 0 {
        '0'
    } else if d == 1 {
        '1'
    } else if d == 2 {
        '2'
    } else if d == 3 {
        '3'
    } else if d == 4 {
        '4'
    } else if d == 5 {
        '5'
    } else if d == 6 {
        '6'
    } else if d == 7 {
        '7'
    } else if d == 8 {
        '8'
    } else {
        '9'
    }
}

/// What one key event does to the digits collected so far, and the identifier
/// it completes, if any. Only presses count (`value` 1), not releases or
/// repeats; a digit is appended; "enter" hands out a non-empty identifier and
/// starts a new one; anything else is ignored.
pub open spec fn feed_step(digits: Seq<char>, key: KeyPress, value: i32) -> (Seq<char>, Option<Seq<char>>) {
    if value != 1 {
        (digits, None)
    } else {
        match key {
            KeyPress::Digit(d) => if d < 10 {
                (digits.push(digit_char(d)), None)
            } else {
                (digits, None)
            },
            KeyPress::Enter => if digits.len() > 0 {
                (Seq::empty(), Some(digits))
            } else {
                (digits, None)
            },
            KeyPress::Other => (digits, None),
        }
    }
}

fn digit_str(d: u8) -> (r: &'static str)
    requires
        d < 10,
    ensures
        r@ == seq![digit_char(d)],
{
    proof {
        reveal_strlit("0");
        reveal_strlit("1");
        reveal_strlit("2");
        reveal_strlit("3");
        reveal_strlit("4");
        reveal_strlit("5");
        reveal_strlit("6");
        reveal_strlit("7");
        reveal_strlit("8");
        reveal_strlit("9");
    }
    let r = if d == 0 {
        "0"
    } else if d == 1 {
        "1"
    } else if d == 2 {
        "2"
    } else if d == 3 {
        "3"
    } else if d == 4 {
        "4"
    } else if d == 5 {
        "5"
    } else if d == 6 {
        "6"
    } else if d == 7 {
        "7"
    } else if d == 8 {
        "8"
    } else {
        "9"
    };
    assert(r@ =~= seq![digit_char(d)]);
    r
}

/// Collects digits until "enter" completes an identifier.
pub struct TagAssembler {
    digits: String,
}

impl View for TagAssembler {
    type V = Seq<char>;

    closed spec fn view(&self) -> Seq<char> {
        self.digits@
    }
}

impl TagAssembler {
    /// An assembler with no digits collected.
    pub fn new() -> (r: TagAssembler)
        ensures
            r@ == Seq::<char>::empty(),
    {
        TagAssembler { digits: String::new() }
    }

    /// Takes one key event (`value` as the reader reports it: 1 for a press);
    /// returns the identifier it completes, if any.
    pub fn feed(&mut self, key: KeyPress, value: i32) -> (r: Option<String>)
        ensures
            final(self)@ == feed_step(old(self)@, key, value).0,
            match r {
                Some(id) => feed_step(old(self)@, key, value).1 == Some(id@),
                None => feed_step(old(self)@, key, value).1 is None,
            },
    {
        if value != 1 {
            return None;
        }
        match key {
            KeyPress::Digit(d) => {
                if d < 10 {
                    self.digits.append(digit_str(d));
                }
                None
            },
            KeyPress::Enter => {
                if self.digits.as_str().unicode_len() > 0 {
                    let mut id = String::new();
                    std::mem::swap(&mut id, &mut self.digits);
                    Some(id)
                } else {
                    None
                }
            },
            KeyPress::Other => None,
        }
    }
}

} // verus!
