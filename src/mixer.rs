//! The mixer command line that changes the volume by one step.
use vstd::prelude::*;

verus! {

/// The volume change of one step: five percent up or down.
pub open spec fn volume_step(increase: bool) -> Seq<char> {
    if increase {
        seq!['5', '%', '+']
    } else {
        seq!['5', '%', '-']
    }
}

/// The mixer arguments that raise (`increase`) or lower the volume of
/// `control` by one step: `set <control> 5%+` or `set <control> 5%-`.
pub fn mixer_args(control: &str, increase: bool) -> (r: Vec<String>)
    ensures
        r@.len() == 3,
        r@[0]@ == seq!['s', 'e', 't'],
        r@[1]@ == control@,
        r@[2]@ == volume_step(increase),
{
    proof {
        reveal_strlit("set");
        reveal_strlit("5%+");
        reveal_strlit("5%-");
    }
    let step = if increase {
        String::from_str("5%+")
    } else {
        String::from_str("5%-")
    };
    assert(step@ =~= volume_step(increase));
    let set = String::from_str("set");
    assert(set@ =~= seq!['s', 'e', 't']);
    let mut r: Vec<String> = Vec::new();
    r.push(set);
    r.push(String::from_str(control));
    r.push(step);
    r
}

} // verus!
