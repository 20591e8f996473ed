//! The configuration: the action table that maps input devices and their raw
//! ids to action strings, the mixer control and the backend credentials.
use vstd::prelude::*;

verus! {

/// The whole configuration, loaded once at startup and read-only afterwards.
///
/// `gpio` maps a GPIO chip to the actions of its lines; `input` maps an input
/// device to the actions of the digit strings read from it. Where a key occurs
/// twice in one list the first entry is the one that counts.
#[derive(Debug)]
pub struct Config {
    pub gpio: Vec<(String, Vec<(u32, String)>)>,
    pub input: Vec<(String, Vec<(String, String)>)>,
    pub alsa: ConfigAlsa,
    pub spotify: ConfigSpotify,
}

/// Credentials of the playback backend.
#[derive(Debug)]
pub struct ConfigSpotify {
    pub username: String,
    pub password: String,
}

/// The mixer control that volume actions change.
#[derive(Debug)]
pub struct ConfigAlsa {
    pub control: String,
}

/// The mixer control used where the configuration names none.
pub fn default_alsa_control() -> (r: String)
    ensures
        r@ == seq!['M', 'a', 's', 't', 'e', 'r'],
{
    proof { reveal_strlit("Master"); }
    let r = String::from_str("Master");
    assert(r@ =~= seq!['M', 'a', 's', 't', 'e', 'r']);
    r
}

/// The value of the first entry whose key is `key`.
pub open spec fn find_entry<T>(entries: Seq<(String, T)>, key: Seq<char>) -> Option<T>
    decreases entries.len(),
{
    if entries.len() == 0 {
        None
    } else if entries[0].0@ == key {
        Some(entries[0].1)
    } else {
        find_entry(entries.subrange(1, entries.len() as int), key)
    }
}

/// The action of the first entry for GPIO line `line`.
pub open spec fn find_line(entries: Seq<(u32, String)>, line: u32) -> Option<String>
    decreases entries.len(),
{
    if entries.len() == 0 {
        None
    } else if entries[0].0 == line {
        Some(entries[0].1)
    } else {
        find_line(entries.subrange(1, entries.len() as int), line)
    }
}

/// Position of the first entry whose key is `key`.
pub fn position_of_key<T>(entries: &Vec<(String, T)>, key: &String) -> (r: Option<usize>)
    ensures
        match r {
            Some(i) => i < entries@.len() && entries@[i as int].0@ == key@ && find_entry(
                entries@,
                key@,
            ) == Some(entries@[i as int].1),
            None => find_entry(entries@, key@) is None,
        },
{
    let n = entries.len();
    let mut i: usize = 0;
    assert(entries@.subrange(0, n as int) =~= entries@);
    while i < n
        invariant
            n == entries@.len(),
            i <= n,
            find_entry(entries@, key@) == find_entry(entries@.subrange(i as int, n as int), key@),
        decreases n - i,
    {
        let ghost rest = entries@.subrange(i as int, n as int);
        assert(rest.subrange(1, rest.len() as int) =~= entries@.subrange(i + 1, n as int));
        if entries[i].0 == *key {
            return Some(i);
        }
        i = i + 1;
    }
    None
}

/// Position of the first entry for GPIO line `line`.
pub fn position_of_line(entries: &Vec<(u32, String)>, line: u32) -> (r: Option<usize>)
    ensures
        match r {
            Some(i) => i < entries@.len() && entries@[i as int].0 == line && find_line(
                entries@,
                line,
            ) == Some(entries@[i as int].1),
            None => find_line(entries@, line) is None,
        },
{
    let n = entries.len();
    let mut i: usize = 0;
    assert(entries@.subrange(0, n as int) =~= entries@);
    while i < n
        invariant
            n == entries@.len(),
            i <= n,
            find_line(entries@, line) == find_line(entries@.subrange(i as int, n as int), line),
        decreases n - i,
    {
        let ghost rest = entries@.subrange(i as int, n as int);
        assert(rest.subrange(1, rest.len() as int) =~= entries@.subrange(i + 1, n as int));
        if entries[i].0 == line {
            return Some(i);
        }
        i = i + 1;
    }
    None
}

/// The name of the per-user configuration file.
pub open spec fn user_file_name() -> Seq<char> {
    seq!['.', 's', 'o', 'u', 'n', 'd', 'k', 'i', 'd', '.', 'c', 'o', 'n', 'f']
}

/// The system-wide configuration file.
pub open spec fn system_file() -> Seq<char> {
    seq!['/', 'e', 't', 'c', '/', 's', 'o', 'u', 'n', 'd', 'k', 'i', 'd', '.', 'c', 'o', 'n', 'f']
}

/// `name` placed in directory `dir`, with one separator between them.
pub open spec fn join_path(dir: Seq<char>, name: Seq<char>) -> Seq<char> {
    if dir.len() == 0 || dir.last() == '/' {
        dir + name
    } else {
        dir + seq!['/'] + name
    }
}

/// The configuration files to try, in order: the one in the home directory
/// `home`, then the system-wide one.
pub fn config_paths(home: &str) -> (r: Vec<String>)
    ensures
        r@.len() == 2,
        r@[0]@ == join_path(home@, user_file_name()),
        r@[1]@ == system_file(),
{
    proof {
        reveal_strlit("/");
        reveal_strlit(".soundkid.conf");
        reveal_strlit("/etc/soundkid.conf");
    }
    let mut user = String::from_str(home);
    let n = home.unicode_len();
    if n > 0 && home.get_char(n - 1) != '/' {
        user.append("/");
    }
    user.append(".soundkid.conf");
    assert("/"@ =~= seq!['/']);
    assert(".soundkid.conf"@ =~= user_file_name());
    assert(user@ =~= join_path(home@, user_file_name()));
    let system = String::from_str("/etc/soundkid.conf");
    assert(system@ =~= system_file());
    let mut r: Vec<String> = Vec::new();
    r.push(user);
    r.push(system);
    r
}

} // verus!
