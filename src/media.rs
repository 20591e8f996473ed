//! Media reference normalization: any accepted spelling of a track, album or
//! playlist reference becomes one canonical `<scheme>:<kind>:<id>` form.
use vstd::prelude::*;
use crate::text::{has_prefix, starts_with, suffix_from};

verus! {

/// What a media reference points at.
#[derive(Clone, Copy, Debug, PartialEq, Eq, Structural)]
pub enum MediaKind {
    Track,
    Album,
    Playlist,
    Unknown,
}

/// A normalized media reference: its kind, its canonical form and the bare id
/// that follows the canonical prefix.
#[derive(Debug)]
pub struct MediaReference {
    pub kind: MediaKind,
    pub canonical_id: String,
    pub id: String,
}

/// The mathematical content of a `MediaReference`.
pub struct MediaModel {
    pub kind: MediaKind,
    pub canonical_id: Seq<char>,
    pub id: Seq<char>,
}

impl View for MediaReference {
    type V = MediaModel;

    open spec fn view(&self) -> MediaModel {
        MediaModel { kind: self.kind, canonical_id: self.canonical_id@, id: self.id@ }
    }
}

impl MediaReference {
    /// A field-by-field copy.
    pub fn duplicate(&self) -> (r: MediaReference)
        ensures
            r@ == self@,
    {
        MediaReference {
            kind: self.kind,
            canonical_id: self.canonical_id.clone(),
            id: self.id.clone(),
        }
    }
}

/// The word that names a kind in references.
pub open spec fn kind_word(k: MediaKind) -> Seq<char> {
    match k {
        MediaKind::Track => seq!['t', 'r', 'a', 'c', 'k'],
        MediaKind::Album => seq!['a', 'l', 'b', 'u', 'm'],
        MediaKind::Playlist => seq!['p', 'l', 'a', 'y', 'l', 'i', 's', 't'],
        MediaKind::Unknown => Seq::empty(),
    }
}

/// `<scheme>:<kind>:`, the start of every canonical reference of that kind.
pub open spec fn canonical_prefix(scheme: Seq<char>, k: MediaKind) -> Seq<char> {
    scheme + seq![':'] + kind_word(k) + seq![':']
}

/// `/<kind>/`, the start of a web path that names a reference of that kind.
pub open spec fn path_prefix(k: MediaKind) -> Seq<char> {
    seq!['/'] + kind_word(k) + seq!['/']
}

/// The kind whose canonical prefix `input` starts with, if any.
pub open spec fn canonical_kind(scheme: Seq<char>, input: Seq<char>) -> MediaKind {
    if has_prefix(input, canonical_prefix(scheme, MediaKind::Album)) {
        MediaKind::Album
    } else if has_prefix(input, canonical_prefix(scheme, MediaKind::Track)) {
        MediaKind::Track
    } else if has_prefix(input, canonical_prefix(scheme, MediaKind::Playlist)) {
        MediaKind::Playlist
    } else {
        MediaKind::Unknown
    }
}

/// The kind whose path prefix `path` starts with, if any.
pub open spec fn path_kind(path: Seq<char>) -> MediaKind {
    if has_prefix(path, path_prefix(MediaKind::Track)) {
        MediaKind::Track
    } else if has_prefix(path, path_prefix(MediaKind::Album)) {
        MediaKind::Album
    } else if has_prefix(path, path_prefix(MediaKind::Playlist)) {
        MediaKind::Playlist
    } else {
        MediaKind::Unknown
    }
}

/// The path component of `s` read as a URI, or `None` where `s` is no URI.
pub uninterp spec fn uri_path(s: Seq<char>) -> Option<Seq<char>>;

/// A reference that names nothing playable; it keeps the input as it was.
pub open spec fn unknown_model(input: Seq<char>) -> MediaModel {
    MediaModel { kind: MediaKind::Unknown, canonical_id: input, id: Seq::empty() }
}

/// A reference already in canonical form, kept unchanged.
pub open spec fn canonical_model(scheme: Seq<char>, input: Seq<char>, k: MediaKind) -> MediaModel {
    MediaModel {
        kind: k,
        canonical_id: input,
        id: input.subrange(canonical_prefix(scheme, k).len() as int, input.len() as int),
    }
}

/// A reference rebuilt from a web path `/<kind>/<id>`.
pub open spec fn path_model(scheme: Seq<char>, path: Seq<char>, k: MediaKind) -> MediaModel {
    let id = path.subrange(path_prefix(k).len() as int, path.len() as int);
    MediaModel { kind: k, canonical_id: canonical_prefix(scheme, k) + id, id: id }
}

/// What `normalize` returns.
pub open spec fn normalize_model(scheme: Seq<char>, input: Seq<char>) -> MediaModel {
    let ck = canonical_kind(scheme, input);
    if ck != MediaKind::Unknown {
        canonical_model(scheme, input, ck)
    } else {
        match uri_path(input) {
            Some(path) => {
                let pk = path_kind(path);
                if pk != MediaKind::Unknown {
                    path_model(scheme, path, pk)
                } else {
                    unknown_model(input)
                }
            },
            None => unknown_model(input),
        }
    }
}

/// Relies on `http::Uri`'s `FromStr` impl and `Uri::path`: the path component of
/// the parsed URI, or `None` where parsing fails. Neither panics.
#[verifier::external_body]
fn parse_uri_path(s: &str) -> (r: Option<String>)
    ensures
        match r {
            Some(p) => uri_path(s@) == Some(p@),
            None => uri_path(s@) is None,
        },
{
    match s.parse::<http::Uri>() {
        Ok(u) => Some(u.path().to_string()),
        Err(_) => None,
    }
}

fn kind_word_str(k: MediaKind) -> (r: &'static str)
    ensures
        r@ == kind_word(k),
{
    match k {
        MediaKind::Track => {
            proof { reveal_strlit("track"); }
            assert("track"@ =~= kind_word(k));
            "track"
        },
        MediaKind::Album => {
            proof { reveal_strlit("album"); }
            assert("album"@ =~= kind_word(k));
            "album"
        },
        MediaKind::Playlist => {
            proof { reveal_strlit("playlist"); }
            assert("playlist"@ =~= kind_word(k));
            "playlist"
        },
        MediaKind::Unknown => {
            proof { reveal_strlit(""); }
            assert(""@ =~= kind_word(k));
            ""
        },
    }
}

/// `<scheme>:<kind>:` as a string.
pub fn canonical_prefix_of(scheme: &str, k: MediaKind) -> (r: String)
    ensures
        r@ == canonical_prefix(scheme@, k),
{
    proof { reveal_strlit(":"); }
    let mut r = String::from_str(scheme);
    r.append(":");
    r.append(kind_word_str(k));
    r.append(":");
    assert(":"@ =~= seq![':']);
    r
}

fn path_prefix_of(k: MediaKind) -> (r: String)
    ensures
        r@ == path_prefix(k),
{
    proof { reveal_strlit("/"); }
    let mut r = String::from_str("/");
    r.append(kind_word_str(k));
    r.append("/");
    assert("/"@ =~= seq!['/']);
    r
}

fn canonical_kind_of(scheme: &str, input: &str) -> (r: MediaKind)
    ensures
        r == canonical_kind(scheme@, input@),
{
    if starts_with(input, canonical_prefix_of(scheme, MediaKind::Album).as_str()) {
        MediaKind::Album
    } else if starts_with(input, canonical_prefix_of(scheme, MediaKind::Track).as_str()) {
        MediaKind::Track
    } else if starts_with(input, canonical_prefix_of(scheme, MediaKind::Playlist).as_str()) {
        MediaKind::Playlist
    } else {
        MediaKind::Unknown
    }
}

fn path_kind_of(path: &str) -> (r: MediaKind)
    ensures
        r == path_kind(path@),
{
    if starts_with(path, path_prefix_of(MediaKind::Track).as_str()) {
        MediaKind::Track
    } else if starts_with(path, path_prefix_of(MediaKind::Album).as_str()) {
        MediaKind::Album
    } else if starts_with(path, path_prefix_of(MediaKind::Playlist).as_str()) {
        MediaKind::Playlist
    } else {
        MediaKind::Unknown
    }
}

/// Turns a media reference, either canonical (`<scheme>:track:<id>`) or a web
/// address whose path is `/track/<id>` (likewise album and playlist), into its
/// canonical form. Anything else comes back as an `Unknown` reference holding
/// the input unchanged.
pub fn normalize(scheme: &str, input: &str) -> (r: MediaReference)
    ensures
        r@ == normalize_model(scheme@, input@),
{
    let ck = canonical_kind_of(scheme, input);
    if ck != MediaKind::Unknown {
        let plen = canonical_prefix_of(scheme, ck).as_str().unicode_len();
        return MediaReference {
            kind: ck,
            canonical_id: String::from_str(input),
            id: suffix_from(input, plen),
        };
    }
    match parse_uri_path(input) {
        Some(path) => {
            let pk = path_kind_of(path.as_str());
            if pk != MediaKind::Unknown {
                let plen = path_prefix_of(pk).as_str().unicode_len();
                let id = suffix_from(path.as_str(), plen);
                let mut canonical = canonical_prefix_of(scheme, pk);
                canonical.append(id.as_str());
                MediaReference { kind: pk, canonical_id: canonical, id: id }
            } else {
                MediaReference {
                    kind: MediaKind::Unknown,
                    canonical_id: String::from_str(input),
                    id: String::new(),
                }
            }
        },
        None => MediaReference {
            kind: MediaKind::Unknown,
            canonical_id: String::from_str(input),
            id: String::new(),
        },
    }
}

/// Input that starts with no canonical prefix and is no URI whose path starts
/// with `/<kind>/` normalizes to `Unknown`, holding the input unchanged.
pub proof fn lemma_unrecognized_is_unknown(scheme: Seq<char>, input: Seq<char>)
    requires
        forall|k: MediaKind|
            k != MediaKind::Unknown ==> !has_prefix(input, #[trigger] canonical_prefix(scheme, k)),
        match uri_path(input) {
            Some(path) => forall|k: MediaKind|
                k != MediaKind::Unknown ==> !has_prefix(path, #[trigger] path_prefix(k)),
            None => true,
        },
    ensures
        normalize_model(scheme, input) == unknown_model(input),
{
    assert(!has_prefix(input, canonical_prefix(scheme, MediaKind::Album)));
    assert(!has_prefix(input, canonical_prefix(scheme, MediaKind::Track)));
    assert(!has_prefix(input, canonical_prefix(scheme, MediaKind::Playlist)));
    if let Some(path) = uri_path(input) {
        assert(!has_prefix(path, path_prefix(MediaKind::Album)));
        assert(!has_prefix(path, path_prefix(MediaKind::Track)));
        assert(!has_prefix(path, path_prefix(MediaKind::Playlist)));
    }
}

proof fn lemma_path_kind_of_prefixed(k: MediaKind, id: Seq<char>)
    requires
        k != MediaKind::Unknown,
    ensures
        path_kind(path_prefix(k) + id) == k,
{
    let p = path_prefix(k) + id;
    assert(p.subrange(0, path_prefix(k).len() as int) =~= path_prefix(k));
    let t = path_prefix(MediaKind::Track);
    let a = path_prefix(MediaKind::Album);
    if k != MediaKind::Track {
        assert(p[1] != t[1]);
        assert(p.subrange(0, t.len() as int)[1] != t[1]);
    }
    if k == MediaKind::Playlist {
        assert(p[1] != a[1]);
        assert(p.subrange(0, a.len() as int)[1] != a[1]);
    }
}

proof fn lemma_canonical_kind_of_prefixed(scheme: Seq<char>, k: MediaKind, id: Seq<char>)
    requires
        k != MediaKind::Unknown,
    ensures
        canonical_kind(scheme, canonical_prefix(scheme, k) + id) == k,
{
    let c = canonical_prefix(scheme, k) + id;
    let i: int = scheme.len() as int + 1;
    assert(c.subrange(0, canonical_prefix(scheme, k).len() as int) =~= canonical_prefix(scheme, k));
    let a = canonical_prefix(scheme, MediaKind::Album);
    let t = canonical_prefix(scheme, MediaKind::Track);
    if k != MediaKind::Album {
        assert(c[i] != a[i]);
        if a.len() <= c.len() {
            assert(c.subrange(0, a.len() as int)[i] != a[i]);
        }
    }
    if k == MediaKind::Playlist {
        assert(c[i] != t[i]);
        if t.len() <= c.len() {
            assert(c.subrange(0, t.len() as int)[i] != t[i]);
        }
    }
}

/// The two spellings of one reference agree: a web address whose path is
/// `/<kind>/<id>` and the canonical `<scheme>:<kind>:<id>` both normalize to
/// kind `<kind>`, canonical id `<scheme>:<kind>:<id>` and bare id `<id>`.
pub proof fn lemma_spellings_agree(scheme: Seq<char>, url: Seq<char>, k: MediaKind, id: Seq<char>)
    requires
        k != MediaKind::Unknown,
        forall|j: MediaKind|
            j != MediaKind::Unknown ==> !has_prefix(url, #[trigger] canonical_prefix(scheme, j)),
        uri_path(url) == Some(path_prefix(k) + id),
    ensures
        normalize_model(scheme, url) == normalize_model(scheme, canonical_prefix(scheme, k) + id),
        normalize_model(scheme, url).kind == k,
        normalize_model(scheme, url).canonical_id == canonical_prefix(scheme, k) + id,
        normalize_model(scheme, url).id == id,
{
    assert(!has_prefix(url, canonical_prefix(scheme, MediaKind::Album)));
    assert(!has_prefix(url, canonical_prefix(scheme, MediaKind::Track)));
    assert(!has_prefix(url, canonical_prefix(scheme, MediaKind::Playlist)));
    lemma_path_kind_of_prefixed(k, id);
    lemma_canonical_kind_of_prefixed(scheme, k, id);
    let p = path_prefix(k) + id;
    let c = canonical_prefix(scheme, k) + id;
    assert(p.subrange(path_prefix(k).len() as int, p.len() as int) =~= id);
    assert(c.subrange(canonical_prefix(scheme, k).len() as int, c.len() as int) =~= id);
}

} // verus!
