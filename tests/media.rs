use soundkid::media::{canonical_prefix_of, normalize, MediaKind};

#[test]
fn canonical_track_is_kept() {
    let r = normalize("scheme", "scheme:track:ABC123");
    assert_eq!(r.kind, MediaKind::Track);
    assert_eq!(r.canonical_id, "scheme:track:ABC123");
    assert_eq!(r.id, "ABC123");
}

#[test]
fn web_track_becomes_canonical() {
    let r = normalize("scheme", "https://host/track/ABC123");
    assert_eq!(r.kind, MediaKind::Track);
    assert_eq!(r.canonical_id, "scheme:track:ABC123");
    assert_eq!(r.id, "ABC123");
}

#[test]
fn both_spellings_agree() {
    let a = normalize("scheme", "scheme:track:ABC123");
    let b = normalize("scheme", "https://host/track/ABC123");
    assert_eq!(a.kind, b.kind);
    assert_eq!(a.canonical_id, b.canonical_id);
    assert_eq!(a.id, b.id);
}

#[test]
fn canonical_album_and_playlist() {
    let a = normalize("spotify", "spotify:album:1DFixLWuPkv3KT3TnV35m3");
    assert_eq!(a.kind, MediaKind::Album);
    assert_eq!(a.canonical_id, "spotify:album:1DFixLWuPkv3KT3TnV35m3");
    assert_eq!(a.id, "1DFixLWuPkv3KT3TnV35m3");
    let p = normalize("spotify", "spotify:playlist:37i9dQZF1DXcBWIGoYBM5M");
    assert_eq!(p.kind, MediaKind::Playlist);
    assert_eq!(p.id, "37i9dQZF1DXcBWIGoYBM5M");
}

#[test]
fn web_album_with_query() {
    let r = normalize("spotify", "https://open.spotify.com/album/0PC1HwzqaRghfqVQxqelr8?si=0f8c23b4a0fe472a");
    assert_eq!(r.kind, MediaKind::Album);
    assert_eq!(r.canonical_id, "spotify:album:0PC1HwzqaRghfqVQxqelr8");
    assert_eq!(r.id, "0PC1HwzqaRghfqVQxqelr8");
}

#[test]
fn web_playlist() {
    let r = normalize("spotify", "https://open.spotify.com/playlist/XYZ");
    assert_eq!(r.kind, MediaKind::Playlist);
    assert_eq!(r.canonical_id, "spotify:playlist:XYZ");
}

#[test]
fn relative_path_is_read_too() {
    let r = normalize("spotify", "/track/T1");
    assert_eq!(r.kind, MediaKind::Track);
    assert_eq!(r.canonical_id, "spotify:track:T1");
}

#[test]
fn other_paths_are_unknown() {
    let r = normalize("scheme", "https://host/artist/ABC123");
    assert_eq!(r.kind, MediaKind::Unknown);
    assert_eq!(r.canonical_id, "https://host/artist/ABC123");
    assert_eq!(r.id, "");
}

#[test]
fn unparsable_input_is_unknown() {
    let r = normalize("scheme", "not a uri");
    assert_eq!(r.kind, MediaKind::Unknown);
    assert_eq!(r.canonical_id, "not a uri");
    let e = normalize("scheme", "");
    assert_eq!(e.kind, MediaKind::Unknown);
    assert_eq!(e.canonical_id, "");
}

#[test]
fn other_scheme_is_not_canonical() {
    let r = normalize("scheme", "other:track:ABC");
    assert_eq!(r.kind, MediaKind::Unknown);
    assert_eq!(r.canonical_id, "other:track:ABC");
}

#[test]
fn prefix_of_kind() {
    assert_eq!(canonical_prefix_of("spotify", MediaKind::Track), "spotify:track:");
    assert_eq!(canonical_prefix_of("x", MediaKind::Playlist), "x:playlist:");
}
