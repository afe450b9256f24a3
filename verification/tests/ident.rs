use spotify_worker::ident::{digit_value, id_out_of_range, parse_uri, ItemId, ItemKind, ID_DIGITS};

const ID: u128 = 204841891221366092811751085145916697048;

#[test]
fn parse_uri_reads_a_track() {
    assert_eq!(
        parse_uri("spotify:track:4GNcXTGWmnZ3ySrqvol3o4"),
        Some(ItemId { id: ID, kind: ItemKind::Track })
    );
    assert_eq!(
        parse_uri("spotify:track:5sWHDYs0csV6RS48xBl0tH"),
        Some(ItemId { id: 238762092608182713602505436543891614649, kind: ItemKind::Track })
    );
}

#[test]
fn parse_uri_reads_an_episode() {
    assert_eq!(
        parse_uri("spotify:episode:4GNcXTGWmnZ3ySrqvol3o4"),
        Some(ItemId { id: ID, kind: ItemKind::Podcast })
    );
}

#[test]
fn parse_uri_tags_other_categories_as_non_playable() {
    let expected = Some(ItemId { id: ID, kind: ItemKind::NonPlayable });
    assert_eq!(parse_uri("spotify:unknown:4GNcXTGWmnZ3ySrqvol3o4"), expected);
    assert_eq!(parse_uri("spotify:album:4GNcXTGWmnZ3ySrqvol3o4"), expected);
    assert_eq!(parse_uri("spotify::4GNcXTGWmnZ3ySrqvol3o4"), expected);
    assert_eq!(parse_uri("spotify:user:someone:playlist:4GNcXTGWmnZ3ySrqvol3o4"), expected);
}

#[test]
fn parse_uri_copes_with_text_outside_ascii() {
    assert_eq!(
        parse_uri("spotify:tr\u{fc}ck:4GNcXTGWmnZ3ySrqvol3o4"),
        Some(ItemId { id: ID, kind: ItemKind::NonPlayable })
    );
    assert_eq!(
        parse_uri("spotify:\u{e9}:4GNcXTGWmnZ3ySrqvol3o4"),
        Some(ItemId { id: ID, kind: ItemKind::NonPlayable })
    );
    assert_eq!(parse_uri("spotify:\u{e9}4GNcXTGWmnZ3ySrqvol3o4"), None);
    assert_eq!(parse_uri("spotify:track\u{e9}4GNcXTGWmnZ3ySrqvol3o4"), None);
    assert_eq!(parse_uri("spotify:track:4GNcXTGWmnZ3ySrqvol3o\u{e9}"), None);
    assert_eq!(parse_uri("spotify:track:\u{e9}GNcXTGWmnZ3ySrqvol3o4"), None);
    assert_eq!(parse_uri("\u{e9}spotify:track:4GNcXTGWmnZ3ySrqvol3o4"), None);
}

#[test]
fn parse_uri_reads_the_category_exactly() {
    let other = Some(ItemId { id: ID, kind: ItemKind::NonPlayable });
    assert_eq!(parse_uri("spotify:Track:4GNcXTGWmnZ3ySrqvol3o4"), other);
    assert_eq!(parse_uri("spotify:tracks:4GNcXTGWmnZ3ySrqvol3o4"), other);
    assert_eq!(parse_uri("spotify:track::4GNcXTGWmnZ3ySrqvol3o4"), other);
    assert_eq!(parse_uri("spotify:episodes:4GNcXTGWmnZ3ySrqvol3o4"), other);
    assert_eq!(parse_uri("spotify:user:someone:track:4GNcXTGWmnZ3ySrqvol3o4"), other);
}

#[test]
fn parse_uri_wants_the_scheme_in_front() {
    assert_eq!(parse_uri("Spotify:track:4GNcXTGWmnZ3ySrqvol3o4"), None);
    assert_eq!(parse_uri(" spotify:track:4GNcXTGWmnZ3ySrqvol3o4"), None);
    assert_eq!(parse_uri("spotify/track:4GNcXTGWmnZ3ySrqvol3o4"), None);
    assert_eq!(parse_uri("spotify:track/4GNcXTGWmnZ3ySrqvol3o4"), None);
    assert_eq!(parse_uri("spotifytrack::4GNcXTGWmnZ3ySrqvol3o4"), None);
}

#[test]
fn parse_uri_reads_digits_most_significant_first() {
    assert_eq!(
        parse_uri("spotify:track:0000000000000000000010"),
        Some(ItemId { id: 62, kind: ItemKind::Track })
    );
    assert_eq!(
        parse_uri("spotify:track:000000000000000000000Z"),
        Some(ItemId { id: 61, kind: ItemKind::Track })
    );
    assert_eq!(
        parse_uri("spotify:track:00000000000000000000aA"),
        Some(ItemId { id: 10 * 62 + 36, kind: ItemKind::Track })
    );
    assert_eq!(
        parse_uri("spotify:track:1000000000000000000000"),
        Some(ItemId { id: 43_674_252_383_913_877_424_036_476_406_214_950_912, kind: ItemKind::Track })
    );
}

#[test]
fn parse_uri_rejects_malformed_uris() {
    assert_eq!(parse_uri(""), None);
    assert_eq!(parse_uri("spotify:"), None);
    assert_eq!(parse_uri("4GNcXTGWmnZ3ySrqvol3o4"), None);
    assert_eq!(parse_uri("spotify:4GNcXTGWmnZ3ySrqvol3o4"), None);
    assert_eq!(parse_uri("http:track:4GNcXTGWmnZ3ySrqvol3o4"), None);
    assert_eq!(parse_uri("spotify:arbitrarywhatever:5sWHDYs0Bl0tH"), None);
    assert_eq!(parse_uri("spotify:arbitrarywhatever5sWHDYs0csV6RS48xBl0tH"), None);
    assert_eq!(parse_uri("spotify:azb:aRS48xBl0tH"), None);
    assert_eq!(parse_uri("spotify:track:4GNcXTGWmnZ3ySrqvol3o!"), None);
    assert_eq!(parse_uri("valid-track-uri"), None);
}

#[test]
fn parse_uri_accepts_the_largest_identifier() {
    assert_eq!(
        parse_uri("spotify:track:7N42dgm5tFLK9N8MT7fHC7"),
        Some(ItemId { id: u128::MAX, kind: ItemKind::Track })
    );
    assert_eq!(
        parse_uri("spotify:track:0000000000000000000000"),
        Some(ItemId { id: 0, kind: ItemKind::Track })
    );
}

#[test]
fn parse_uri_refuses_an_identifier_beyond_128_bits() {
    assert_eq!(parse_uri("spotify:track:7N42dgm5tFLK9N8MT7fHC8"), None);
    assert_eq!(parse_uri("spotify:track:ZZZZZZZZZZZZZZZZZZZZZZ"), None);
    assert_eq!(parse_uri("spotify:episode:8000000000000000000000"), None);
}

#[test]
fn id_out_of_range_looks_at_the_last_digits_only() {
    assert_eq!(ID_DIGITS, 22);
    assert!(id_out_of_range("7N42dgm5tFLK9N8MT7fHC8"));
    assert!(id_out_of_range("anything at all ZZZZZZZZZZZZZZZZZZZZZZ"));
    assert!(!id_out_of_range("7N42dgm5tFLK9N8MT7fHC7"));
    assert!(!id_out_of_range("spotify:track:4GNcXTGWmnZ3ySrqvol3o4"));
    assert!(!id_out_of_range(""));
    assert!(!id_out_of_range("ZZZZZZZZZZZZZZZZZZZZZ"));
    assert!(!id_out_of_range("ZZZZZZZZZZZZZZZZZZZZZ!"));
    assert!(!id_out_of_range("!ZZZZZZZZZZZZZZZZZZZZZ"));
    assert!(!id_out_of_range("ZZZZZZZZZZ:ZZZZZZZZZZZ"));
    assert!(!id_out_of_range("\u{e9}\u{e9}\u{e9}\u{e9}\u{e9}\u{e9}\u{e9}\u{e9}\u{e9}\u{e9}\u{e9}\u{e9}\u{e9}\u{e9}\u{e9}\u{e9}\u{e9}\u{e9}\u{e9}\u{e9}\u{e9}\u{e9}"));
    assert!(id_out_of_range("\u{e9}ZZZZZZZZZZZZZZZZZZZZZZ"));
}

#[test]
fn digit_value_follows_the_alphabet() {
    assert_eq!(digit_value('0'), Some(0));
    assert_eq!(digit_value('9'), Some(9));
    assert_eq!(digit_value('a'), Some(10));
    assert_eq!(digit_value('z'), Some(35));
    assert_eq!(digit_value('A'), Some(36));
    assert_eq!(digit_value('Z'), Some(61));
    assert_eq!(digit_value(':'), None);
    assert_eq!(digit_value('/'), None);
    assert_eq!(digit_value('@'), None);
    assert_eq!(digit_value('['), None);
    assert_eq!(digit_value('`'), None);
    assert_eq!(digit_value('{'), None);
    assert_eq!(digit_value('\u{e9}'), None);
}

#[test]
fn only_non_playable_items_are_not_playable() {
    assert!(ItemId { id: 1, kind: ItemKind::Track }.is_playable());
    assert!(ItemId { id: 1, kind: ItemKind::Podcast }.is_playable());
    assert!(!ItemId { id: 1, kind: ItemKind::NonPlayable }.is_playable());
}
