use std::cmp::Ordering;

use foksal::db::tag::{parse_out_of, ExtendedTagKey, SortingOrder, StandardTagKey, TagError, TagKey};

#[test]
fn test_cmp() {
    let a = Some("03/12");
    let b = Some("4");
    let c = Some("10/12");
    let key = TagKey::Standard(StandardTagKey::TrackNumber);

    assert_eq!(key.cmp(a, b), Ordering::Less);
    assert_eq!(key.cmp(b, c), Ordering::Less);
    assert_eq!(key.cmp(a, c), Ordering::Less);
    assert_eq!(key.cmp(a, a), Ordering::Equal);
}

#[test]
fn cmp_puts_missing_values_first_and_flips() {
    let key = TagKey::Standard(StandardTagKey::Artist);
    assert_eq!(key.cmp(None, Some("x")), Ordering::Less);
    assert_eq!(key.cmp(Some("x"), None), Ordering::Greater);
    assert_eq!(key.cmp(None, None), Ordering::Equal);
    assert_eq!(key.cmp(Some("abc"), Some("abd")), Ordering::Less);
    assert_eq!(key.cmp(Some("abd"), Some("abc")), Ordering::Greater);
    assert_eq!(key.cmp(Some("10"), Some("9")), Ordering::Less);
}

#[test]
fn numbered_tags_that_do_not_parse_compare_equal() {
    let key = TagKey::Standard(StandardTagKey::DiscNumber);
    assert_eq!(key.cmp(Some("x"), Some("2")), Ordering::Equal);
    assert_eq!(key.cmp(Some("2/5"), Some("+2")), Ordering::Equal);
}

#[test]
fn parse_out_of_reads_the_leading_number() {
    assert_eq!(parse_out_of("03/12"), Some(3));
    assert_eq!(parse_out_of("-7"), Some(-7));
    assert_eq!(parse_out_of("12"), Some(12));
    assert_eq!(parse_out_of("/3"), None);
    assert_eq!(parse_out_of("2147483648"), None);
    assert_eq!(parse_out_of("2147483647"), Some(2147483647));
}

#[test]
fn tag_names_round_trip() {
    let k = TagKey::from_name("sortalbumartist").unwrap();
    assert_eq!(k, TagKey::Standard(StandardTagKey::SortAlbumArtist));
    assert_eq!(k.to_string(), "sortalbumartist");
    assert_eq!(TagKey::from_extended(ExtendedTagKey::FileSize).name(), "filesize");
    let e = TagKey::from_name("bogus").unwrap_err();
    assert_eq!(e, TagError::InvalidTagKey("bogus".to_string()));
    assert_eq!(e.message(), "invalid tag key `bogus`");
}

#[test]
fn fallback_rules() {
    let k = TagKey::Standard(StandardTagKey::SortAlbumArtist);
    assert_eq!(k.fallback(), Some(TagKey::Standard(StandardTagKey::AlbumArtist)));
    assert_eq!(
        TagKey::Standard(StandardTagKey::AlbumArtist).fallback(),
        Some(TagKey::Standard(StandardTagKey::Artist))
    );
    assert_eq!(TagKey::Standard(StandardTagKey::Genre).fallback(), None);
    assert_eq!(TagKey::Extended(ExtendedTagKey::Duration).fallback(), None);
}

#[test]
fn sorting_orders() {
    assert_eq!(SortingOrder::from_name("asc").unwrap(), SortingOrder::Ascending);
    assert_eq!(SortingOrder::from_name("descending").unwrap(), SortingOrder::Descending);
    let e = SortingOrder::from_name("up").unwrap_err();
    assert_eq!(e.message(), "invalid sorting order `up`");
}
