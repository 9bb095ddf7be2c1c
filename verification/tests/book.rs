use audiovert::book::{escape, numbers, pluralize, translate, xml_escape, From};

#[test]
fn from_matches_ranges() {
    assert!(From::Full.matches(0));
    assert!(From::Full.matches(u32::MAX));
    assert!(From::Single(3).matches(3));
    assert!(!From::Single(3).matches(4));
    assert!(From::RangeInclusive(1, 5).matches(1));
    assert!(From::RangeInclusive(1, 5).matches(5));
    assert!(!From::RangeInclusive(1, 5).matches(6));
    assert!(!From::RangeInclusive(5, 1).matches(3));
    assert!(From::Range(1, 5).matches(4));
    assert!(!From::Range(1, 5).matches(5));
    assert!(!From::Range(1, 5).matches(0));
    assert!(From::RangeOpen(7).matches(7));
    assert!(!From::RangeOpen(7).matches(6));
    assert!(From::RangeTo(7).matches(6));
    assert!(!From::RangeTo(7).matches(7));
    assert!(From::RangeToInclusive(7).matches(7));
    assert!(!From::RangeToInclusive(7).matches(8));
}

#[test]
fn translate_common_extensions() {
    assert_eq!(translate("jpeg"), "jpg");
    assert_eq!(translate("JPEG"), "jpg");
    assert_eq!(translate("JpEg"), "jpg");
    assert_eq!(translate("tiff"), "tif");
    assert_eq!(translate("TIFF"), "tif");
    assert_eq!(translate("png"), "png");
    assert_eq!(translate("PNG"), "PNG");
    assert_eq!(translate("jpe"), "jpe");
    assert_eq!(translate("jpegs"), "jpegs");
    assert_eq!(translate(""), "");
}

#[test]
fn numbers_in_names() {
    assert_eq!(numbers("Vol. 12 - Chapter 003"), vec![12, 3]);
    assert_eq!(numbers("no numbers"), Vec::<u32>::new());
    assert_eq!(numbers(""), Vec::<u32>::new());
    assert_eq!(numbers("7"), vec![7]);
    assert_eq!(numbers("a1b22c333"), vec![1, 22, 333]);
    assert_eq!(numbers("1.5"), vec![1, 5]);
    // A run that is no u32 is passed over.
    assert_eq!(numbers("x99999999999y4"), vec![4]);
    assert_eq!(numbers("4294967295 4294967296"), vec![4294967295]);
    // Numeric characters that are no decimal digits make the run unreadable.
    assert_eq!(numbers("2² 3"), vec![3]);
}

#[test]
fn escape_for_terminal() {
    assert_eq!(escape("plain"), "plain");
    assert_eq!(escape(""), "");
    assert_eq!(escape("two words"), "\"two words\"");
    assert_eq!(escape("say \"hi\""), "\"say \\\"hi\\\"\"");
    assert_eq!(escape("a\\b"), "\"a\\\\b\"");
    assert_eq!(escape("tab\there"), "\"tab\there\"");
    assert_eq!(escape("q\"x"), "\"q\\\"x\"");
}

#[test]
fn xml_escape_entities() {
    assert_eq!(xml_escape("plain"), "plain");
    assert_eq!(xml_escape(""), "");
    assert_eq!(xml_escape("a & b"), "a &amp; b");
    assert_eq!(xml_escape("<tag attr=\"v\">it's</tag>"), "&lt;tag attr=&quot;v&quot;&gt;it&apos;s&lt;/tag&gt;");
    assert_eq!(xml_escape("&amp;"), "&amp;amp;");
}

#[test]
fn pluralize_by_count() {
    assert_eq!(pluralize(1, "book", "books"), "book");
    assert_eq!(pluralize(0, "book", "books"), "books");
    assert_eq!(pluralize(2, "book", "books"), "books");
}
