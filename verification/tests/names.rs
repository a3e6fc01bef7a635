use bannergen::text::{same_text, stem};

#[test]
fn stem_ends_before_the_first_full_stop() {
    assert_eq!(stem("1022f.png"), "1022f");
    assert_eq!(stem("1022f"), "1022f");
    assert_eq!(stem("a.b.c"), "a");
    assert_eq!(stem(".png"), "");
    assert_eq!(stem(""), "");
    assert_eq!(stem("."), "");
    assert_eq!(stem("bordér.png"), "bordér");
    assert_eq!(stem("é"), "é");
}

#[test]
fn same_text_compares_all_characters() {
    assert!(same_text("", ""));
    assert!(same_text("base", "base"));
    assert!(!same_text("base", "bass"));
    assert!(!same_text("base", "bas"));
    assert!(!same_text("", "b"));
    assert!(same_text("bordér", "bordér"));
    assert!(!same_text("bordér", "border"));
}
