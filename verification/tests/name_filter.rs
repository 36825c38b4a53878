use hang_watchdog::names::contains_bytes;
use hang_watchdog::names::name_matches;

#[test]
fn substring_found() {
    assert!(contains_bytes(b"gta5.exe", b"gta5"));
    assert!(contains_bytes(b"gta5.exe", b".exe"));
    assert!(contains_bytes(b"gta5.exe", b"a5.e"));
    assert!(contains_bytes(b"gta5.exe", b"gta5.exe"));
}

#[test]
fn substring_missing() {
    assert!(!contains_bytes(b"gta5.exe", b"gta6"));
    assert!(!contains_bytes(b"gta", b"gta5"));
    assert!(!contains_bytes(b"", b"a"));
}

#[test]
fn empty_needle_always_found() {
    assert!(contains_bytes(b"", b""));
    assert!(contains_bytes(b"anything", b""));
}

#[test]
fn repeated_prefix_needle() {
    // The scan must not give up after a partial match.
    assert!(contains_bytes(b"aaab", b"aab"));
    assert!(!contains_bytes(b"aaac", b"aab"));
}

#[test]
fn matching_is_case_insensitive_on_the_name() {
    assert!(name_matches("GTA5.EXE", "gta5"));
    assert!(name_matches("Gta5.exe", "gta5"));
}

#[test]
fn matching_is_case_insensitive_on_the_query() {
    // Would fail if the query were not folded as well.
    assert!(name_matches("gta5.exe", "GTA5.EXE"));
    assert!(name_matches("gta5.exe", "Gta5"));
}

#[test]
fn matching_is_substring_not_equality() {
    assert!(name_matches("some-gta5.exe-copy", "gta5"));
    assert!(!name_matches("gta5", "gta5.exe"));
}

#[test]
fn empty_query_matches_everything() {
    assert!(name_matches("gta5.exe", ""));
    assert!(name_matches("", ""));
}

#[test]
fn unrelated_name_does_not_match() {
    assert!(!name_matches("notepad.exe", "gta5"));
}
