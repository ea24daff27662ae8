use dayone_zola::model::{Location, Weather};
use dayone_zola::text::{i64_to_string, join_with, replace_all};

fn location(
    country: Option<&str>,
    locality: Option<&str>,
    place: Option<&str>,
    area: Option<&str>,
) -> Location {
    Location {
        locality_name: locality.map(|s| s.to_string()),
        country: country.map(|s| s.to_string()),
        place_name: place.map(|s| s.to_string()),
        administrativ_area: area.map(|s| s.to_string()),
    }
}

#[test]
fn location_country_and_locality() {
    let l = location(Some("USA"), Some("Springfield"), None, None);
    assert_eq!(l.display_string(), "USA, Springfield");
}

#[test]
fn location_all_fields() {
    let l = location(Some("USA"), Some("Springfield"), Some("Moe's"), Some("IL"));
    assert_eq!(l.display_string(), "USA, Springfield, Moe's");
}

#[test]
fn location_empty() {
    let l = location(None, None, None, None);
    assert_eq!(l.display_string(), "");
}

#[test]
fn location_only_place() {
    let l = location(None, None, Some("Moe's"), None);
    assert_eq!(l.display_string(), "Moe's");
}

#[test]
fn weather_truncates_not_rounds() {
    let t: f64 = 21.8;
    let w = Weather { weather_code: "clear".to_string(), temperature_celsius: t as i64 };
    assert_eq!(w.display_string(), "21 °C");
}

#[test]
fn weather_truncates_toward_zero_when_negative() {
    let t: f64 = -3.7;
    let w = Weather { weather_code: "snow".to_string(), temperature_celsius: t as i64 };
    assert_eq!(w.display_string(), "-3 °C");
}

#[test]
fn weather_zero() {
    let w = Weather { weather_code: "fog".to_string(), temperature_celsius: 0 };
    assert_eq!(w.display_string(), "0 °C");
}

#[test]
fn replace_all_single_occurrence() {
    assert_eq!(replace_all("say XY now", "XY", "Z"), "say Z now");
}

#[test]
fn replace_all_every_occurrence() {
    assert_eq!(replace_all("aXbXc", "X", "--"), "a--b--c");
}

#[test]
fn replace_all_absent_pattern_leaves_text() {
    assert_eq!(replace_all("nothing here", "XY", "Z"), "nothing here");
}

#[test]
fn replace_all_does_not_rescan_replacement() {
    assert_eq!(replace_all("aa", "a", "ab"), "abab");
}

#[test]
fn join_with_comma() {
    let values = vec!["a".to_string(), "b".to_string(), "c".to_string()];
    assert_eq!(join_with(&values, ", "), "a, b, c");
}

#[test]
fn join_with_empty() {
    let values: Vec<String> = Vec::new();
    assert_eq!(join_with(&values, ", "), "");
}

#[test]
fn i64_rendering_exact() {
    assert_eq!(i64_to_string(0), "0");
    assert_eq!(i64_to_string(12345), "12345");
    assert_eq!(i64_to_string(-7), "-7");
    assert_eq!(i64_to_string(i64::MAX), "9223372036854775807");
    assert_eq!(i64_to_string(i64::MIN), "-9223372036854775808");
}
