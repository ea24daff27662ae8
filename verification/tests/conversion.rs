use dayone_zola::convert::{
    content_folder_path, convert_entry, convert_to_zola, ConvertError,
};
use dayone_zola::model::{Entry, Export, Location, Photo, Weather};

fn entry(text: &str, date: &str) -> Entry {
    Entry {
        text: text.to_string(),
        date: date.to_string(),
        weather: None,
        location: None,
        photos: None,
    }
}

#[test]
fn offset_is_dropped_not_converted() {
    let e = entry("hi", "2021-05-01T10:15:30+02:00");
    let post = convert_entry(&e, "c", "j").unwrap();
    assert_eq!(post.folder, "c/2021-05-01T10:15:30Z");
    assert_eq!(post.index_path(), "c/2021-05-01T10:15:30Z/index.md");
}

#[test]
fn utc_timestamp_kept() {
    let e = entry("hi", "2019-12-31T23:59:59Z");
    let post = convert_entry(&e, "c", "j").unwrap();
    assert_eq!(post.folder, "c/2019-12-31T23:59:59Z");
}

#[test]
fn photo_placeholder_rewritten_and_copy_planned() {
    let mut e = entry("before dayone-moment://abc123 after", "2021-05-01T10:15:30+02:00");
    e.photos = Some(vec![Photo {
        identifier: "abc123".to_string(),
        kind: "jpeg".to_string(),
        md5: "deadbeef".to_string(),
    }]);
    let post = convert_entry(&e, "c", "journal").unwrap();
    assert!(post.document.contains("deadbeef.jpeg"));
    assert!(!post.document.contains("dayone-moment://abc123"));
    assert_eq!(post.copies.len(), 1);
    assert_eq!(post.copies[0].source, "journal/photos/deadbeef.jpeg");
    assert_eq!(
        post.copies[0].dest,
        "c/2021-05-01T10:15:30Z/deadbeef.jpeg"
    );
}

#[test]
fn placeholder_replaced_at_every_occurrence() {
    let mut e = entry(
        "dayone-moment://p1 and dayone-moment://p1",
        "2021-05-01T10:15:30Z",
    );
    e.photos = Some(vec![Photo {
        identifier: "p1".to_string(),
        kind: "png".to_string(),
        md5: "0123".to_string(),
    }]);
    let post = convert_entry(&e, "c", "j").unwrap();
    assert!(post.document.contains("0123.png and 0123.png"));
    assert!(!post.document.contains("dayone-moment://"));
}

#[test]
fn document_rendered_exactly() {
    let mut e = entry("Hello", "2021-05-01T10:15:30+02:00");
    e.location = Some(Location {
        locality_name: Some("Springfield".to_string()),
        country: Some("USA".to_string()),
        place_name: None,
        administrativ_area: None,
    });
    let t: f64 = 21.8;
    e.weather = Some(Weather {
        weather_code: "clear".to_string(),
        temperature_celsius: t as i64,
    });
    let post = convert_entry(&e, "c", "j").unwrap();
    let expected = "\n+++\ndate = 2021-05-01T10:15:30Z\n+++\nLocation: USA, Springfield - Weather: 21 °C\nHello\n\n<!-- more -->\n    ";
    assert_eq!(post.document, expected);
}

#[test]
fn missing_location_and_weather_render_empty() {
    let e = entry("x", "2021-05-01T10:15:30Z");
    let post = convert_entry(&e, "c", "j").unwrap();
    assert!(post.document.contains("Location:  - Weather: \n"));
}

#[test]
fn malformed_date_is_rejected() {
    let e = entry("hi", "not a date");
    assert!(matches!(
        convert_entry(&e, "c", "j"),
        Err(ConvertError::InvalidDate)
    ));
    let export = Export { entries: vec![entry("a", "2021-05-01T10:15:30Z"), e] };
    let r = convert_to_zola(&export, "j", "j");
    assert!(matches!(r, Err(ConvertError::InvalidDate)));
}

#[test]
fn one_post_per_entry() {
    let export = Export {
        entries: vec![
            entry("a", "2021-05-01T10:15:30+02:00"),
            entry("b", "2021-05-02T08:00:00Z"),
        ],
    };
    let plan = convert_to_zola(&export, "journal", "journal").unwrap();
    assert_eq!(plan.content_folder, "journal/content");
    assert_eq!(plan.posts.len(), 2);
    assert_eq!(plan.posts[0].folder, "journal/content/2021-05-01T10:15:30Z");
    assert_eq!(plan.posts[1].folder, "journal/content/2021-05-02T08:00:00Z");
    assert_ne!(plan.posts[0].folder, plan.posts[1].folder);
    assert!(plan.posts[0].index_path().ends_with("/index.md"));
    assert!(plan.posts[1].index_path().ends_with("/index.md"));
}

#[test]
fn identical_timestamps_share_one_folder() {
    let export = Export {
        entries: vec![
            entry("first", "2021-05-01T10:15:30+02:00"),
            entry("second", "2021-05-01T10:15:30-05:00"),
        ],
    };
    let plan = convert_to_zola(&export, "j", "j").unwrap();
    assert_eq!(plan.posts[0].folder, plan.posts[1].folder);
    assert_eq!(plan.posts[0].index_path(), plan.posts[1].index_path());
    assert_ne!(plan.posts[0].document, plan.posts[1].document);
}

#[test]
fn content_folder_under_export_parent() {
    assert_eq!(content_folder_path("some/dir"), "some/dir/content");
}
