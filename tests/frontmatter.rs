use garden::frontmatter::{render_page, Frontmatter};

#[test]
fn draft_has_the_fixed_entries() {
    let f = Frontmatter::draft_dated("2024-01-02 03:04:05 UTC".to_string());
    assert!(f.draft);
    assert_eq!(f.title, "This is a String");
    assert_eq!(f.path, "/garden/{{slug}}");
    assert_eq!(f.date, "2024-01-02 03:04:05 UTC");
    assert_eq!(f.author, "talves");
    assert_eq!(f.description, "This is just the description");
    assert_eq!(f.categories, vec!["draft".to_string()]);
    assert_eq!(f.keywords, vec!["new".to_string(), "garden".to_string()]);
    assert_eq!(f.garden, "sprout");
    assert_eq!(f.image, "/images/social/{{slug}}.png");
}

#[test]
fn draft_now_is_dated_in_utc() {
    let f = Frontmatter::draft_now();
    let d: Vec<char> = f.date.chars().collect();
    assert!(f.date.ends_with(" UTC"));
    assert!(f.date.starts_with("20"));
    assert!(d.len() >= 23);
    assert_eq!((d[4], d[7], d[10], d[13], d[16]), ('-', '-', ' ', ':', ':'));
    assert!(f.date.len() > 10);
    assert_eq!(f.title, "This is a String");
}

#[test]
fn page_frames_the_front_matter() {
    assert_eq!(
        render_page("draft = true\n"),
        "---\ndraft = true\n---\n\n## First sub Title"
    );
    assert_eq!(render_page(""), "---\n---\n\n## First sub Title");
}
