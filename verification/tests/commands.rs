use rusty_smith::commands::{create_post, create_post_on};

#[test]
fn a_new_post_is_named_by_its_date_and_carries_it() {
    let file = create_post_on("2024-02-29");
    assert_eq!(file.path, "posts/2024-02-29-post-title.md");
    assert_eq!(
        file.contents,
        "---\ntitle: \"New post title\"\ndescription: The description\nkeywords: keyword\n# permalink: if-needed\ndate: 2024-02-29\n# publish: draft\n---\n\n<section>\n\n## First subtitle\n\nParagraph contents\n\n</section>\n"
    );
}

#[test]
fn a_new_post_of_today_has_a_date_of_ten_characters() {
    let file = create_post();
    assert!(file.path.starts_with("posts/"));
    assert!(file.path.ends_with("-post-title.md"));
    let date = &file.path["posts/".len()..file.path.len() - "-post-title.md".len()];
    assert_eq!(date.len(), 10, "{}", date);
    assert_eq!(&date[4..5], "-");
    assert_eq!(&date[7..8], "-");
    assert!(file.contents.contains(&format!("date: {}\n", date)));
    assert_eq!(file, create_post_on(date));
}

#[test]
fn a_new_post_parses_as_a_post() {
    let file = create_post_on("2024-02-29");
    let post = rusty_smith::parser::parse_post("posts/x.md", "x.md", &file.contents).unwrap();
    assert_eq!(post.frontmatter.title, "New post title");
    assert_eq!(post.frontmatter.date, "2024-02-29");
    assert_eq!(post.permalink, "new-post-title");
    assert!(!post.frontmatter.is_draft());
}
