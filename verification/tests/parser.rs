use rusty_smith::parser::{
    assemble_post, find_permalink_collision, frontmatter_from_fields, frontmatter_from_yaml,
    get_permalink_from_title, get_posts, load_all, load_directory, parse_file,
    parse_frontmatter_data, parse_post, permalink_from_lowercase, Block, FrontmatterData,
    ParseError, Post, SourceFile,
};
use rusty_smith::string_map::StringMap;

fn fields(pairs: &[(&str, &str)]) -> StringMap {
    let mut map = StringMap::new();
    for (key, value) in pairs {
        map.insert(key.to_string(), value.to_string());
    }
    map
}

fn file(name: &str, text: &str) -> SourceFile {
    SourceFile {
        full_path: format!("/posts/{}", name),
        file_name: name.to_string(),
        contents: Ok(text.to_string()),
    }
}

fn post_with_permalink(permalink: &str) -> Post {
    Post {
        file_name: "a.md".to_string(),
        frontmatter: FrontmatterData {
            date: "2024-01-01".to_string(),
            description: None,
            keywords: None,
            title: "A".to_string(),
            publish: None,
            light_theme: false,
        },
        full_path: "/posts/a.md".to_string(),
        html: String::new(),
        permalink: permalink.to_string(),
    }
}

#[test]
fn permalink_is_the_lower_case_title_with_hyphens_for_spaces() {
    assert_eq!(get_permalink_from_title(&"Test Post".to_string()), "test-post");
    assert_eq!(get_permalink_from_title(&"Hello  Big World".to_string()), "hello--big-world");
    assert_eq!(get_permalink_from_title(&"already-lower".to_string()), "already-lower");
}

#[test]
fn permalink_keeps_punctuation_and_accents() {
    assert_eq!(get_permalink_from_title(&"Café: What's New?".to_string()), "café:-what's-new?");
    assert_eq!(get_permalink_from_title(&"ÀÉÎ Õ".to_string()), "àéî-õ");
}

#[test]
fn permalink_from_lowercase_only_replaces_spaces() {
    assert_eq!(permalink_from_lowercase("a b"), "a-b");
    assert_eq!(permalink_from_lowercase("Kept Upper"), "Kept-Upper");
    assert_eq!(permalink_from_lowercase(""), "");
}

#[test]
fn front_matter_keeps_title_and_date_and_takes_the_optional_keys() {
    let data = frontmatter_from_fields(&fields(&[
        ("title", "Hello World"),
        ("date", "2024-03-05"),
        ("description", "About things"),
        ("keywords", "a,b"),
        ("publish", "draft"),
        ("lightTheme", "true"),
    ]))
    .unwrap();
    assert_eq!(
        data,
        FrontmatterData {
            date: "2024-03-05".to_string(),
            description: Some("About things".to_string()),
            keywords: Some("a,b".to_string()),
            title: "Hello World".to_string(),
            publish: Some("draft".to_string()),
            light_theme: true,
        }
    );
}

#[test]
fn front_matter_without_optional_keys_has_none_of_them() {
    let data = frontmatter_from_fields(&fields(&[("title", "T"), ("date", "2024-03-05")])).unwrap();
    assert_eq!(data.description, None);
    assert_eq!(data.keywords, None);
    assert_eq!(data.publish, None);
    assert!(!data.light_theme);
}

#[test]
fn light_theme_is_set_by_the_value_true_only() {
    let yes = frontmatter_from_fields(&fields(&[("title", "T"), ("date", "D"), ("lightTheme", "true")]));
    let no = frontmatter_from_fields(&fields(&[("title", "T"), ("date", "D"), ("lightTheme", "yes")]));
    assert!(yes.unwrap().light_theme);
    assert!(!no.unwrap().light_theme);
}

#[test]
fn front_matter_with_description_only_lacks_the_title() {
    let result = frontmatter_from_fields(&fields(&[("description", "only this")]));
    assert_eq!(result, Err(ParseError::MissingField("title".to_string())));
}

#[test]
fn front_matter_without_date_lacks_the_date() {
    let result = frontmatter_from_fields(&fields(&[("title", "T")]));
    assert_eq!(result, Err(ParseError::MissingField("date".to_string())));
}

#[test]
fn an_empty_title_or_date_counts_as_missing() {
    let no_title = frontmatter_from_fields(&fields(&[("title", ""), ("date", "2024-01-01")]));
    let no_date = frontmatter_from_fields(&fields(&[("title", "T"), ("date", "")]));
    assert_eq!(no_title, Err(ParseError::MissingField("title".to_string())));
    assert_eq!(no_date, Err(ParseError::MissingField("date".to_string())));
}

#[test]
fn is_draft_holds_for_the_value_draft_only() {
    let with = |publish: Option<&str>| FrontmatterData {
        date: "2024-01-01".to_string(),
        description: None,
        keywords: None,
        title: "T".to_string(),
        publish: publish.map(|s| s.to_string()),
        light_theme: false,
    };
    assert!(with(Some("draft")).is_draft());
    assert!(!with(None).is_draft());
    assert!(!with(Some("published")).is_draft());
    assert!(!with(Some("Draft")).is_draft());
    assert!(!with(Some("")).is_draft());
}

#[test]
fn publish_draft_in_the_front_matter_makes_a_draft() {
    let source = "---\ntitle: T\ndate: 2024-01-01\npublish: draft\n---\n\nText\n";
    let draft = parse_post("/posts/t.md", "t.md", source).unwrap();
    assert!(draft.frontmatter.is_draft());
    let source = "---\ntitle: T\ndate: 2024-01-01\n---\n\nText\n";
    let published = parse_post("/posts/t.md", "t.md", source).unwrap();
    assert!(!published.frontmatter.is_draft());
}

#[test]
fn theme_class_follows_the_light_theme_flag() {
    let mut data = frontmatter_from_fields(&fields(&[("title", "T"), ("date", "D")])).unwrap();
    assert_eq!(data.theme_class(), "");
    data.light_theme = true;
    assert_eq!(data.theme_class(), "light");
}

#[test]
fn a_refused_yaml_block_is_invalid_front_matter_with_the_readers_words() {
    let result = frontmatter_from_yaml(Err("did not find expected key".to_string()));
    assert_eq!(
        result,
        Err(ParseError::InvalidFrontMatter("did not find expected key".to_string()))
    );
}

#[test]
fn yaml_entries_give_the_front_matter() {
    let result = frontmatter_from_yaml(Ok(vec![
        ("date".to_string(), "2024-01-01".to_string()),
        ("title".to_string(), "T".to_string()),
    ]));
    let data = result.unwrap();
    assert_eq!(data.title, "T");
    assert_eq!(data.date, "2024-01-01");
}

#[test]
fn a_node_that_is_no_yaml_block_has_no_front_matter() {
    assert_eq!(parse_frontmatter_data(&Block::Other), Err(ParseError::MissingFrontMatter));
}

#[test]
fn a_yaml_block_is_read_by_the_yaml_reader() {
    let block = Block::Yaml("title: \"Quoted: Title\"\ndate: 2023-01-02\nkeywords: a, b".to_string());
    let data = parse_frontmatter_data(&block).unwrap();
    assert_eq!(data.title, "Quoted: Title");
    assert_eq!(data.date, "2023-01-02");
    assert_eq!(data.keywords, Some("a, b".to_string()));
    assert_eq!(data.description, None);
}

#[test]
fn a_yaml_block_that_is_no_mapping_of_strings_is_invalid() {
    let list = parse_frontmatter_data(&Block::Yaml("- a\n- b".to_string()));
    assert!(matches!(list, Err(ParseError::InvalidFrontMatter(_))));
    let broken = parse_frontmatter_data(&Block::Yaml("title: [unclosed".to_string()));
    assert!(matches!(broken, Err(ParseError::InvalidFrontMatter(_))));
    let nested = parse_frontmatter_data(&Block::Yaml("title:\n  inner: x\ndate: d".to_string()));
    assert!(matches!(nested, Err(ParseError::InvalidFrontMatter(_))));
}

#[test]
fn assemble_post_needs_a_leading_yaml_block() {
    let none = assemble_post("/p/a.md", "a.md", "<p>x</p>".to_string(), None);
    assert_eq!(none, Err(ParseError::MissingFrontMatter));
    let empty = assemble_post("/p/a.md", "a.md", "<p>x</p>".to_string(), Some(vec![]));
    assert_eq!(empty, Err(ParseError::MissingFrontMatter));
    let later = assemble_post(
        "/p/a.md",
        "a.md",
        "<p>x</p>".to_string(),
        Some(vec![Block::Other, Block::Yaml("title: T\ndate: D".to_string())]),
    );
    assert_eq!(later, Err(ParseError::MissingFrontMatter));
}

#[test]
fn assemble_post_puts_the_parts_together() {
    let post = assemble_post(
        "/p/my-file.md",
        "my-file.md",
        "<p>x</p>".to_string(),
        Some(vec![Block::Yaml("title: My Title\ndate: 2024-02-03".to_string()), Block::Other]),
    )
    .unwrap();
    assert_eq!(post.file_name, "my-file.md");
    assert_eq!(post.full_path, "/p/my-file.md");
    assert_eq!(post.html, "<p>x</p>");
    assert_eq!(post.permalink, "my-title");
    assert_eq!(post.frontmatter.title, "My Title");
    assert_eq!(post.frontmatter.date, "2024-02-03");
}

#[test]
fn parse_post_round_trips_title_date_and_permalink() {
    let source = "---\ntitle: Hello Big World\ndate: 2023-04-05\ndescription: Said hello\n---\n\n# Heading\n\nSome *text*.\n";
    let post = parse_post("/posts/hello.md", "hello.md", source).unwrap();
    assert_eq!(post.frontmatter.title, "Hello Big World");
    assert_eq!(post.frontmatter.date, "2023-04-05");
    assert_eq!(post.frontmatter.description, Some("Said hello".to_string()));
    assert_eq!(post.permalink, "hello-big-world");
    assert_eq!(post.file_name, "hello.md");
    assert_eq!(post.full_path, "/posts/hello.md");
    assert_eq!(post.html, "<h1>Heading</h1>\n<p>Some <em>text</em>.</p>\n");
}

#[test]
fn parse_post_lets_raw_html_through() {
    let source = "---\ntitle: T\ndate: 2023-04-05\n---\n\n<section>\n\n## Sub\n\n</section>\n";
    let post = parse_post("/posts/t.md", "t.md", source).unwrap();
    assert_eq!(post.html, "<section>\n<h2>Sub</h2>\n</section>\n");
}

#[test]
fn parsing_the_same_file_twice_gives_the_same_post() {
    let source = "---\ntitle: Same\ndate: 2023-04-05\n---\n\nBody with a [link](https://example.com).\n";
    let first = parse_post("/posts/same.md", "same.md", source);
    let second = parse_post("/posts/same.md", "same.md", source);
    assert!(first.is_ok());
    assert_eq!(first, second);
    let broken = "---\ntitle: [x\n---\n";
    assert_eq!(parse_post("/p/b.md", "b.md", broken), parse_post("/p/b.md", "b.md", broken));
}

#[test]
fn a_document_without_front_matter_is_refused() {
    let result = parse_post("/posts/plain.md", "plain.md", "# Just a heading\n\nText\n");
    assert_eq!(result, Err(ParseError::MissingFrontMatter));
    assert_eq!(parse_post("/posts/e.md", "e.md", ""), Err(ParseError::MissingFrontMatter));
}

#[test]
fn a_document_with_description_only_lacks_a_field() {
    let result = parse_post("/posts/d.md", "d.md", "---\ndescription: only\n---\n\nText\n");
    assert_eq!(result, Err(ParseError::MissingField("title".to_string())));
}

#[test]
fn a_file_that_could_not_be_read_is_an_io_error() {
    let unreadable = SourceFile {
        full_path: "/posts/x.md".to_string(),
        file_name: "x.md".to_string(),
        contents: Err("permission denied".to_string()),
    };
    assert_eq!(parse_file(&unreadable), Err(ParseError::Io("permission denied".to_string())));
}

#[test]
fn load_all_skips_the_file_with_invalid_yaml_and_keeps_the_order() {
    let files = vec![
        file("one.md", "---\ntitle: One\ndate: 2023-01-02\n---\n\nFirst\n"),
        file("two.md", "---\ntitle: [broken\ndate: 2023-01-03\n---\n\nSecond\n"),
        file("three.md", "---\ntitle: Three\ndate: 2023-01-01\n---\n\nThird\n"),
    ];
    let report = load_all(&files);
    assert_eq!(report.posts.len(), 2);
    assert_eq!(report.posts[0].frontmatter.title, "One");
    assert_eq!(report.posts[1].frontmatter.title, "Three");
    assert_eq!(report.failures.len(), 1);
    assert_eq!(report.failures[0].file_name, "two.md");
    assert!(matches!(report.failures[0].error, ParseError::InvalidFrontMatter(_)));
}

#[test]
fn load_all_leaves_out_the_file_that_lacks_a_field() {
    let files = vec![
        file("bad.md", "---\ndescription: only\n---\n\nText\n"),
        file("good.md", "---\ntitle: Good\ndate: 2023-01-01\n---\n\nText\n"),
    ];
    let report = load_all(&files);
    assert_eq!(report.posts.len(), 1);
    assert_eq!(report.posts[0].file_name, "good.md");
    assert_eq!(report.failures.len(), 1);
    assert_eq!(report.failures[0].file_name, "bad.md");
    assert_eq!(report.failures[0].error, ParseError::MissingField("title".to_string()));
}

#[test]
fn get_posts_gives_the_posts_that_parse() {
    let files = vec![
        file("plain.md", "no front matter"),
        file("b.md", "---\ntitle: B\ndate: 2023-01-01\n---\n"),
        file("a.md", "---\ntitle: A\ndate: 2023-05-01\n---\n"),
    ];
    let posts = get_posts(&files);
    let titles: Vec<&str> = posts.iter().map(|p| p.frontmatter.title.as_str()).collect();
    assert_eq!(titles, vec!["B", "A"]);
    assert_eq!(get_posts(&Vec::new()), Vec::<Post>::new());
}

#[test]
fn a_directory_that_cannot_be_listed_fails_as_a_whole() {
    let result = load_directory(Err("no such directory".to_string()));
    assert_eq!(result, Err(ParseError::Io("no such directory".to_string())));
    let listed = load_directory(Ok(vec![file("a.md", "---\ntitle: A\ndate: 2023-05-01\n---\n")]));
    assert_eq!(listed.unwrap().posts.len(), 1);
}

#[test]
fn parse_error_message_names_the_reason() {
    assert_eq!(
        ParseError::MissingField("title".to_string()).message(),
        "the front matter lacks the field title"
    );
    assert_eq!(
        ParseError::MissingFrontMatter.message(),
        "the document has no front matter block"
    );
    assert_eq!(
        ParseError::InvalidFrontMatter("bad".to_string()).message(),
        "the front matter is not valid: bad"
    );
    assert_eq!(ParseError::Io("gone".to_string()).message(), "could not read the file: gone");
}

#[test]
fn permalink_collision_is_found_at_its_first_repetition() {
    let posts = vec![
        post_with_permalink("a"),
        post_with_permalink("b"),
        post_with_permalink("c"),
        post_with_permalink("b"),
        post_with_permalink("a"),
    ];
    assert_eq!(find_permalink_collision(&posts), Some((1, 3)));
    let distinct = vec![post_with_permalink("a"), post_with_permalink("b")];
    assert_eq!(find_permalink_collision(&distinct), None);
    assert_eq!(find_permalink_collision(&Vec::new()), None);
}
