use rusty_smith::parser::{Block, FrontmatterData, Post, SourceFile};
use rusty_smith::plugin::{OutputFile, Page, Plugin, PluginError, PluginPipeline, Site};
use rusty_smith::plugins::feed::FeedPlugin;
use rusty_smith::plugins::homepage::HomepagePlugin;
use rusty_smith::plugins::pages::PagesPlugin;
use rusty_smith::plugins::post::PostPlugin;
use rusty_smith::plugins::posts::PostsPlugin;
use rusty_smith::plugins::search::SearchPlugin;
use rusty_smith::plugins::sitemap::SitemapPlugin;

const ALL_SETTINGS: [(&str, &str); 6] = [
    ("HOST", "https://example.com"),
    ("WEBSITE_NAME", "Test Blog"),
    ("WEBSITE_DESCRIPTION", "About tests"),
    ("WEBSITE_LOGO_URL", "https://example.com/logo.png"),
    ("AUTHOR_NAME", "Test Author"),
    ("TWITTER_HANDLE", "@tester"),
];

fn post(title: &str, permalink: &str, date: &str, description: Option<&str>) -> Post {
    Post {
        file_name: format!("{}.md", permalink),
        frontmatter: FrontmatterData {
            date: date.to_string(),
            description: description.map(|s| s.to_string()),
            keywords: Some("k1,k2".to_string()),
            title: title.to_string(),
            publish: None,
            light_theme: false,
        },
        full_path: format!("/posts/{}.md", permalink),
        html: format!("<p>{}</p>", title),
        permalink: permalink.to_string(),
    }
}

fn site_with(settings: &[(&str, &str)], posts: Vec<Post>) -> Site {
    let mut site = Site::new();
    for (key, value) in settings {
        site.metadata.insert(key.to_string(), value.to_string());
    }
    site.posts = posts;
    site
}

fn two_posts() -> Vec<Post> {
    vec![
        post("Second \"Post\"", "second-post", "2024-02-01", Some("Says \"hi\"")),
        post("First Post", "first-post", "2024-01-01", None),
    ]
}

fn file(name: &str, text: &str) -> SourceFile {
    SourceFile {
        full_path: format!("pages/{}", name),
        file_name: name.to_string(),
        contents: Ok(text.to_string()),
    }
}

fn fails_for_each_missing_setting(plugin: &dyn Plugin, order: &[&str]) {
    let mut site = site_with(&[], two_posts());
    for name in order {
        assert_eq!(
            plugin.run(&mut site),
            Err(PluginError::MissingSetting(name.to_string())),
            "{}",
            plugin.name()
        );
        assert!(site.outputs.is_empty());
        assert!(site.pages.is_empty());
        assert_eq!(site.posts, two_posts());
        site.metadata.insert(name.to_string(), "x".to_string());
    }
    assert_eq!(plugin.run(&mut site), Ok(()));
}

#[test]
fn sitemap_lists_every_post_and_the_home_page() {
    let plugin = SitemapPlugin::new();
    assert_eq!(plugin.name(), "sitemap");
    let mut site = site_with(&ALL_SETTINGS, two_posts());
    assert_eq!(plugin.run(&mut site), Ok(()));
    assert_eq!(
        site.outputs,
        vec![OutputFile {
            path: "sitemap.xml".to_string(),
            contents: "<?xml version=\"1.0\" encoding=\"UTF-8\"?><urlset xmlns=\"http://www.sitemaps.org/schemas/sitemap/0.9\"><url><loc>https://example.com/second-post/</loc><changefreq>weekly</changefreq><priority>0.5</priority></url><url><loc>https://example.com/first-post/</loc><changefreq>weekly</changefreq><priority>0.5</priority></url><url><loc>https://example.com</loc><changefreq>weekly</changefreq><priority>0.5</priority></url></urlset>".to_string(),
        }]
    );
    assert_eq!(site.posts, two_posts());
}

#[test]
fn sitemap_without_posts_lists_the_home_page() {
    assert_eq!(
        SitemapPlugin::render("h", &Vec::new()),
        "<?xml version=\"1.0\" encoding=\"UTF-8\"?><urlset xmlns=\"http://www.sitemaps.org/schemas/sitemap/0.9\"><url><loc>h</loc><changefreq>weekly</changefreq><priority>0.5</priority></url></urlset>"
    );
}

#[test]
fn sitemap_needs_a_host() {
    fails_for_each_missing_setting(&SitemapPlugin::new(), &["HOST"]);
}

#[test]
fn feed_plugin_fills_the_template_and_lists_the_posts() {
    let plugin = FeedPlugin::new("<rss>{website_name}|{website_description}|{host}\n{feed_items}</rss>".to_string());
    assert_eq!(plugin.name(), "feed");
    let mut site = site_with(&ALL_SETTINGS, two_posts());
    assert_eq!(plugin.run(&mut site), Ok(()));
    assert_eq!(site.outputs.len(), 1);
    assert_eq!(site.outputs[0].path, "feed.xml");
    assert_eq!(
        site.outputs[0].contents,
        "<rss>Test Blog|About tests|https://example.com\n    <item>\n        <title>Second \"Post\"</title>\n        <link>https://example.comsecond-post</link>\n        <description>Says \"hi\"</description>\n        <pubDate>2024-02-01</pubDate>\n        <guid>https://example.comsecond-post</guid>\n    </item>\n    <item>\n        <title>First Post</title>\n        <link>https://example.comfirst-post</link>\n        <description></description>\n        <pubDate>2024-01-01</pubDate>\n        <guid>https://example.comfirst-post</guid>\n    </item>\n</rss>"
    );
}

#[test]
fn feed_plugin_names_the_setting_that_is_missing() {
    let plugin = FeedPlugin::new("t".to_string());
    fails_for_each_missing_setting(&plugin, &["WEBSITE_NAME", "WEBSITE_DESCRIPTION", "HOST"]);
}

#[test]
fn homepage_plugin_lists_the_posts_in_the_template() {
    let plugin = HomepagePlugin::new(
        "{website_name}|{author_name}|{host}|{website_logo_url}|{website_description}|{post_items}".to_string(),
        "[{post_link} {post_date_timestamp} {post_date_human_readable} {post_title} {post_excerpt}]".to_string(),
    );
    assert_eq!(plugin.name(), "homepage");
    let mut site = site_with(&ALL_SETTINGS, two_posts());
    assert_eq!(plugin.run(&mut site), Ok(()));
    assert_eq!(
        site.outputs,
        vec![OutputFile {
            path: "index.html".to_string(),
            contents: "Test Blog|Test Author|https://example.com|https://example.com/logo.png|About tests|[https://example.com/second-post/ 2024-02-01 2024/02/01 Second \"Post\" Says \"hi\"][https://example.com/first-post/ 2024-01-01 2024/01/01 First Post ]".to_string(),
        }]
    );
}

#[test]
fn homepage_plugin_fills_the_places_that_the_items_bring() {
    let plugin = HomepagePlugin::new("{post_items}".to_string(), "{post_title}@{host};".to_string());
    let mut site = site_with(&ALL_SETTINGS, vec![post("{author_name}", "p", "2024-01-01", None)]);
    assert_eq!(plugin.run(&mut site), Ok(()));
    assert_eq!(site.outputs[0].contents, "Test Author@https://example.com;");
}

#[test]
fn homepage_plugin_names_the_setting_that_is_missing() {
    let plugin = HomepagePlugin::new("t".to_string(), "i".to_string());
    fails_for_each_missing_setting(
        &plugin,
        &["WEBSITE_NAME", "AUTHOR_NAME", "HOST", "WEBSITE_LOGO_URL", "WEBSITE_DESCRIPTION"],
    );
}

#[test]
fn post_plugin_writes_the_page_of_every_post() {
    let plugin = PostPlugin::new(
        "{host}|{website_name}|{author_name}|{post_date_timestamp}|{post_date_human_readable}|{post_title}|{post_description}|{post_content}|{post_url}|{post_keywords}|{post_image_url}|{theme_class}".to_string(),
    );
    assert_eq!(plugin.name(), "post");
    let mut posts = two_posts();
    posts[1].frontmatter.light_theme = true;
    let mut site = site_with(&ALL_SETTINGS, posts);
    site.emit("earlier".to_string(), "kept".to_string());
    assert_eq!(plugin.run(&mut site), Ok(()));
    assert_eq!(
        site.outputs,
        vec![
            OutputFile { path: "earlier".to_string(), contents: "kept".to_string() },
            OutputFile {
                path: "second-post/index.html".to_string(),
                contents: "https://example.com|Test Blog|Test Author|2024-02-01|2024-02-01|Second \"Post\"|Says \"hi\"|<p>Second \"Post\"</p>|second-post|k1,k2|https://example.com/img/logo.png|".to_string(),
            },
            OutputFile {
                path: "first-post/index.html".to_string(),
                contents: "https://example.com|Test Blog|Test Author|2024-01-01|2024-01-01|First Post||<p>First Post</p>|first-post|k1,k2|https://example.com/img/logo.png|light".to_string(),
            },
        ]
    );
}

#[test]
fn post_plugin_without_posts_writes_nothing() {
    let plugin = PostPlugin::new("t".to_string());
    let mut site = site_with(&ALL_SETTINGS, Vec::new());
    assert_eq!(plugin.run(&mut site), Ok(()));
    assert!(site.outputs.is_empty());
}

#[test]
fn post_plugin_names_the_setting_that_is_missing() {
    let plugin = PostPlugin::new("t".to_string());
    fails_for_each_missing_setting(&plugin, &["WEBSITE_NAME", "AUTHOR_NAME", "HOST"]);
}

#[test]
fn search_json_lists_the_posts_with_escaped_quotes() {
    let site = site_with(&ALL_SETTINGS, two_posts());
    assert_eq!(
        SearchPlugin::generate_search_json(&site, "https://example.com"),
        "[{\"title\":\"Second \\\"Post\\\"\",\"url\":\"https://example.com/second-post/\",\"dateTimestamp\":\"2024-02-01\",\"dateHumanReadable\":\"2024/02/01\",\"excerpt\":\"Says \\\"hi\\\"\"},{\"title\":\"First Post\",\"url\":\"https://example.com/first-post/\",\"dateTimestamp\":\"2024-01-01\",\"dateHumanReadable\":\"2024/01/01\",\"excerpt\":\"\"}]"
    );
    assert_eq!(SearchPlugin::generate_search_json(&Site::new(), "h"), "[]");
}

#[test]
fn search_date_has_slashes() {
    assert_eq!(SearchPlugin::format_date("2024-01-02"), "2024/01/02");
}

#[test]
fn search_plugin_fills_the_template() {
    let plugin = SearchPlugin::new(
        "{host}|{website_name}|{website_description}|{website_logo_url}|{author_name}|{twitter_handle}|{resources}".to_string(),
    );
    assert_eq!(plugin.name(), "search");
    let mut site = site_with(&ALL_SETTINGS, vec![post("T", "t", "2024-01-01", None)]);
    assert_eq!(plugin.run(&mut site), Ok(()));
    assert_eq!(
        site.outputs,
        vec![OutputFile {
            path: "search/index.html".to_string(),
            contents: "https://example.com|Test Blog|About tests|https://example.com/logo.png|Test Author|@tester|[{\"title\":\"T\",\"url\":\"https://example.com/t/\",\"dateTimestamp\":\"2024-01-01\",\"dateHumanReadable\":\"2024/01/01\",\"excerpt\":\"\"}]".to_string(),
        }]
    );
}

#[test]
fn search_plugin_names_the_setting_that_is_missing() {
    let plugin = SearchPlugin::new("t".to_string());
    fails_for_each_missing_setting(
        &plugin,
        &["HOST", "WEBSITE_NAME", "WEBSITE_DESCRIPTION", "WEBSITE_LOGO_URL", "AUTHOR_NAME", "TWITTER_HANDLE"],
    );
}

#[test]
fn slug_is_the_file_name_without_its_ending() {
    assert_eq!(PagesPlugin::get_slug_from_filename("about.md"), "about");
    assert_eq!(PagesPlugin::get_slug_from_filename("about.md.md"), "about");
    assert_eq!(PagesPlugin::get_slug_from_filename("about"), "about");
}

#[test]
fn page_heading_is_read_from_the_front_matter() {
    let heading = PagesPlugin::parse_frontmatter("---\ntitle: About\ndescription: Who we are\n---\n\nText\n");
    assert_eq!(heading, ("About".to_string(), Some("Who we are".to_string())));
    let untitled = PagesPlugin::parse_frontmatter("---\ndescription: Who we are\n---\n");
    assert_eq!(untitled, (String::new(), Some("Who we are".to_string())));
    let plain = PagesPlugin::parse_frontmatter("# No front matter\n");
    assert_eq!(plain, (String::new(), None));
    let broken = PagesPlugin::parse_frontmatter("---\ntitle: [x\n---\n");
    assert_eq!(broken, (String::new(), None));
}

#[test]
fn page_heading_from_the_parts_of_a_document() {
    assert_eq!(PagesPlugin::heading_from_yaml(Err("bad".to_string())), (String::new(), None));
    assert_eq!(
        PagesPlugin::heading_from_yaml(Ok(vec![("title".to_string(), "T".to_string())])),
        ("T".to_string(), None)
    );
    assert_eq!(PagesPlugin::heading_from_blocks(None), (String::new(), None));
    assert_eq!(PagesPlugin::heading_from_blocks(Some(vec![])), (String::new(), None));
    assert_eq!(
        PagesPlugin::heading_from_blocks(Some(vec![Block::Other, Block::Yaml("title: T".to_string())])),
        (String::new(), None)
    );
    assert_eq!(
        PagesPlugin::heading_from_blocks(Some(vec![Block::Yaml("title: T".to_string())])),
        ("T".to_string(), None)
    );
}

#[test]
fn only_a_readable_markdown_file_gives_a_page() {
    let page = PagesPlugin::parse_page(&file("about.md", "---\ntitle: About\n---\n\nHello\n"));
    assert_eq!(
        page,
        Some(Page {
            title: "About".to_string(),
            description: None,
            slug: "about".to_string(),
            html: "<p>Hello</p>\n".to_string(),
        })
    );
    assert_eq!(PagesPlugin::parse_page(&file("notes.txt", "---\ntitle: N\n---\n")), None);
    let unreadable = SourceFile {
        full_path: "pages/x.md".to_string(),
        file_name: "x.md".to_string(),
        contents: Err("denied".to_string()),
    };
    assert_eq!(PagesPlugin::parse_page(&unreadable), None);
}

#[test]
fn pages_plugin_adds_the_pages_and_their_files() {
    let plugin = PagesPlugin::new(
        "{page_title}|{page_description}|{page_content}|{page_url}|{page_slug}|{host}|{website_name}|{website_logo_url}|{author_name}".to_string(),
        Ok(vec![
            file("about.md", "---\ntitle: About\ndescription: Who\n---\n\nHello\n"),
            file("skip.txt", "ignored"),
            file("plain.md", "Just text\n"),
        ]),
    );
    assert_eq!(plugin.name(), "pages");
    let mut site = site_with(&ALL_SETTINGS, two_posts());
    assert_eq!(plugin.run(&mut site), Ok(()));
    assert_eq!(
        site.pages,
        vec![
            Page {
                title: "About".to_string(),
                description: Some("Who".to_string()),
                slug: "about".to_string(),
                html: "<p>Hello</p>\n".to_string(),
            },
            Page {
                title: String::new(),
                description: None,
                slug: "plain".to_string(),
                html: "<p>Just text</p>\n".to_string(),
            },
        ]
    );
    assert_eq!(
        site.outputs,
        vec![
            OutputFile {
                path: "about/index.html".to_string(),
                contents: "About|Who|<p>Hello</p>\n|https://example.com/about/|about|https://example.com|Test Blog|https://example.com/logo.png|Test Author".to_string(),
            },
            OutputFile {
                path: "plain/index.html".to_string(),
                contents: "||<p>Just text</p>\n|https://example.com/plain/|plain|https://example.com|Test Blog|https://example.com/logo.png|Test Author".to_string(),
            },
        ]
    );
    assert_eq!(site.posts, two_posts());
}

#[test]
fn pages_plugin_names_the_setting_that_is_missing() {
    let plugin = PagesPlugin::new("t".to_string(), Ok(Vec::new()));
    fails_for_each_missing_setting(
        &plugin,
        &["HOST", "WEBSITE_NAME", "WEBSITE_LOGO_URL", "AUTHOR_NAME"],
    );
}

#[test]
fn pages_plugin_fails_when_the_directory_could_not_be_listed() {
    let plugin = PagesPlugin::new("t".to_string(), Err("pages: not found".to_string()));
    let mut site = site_with(&ALL_SETTINGS, Vec::new());
    assert_eq!(plugin.run(&mut site), Err(PluginError::Io("pages: not found".to_string())));
    assert!(site.pages.is_empty());
    assert!(site.outputs.is_empty());
    let mut unset = Site::new();
    assert_eq!(plugin.run(&mut unset), Err(PluginError::MissingSetting("HOST".to_string())));
}

#[test]
fn a_whole_build_runs_discovery_before_the_renderers() {
    let mut pipeline = PluginPipeline::new();
    pipeline.add_plugin(Box::new(PostsPlugin::new(Ok(vec![
        SourceFile {
            full_path: "posts/old.md".to_string(),
            file_name: "old.md".to_string(),
            contents: Ok("---\ntitle: Old News\ndate: 2023-01-01\n---\n\nOld\n".to_string()),
        },
        SourceFile {
            full_path: "posts/new.md".to_string(),
            file_name: "new.md".to_string(),
            contents: Ok("---\ntitle: New Things\ndate: 2024-01-01\n---\n\nNew\n".to_string()),
        },
    ]))));
    pipeline.add_plugin(Box::new(PostPlugin::new("{post_title}:{post_content}".to_string())));
    pipeline.add_plugin(Box::new(SitemapPlugin::new()));
    let mut site = site_with(&ALL_SETTINGS, Vec::new());
    assert_eq!(pipeline.run(&mut site), Ok(()));
    let paths: Vec<&str> = site.outputs.iter().map(|f| f.path.as_str()).collect();
    assert_eq!(paths, vec!["new-things/index.html", "old-news/index.html", "sitemap.xml"]);
    assert_eq!(site.outputs[0].contents, "New Things:<p>New</p>\n");
    assert!(site.outputs[2].contents.contains("<loc>https://example.com/new-things/</loc><changefreq>weekly</changefreq><priority>0.5</priority></url><url><loc>https://example.com/old-news/</loc>"));
}

#[test]
fn a_renderer_before_discovery_sees_no_posts() {
    let mut pipeline = PluginPipeline::new();
    pipeline.add_plugin(Box::new(PostPlugin::new("{post_title}".to_string())));
    pipeline.add_plugin(Box::new(PostsPlugin::new(Ok(vec![SourceFile {
        full_path: "posts/a.md".to_string(),
        file_name: "a.md".to_string(),
        contents: Ok("---\ntitle: A\ndate: 2023-01-01\n---\n".to_string()),
    }]))));
    let mut site = site_with(&ALL_SETTINGS, Vec::new());
    assert_eq!(pipeline.run(&mut site), Ok(()));
    assert!(site.outputs.is_empty());
    assert_eq!(site.posts.len(), 1);
}
