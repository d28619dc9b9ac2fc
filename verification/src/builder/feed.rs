use vstd::prelude::*;
use vstd::string::*;
use crate::parser::{field, posts_view, Post, PostView};
use crate::plugin::{setting, OutputFile, OutputFileView, PluginError, PluginErrorView};
use crate::string_map::StringMap;
use crate::text::{replace, replaced};

verus! {

pub const WEBSITE_NAME_PLACEHOLDER: &'static str = "{website_name}";

pub const LAST_UPDATED_FEED_TIME_PLACEHOLDER: &'static str = "{last_updated_feed_time}";

pub const AUTHOR_NAME_PLACEHOLDER: &'static str = "{author_name}";

pub const HOST_PLACEHOLDER: &'static str = "{host}";

pub const ENTRIES_PLACEHOLDER: &'static str = "{entries}";

pub const TITLE_PLACEHOLDER: &'static str = "{title_placeholder}";

pub const LINK_PLACEHOLDER: &'static str = "{link_placeholder}";

pub const ID_PLACEHOLDER: &'static str = "{id_placeholder}";

pub const UPDATED_PLACEHOLDER: &'static str = "{updated_placeholder}";

pub const SUMMARY_PLACEHOLDER: &'static str = "{summary_placeholder}";

/// The time at which a post counts as updated: midnight, UTC, of its date.
pub open spec fn last_updated_time(date: Seq<char>) -> Seq<char> {
    date + "T00:00:00.000Z"@
}

pub fn get_last_updated_time(date: &String) -> (updated: String)
    ensures
        updated@ == last_updated_time(date@),
{
    date.clone().concat("T00:00:00.000Z")
}

/// The address of a post: the host, then the permalink between slashes.
pub open spec fn post_address(host: Seq<char>, permalink: Seq<char>) -> Seq<char> {
    host + "/"@ + permalink + "/"@
}

pub fn post_url(host: &str, permalink: &str) -> (url: String)
    ensures
        url@ == post_address(host@, permalink@),
{
    host.to_owned().concat("/").concat(permalink).concat("/")
}

/// The text of an optional value: empty where there is none.
pub open spec fn or_empty(value: Option<Seq<char>>) -> Seq<char> {
    match value {
        Some(text) => text,
        None => Seq::empty(),
    }
}

pub fn text_or_empty(value: &Option<String>) -> (text: &str)
    ensures
        text@ == or_empty(crate::parser::text_of(*value)),
{
    match value {
        Some(s) => s.as_str(),
        None => {
            let empty = "";
            proof {
                reveal_strlit("");
                assert(empty@ =~= Seq::<char>::empty());
            }
            empty
        },
    }
}

/// The feed template with the site's own values filled in; the entries are
/// still to come.
pub open spec fn feed_template(
    template: Seq<char>,
    website_name: Seq<char>,
    host: Seq<char>,
    last_updated: Seq<char>,
    author_name: Seq<char>,
) -> Seq<char> {
    replaced(
        replaced(
            replaced(
                replaced(template, WEBSITE_NAME_PLACEHOLDER@, website_name),
                HOST_PLACEHOLDER@,
                host,
            ),
            LAST_UPDATED_FEED_TIME_PLACEHOLDER@,
            last_updated,
        ),
        AUTHOR_NAME_PLACEHOLDER@,
        author_name,
    )
}

/// What filling in the feed template gives for these settings: the setting
/// that is missing, `HOST` before `WEBSITE_NAME` before `AUTHOR_NAME`, or the text.
pub open spec fn feed_template_outcome(
    template: Seq<char>,
    settings: Map<Seq<char>, Seq<char>>,
    last_updated: Seq<char>,
) -> Result<Seq<char>, PluginErrorView> {
    if field(settings, "HOST"@) is None {
        Err(PluginErrorView::MissingSetting("HOST"@))
    } else if field(settings, "WEBSITE_NAME"@) is None {
        Err(PluginErrorView::MissingSetting("WEBSITE_NAME"@))
    } else if field(settings, "AUTHOR_NAME"@) is None {
        Err(PluginErrorView::MissingSetting("AUTHOR_NAME"@))
    } else {
        Ok(
            feed_template(
                template,
                settings["WEBSITE_NAME"@],
                settings["HOST"@],
                last_updated,
                settings["AUTHOR_NAME"@],
            ),
        )
    }
}

/// A rendered text or an error, by its view.
pub open spec fn text_result_view(result: Result<String, PluginError>) -> Result<
    Seq<char>,
    PluginErrorView,
> {
    match result {
        Ok(text) => Ok(text@),
        Err(e) => Err(e@),
    }
}

/// A rendered file or an error, by its view.
pub open spec fn file_result_view(result: Result<OutputFile, PluginError>) -> Result<
    OutputFileView,
    PluginErrorView,
> {
    match result {
        Ok(file) => Ok(file@),
        Err(e) => Err(e@),
    }
}

pub fn get_feed_template(template: &str, settings: &StringMap, last_updated: &str) -> (result:
    Result<String, PluginError>)
    ensures
        text_result_view(result) == feed_template_outcome(template@, settings@, last_updated@),
{
    let host = match setting(settings, "HOST") {
        Ok(v) => v,
        Err(e) => {
            return Err(e);
        },
    };
    let website_name = match setting(settings, "WEBSITE_NAME") {
        Ok(v) => v,
        Err(e) => {
            return Err(e);
        },
    };
    let author_name = match setting(settings, "AUTHOR_NAME") {
        Ok(v) => v,
        Err(e) => {
            return Err(e);
        },
    };
    let named = replace(template, WEBSITE_NAME_PLACEHOLDER, website_name.as_str());
    let hosted = replace(named.as_str(), HOST_PLACEHOLDER, host.as_str());
    let timed = replace(hosted.as_str(), LAST_UPDATED_FEED_TIME_PLACEHOLDER, last_updated);
    Ok(replace(timed.as_str(), AUTHOR_NAME_PLACEHOLDER, author_name.as_str()))
}

/// The entry of one post: the entry template with the post's values filled in.
pub open spec fn feed_entry(item_template: Seq<char>, host: Seq<char>, post: PostView) -> Seq<char> {
    replaced(
        replaced(
            replaced(
                replaced(
                    replaced(item_template, TITLE_PLACEHOLDER@, post.frontmatter.title),
                    LINK_PLACEHOLDER@,
                    post_address(host, post.permalink),
                ),
                ID_PLACEHOLDER@,
                post_address(host, post.permalink),
            ),
            UPDATED_PLACEHOLDER@,
            last_updated_time(post.frontmatter.date),
        ),
        SUMMARY_PLACEHOLDER@,
        or_empty(post.frontmatter.description),
    )
}

/// The entries of the posts, one after the other.
pub open spec fn feed_entries(item_template: Seq<char>, host: Seq<char>, posts: Seq<PostView>) -> Seq<
    char,
>
    decreases posts.len(),
{
    if posts.len() == 0 {
        Seq::empty()
    } else {
        feed_entries(item_template, host, posts.drop_last()) + feed_entry(
            item_template,
            host,
            posts.last(),
        )
    }
}

/// The entries for these settings: they need a `HOST`.
pub open spec fn feed_entries_outcome(
    item_template: Seq<char>,
    settings: Map<Seq<char>, Seq<char>>,
    posts: Seq<PostView>,
) -> Result<Seq<char>, PluginErrorView> {
    match field(settings, "HOST"@) {
        Some(host) => Ok(feed_entries(item_template, host, posts)),
        None => Err(PluginErrorView::MissingSetting("HOST"@)),
    }
}

pub fn get_feed_entries_contents(posts: &Vec<Post>, item_template: &str, settings: &StringMap) -> (result:
    Result<String, PluginError>)
    ensures
        text_result_view(result) == feed_entries_outcome(
            item_template@,
            settings@,
            posts_view(posts@),
        ),
{
    let host = match setting(settings, "HOST") {
        Ok(v) => v,
        Err(e) => {
            return Err(e);
        },
    };
    let ghost views = posts_view(posts@);
    let mut markup = String::new();
    let mut i: usize = 0;
    while i < posts.len()
        invariant
            i <= posts@.len(),
            views == posts_view(posts@),
            markup@ == feed_entries(item_template@, host@, views.take(i as int)),
        decreases posts@.len() - i,
    {
        proof {
            assert(views.take(i + 1).drop_last() =~= views.take(i as int));
            assert(views.take(i + 1).last() == posts@[i as int]@);
        }
        let post = &posts[i];
        let post_link = post_url(host.as_str(), post.permalink.as_str());
        let post_id = post_url(host.as_str(), post.permalink.as_str());
        let post_updated = get_last_updated_time(&post.frontmatter.date);
        let post_description = text_or_empty(&post.frontmatter.description);
        let titled = replace(item_template, TITLE_PLACEHOLDER, post.frontmatter.title.as_str());
        let linked = replace(titled.as_str(), LINK_PLACEHOLDER, post_link.as_str());
        let identified = replace(linked.as_str(), ID_PLACEHOLDER, post_id.as_str());
        let dated = replace(identified.as_str(), UPDATED_PLACEHOLDER, post_updated.as_str());
        let item_markup = replace(dated.as_str(), SUMMARY_PLACEHOLDER, post_description);
        markup.append(item_markup.as_str());
        i = i + 1;
    }
    assert(views.take(posts@.len() as int) =~= views);
    Ok(markup)
}

/// The feed at a given time: the template filled in, the entries in the
/// place that the template keeps for them, as `feed.xml` in the build directory.
pub open spec fn feed_outcome(
    posts: Seq<PostView>,
    template: Seq<char>,
    item_template: Seq<char>,
    settings: Map<Seq<char>, Seq<char>>,
    last_updated: Seq<char>,
    build_path: Seq<char>,
) -> Result<OutputFileView, PluginErrorView> {
    match feed_template_outcome(template, settings, last_updated) {
        Ok(filled) => match feed_entries_outcome(item_template, settings, posts) {
            Ok(entries) => Ok(
                OutputFileView {
                    path: build_path + "/feed.xml"@,
                    contents: replaced(filled, ENTRIES_PLACEHOLDER@, entries),
                },
            ),
            Err(e) => Err(e),
        },
        Err(e) => Err(e),
    }
}

/// Builds the feed as of the time `last_updated`.
pub fn create_feed_at(
    posts: &Vec<Post>,
    template: &str,
    item_template: &str,
    settings: &StringMap,
    last_updated: &str,
    build_path: &str,
) -> (result: Result<OutputFile, PluginError>)
    ensures
        file_result_view(result) == feed_outcome(
            posts_view(posts@),
            template@,
            item_template@,
            settings@,
            last_updated@,
            build_path@,
        ),
{
    let filled = match get_feed_template(template, settings, last_updated) {
        Ok(v) => v,
        Err(e) => {
            return Err(e);
        },
    };
    let entries = match get_feed_entries_contents(posts, item_template, settings) {
        Ok(v) => v,
        Err(e) => {
            return Err(e);
        },
    };
    let feed_markup = replace(filled.as_str(), ENTRIES_PLACEHOLDER, entries.as_str());
    let path = build_path.to_owned().concat("/feed.xml");
    Ok(OutputFile { path, contents: feed_markup })
}

/// Reads the clock: `SystemTime::now`, written by chrono's
/// `DateTime::<Utc>::to_rfc3339`. Nothing is claimed of the text.
#[verifier::external_body]
fn current_time() -> String {
    let now: chrono::DateTime<chrono::Utc> = std::time::SystemTime::now().into();
    now.to_rfc3339()
}

/// Builds the feed as of now: for some time, the feed as of that time.
pub fn create_feed(
    posts: &Vec<Post>,
    template: &str,
    item_template: &str,
    settings: &StringMap,
    build_path: &str,
) -> (result: Result<OutputFile, PluginError>)
    ensures
        exists|last_updated: Seq<char>|
            file_result_view(result) == #[trigger] feed_outcome(
                posts_view(posts@),
                template@,
                item_template@,
                settings@,
                last_updated,
                build_path@,
            ),
{
    let now = current_time();
    create_feed_at(posts, template, item_template, settings, now.as_str(), build_path)
}

} // verus!
