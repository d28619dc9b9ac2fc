use vstd::prelude::*;
use vstd::string::*;
use crate::plugin::{OutputFile, OutputFileView};
use crate::text::{replace, replaced};

verus! {

pub const POSTS_DIR: &'static str = "posts";

pub const DATE_PLACEHOLDER: &'static str = "{date}";

pub const POST_TEMPLATE: &'static str =
    "---\ntitle: \"New post title\"\ndescription: The description\nkeywords: keyword\n# permalink: if-needed\ndate: {date}\n# publish: draft\n---\n\n<section>\n\n## First subtitle\n\nParagraph contents\n\n</section>\n";

/// The file that starts a new post on the day `date`: named by the date, in
/// the posts directory, holding the post template with the date filled in.
pub open spec fn new_post(date: Seq<char>) -> OutputFileView {
    OutputFileView {
        path: POSTS_DIR@ + "/"@ + date + "-post-title.md"@,
        contents: replaced(POST_TEMPLATE@, DATE_PLACEHOLDER@, date),
    }
}

/// The file that starts a new post on the given day.
pub fn create_post_on(date: &str) -> (file: OutputFile)
    ensures
        file@ == new_post(date@),
{
    let path = POSTS_DIR.to_owned().concat("/").concat(date).concat("-post-title.md");
    let contents = replace(POST_TEMPLATE, DATE_PLACEHOLDER, date);
    OutputFile { path, contents }
}

/// Reads the clock: chrono's `Local::now`, written as year, month and day
/// by `DateTime::format`. Nothing is claimed of the text.
#[verifier::external_body]
fn today() -> String {
    chrono::Local::now().format("%Y-%m-%d").to_string()
}

/// The file that starts a new post today: for some day, the file of that day.
pub fn create_post() -> (file: OutputFile)
    ensures
        exists|date: Seq<char>| file@ == #[trigger] new_post(date),
{
    let date = today();
    create_post_on(date.as_str())
}

} // verus!
