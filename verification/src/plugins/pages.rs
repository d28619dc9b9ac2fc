use vstd::prelude::*;
use vstd::string::*;
use crate::builder::feed::{or_empty, post_address, post_url, text_or_empty};
use crate::parser::{
    blocks_view,
    document_blocks,
    field,
    fields_view,
    leading_block,
    parse_blocks,
    parse_html,
    parse_yaml_fields,
    rendered_html,
    yaml_fields,
    Block,
    SourceFile,
};
use crate::plugin::{
    outputs_view,
    pages_view,
    OutputFile,
    OutputFileView,
    Page,
    PageView,
    Plugin,
    PluginError,
    PluginErrorView,
    Site,
    SiteView,
};
use crate::string_map::{pairs_map, StringMap};
use crate::text::{ends_with, has_suffix, replace, replaced, trim_end_matches, without_suffix};

verus! {

pub const PAGE_TITLE_PLACEHOLDER: &'static str = "{page_title}";

pub const PAGE_DESCRIPTION_PLACEHOLDER: &'static str = "{page_description}";

pub const PAGE_CONTENT_PLACEHOLDER: &'static str = "{page_content}";

pub const PAGE_URL_PLACEHOLDER: &'static str = "{page_url}";

pub const PAGE_SLUG_PLACEHOLDER: &'static str = "{page_slug}";

pub const HOST_PLACEHOLDER: &'static str = "{host}";

pub const WEBSITE_NAME_PLACEHOLDER: &'static str = "{website_name}";

pub const WEBSITE_LOGO_URL_PLACEHOLDER: &'static str = "{website_logo_url}";

pub const AUTHOR_NAME_PLACEHOLDER: &'static str = "{author_name}";

/// Finds the standalone pages of the site and writes each as `index.html`
/// in a directory named by the page's slug.
pub struct PagesPlugin {
    pub template: String,
    pub listing: Result<Vec<SourceFile>, String>,
}

/// The title and the description that the result of the YAML reader gives a
/// page: what stands under `title`, or nothing, and what stands under
/// `description`, if anything. A block that the reader refuses gives neither.
pub open spec fn yaml_heading(parsed: Result<Seq<(Seq<char>, Seq<char>)>, Seq<char>>) -> (
    Seq<char>,
    Option<Seq<char>>,
) {
    let fields = match parsed {
        Ok(pairs) => pairs_map(pairs),
        Err(_) => Map::empty(),
    };
    (or_empty(field(fields, "title"@)), field(fields, "description"@))
}

/// The title and the description of a page, from the first node of its
/// document: without a front matter block a page has neither.
pub open spec fn block_heading(block: Option<Seq<char>>) -> (Seq<char>, Option<Seq<char>>) {
    match block {
        Some(yaml) => yaml_heading(yaml_fields(yaml)),
        None => (Seq::empty(), None),
    }
}

/// The name of a page's directory: the file name without `.md` at its end.
pub open spec fn slug_of(filename: Seq<char>) -> Seq<char> {
    without_suffix(filename, ".md"@)
}

/// The page that a directory entry gives: none unless its name ends in
/// `.md` and its text could be read.
pub open spec fn page_of(file: SourceFile) -> Option<PageView> {
    if !has_suffix(file.file_name@, ".md"@) {
        None
    } else {
        match file.contents {
            Ok(text) => {
                let heading = block_heading(leading_block(document_blocks(text@)));
                Some(
                    PageView {
                        title: heading.0,
                        description: heading.1,
                        slug: slug_of(file.file_name@),
                        html: rendered_html(text@),
                    },
                )
            },
            Err(_) => None,
        }
    }
}

/// The pages of the files that give one, in the order of the files.
pub open spec fn pages_of(files: Seq<SourceFile>) -> Seq<PageView>
    decreases files.len(),
{
    if files.len() == 0 {
        Seq::empty()
    } else {
        match page_of(files.last()) {
            Some(page) => pages_of(files.drop_last()).push(page),
            None => pages_of(files.drop_last()),
        }
    }
}

/// The HTML of a page: the template with the page's values and the site's filled in.
pub open spec fn page_html(
    template: Seq<char>,
    host: Seq<char>,
    website_name: Seq<char>,
    website_logo_url: Seq<char>,
    author_name: Seq<char>,
    page: PageView,
) -> Seq<char> {
    let titled = replaced(template, PAGE_TITLE_PLACEHOLDER@, page.title);
    let described = replaced(titled, PAGE_DESCRIPTION_PLACEHOLDER@, or_empty(page.description));
    let filled = replaced(described, PAGE_CONTENT_PLACEHOLDER@, page.html);
    let linked = replaced(filled, PAGE_URL_PLACEHOLDER@, post_address(host, page.slug));
    let slugged = replaced(linked, PAGE_SLUG_PLACEHOLDER@, page.slug);
    let hosted = replaced(slugged, HOST_PLACEHOLDER@, host);
    let named = replaced(hosted, WEBSITE_NAME_PLACEHOLDER@, website_name);
    let pictured = replaced(named, WEBSITE_LOGO_URL_PLACEHOLDER@, website_logo_url);
    replaced(pictured, AUTHOR_NAME_PLACEHOLDER@, author_name)
}

/// The file of a page.
pub open spec fn page_output(
    template: Seq<char>,
    host: Seq<char>,
    website_name: Seq<char>,
    website_logo_url: Seq<char>,
    author_name: Seq<char>,
    page: PageView,
) -> OutputFileView {
    OutputFileView {
        path: page.slug + "/index.html"@,
        contents: page_html(template, host, website_name, website_logo_url, author_name, page),
    }
}

/// The files of the pages, in the order of the pages.
pub open spec fn page_outputs(
    template: Seq<char>,
    host: Seq<char>,
    website_name: Seq<char>,
    website_logo_url: Seq<char>,
    author_name: Seq<char>,
    pages: Seq<PageView>,
) -> Seq<OutputFileView> {
    pages.map_values(
        |page: PageView|
            page_output(template, host, website_name, website_logo_url, author_name, page),
    )
}

/// The setting that the stage lacks: the first that is missing, in the order
/// `HOST`, `WEBSITE_NAME`, `WEBSITE_LOGO_URL`, `AUTHOR_NAME`.
pub open spec fn missing_setting(site: SiteView) -> Option<Seq<char>> {
    if field(site.metadata, "HOST"@) is None {
        Some("HOST"@)
    } else if field(site.metadata, "WEBSITE_NAME"@) is None {
        Some("WEBSITE_NAME"@)
    } else if field(site.metadata, "WEBSITE_LOGO_URL"@) is None {
        Some("WEBSITE_LOGO_URL"@)
    } else if field(site.metadata, "AUTHOR_NAME"@) is None {
        Some("AUTHOR_NAME"@)
    } else {
        None
    }
}

impl PagesPlugin {
    /// The stage for a page template and a pages directory as it was read:
    /// its files, or the reason why it could not be listed.
    pub fn new(template: String, listing: Result<Vec<SourceFile>, String>) -> (plugin: PagesPlugin)
        ensures
            plugin.template == template,
            plugin.listing == listing,
    {
        PagesPlugin { template, listing }
    }

    /// Reads title and description out of what the YAML reader returned.
    pub fn heading_from_yaml(parsed: Result<Vec<(String, String)>, String>) -> (heading: (
        String,
        Option<String>,
    ))
        ensures
            (heading.0@, crate::parser::text_of(heading.1)) == yaml_heading(fields_view(parsed)),
    {
        let fields = match parsed {
            Ok(entries) => StringMap::from_entries(entries),
            Err(_) => StringMap::new(),
        };
        let title = match fields.get("title") {
            Some(v) => v.clone(),
            None => String::new(),
        };
        let description = match fields.get("description") {
            Some(v) => Some(v.clone()),
            None => None,
        };
        (title, description)
    }

    /// Reads title and description out of the top-level nodes of a document.
    pub fn heading_from_blocks(blocks: Option<Vec<Block>>) -> (heading: (String, Option<String>))
        ensures
            (heading.0@, crate::parser::text_of(heading.1)) == block_heading(
                leading_block(blocks_view(blocks)),
            ),
    {
        if let Some(nodes) = blocks {
            if nodes.len() > 0 {
                if let Block::Yaml(text) = &nodes[0] {
                    return PagesPlugin::heading_from_yaml(parse_yaml_fields(text.as_str()));
                }
            }
        }
        (String::new(), None)
    }

    pub fn parse_frontmatter(markdown_content: &str) -> (heading: (String, Option<String>))
        ensures
            (heading.0@, crate::parser::text_of(heading.1)) == block_heading(
                leading_block(document_blocks(markdown_content@)),
            ),
    {
        PagesPlugin::heading_from_blocks(parse_blocks(markdown_content))
    }

    pub fn get_slug_from_filename(filename: &str) -> (slug: String)
        ensures
            slug@ == slug_of(filename@),
    {
        trim_end_matches(filename, ".md")
    }

    pub fn parse_page(entry: &SourceFile) -> (page: Option<Page>)
        ensures
            crate::plugin::page_option_view(page) == page_of(*entry),
    {
        if !ends_with(entry.file_name.as_str(), ".md") {
            return None;
        }
        let content = match &entry.contents {
            Ok(text) => text,
            Err(_) => {
                return None;
            },
        };
        let (title, description) = PagesPlugin::parse_frontmatter(content.as_str());
        let html = parse_html(content.as_str());
        let slug = PagesPlugin::get_slug_from_filename(entry.file_name.as_str());
        Some(Page { title, description, slug, html })
    }

    /// Writes the file of one page.
    pub fn render(
        &self,
        host: &str,
        website_name: &str,
        website_logo_url: &str,
        author_name: &str,
        page: &Page,
    ) -> (file: OutputFile)
        ensures
            file@ == page_output(
                self.template@,
                host@,
                website_name@,
                website_logo_url@,
                author_name@,
                page@,
            ),
    {
        let page_url = post_url(host, page.slug.as_str());
        let titled = replace(self.template.as_str(), PAGE_TITLE_PLACEHOLDER, page.title.as_str());
        let described = replace(
            titled.as_str(),
            PAGE_DESCRIPTION_PLACEHOLDER,
            text_or_empty(&page.description),
        );
        let filled = replace(described.as_str(), PAGE_CONTENT_PLACEHOLDER, page.html.as_str());
        let linked = replace(filled.as_str(), PAGE_URL_PLACEHOLDER, page_url.as_str());
        let slugged = replace(linked.as_str(), PAGE_SLUG_PLACEHOLDER, page.slug.as_str());
        let hosted = replace(slugged.as_str(), HOST_PLACEHOLDER, host);
        let named = replace(hosted.as_str(), WEBSITE_NAME_PLACEHOLDER, website_name);
        let pictured = replace(named.as_str(), WEBSITE_LOGO_URL_PLACEHOLDER, website_logo_url);
        let contents = replace(pictured.as_str(), AUTHOR_NAME_PLACEHOLDER, author_name);
        OutputFile { path: page.slug.clone().concat("/index.html"), contents }
    }
}

impl Plugin for PagesPlugin {
    /// With its settings and a directory that was listed, the site gains the
    /// pages of the directory and the file of each, in the order of the
    /// files. Without a setting the stage fails for that setting, with a
    /// directory that could not be listed it fails for that reason, and
    /// either way the site stays as it is.
    open spec fn effect(
        &self,
        before: SiteView,
        after: SiteView,
        failure: Option<PluginErrorView>,
    ) -> bool {
        match missing_setting(before) {
            Some(name) => failure == Some(PluginErrorView::MissingSetting(name)) && after
                == before,
            None => match self.listing {
                Ok(files) => failure is None && after == (SiteView {
                    pages: before.pages + pages_of(files@),
                    outputs: before.outputs + page_outputs(
                        self.template@,
                        before.metadata["HOST"@],
                        before.metadata["WEBSITE_NAME"@],
                        before.metadata["WEBSITE_LOGO_URL"@],
                        before.metadata["AUTHOR_NAME"@],
                        pages_of(files@),
                    ),
                    ..before
                }),
                Err(detail) => failure == Some(PluginErrorView::Io(detail@)) && after == before,
            },
        }
    }

    open spec fn named(&self, name: Seq<char>) -> bool {
        name == "pages"@
    }

    fn name(&self) -> (name: &str) {
        "pages"
    }

    fn run(&self, site: &mut Site) -> (result: Result<(), PluginError>) {
        let host = match site.setting("HOST") {
            Ok(v) => v,
            Err(e) => {
                return Err(e);
            },
        };
        let website_name = match site.setting("WEBSITE_NAME") {
            Ok(v) => v,
            Err(e) => {
                return Err(e);
            },
        };
        let website_logo_url = match site.setting("WEBSITE_LOGO_URL") {
            Ok(v) => v,
            Err(e) => {
                return Err(e);
            },
        };
        let author_name = match site.setting("AUTHOR_NAME") {
            Ok(v) => v,
            Err(e) => {
                return Err(e);
            },
        };
        let files = match &self.listing {
            Ok(files) => files,
            Err(detail) => {
                return Err(PluginError::Io(detail.clone()));
            },
        };
        let ghost before = site@;
        let mut i: usize = 0;
        assert(before.pages + pages_of(files@.take(0)) =~= before.pages);
        assert(before.outputs + page_outputs(
            self.template@,
            host@,
            website_name@,
            website_logo_url@,
            author_name@,
            pages_of(files@.take(0)),
        ) =~= before.outputs);
        while i < files.len()
            invariant
                i <= files@.len(),
                site@ == (SiteView {
                    pages: before.pages + pages_of(files@.take(i as int)),
                    outputs: before.outputs + page_outputs(
                        self.template@,
                        host@,
                        website_name@,
                        website_logo_url@,
                        author_name@,
                        pages_of(files@.take(i as int)),
                    ),
                    ..before
                }),
            decreases files@.len() - i,
        {
            proof {
                assert(files@.take(i + 1).drop_last() =~= files@.take(i as int));
                assert(files@.take(i + 1).last() == files@[i as int]);
            }
            if let Some(page) = PagesPlugin::parse_page(&files[i]) {
                let file = self.render(
                    host.as_str(),
                    website_name.as_str(),
                    website_logo_url.as_str(),
                    author_name.as_str(),
                    &page,
                );
                let ghost outputs = outputs_view(site.outputs@);
                let ghost pages = pages_view(site.pages@);
                let ghost found = pages_of(files@.take(i as int));
                site.outputs.push(file);
                site.pages.push(page);
                proof {
                    assert(outputs_view(site.outputs@) =~= outputs.push(file@));
                    assert(pages_view(site.pages@) =~= pages.push(page@));
                    assert(pages_view(site.pages@) =~= before.pages + found.push(page@));
                    assert(outputs_view(site.outputs@) =~= before.outputs + page_outputs(
                        self.template@,
                        host@,
                        website_name@,
                        website_logo_url@,
                        author_name@,
                        found.push(page@),
                    ));
                }
            }
            i = i + 1;
        }
        assert(files@.take(files@.len() as int) =~= files@);
        Ok(())
    }
}

} // verus!
