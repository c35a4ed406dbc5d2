//! Templates: wrapping rendered fragments into full HTML documents.
//!
//! The substitution engine is an outside crate; the library names what
//! it produces and proves everything around the calls. A registry keeps
//! the source text of the two templates a site uses, `index` and
//! `page`, and re-renders through the engine on demand.

use vstd::prelude::*;

use crate::config::Config;
use crate::paths::{has_extension, spec_ext, SitePath};
use crate::render::DocRead;
use crate::tree::OutputTree;

verus! {

/// The output map after copying the template's static assets: every
/// file under `tpl_dir`, except the template sources themselves (the
/// `hbs` files), lands under `to` at its path relative to `tpl_dir`,
/// later files overwriting earlier ones.
pub open spec fn spec_copied_assets(
    m0: Map<Seq<Seq<char>>, Seq<char>>,
    tpl_dir: Seq<Seq<char>>,
    to: Seq<Seq<char>>,
    files: Seq<(SitePath, String)>,
) -> Map<Seq<Seq<char>>, Seq<char>>
    decreases files.len(),
{
    if files.len() == 0 {
        m0
    } else {
        let m1 = spec_copied_assets(m0, tpl_dir, to, files.drop_last());
        let p = files.last().0;
        let c = files.last().1;
        if tpl_dir.is_prefix_of(p@) && p@.len() > tpl_dir.len() && spec_ext(p@.last()) != Some(
            "hbs"@,
        ) {
            m1.insert(to + p@.skip(tpl_dir.len() as int), c@)
        } else {
            m1
        }
    }
}

/// Whether the template engine accepts a template source text.
pub uninterp spec fn hbs_template_valid(tpl: Seq<char>) -> bool;

/// The document the template engine renders from a template source and
/// one named value, or nothing when rendering fails. Rendering is a
/// pure function of the template and the value.
pub uninterp spec fn hbs_render(tpl: Seq<char>, key: Seq<char>, value: Seq<char>) -> Option<
    Seq<char>,
>;

/// Relies on handlebars' `Template::compile`: whether a template source
/// parses is a pure function of the source text.
#[verifier::external_body]
fn hbs_template_check(tpl: &str) -> (r: bool)
    ensures
        r == hbs_template_valid(tpl@),
{
    handlebars::Template::compile(tpl).is_ok()
}

/// Relies on handlebars' `Handlebars::{new, register_template_string,
/// render}`: rendering a registered template against one named value is
/// a pure function of the template source, the name and the value, and
/// registration fails exactly when the template does not parse.
#[verifier::external_body]
fn hbs_render_once(tpl: &str, key: &str, value: &str) -> (r: Option<String>)
    ensures
        r matches Some(s) ==> hbs_render(tpl@, key@, value@) == Some(s@),
        r is None ==> hbs_render(tpl@, key@, value@) is None,
        !hbs_template_valid(tpl@) ==> r is None,
{
    let mut registry = handlebars::Handlebars::new();
    if registry.register_template_string("t", tpl).is_err() {
        return None;
    }
    let mut data = std::collections::BTreeMap::new();
    data.insert(key, value);
    registry.render("t", &data).ok()
}

/// Index template data
pub struct IndexTemplateData {
    /// Page HTML content
    pub content: String,
}

/// Page template data
pub struct PageTemplateData {
    /// Page HTML content
    pub content: String,
}

/// Why a template operation failed.
#[derive(Debug)]
pub enum TemplateError {
    /// A template source file could not be read.
    Missing,
    /// A template source does not parse.
    Invalid,
    /// The engine could not render the template.
    RenderFailed,
}

/// Templates registry for a single template
///
/// The template registry contains 2 templates:
/// - "index"
/// - "page"
pub struct TemplatesRegistry {
    /// Template directory inside the config folder
    config_template_dir: SitePath,
    /// Source text of the `index` template.
    index_template: String,
    /// Source text of the `page` template.
    page_template: String,
}

impl TemplatesRegistry {
    /// The directory the registry's templates were read from.
    pub closed spec fn spec_template_dir(&self) -> Seq<Seq<char>> {
        self.config_template_dir@
    }

    /// The source text of the `index` template.
    pub closed spec fn spec_index_template(&self) -> Seq<char> {
        self.index_template@
    }

    /// The source text of the `page` template.
    pub closed spec fn spec_page_template(&self) -> Seq<char> {
        self.page_template@
    }

    /// Initializes the template registry from the text of the two
    /// template files read from the configured template directory.
    /// Fails when either file could not be read or does not parse.
    pub fn init(config: &Config, index_src: &DocRead, page_src: &DocRead) -> (r: Result<
        TemplatesRegistry,
        TemplateError,
    >)
        ensures
            r matches Ok(reg) ==> {
                &&& index_src matches DocRead::Text(t) && reg.spec_index_template() == t@
                &&& page_src matches DocRead::Text(t) && reg.spec_page_template() == t@
                &&& hbs_template_valid(reg.spec_index_template())
                &&& hbs_template_valid(reg.spec_page_template())
                &&& reg.spec_template_dir() == config.spec_template_dir()
            },
            index_src is Unreadable || page_src is Unreadable ==> r == Err::<
                TemplatesRegistry,
                TemplateError,
            >(TemplateError::Missing),
            (index_src matches DocRead::Text(it) && page_src matches DocRead::Text(pt) && !(
            hbs_template_valid(it@) && hbs_template_valid(pt@))) ==> r == Err::<
                TemplatesRegistry,
                TemplateError,
            >(TemplateError::Invalid),
            (index_src matches DocRead::Text(it) && page_src matches DocRead::Text(pt)
                && hbs_template_valid(it@) && hbs_template_valid(pt@)) ==> r is Ok,
    {
        let index_text = match index_src {
            DocRead::Text(t) => t,
            DocRead::Unreadable => {
                return Err(TemplateError::Missing);
            },
        };
        let page_text = match page_src {
            DocRead::Text(t) => t,
            DocRead::Unreadable => {
                return Err(TemplateError::Missing);
            },
        };
        if !hbs_template_check(index_text.as_str()) {
            return Err(TemplateError::Invalid);
        }
        if !hbs_template_check(page_text.as_str()) {
            return Err(TemplateError::Invalid);
        }
        Ok(
            TemplatesRegistry {
                config_template_dir: config.template_dir(),
                index_template: index_text.clone(),
                page_template: page_text.clone(),
            },
        )
    }

    /// Reloads the registry templates from freshly read template file
    /// text. On any failure the registry keeps the templates it had.
    pub fn reload_templates(&mut self, index_src: &DocRead, page_src: &DocRead) -> (r: Result<
        (),
        TemplateError,
    >)
        ensures
            r is Ok ==> {
                &&& index_src matches DocRead::Text(t) && final(self).spec_index_template() == t@
                &&& page_src matches DocRead::Text(t) && final(self).spec_page_template() == t@
                &&& hbs_template_valid(final(self).spec_index_template())
                &&& hbs_template_valid(final(self).spec_page_template())
                &&& final(self).spec_template_dir() == old(self).spec_template_dir()
            },
            r is Err ==> *final(self) == *old(self),
            index_src is Unreadable || page_src is Unreadable ==> r == Err::<(), TemplateError>(
                TemplateError::Missing,
            ),
            (index_src matches DocRead::Text(it) && page_src matches DocRead::Text(pt) && !(
            hbs_template_valid(it@) && hbs_template_valid(pt@))) ==> r == Err::<(), TemplateError>(
                TemplateError::Invalid,
            ),
            (index_src matches DocRead::Text(it) && page_src matches DocRead::Text(pt)
                && hbs_template_valid(it@) && hbs_template_valid(pt@)) ==> r is Ok,
    {
        let index_text = match index_src {
            DocRead::Text(t) => t,
            DocRead::Unreadable => {
                return Err(TemplateError::Missing);
            },
        };
        let page_text = match page_src {
            DocRead::Text(t) => t,
            DocRead::Unreadable => {
                return Err(TemplateError::Missing);
            },
        };
        if !hbs_template_check(index_text.as_str()) {
            return Err(TemplateError::Invalid);
        }
        if !hbs_template_check(page_text.as_str()) {
            return Err(TemplateError::Invalid);
        }
        self.index_template = index_text.clone();
        self.page_template = page_text.clone();
        Ok(())
    }

    /// Renders the template for the index
    pub fn render_index(&self, data: &IndexTemplateData) -> (r: Result<String, TemplateError>)
        ensures
            hbs_render(self.spec_index_template(), "content"@, data.content@) matches Some(s)
                ==> (r matches Ok(out) && out@ == s),
            hbs_render(self.spec_index_template(), "content"@, data.content@) is None ==> r
                == Err::<String, TemplateError>(TemplateError::RenderFailed),
    {
        match hbs_render_once(self.index_template.as_str(), "content", data.content.as_str()) {
            Some(s) => Ok(s),
            None => Err(TemplateError::RenderFailed),
        }
    }

    /// Renders the template for the page
    pub fn render_page(&self, data: &PageTemplateData) -> (r: Result<String, TemplateError>)
        ensures
            hbs_render(self.spec_page_template(), "content"@, data.content@) matches Some(s) ==> (
            r matches Ok(out) && out@ == s),
            hbs_render(self.spec_page_template(), "content"@, data.content@) is None ==> r
                == Err::<String, TemplateError>(TemplateError::RenderFailed),
    {
        match hbs_render_once(self.page_template.as_str(), "content", data.content.as_str()) {
            Some(s) => Ok(s),
            None => Err(TemplateError::RenderFailed),
        }
    }
}

impl TemplatesRegistry {
    /// Copies the template static assets to the target directory
    ///
    /// # Notes
    ///
    /// .hbs files are excluded
    pub fn copy_static_assets(
        &self,
        tree: &mut OutputTree,
        files: &Vec<(SitePath, String)>,
        to: &SitePath,
    )
        ensures
            final(tree)@ == spec_copied_assets(
                old(tree)@,
                self.spec_template_dir(),
                to@,
                files@,
            ),
    {
        let n = files.len();
        for i in 0..n
            invariant
                n == files@.len(),
                tree@ == spec_copied_assets(
                    old(tree)@,
                    self.spec_template_dir(),
                    to@,
                    files@.take(i as int),
                ),
        {
            proof {
                assert(files@.take(i + 1).drop_last() =~= files@.take(i as int));
                assert(files@.take(i + 1).last() == files@[i as int]);
            }
            let entry = &files[i];
            match entry.0.strip_prefix(&self.config_template_dir) {
                None => {},
                Some(rel) => {
                    if rel.segments.len() > 0 {
                        let last_idx = rel.segments.len() - 1;
                        proof {
                            let k = self.config_template_dir@.len() as int;
                            assert(rel@ == entry.0@.skip(k));
                            assert(rel@.len() == rel.segments@.len());
                            assert(rel@[last_idx as int] == entry.0@[k + last_idx]);
                            assert(rel@[last_idx as int] == entry.0@.last());
                        }
                        if !has_extension(rel.segments[last_idx].as_str(), "hbs") {
                            tree.write(to.join(&rel), entry.1.clone());
                        }
                    }
                },
            }
        }
        proof {
            assert(files@.take(n as int) =~= files@);
        }
    }
}

/// Returns the files for all templates
///
/// # Returns
///
/// Each entry pairs a template's name with the files installed for it:
/// file path under the template's folder, and file content.
pub fn get_templates_files() -> (r: Vec<(String, Vec<(String, String)>)>)
    ensures
        r@.len() == 1,
        r@[0].0@ == "blog"@,
        r@[0].1@.len() == 3,
        r@[0].1@[0].0@ == "index.hbs"@,
        r@[0].1@[0].1@ == "<html><head><link rel=stylesheet href=/style.css></head><body>{{{content}}}</body></html>"@,
        r@[0].1@[1].0@ == "page.hbs"@,
        r@[0].1@[1].1@ == "<html><head><link rel=stylesheet href=/style.css></head><body>{{{content}}}</body></html>"@,
        r@[0].1@[2].0@ == "style.css"@,
        r@[0].1@[2].1@ == "body { font-family: sans-serif; }"@,
{
    let mut files: Vec<(String, String)> = Vec::new();
    files.push(
        (
            "index.hbs".to_owned(),
            "<html><head><link rel=stylesheet href=/style.css></head><body>{{{content}}}</body></html>".to_owned(),
        ),
    );
    files.push(
        (
            "page.hbs".to_owned(),
            "<html><head><link rel=stylesheet href=/style.css></head><body>{{{content}}}</body></html>".to_owned(),
        ),
    );
    files.push(("style.css".to_owned(), "body { font-family: sans-serif; }".to_owned()));
    let mut r: Vec<(String, Vec<(String, String)>)> = Vec::new();
    r.push(("blog".to_owned(), files));
    r
}

} // verus!
