//! Configuration of a site repository.
//!
//! A repository has a working directory with a `src` tree of documents,
//! a `build` tree of generated files, and a `.docrs` folder holding the
//! configuration and the installed templates. Loading and storing the
//! configuration file itself is left to the program around the library;
//! here the configuration is plain data, and every directory the
//! pipeline uses is a pure function of it.

use vstd::prelude::*;

use crate::paths::SitePath;

verus! {

/// Which template the site is rendered with.
pub struct TemplateOptions {
    /// Template name
    pub name: String,
}

impl Default for TemplateOptions {
    /// The default template is `blog`.
    fn default() -> (r: Self)
        ensures
            r.name@ == "blog"@,
    {
        TemplateOptions { name: "blog".to_owned() }
    }
}

/// One page of the site's index.
pub struct PageConfig {
    /// Page name
    pub title: String,
    /// Page path
    pub path: String,
    /// Page subpages
    pub pages: Option<Vec<PageConfig>>,
}

/// Configuration of one site repository.
pub struct Config {
    /// The working directory every other directory is resolved under.
    pub workdir: SitePath,
    /// Template options
    pub template: TemplateOptions,
    /// Index configuration
    pub index: Vec<PageConfig>,
}

impl Default for Config {
    /// The default configuration: the `blog` template and one `Hello
    /// World` page, resolved under an empty working directory.
    fn default() -> (r: Self)
        ensures
            r.workdir@ == Seq::<Seq<char>>::empty(),
            r.template.name@ == "blog"@,
            r.index@.len() == 1,
            r.index@[0].title@ == "Hello World"@,
            r.index@[0].path@ == "./hello.md"@,
            r.index@[0].pages is None,
    {
        let mut index: Vec<PageConfig> = Vec::new();
        index.push(
            PageConfig {
                title: "Hello World".to_owned(),
                path: "./hello.md".to_owned(),
                pages: None,
            },
        );
        Config { workdir: SitePath::empty(), template: TemplateOptions::default(), index }
    }
}

impl Config {
    /// The configuration folder under the working directory.
    pub open spec fn spec_config_dir(&self) -> Seq<Seq<char>> {
        self.workdir@.push(".docrs"@)
    }

    /// The source folder under the working directory.
    pub open spec fn spec_src_dir(&self) -> Seq<Seq<char>> {
        self.workdir@.push("src"@)
    }

    /// The build folder under the working directory.
    pub open spec fn spec_build_dir(&self) -> Seq<Seq<char>> {
        self.workdir@.push("build"@)
    }

    /// The folder holding every installed template.
    pub open spec fn spec_templates_dir(&self) -> Seq<Seq<char>> {
        self.spec_config_dir().push("templates"@)
    }

    /// The folder of the configured template.
    pub open spec fn spec_template_dir(&self) -> Seq<Seq<char>> {
        self.spec_templates_dir().push(self.template.name@)
    }

    /// Returns the working directory.
    pub fn cwd(&self) -> (r: SitePath)
        ensures
            r@ == self.workdir@,
    {
        self.workdir.clone()
    }

    /// Returns the config folder.
    pub fn config_dir(&self) -> (r: SitePath)
        ensures
            r@ == self.spec_config_dir(),
    {
        self.workdir.push_segment(".docrs")
    }

    /// Returns the temporary build folder.
    pub fn tmp_build_dir(&self) -> (r: SitePath)
        ensures
            r@ == self.spec_config_dir().push("build"@),
    {
        self.config_dir().push_segment("build")
    }

    /// Returns the src folder.
    pub fn src_dir(&self) -> (r: SitePath)
        ensures
            r@ == self.spec_src_dir(),
    {
        self.workdir.push_segment("src")
    }

    /// Returns the build folder.
    pub fn build_dir(&self) -> (r: SitePath)
        ensures
            r@ == self.spec_build_dir(),
    {
        self.workdir.push_segment("build")
    }

    /// Returns the folder holding every installed template.
    pub fn templates_dir(&self) -> (r: SitePath)
        ensures
            r@ == self.spec_templates_dir(),
    {
        self.config_dir().push_segment("templates")
    }

    /// Returns the folder of the configured template.
    pub fn template_dir(&self) -> (r: SitePath)
        ensures
            r@ == self.spec_template_dir(),
    {
        self.templates_dir().push_segment(self.template.name.as_str())
    }
}

} // verus!
