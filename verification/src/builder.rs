//! Build system
//!
//! The page builder owns the output tree and is its only writer. It
//! maps each source document to its output path, renders it through
//! the Markdown renderer and the page template, and applies watch
//! events one at a time: a template change rebuilds everything, a
//! document change rebuilds one page, a removal or rename touches one
//! output file. Reading source files from disk is the program's job:
//! the builder receives what was read as a [`SourceSnapshot`].

use vstd::prelude::*;

use crate::events::WatchEvent;
use crate::paths::{replace_extension_html, spec_html_name, SitePath};
use crate::render::{html_of, DocRead, HtmlRenderer, RenderError};
use crate::template::{
    hbs_render, hbs_template_valid, spec_copied_assets, IndexTemplateData, PageTemplateData,
    TemplateError, TemplatesRegistry,
};
use crate::tree::OutputTree;

verus! {

/// Why a build step failed.
#[derive(Debug)]
pub enum BuildError {
    /// The document does not lie under the source directory.
    OutsideSourceRoot,
    /// The output file to move does not exist.
    Missing,
    /// The document could not be rendered.
    Render(RenderError),
    /// A template could not be loaded or rendered.
    Template(TemplateError),
}

/// Whether a path names a document under the source directory.
pub open spec fn spec_page_in_src(src_dir: Seq<Seq<char>>, page: Seq<Seq<char>>) -> bool {
    src_dir.is_prefix_of(page) && page.len() > src_dir.len()
}

/// The output path of a source document: the document's path relative
/// to the source directory, under the build directory, with the file
/// name's extension replaced by `html`.
pub open spec fn spec_target_page(
    src_dir: Seq<Seq<char>>,
    build_dir: Seq<Seq<char>>,
    page: Seq<Seq<char>>,
) -> Seq<Seq<char>> {
    let rel = page.skip(src_dir.len() as int);
    build_dir + rel.update(rel.len() - 1, spec_html_name(rel.last()))
}

/// The full page document built from one source document: the source
/// text rendered to HTML, substituted into the page template. Nothing
/// when the document was unreadable or the template does not render.
pub open spec fn spec_page_html(page_tpl: Seq<char>, source: DocRead) -> Option<Seq<char>> {
    match source {
        DocRead::Text(t) => hbs_render(page_tpl, "content"@, html_of(t@)),
        DocRead::Unreadable => None,
    }
}

/// The site's index document: the index template rendered with empty
/// content.
pub open spec fn spec_index_html(index_tpl: Seq<char>) -> Option<Seq<char>> {
    hbs_render(index_tpl, "content"@, Seq::<char>::empty())
}

/// The output map after building a list of documents in order: each
/// document under the source directory whose page renders lands at its
/// output path; the others change nothing.
pub open spec fn spec_built_docs(
    m0: Map<Seq<Seq<char>>, Seq<char>>,
    src_dir: Seq<Seq<char>>,
    build_dir: Seq<Seq<char>>,
    page_tpl: Seq<char>,
    docs: Seq<(SitePath, DocRead)>,
) -> Map<Seq<Seq<char>>, Seq<char>>
    decreases docs.len(),
{
    if docs.len() == 0 {
        m0
    } else {
        let m1 = spec_built_docs(m0, src_dir, build_dir, page_tpl, docs.drop_last());
        let p = docs.last().0;
        let d = docs.last().1;
        if spec_page_in_src(src_dir, p@) && spec_page_html(page_tpl, d) is Some {
            m1.insert(spec_target_page(src_dir, build_dir, p@), spec_page_html(page_tpl, d)->Some_0)
        } else {
            m1
        }
    }
}

/// The output map of one full build: the template's static assets,
/// then the index document, then every source document, later writes
/// overwriting earlier ones. Meaningful when the index template
/// renders.
pub open spec fn spec_full_build(
    src_dir: Seq<Seq<char>>,
    build_dir: Seq<Seq<char>>,
    tpl_dir: Seq<Seq<char>>,
    index_tpl: Seq<char>,
    page_tpl: Seq<char>,
    assets: Seq<(SitePath, String)>,
    docs: Seq<(SitePath, DocRead)>,
) -> Map<Seq<Seq<char>>, Seq<char>> {
    let base = spec_copied_assets(Map::empty(), tpl_dir, build_dir, assets);
    let with_index = base.insert(build_dir.push("index.html"@), spec_index_html(index_tpl)->Some_0);
    spec_built_docs(with_index, src_dir, build_dir, page_tpl, docs)
}

/// Everything one pass over the disk saw: the two template sources,
/// the static asset files under the template directory, and the source
/// documents with the outcome of reading each.
pub struct SourceSnapshot {
    /// The `index` template's source, as read.
    pub index_template: DocRead,
    /// The `page` template's source, as read.
    pub page_template: DocRead,
    /// The files under the template directory, with their content.
    pub assets: Vec<(SitePath, String)>,
    /// The documents under the source directory, with their text.
    pub documents: Vec<(SitePath, DocRead)>,
}

/// The text of a readable document; empty for an unreadable one.
pub open spec fn spec_doc_text(d: DocRead) -> Seq<char> {
    match d {
        DocRead::Text(t) => t@,
        DocRead::Unreadable => Seq::<char>::empty(),
    }
}

/// Whether both template sources were read and parse.
pub open spec fn spec_templates_ok(index_src: DocRead, page_src: DocRead) -> bool {
    &&& index_src matches DocRead::Text(t) && hbs_template_valid(t@)
    &&& page_src matches DocRead::Text(t) && hbs_template_valid(t@)
}

/// The reading of document `page` in the snapshot's list, the last one
/// when it appears more than once; unreadable when it is absent.
pub open spec fn spec_doc_read(docs: Seq<(SitePath, DocRead)>, page: Seq<Seq<char>>) -> DocRead
    decreases docs.len(),
{
    if docs.len() == 0 {
        DocRead::Unreadable
    } else if docs.last().0@ == page {
        docs.last().1
    } else {
        spec_doc_read(docs.drop_last(), page)
    }
}

/// Finds the reading of document `page` in the snapshot's list.
fn find_document<'a>(docs: &'a Vec<(SitePath, DocRead)>, page: &SitePath) -> (r: Option<
    &'a DocRead,
>)
    ensures
        r matches Some(d) ==> *d == spec_doc_read(docs@, page@),
        r is None ==> spec_doc_read(docs@, page@) == DocRead::Unreadable,
{
    let mut i: usize = docs.len();
    proof {
        assert(docs@.take(i as int) =~= docs@);
    }
    while i > 0
        invariant
            i <= docs@.len(),
            spec_doc_read(docs@, page@) == spec_doc_read(docs@.take(i as int), page@),
        decreases i,
    {
        i -= 1;
        proof {
            assert(docs@.take(i + 1).drop_last() =~= docs@.take(i as int));
            assert(docs@.take(i + 1).last() == docs@[i as int]);
        }
        if docs[i].0.same_as(page) {
            return Some(&docs[i].1);
        }
    }
    proof {
        assert(docs@.take(0) =~= Seq::<(SitePath, DocRead)>::empty());
    }
    None
}

/// PageBuilder builds a single page, and the whole site.
pub struct PageBuilder {
    /// Source directory
    pub src_dir: SitePath,
    /// Build directory
    pub build_dir: SitePath,
    /// Template files directory
    pub template_dir: SitePath,
    /// Renderer
    pub renderer: HtmlRenderer,
    /// Registry
    pub registry: TemplatesRegistry,
    /// The output tree the builder writes.
    pub tree: OutputTree,
}

/// What processing one watch event does to the builder: a template
/// update reloads the templates and rebuilds everything, a document
/// upsert rebuilds that page, a removal removes its output file, a
/// rename moves it. A failing step leaves the output tree as it was,
/// except that a document failing during an otherwise sound full
/// rebuild only loses its own page.
pub open spec fn spec_process_event(
    pre: PageBuilder,
    post: PageBuilder,
    r: Result<(), BuildError>,
    event: WatchEvent,
    snapshot: SourceSnapshot,
) -> bool {
    &&& post.src_dir == pre.src_dir
    &&& post.build_dir == pre.build_dir
    &&& post.template_dir == pre.template_dir
    &&& post.renderer == pre.renderer
    &&& match event {
        WatchEvent::TemplateUpdate => {
            let it = snapshot.index_template;
            let pt = snapshot.page_template;
            if it is Unreadable || pt is Unreadable {
                post == pre && r == Err::<(), BuildError>(
                    BuildError::Template(TemplateError::Missing),
                )
            } else if !spec_templates_ok(it, pt) {
                post == pre && r == Err::<(), BuildError>(
                    BuildError::Template(TemplateError::Invalid),
                )
            } else {
                let itpl = spec_doc_text(it);
                let ptpl = spec_doc_text(pt);
                &&& post.registry.spec_index_template() == itpl
                &&& post.registry.spec_page_template() == ptpl
                &&& post.registry.spec_template_dir() == pre.registry.spec_template_dir()
                &&& if spec_index_html(itpl) is Some {
                    r is Ok && post.tree@ == spec_full_build(
                        pre.src_dir@,
                        pre.build_dir@,
                        pre.registry.spec_template_dir(),
                        itpl,
                        ptpl,
                        snapshot.assets@,
                        snapshot.documents@,
                    )
                } else {
                    r == Err::<(), BuildError>(
                        BuildError::Template(TemplateError::RenderFailed),
                    ) && post.tree@ == pre.tree@
                }
            }
        },
        WatchEvent::FileUpdate(p) => {
            let source = spec_doc_read(snapshot.documents@, p@);
            &&& post.registry == pre.registry
            &&& if !spec_page_in_src(pre.src_dir@, p@) {
                r == Err::<(), BuildError>(BuildError::OutsideSourceRoot) && post.tree@ == pre.tree@
            } else if spec_page_html(pre.registry.spec_page_template(), source) is Some {
                r is Ok && post.tree@ == pre.tree@.insert(
                    spec_target_page(pre.src_dir@, pre.build_dir@, p@),
                    spec_page_html(pre.registry.spec_page_template(), source)->Some_0,
                )
            } else if source is Unreadable {
                r == Err::<(), BuildError>(BuildError::Render(RenderError::Unreadable))
                    && post.tree@ == pre.tree@
            } else {
                r == Err::<(), BuildError>(BuildError::Template(TemplateError::RenderFailed))
                    && post.tree@ == pre.tree@
            }
        },
        WatchEvent::FileRemoved(p) => {
            &&& post.registry == pre.registry
            &&& if !spec_page_in_src(pre.src_dir@, p@) {
                r == Err::<(), BuildError>(BuildError::OutsideSourceRoot) && post.tree@ == pre.tree@
            } else {
                r is Ok && post.tree@ == pre.tree@.remove(
                    spec_target_page(pre.src_dir@, pre.build_dir@, p@),
                )
            }
        },
        WatchEvent::FileRenamed(a, b) => {
            let ta = spec_target_page(pre.src_dir@, pre.build_dir@, a@);
            let tb = spec_target_page(pre.src_dir@, pre.build_dir@, b@);
            &&& post.registry == pre.registry
            &&& if !spec_page_in_src(pre.src_dir@, a@) || !spec_page_in_src(pre.src_dir@, b@) {
                r == Err::<(), BuildError>(BuildError::OutsideSourceRoot) && post.tree@ == pre.tree@
            } else if !pre.tree@.contains_key(ta) {
                r == Err::<(), BuildError>(BuildError::Missing) && post.tree@ == pre.tree@
            } else {
                r is Ok && post.tree@ == pre.tree@.remove(ta).insert(tb, pre.tree@[ta])
            }
        },
    }
}

/// Law: the output path of a source document is a pure deterministic
/// function of the root configuration and the document's path: the
/// same roots and the same path always give the same output location.
pub proof fn lemma_output_path_deterministic(
    src1: Seq<Seq<char>>,
    bld1: Seq<Seq<char>>,
    p1: Seq<Seq<char>>,
    src2: Seq<Seq<char>>,
    bld2: Seq<Seq<char>>,
    p2: Seq<Seq<char>>,
)
    requires
        src1 == src2,
        bld1 == bld2,
        p1 == p2,
    ensures
        spec_target_page(src1, bld1, p1) == spec_target_page(src2, bld2, p2),
{
}

/// Law: a full rebuild is a pure function of its inputs: two full
/// builds from the same roots, the same templates and the same
/// snapshot produce identical output trees.
pub proof fn lemma_full_build_deterministic(
    m1: Map<Seq<Seq<char>>, Seq<char>>,
    m2: Map<Seq<Seq<char>>, Seq<char>>,
    src_dir: Seq<Seq<char>>,
    build_dir: Seq<Seq<char>>,
    tpl_dir: Seq<Seq<char>>,
    index_tpl: Seq<char>,
    page_tpl: Seq<char>,
    assets: Seq<(SitePath, String)>,
    docs: Seq<(SitePath, DocRead)>,
)
    requires
        m1 == spec_full_build(src_dir, build_dir, tpl_dir, index_tpl, page_tpl, assets, docs),
        m2 == spec_full_build(src_dir, build_dir, tpl_dir, index_tpl, page_tpl, assets, docs),
    ensures
        m1 == m2,
{
}

/// Law: one failing document cannot disturb the others. In the output
/// map of a build, every document under the source root whose page
/// renders is present at its output path with exactly its rendered
/// content, whatever happened to the other documents — provided no
/// other document maps to the same output path.
pub proof fn lemma_built_docs_isolation(
    m0: Map<Seq<Seq<char>>, Seq<char>>,
    src_dir: Seq<Seq<char>>,
    build_dir: Seq<Seq<char>>,
    page_tpl: Seq<char>,
    docs: Seq<(SitePath, DocRead)>,
    i: int,
)
    requires
        0 <= i < docs.len(),
        spec_page_in_src(src_dir, docs[i].0@),
        spec_page_html(page_tpl, docs[i].1) is Some,
        forall|j: int|
            0 <= j < docs.len() && j != i ==> spec_target_page(src_dir, build_dir, docs[j].0@)
                != spec_target_page(src_dir, build_dir, docs[i].0@),
    ensures
        spec_built_docs(m0, src_dir, build_dir, page_tpl, docs).contains_key(
            spec_target_page(src_dir, build_dir, docs[i].0@),
        ),
        spec_built_docs(m0, src_dir, build_dir, page_tpl, docs)[spec_target_page(
            src_dir,
            build_dir,
            docs[i].0@,
        )] == spec_page_html(page_tpl, docs[i].1)->Some_0,
    decreases docs.len(),
{
    if i == docs.len() - 1 {
        assert(docs.last() == docs[i]);
    } else {
        let shorter = docs.drop_last();
        assert(shorter[i] == docs[i]);
        assert(forall|j: int|
            0 <= j < shorter.len() && j != i ==> shorter[j] == docs[j]);
        lemma_built_docs_isolation(m0, src_dir, build_dir, page_tpl, shorter, i);
    }
}

/// Law: a template change triggers a full rebuild. After the driver
/// processes a template update whose new templates load and whose
/// index renders, every document that renders under the new page
/// template is present in the output tree with the new template's
/// markup — without any source document having been touched.
pub proof fn lemma_template_change_rebuilds(
    pre: PageBuilder,
    post: PageBuilder,
    r: Result<(), BuildError>,
    snapshot: SourceSnapshot,
    i: int,
)
    requires
        spec_process_event(pre, post, r, WatchEvent::TemplateUpdate, snapshot),
        spec_templates_ok(snapshot.index_template, snapshot.page_template),
        spec_index_html(spec_doc_text(snapshot.index_template)) is Some,
        0 <= i < snapshot.documents@.len(),
        spec_page_in_src(pre.src_dir@, snapshot.documents@[i].0@),
        spec_page_html(spec_doc_text(snapshot.page_template), snapshot.documents@[i].1) is Some,
        forall|j: int|
            0 <= j < snapshot.documents@.len() && j != i ==> spec_target_page(
                pre.src_dir@,
                pre.build_dir@,
                snapshot.documents@[j].0@,
            ) != spec_target_page(pre.src_dir@, pre.build_dir@, snapshot.documents@[i].0@),
    ensures
        r is Ok,
        post.tree@.contains_key(
            spec_target_page(pre.src_dir@, pre.build_dir@, snapshot.documents@[i].0@),
        ),
        post.tree@[spec_target_page(pre.src_dir@, pre.build_dir@, snapshot.documents@[i].0@)]
            == spec_page_html(
            spec_doc_text(snapshot.page_template),
            snapshot.documents@[i].1,
        )->Some_0,
{
    let itpl = spec_doc_text(snapshot.index_template);
    let ptpl = spec_doc_text(snapshot.page_template);
    let base = spec_copied_assets(
        Map::empty(),
        pre.registry.spec_template_dir(),
        pre.build_dir@,
        snapshot.assets@,
    );
    let with_index = base.insert(
        pre.build_dir@.push("index.html"@),
        spec_index_html(itpl)->Some_0,
    );
    lemma_built_docs_isolation(
        with_index,
        pre.src_dir@,
        pre.build_dir@,
        ptpl,
        snapshot.documents@,
        i,
    );
}

/// Law: events apply last-writer-wins in arrival order. After two
/// upserts of a document and then its removal, processed in that
/// order, the document's output file is absent.
pub proof fn lemma_last_writer_wins(
    b0: PageBuilder,
    b1: PageBuilder,
    b2: PageBuilder,
    b3: PageBuilder,
    r1: Result<(), BuildError>,
    r2: Result<(), BuildError>,
    r3: Result<(), BuildError>,
    a: SitePath,
    s1: SourceSnapshot,
    s2: SourceSnapshot,
    s3: SourceSnapshot,
)
    requires
        spec_process_event(b0, b1, r1, WatchEvent::FileUpdate(a), s1),
        spec_process_event(b1, b2, r2, WatchEvent::FileUpdate(a), s2),
        spec_process_event(b2, b3, r3, WatchEvent::FileRemoved(a), s3),
        spec_page_in_src(b0.src_dir@, a@),
    ensures
        r3 is Ok,
        !b3.tree@.contains_key(spec_target_page(b0.src_dir@, b0.build_dir@, a@)),
{
}

impl PageBuilder {
    /// Returns the destination path for a source page
    pub fn get_target_page(&self, page: &SitePath) -> (r: Result<SitePath, BuildError>)
        ensures
            spec_page_in_src(self.src_dir@, page@) ==> (r matches Ok(t) && t@ == spec_target_page(
                self.src_dir@,
                self.build_dir@,
                page@,
            )),
            !spec_page_in_src(self.src_dir@, page@) ==> r == Err::<SitePath, BuildError>(
                BuildError::OutsideSourceRoot,
            ),
    {
        let rel = match page.strip_prefix(&self.src_dir) {
            Some(rel) => rel,
            None => {
                return Err(BuildError::OutsideSourceRoot);
            },
        };
        if rel.segments.len() == 0 {
            proof {
                assert(rel@.len() == rel.segments@.len());
                assert(!spec_page_in_src(self.src_dir@, page@));
            }
            return Err(BuildError::OutsideSourceRoot);
        }
        proof {
            assert(rel@.len() == rel.segments@.len());
        }
        let ghost target = spec_target_page(self.src_dir@, self.build_dir@, page@);
        let last_idx = rel.segments.len() - 1;
        let html_name = replace_extension_html(rel.segments[last_idx].as_str());
        let mut segments = self.build_dir.clone().segments;
        proof {
            assert(rel@[last_idx as int] == rel@.last());
            assert(segments.deep_view() =~= target.take(self.build_dir@.len() as int));
        }
        for i in 0..last_idx
            invariant
                last_idx < rel.segments@.len(),
                rel@.len() == rel.segments@.len(),
                last_idx == rel@.len() - 1,
                rel@ == page@.skip(self.src_dir@.len() as int),
                target == spec_target_page(self.src_dir@, self.build_dir@, page@),
                segments@.len() == self.build_dir@.len() + i,
                segments.deep_view() =~= target.take(self.build_dir@.len() + i),
        {
            segments.push(rel.segments[i].clone());
            proof {
                assert(segments.deep_view() =~= target.take(self.build_dir@.len() + i + 1));
            }
        }
        segments.push(html_name);
        proof {
            assert(rel@[last_idx as int] == rel.segments@[last_idx as int]@);
            assert(target.len() == self.build_dir@.len() + last_idx + 1);
            assert(target[self.build_dir@.len() + last_idx] == spec_html_name(rel@.last()));
            assert(segments.deep_view() =~= target.take(self.build_dir@.len() + last_idx + 1));
            assert(target.take(self.build_dir@.len() + last_idx + 1) =~= target);
        }
        Ok(SitePath { segments })
    }

    /// Builds a single page: renders the document, substitutes it into
    /// the page template, and writes the result at the document's
    /// output path. A failing page leaves the output tree untouched.
    pub fn build_page(&mut self, page: &SitePath, source: &DocRead) -> (r: Result<(), BuildError>)
        ensures
            final(self).src_dir == old(self).src_dir,
            final(self).build_dir == old(self).build_dir,
            final(self).template_dir == old(self).template_dir,
            final(self).renderer == old(self).renderer,
            final(self).registry == old(self).registry,
            !spec_page_in_src(old(self).src_dir@, page@) ==> r == Err::<(), BuildError>(
                BuildError::OutsideSourceRoot,
            ) && final(self).tree@ == old(self).tree@,
            spec_page_in_src(old(self).src_dir@, page@) && source is Unreadable ==> r == Err::<
                (),
                BuildError,
            >(BuildError::Render(RenderError::Unreadable)) && final(self).tree@ == old(self).tree@,
            (spec_page_in_src(old(self).src_dir@, page@) && spec_page_html(
                old(self).registry.spec_page_template(),
                *source,
            ) is Some) ==> r is Ok && final(self).tree@ == old(self).tree@.insert(
                spec_target_page(old(self).src_dir@, old(self).build_dir@, page@),
                spec_page_html(old(self).registry.spec_page_template(), *source)->Some_0,
            ),
            spec_page_in_src(old(self).src_dir@, page@) && source is Text && spec_page_html(
                old(self).registry.spec_page_template(),
                *source,
            ) is None ==> r == Err::<(), BuildError>(
                BuildError::Template(TemplateError::RenderFailed),
            ) && final(self).tree@ == old(self).tree@,
    {
        let target = match self.get_target_page(page) {
            Ok(t) => t,
            Err(e) => {
                return Err(e);
            },
        };
        let html = match self.renderer.render(source) {
            Ok(h) => h,
            Err(e) => {
                return Err(BuildError::Render(e));
            },
        };
        let content = match self.registry.render_page(&PageTemplateData { content: html }) {
            Ok(c) => c,
            Err(e) => {
                return Err(BuildError::Template(e));
            },
        };
        self.tree.write(target, content);
        Ok(())
    }

    /// Removes a source page's output file from the output tree.
    /// Removing the output of a page that has none is not an error.
    pub fn remove_page(&mut self, page: &SitePath) -> (r: Result<(), BuildError>)
        ensures
            final(self).src_dir == old(self).src_dir,
            final(self).build_dir == old(self).build_dir,
            final(self).template_dir == old(self).template_dir,
            final(self).renderer == old(self).renderer,
            final(self).registry == old(self).registry,
            !spec_page_in_src(old(self).src_dir@, page@) ==> r == Err::<(), BuildError>(
                BuildError::OutsideSourceRoot,
            ) && final(self).tree@ == old(self).tree@,
            spec_page_in_src(old(self).src_dir@, page@) ==> r is Ok && final(self).tree@ == old(self).tree@.remove(spec_target_page(old(self).src_dir@, old(self).build_dir@, page@)),
    {
        let target = match self.get_target_page(page) {
            Ok(t) => t,
            Err(e) => {
                return Err(e);
            },
        };
        self.tree.remove(&target);
        Ok(())
    }

    /// Renames a page in the target folder: moves the output file of
    /// `from` to the output path of `to`.
    pub fn rename_page(&mut self, from: &SitePath, to: &SitePath) -> (r: Result<(), BuildError>)
        ensures
            final(self).src_dir == old(self).src_dir,
            final(self).build_dir == old(self).build_dir,
            final(self).template_dir == old(self).template_dir,
            final(self).renderer == old(self).renderer,
            final(self).registry == old(self).registry,
            (!spec_page_in_src(old(self).src_dir@, from@) || !spec_page_in_src(
                old(self).src_dir@,
                to@,
            )) ==> r == Err::<(), BuildError>(BuildError::OutsideSourceRoot) && final(self).tree@
                == old(self).tree@,
            spec_page_in_src(old(self).src_dir@, from@) && spec_page_in_src(
                old(self).src_dir@,
                to@,
            ) && !old(self).tree@.contains_key(
                spec_target_page(old(self).src_dir@, old(self).build_dir@, from@),
            ) ==> r == Err::<(), BuildError>(BuildError::Missing) && final(self).tree@ == old(self).tree@,
            spec_page_in_src(old(self).src_dir@, from@) && spec_page_in_src(
                old(self).src_dir@,
                to@,
            ) && old(self).tree@.contains_key(
                spec_target_page(old(self).src_dir@, old(self).build_dir@, from@),
            ) ==> r is Ok && final(self).tree@ == old(self).tree@.remove(
                spec_target_page(old(self).src_dir@, old(self).build_dir@, from@),
            ).insert(
                spec_target_page(old(self).src_dir@, old(self).build_dir@, to@),
                old(self).tree@[spec_target_page(old(self).src_dir@, old(self).build_dir@, from@)],
            ),
    {
        let target_from = match self.get_target_page(from) {
            Ok(t) => t,
            Err(e) => {
                return Err(e);
            },
        };
        let target_to = match self.get_target_page(to) {
            Ok(t) => t,
            Err(e) => {
                return Err(e);
            },
        };
        if self.tree.rename(&target_from, &target_to) {
            Ok(())
        } else {
            Err(BuildError::Missing)
        }
    }

    /// Builds the site: clears the output tree, copies the template's
    /// static assets, writes the index document, then builds every
    /// document in the snapshot. A document that fails to render is
    /// skipped; the others are still built. When the index template
    /// itself does not render, the output tree is left as it was.
    pub fn build_all(&mut self, snapshot: &SourceSnapshot) -> (r: Result<(), BuildError>)
        ensures
            final(self).src_dir == old(self).src_dir,
            final(self).build_dir == old(self).build_dir,
            final(self).template_dir == old(self).template_dir,
            final(self).renderer == old(self).renderer,
            final(self).registry == old(self).registry,
            spec_index_html(old(self).registry.spec_index_template()) is None ==> r == Err::<
                (),
                BuildError,
            >(BuildError::Template(TemplateError::RenderFailed)) && final(self).tree@ == old(self).tree@,
            spec_index_html(old(self).registry.spec_index_template()) is Some ==> r is Ok && final(self).tree@ == spec_full_build(
                old(self).src_dir@,
                old(self).build_dir@,
                old(self).registry.spec_template_dir(),
                old(self).registry.spec_index_template(),
                old(self).registry.spec_page_template(),
                snapshot.assets@,
                snapshot.documents@,
            ),
    {
        let index_html = match self.registry.render_index(
            &IndexTemplateData { content: String::new() },
        ) {
            Ok(s) => s,
            Err(e) => {
                return Err(BuildError::Template(e));
            },
        };
        self.tree.clear();
        let build_dir = self.build_dir.clone();
        self.registry.copy_static_assets(&mut self.tree, &snapshot.assets, &build_dir);
        let index_path = self.build_dir.push_segment("index.html");
        self.tree.write(index_path, index_html);
        let ghost with_index = self.tree@;
        let n = snapshot.documents.len();
        for i in 0..n
            invariant
                n == snapshot.documents@.len(),
                self.src_dir == old(self).src_dir,
                self.build_dir == old(self).build_dir,
                self.template_dir == old(self).template_dir,
                self.renderer == old(self).renderer,
                self.registry == old(self).registry,
                self.tree@ == spec_built_docs(
                    with_index,
                    old(self).src_dir@,
                    old(self).build_dir@,
                    old(self).registry.spec_page_template(),
                    snapshot.documents@.take(i as int),
                ),
        {
            proof {
                assert(snapshot.documents@.take(i + 1).drop_last() =~= snapshot.documents@.take(
                    i as int,
                ));
                assert(snapshot.documents@.take(i + 1).last() == snapshot.documents@[i as int]);
            }
            let entry = &snapshot.documents[i];
            let _ = self.build_page(&entry.0, &entry.1);
        }
        proof {
            assert(snapshot.documents@.take(n as int) =~= snapshot.documents@);
        }
        Ok(())
    }

    /// Applies one watch event, per [`spec_process_event`]: the one
    /// step of the rebuild driver's loop.
    pub fn process_event(&mut self, event: &WatchEvent, snapshot: &SourceSnapshot) -> (r: Result<
        (),
        BuildError,
    >)
        ensures
            spec_process_event(*old(self), *final(self), r, *event, *snapshot),
    {
        match event {
            WatchEvent::TemplateUpdate => {
                match self.registry.reload_templates(
                    &snapshot.index_template,
                    &snapshot.page_template,
                ) {
                    Ok(_) => self.build_all(snapshot),
                    Err(e) => Err(BuildError::Template(e)),
                }
            },
            WatchEvent::FileUpdate(p) => {
                match find_document(&snapshot.documents, p) {
                    Some(d) => self.build_page(p, d),
                    None => self.build_page(p, &DocRead::Unreadable),
                }
            },
            WatchEvent::FileRemoved(p) => self.remove_page(p),
            WatchEvent::FileRenamed(a, b) => self.rename_page(a, b),
        }
    }
}

} // verus!
