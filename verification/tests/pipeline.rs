//! The build pipeline end to end: output paths, full rebuilds,
//! incremental events, and failure isolation.

use docrs::builder::{BuildError, PageBuilder, SourceSnapshot};
use docrs::config::{Config, TemplateOptions};
use docrs::events::WatchEvent;
use docrs::paths::{replace_extension_html, SitePath};
use docrs::render::{DocRead, HtmlRenderer, RenderError};
use docrs::template::{TemplateError, TemplatesRegistry};
use docrs::tree::OutputTree;

fn path(segments: &[&str]) -> SitePath {
    SitePath::from_segments(segments.iter().map(|s| s.to_string()).collect())
}

fn test_config() -> Config {
    Config {
        workdir: path(&["site"]),
        template: TemplateOptions {
            name: "blog".to_string(),
        },
        index: Vec::new(),
    }
}

const INDEX_TPL: &str = "<main>{{{content}}}</main>";
const PAGE_TPL: &str = "<page>{{{content}}}</page>";

fn test_builder() -> PageBuilder {
    let config = test_config();
    let registry = TemplatesRegistry::init(
        &config,
        &DocRead::Text(INDEX_TPL.to_string()),
        &DocRead::Text(PAGE_TPL.to_string()),
    )
    .unwrap();
    PageBuilder {
        src_dir: config.src_dir(),
        build_dir: config.build_dir(),
        template_dir: config.template_dir(),
        renderer: HtmlRenderer::new(),
        registry,
        tree: OutputTree::new(),
    }
}

fn snapshot(docs: Vec<(SitePath, DocRead)>) -> SourceSnapshot {
    SourceSnapshot {
        index_template: DocRead::Text(INDEX_TPL.to_string()),
        page_template: DocRead::Text(PAGE_TPL.to_string()),
        assets: Vec::new(),
        documents: docs,
    }
}

fn got<'a>(tree: &'a OutputTree, p: &SitePath) -> Option<&'a str> {
    tree.get(p).map(|s| s.as_str())
}

#[test]
fn replace_extension_cases() {
    assert_eq!(replace_extension_html("hello.md"), "hello.html");
    assert_eq!(replace_extension_html("hello"), "hello.html");
    assert_eq!(replace_extension_html(".gitignore"), ".gitignore.html");
    assert_eq!(replace_extension_html("a.b.c"), "a.b.html");
    assert_eq!(replace_extension_html("a."), "a.html");
}

#[test]
fn target_page_is_deterministic() {
    let builder = test_builder();
    let page = path(&["site", "src", "guide", "hello.md"]);
    let t1 = builder.get_target_page(&page).unwrap();
    let t2 = builder.get_target_page(&page).unwrap();
    let expected = path(&["site", "build", "guide", "hello.html"]);
    assert!(t1.same_as(&expected));
    assert!(t2.same_as(&expected));
}

#[test]
fn target_page_outside_source_root() {
    let mut builder = test_builder();
    let stray = path(&["elsewhere", "hello.md"]);
    assert!(matches!(
        builder.get_target_page(&stray),
        Err(BuildError::OutsideSourceRoot)
    ));
    assert!(matches!(
        builder.build_page(&stray, &DocRead::Text("# Hi".to_string())),
        Err(BuildError::OutsideSourceRoot)
    ));
}

#[test]
fn build_page_renders_through_both_templates() {
    let mut builder = test_builder();
    let page = path(&["site", "src", "hello.md"]);
    builder
        .build_page(&page, &DocRead::Text("# Hi".to_string()))
        .unwrap();
    let target = path(&["site", "build", "hello.html"]);
    assert_eq!(
        got(&builder.tree, &target),
        Some("<page><h1>Hi</h1>\n</page>")
    );
}

#[test]
fn unreadable_page_is_a_render_error() {
    let mut builder = test_builder();
    let page = path(&["site", "src", "hello.md"]);
    let r = builder.build_page(&page, &DocRead::Unreadable);
    assert!(matches!(
        r,
        Err(BuildError::Render(RenderError::Unreadable))
    ));
    let renderer = HtmlRenderer::new();
    assert!(matches!(
        renderer.render(&DocRead::Unreadable),
        Err(RenderError::Unreadable)
    ));
}

#[test]
fn full_build_writes_index_assets_and_pages() {
    let mut builder = test_builder();
    let mut snap = snapshot(vec![(
        path(&["site", "src", "hello.md"]),
        DocRead::Text("# Hi".to_string()),
    )]);
    snap.assets.push((
        path(&["site", ".docrs", "templates", "blog", "style.css"]),
        "body {}".to_string(),
    ));
    snap.assets.push((
        path(&["site", ".docrs", "templates", "blog", "page.hbs"]),
        PAGE_TPL.to_string(),
    ));
    builder.build_all(&snap).unwrap();
    assert_eq!(
        got(&builder.tree, &path(&["site", "build", "index.html"])),
        Some("<main></main>")
    );
    assert_eq!(
        got(&builder.tree, &path(&["site", "build", "style.css"])),
        Some("body {}")
    );
    // the template sources themselves are not copied
    assert_eq!(got(&builder.tree, &path(&["site", "build", "page.hbs"])), None);
    assert_eq!(
        got(&builder.tree, &path(&["site", "build", "hello.html"])),
        Some("<page><h1>Hi</h1>\n</page>")
    );
}

#[test]
fn full_build_is_idempotent() {
    let mut b1 = test_builder();
    let mut b2 = test_builder();
    let snap = snapshot(vec![
        (
            path(&["site", "src", "hello.md"]),
            DocRead::Text("# Hi".to_string()),
        ),
        (
            path(&["site", "src", "a", "b.md"]),
            DocRead::Text("*b*".to_string()),
        ),
    ]);
    b1.build_all(&snap).unwrap();
    b1.build_all(&snap).unwrap();
    b2.build_all(&snap).unwrap();
    for key in [
        path(&["site", "build", "index.html"]),
        path(&["site", "build", "hello.html"]),
        path(&["site", "build", "a", "b.html"]),
    ] {
        assert_eq!(got(&b1.tree, &key), got(&b2.tree, &key));
        assert!(got(&b1.tree, &key).is_some());
    }
}

#[test]
fn events_apply_last_writer_wins() {
    let mut builder = test_builder();
    let a = path(&["site", "src", "hello.md"]);
    let target = path(&["site", "build", "hello.html"]);
    let snap1 = snapshot(vec![(a.clone(), DocRead::Text("one".to_string()))]);
    let snap2 = snapshot(vec![(a.clone(), DocRead::Text("two".to_string()))]);
    let snap3 = snapshot(Vec::new());
    builder
        .process_event(&WatchEvent::FileUpdate(a.clone()), &snap1)
        .unwrap();
    assert!(got(&builder.tree, &target).is_some());
    builder
        .process_event(&WatchEvent::FileUpdate(a.clone()), &snap2)
        .unwrap();
    builder
        .process_event(&WatchEvent::FileRemoved(a.clone()), &snap3)
        .unwrap();
    assert_eq!(got(&builder.tree, &target), None);
}

#[test]
fn removing_an_absent_page_is_not_an_error() {
    let mut builder = test_builder();
    let a = path(&["site", "src", "never-built.md"]);
    assert!(builder.remove_page(&a).is_ok());
}

#[test]
fn rename_moves_the_output_file() {
    let mut builder = test_builder();
    let from = path(&["site", "src", "old.md"]);
    let to = path(&["site", "src", "new.md"]);
    builder
        .build_page(&from, &DocRead::Text("x".to_string()))
        .unwrap();
    builder
        .process_event(
            &WatchEvent::FileRenamed(from.clone(), to.clone()),
            &snapshot(Vec::new()),
        )
        .unwrap();
    assert_eq!(got(&builder.tree, &path(&["site", "build", "old.html"])), None);
    assert_eq!(
        got(&builder.tree, &path(&["site", "build", "new.html"])),
        Some("<page><p>x</p>\n</page>")
    );
}

#[test]
fn rename_of_a_missing_page_fails() {
    let mut builder = test_builder();
    let from = path(&["site", "src", "old.md"]);
    let to = path(&["site", "src", "new.md"]);
    assert!(matches!(
        builder.rename_page(&from, &to),
        Err(BuildError::Missing)
    ));
}

#[test]
fn template_change_rebuilds_previously_built_pages() {
    let mut builder = test_builder();
    let a = path(&["site", "src", "hello.md"]);
    let target = path(&["site", "build", "hello.html"]);
    let snap = snapshot(vec![(a.clone(), DocRead::Text("# Hi".to_string()))]);
    builder.build_all(&snap).unwrap();
    assert_eq!(
        got(&builder.tree, &target),
        Some("<page><h1>Hi</h1>\n</page>")
    );
    let mut snap2 = snapshot(vec![(a.clone(), DocRead::Text("# Hi".to_string()))]);
    snap2.page_template = DocRead::Text("<page2>{{{content}}}</page2>".to_string());
    builder
        .process_event(&WatchEvent::TemplateUpdate, &snap2)
        .unwrap();
    assert_eq!(
        got(&builder.tree, &target),
        Some("<page2><h1>Hi</h1>\n</page2>")
    );
}

#[test]
fn one_failing_document_leaves_the_others_intact() {
    let mut builder = test_builder();
    let snap = snapshot(vec![
        (
            path(&["site", "src", "a.md"]),
            DocRead::Text("# A".to_string()),
        ),
        (path(&["site", "src", "b.md"]), DocRead::Unreadable),
        (
            path(&["site", "src", "c.md"]),
            DocRead::Text("# C".to_string()),
        ),
    ]);
    builder.build_all(&snap).unwrap();
    assert_eq!(
        got(&builder.tree, &path(&["site", "build", "a.html"])),
        Some("<page><h1>A</h1>\n</page>")
    );
    assert_eq!(got(&builder.tree, &path(&["site", "build", "b.html"])), None);
    assert_eq!(
        got(&builder.tree, &path(&["site", "build", "c.html"])),
        Some("<page><h1>C</h1>\n</page>")
    );
}

#[test]
fn broken_template_is_rejected_at_init() {
    let config = test_config();
    let r = TemplatesRegistry::init(
        &config,
        &DocRead::Text("{{#if".to_string()),
        &DocRead::Text(PAGE_TPL.to_string()),
    );
    assert!(matches!(r, Err(TemplateError::Invalid)));
    let r = TemplatesRegistry::init(
        &config,
        &DocRead::Unreadable,
        &DocRead::Text(PAGE_TPL.to_string()),
    );
    assert!(matches!(r, Err(TemplateError::Missing)));
}

#[test]
fn failed_template_reload_keeps_the_old_templates() {
    let mut builder = test_builder();
    let a = path(&["site", "src", "hello.md"]);
    let snap = snapshot(vec![(a.clone(), DocRead::Text("# Hi".to_string()))]);
    builder.build_all(&snap).unwrap();
    let mut bad = snapshot(vec![(a.clone(), DocRead::Text("# Hi".to_string()))]);
    bad.page_template = DocRead::Text("{{#if".to_string());
    let r = builder.process_event(&WatchEvent::TemplateUpdate, &bad);
    assert!(r.is_err());
    // the previously built tree is still served
    assert_eq!(
        got(&builder.tree, &path(&["site", "build", "hello.html"])),
        Some("<page><h1>Hi</h1>\n</page>")
    );
    // and the old templates still work for the next incremental build
    builder
        .process_event(&WatchEvent::FileUpdate(a.clone()), &snap)
        .unwrap();
    assert_eq!(
        got(&builder.tree, &path(&["site", "build", "hello.html"])),
        Some("<page><h1>Hi</h1>\n</page>")
    );
}
