//! Reload fan-out, the watch event funnel, the driver's
//! notify-regardless rule, and the configuration's directories.

use docrs::builder::{PageBuilder, SourceSnapshot};
use docrs::config::{Config, TemplateOptions};
use docrs::driver::RebuildDriver;
use docrs::events::{funnel_source_event, funnel_template_event, FunnelDecision, RawWatchEvent, WatchEvent};
use docrs::paths::SitePath;
use docrs::render::{DocRead, HtmlRenderer};
use docrs::sse::SeeEventManager;
use docrs::template::{get_templates_files, TemplatesRegistry};
use docrs::tree::OutputTree;

fn path(segments: &[&str]) -> SitePath {
    SitePath::from_segments(segments.iter().map(|s| s.to_string()).collect())
}

#[test]
fn reload_fans_out_to_each_open_subscriber_once() {
    let mut sse = SeeEventManager::new(2);
    let a = sse.subscribe();
    let b = sse.subscribe();
    sse.reload();
    let c = sse.subscribe();
    let ea = sse.next_event(a).unwrap();
    assert_eq!(ea.event, "reload");
    assert_eq!(ea.data, "hey");
    assert!(sse.next_event(a).is_none());
    let eb = sse.next_event(b).unwrap();
    assert_eq!(eb.event, "reload");
    assert!(sse.next_event(b).is_none());
    // the late subscriber receives nothing from the earlier notify
    assert!(sse.next_event(c).is_none());
}

#[test]
fn lagging_subscriber_is_dropped_not_blocking() {
    let mut sse = SeeEventManager::new(1);
    let a = sse.subscribe();
    sse.reload();
    // a's queue is now full; the second reload drops a
    sse.reload();
    let first = sse.next_event(a).unwrap();
    assert_eq!(first.event, "reload");
    assert!(sse.next_event(a).is_none());
    // a fresh subscriber is served again
    let b = sse.subscribe();
    sse.reload();
    assert!(sse.next_event(b).is_some());
}

#[test]
fn source_funnel_maps_notification_kinds() {
    let p = path(&["site", "src", "a.md"]);
    let q = path(&["site", "src", "b.md"]);
    assert!(matches!(
        funnel_source_event(&RawWatchEvent::Create(p.clone())),
        FunnelDecision::Emit(WatchEvent::FileUpdate(_))
    ));
    assert!(matches!(
        funnel_source_event(&RawWatchEvent::NoticeWrite(p.clone())),
        FunnelDecision::Emit(WatchEvent::FileUpdate(_))
    ));
    assert!(matches!(
        funnel_source_event(&RawWatchEvent::Remove(p.clone())),
        FunnelDecision::Emit(WatchEvent::FileRemoved(_))
    ));
    assert!(matches!(
        funnel_source_event(&RawWatchEvent::Rename(p.clone(), q.clone())),
        FunnelDecision::Emit(WatchEvent::FileRenamed(_, _))
    ));
    assert!(matches!(
        funnel_source_event(&RawWatchEvent::Chmod(p.clone())),
        FunnelDecision::Ignore
    ));
    assert!(matches!(
        funnel_source_event(&RawWatchEvent::Rescan),
        FunnelDecision::Ignore
    ));
    assert!(matches!(
        funnel_source_event(&RawWatchEvent::WatchError),
        FunnelDecision::Fatal
    ));
}

#[test]
fn template_funnel_coarsely_invalidates() {
    let p = path(&["site", ".docrs", "templates", "blog", "page.hbs"]);
    assert!(matches!(
        funnel_template_event(&RawWatchEvent::Write(p.clone())),
        FunnelDecision::Emit(WatchEvent::TemplateUpdate)
    ));
    assert!(matches!(
        funnel_template_event(&RawWatchEvent::WatchError),
        FunnelDecision::Fatal
    ));
}

#[test]
fn driver_notifies_even_when_the_event_fails() {
    let config = Config {
        workdir: path(&["site"]),
        template: TemplateOptions {
            name: "blog".to_string(),
        },
        index: Vec::new(),
    };
    let registry = TemplatesRegistry::init(
        &config,
        &DocRead::Text("<main>{{{content}}}</main>".to_string()),
        &DocRead::Text("<page>{{{content}}}</page>".to_string()),
    )
    .unwrap();
    let builder = PageBuilder {
        src_dir: config.src_dir(),
        build_dir: config.build_dir(),
        template_dir: config.template_dir(),
        renderer: HtmlRenderer::new(),
        registry,
        tree: OutputTree::new(),
    };
    let mut driver = RebuildDriver {
        builder,
        sse: SeeEventManager::new(2),
    };
    let sub = driver.sse.subscribe();
    let snap = SourceSnapshot {
        index_template: DocRead::Unreadable,
        page_template: DocRead::Unreadable,
        assets: Vec::new(),
        documents: Vec::new(),
    };
    let r = driver.handle_event(&WatchEvent::TemplateUpdate, &snap);
    assert!(r.is_err());
    // the reload signal went out regardless of the failure
    assert!(driver.sse.next_event(sub).is_some());
}

#[test]
fn config_directories_mirror_the_working_directory() {
    let config = Config {
        workdir: path(&["w"]),
        template: TemplateOptions {
            name: "blog".to_string(),
        },
        index: Vec::new(),
    };
    assert!(config.cwd().same_as(&path(&["w"])));
    assert!(config.config_dir().same_as(&path(&["w", ".docrs"])));
    assert!(config.tmp_build_dir().same_as(&path(&["w", ".docrs", "build"])));
    assert!(config.src_dir().same_as(&path(&["w", "src"])));
    assert!(config.build_dir().same_as(&path(&["w", "build"])));
    assert!(config
        .templates_dir()
        .same_as(&path(&["w", ".docrs", "templates"])));
    assert!(config
        .template_dir()
        .same_as(&path(&["w", ".docrs", "templates", "blog"])));
}

#[test]
fn default_config_names_the_blog_template() {
    let config = Config::default();
    assert_eq!(config.template.name, "blog");
    assert_eq!(config.index.len(), 1);
    assert_eq!(config.index[0].title, "Hello World");
    assert_eq!(config.index[0].path, "./hello.md");
    assert!(config.index[0].pages.is_none());
}

#[test]
fn template_files_hold_the_blog_scaffolding() {
    let files = get_templates_files();
    assert_eq!(files.len(), 1);
    assert_eq!(files[0].0, "blog");
    let names: Vec<&str> = files[0].1.iter().map(|f| f.0.as_str()).collect();
    assert_eq!(names, vec!["index.hbs", "page.hbs", "style.css"]);
    for (_, content) in &files[0].1 {
        assert!(!content.is_empty());
    }
}
