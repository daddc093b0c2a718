use substack_dl::errors::ParserError;
use substack_dl::errors::SaveStatus;
use substack_dl::feed::RawEntry;
use substack_dl::feed::parse_feed_bytes;
use substack_dl::parser::Parser;
use substack_dl::pipeline::PipelineAction;
use substack_dl::pipeline::PipelineEvent;
use substack_dl::pipeline::PipelineState;
use substack_dl::pipeline::step;
use substack_dl::post::Post;
use substack_dl::post::build_posts;
use substack_dl::writer::output_files;

const FEED_XML: &str = r#"<?xml version="1.0" encoding="UTF-8"?>
<rss version="2.0" xmlns:content="http://purl.org/rss/1.0/modules/content/">
<channel>
<title>Example</title>
<link>https://example.substack.com</link>
<description>An example publication</description>
<item>
<title>My First Post</title>
<link>https://example.substack.com/p/my-first-post</link>
<pubDate>Sat, 02 Mar 2024 10:00:00 GMT</pubDate>
<content:encoded><![CDATA[<h1>Hello</h1>]]></content:encoded>
</item>
</channel>
</rss>"#;

const EMPTY_FEED_XML: &str = r#"<?xml version="1.0" encoding="UTF-8"?>
<rss version="2.0">
<channel>
<title>Example</title>
<link>https://example.substack.com</link>
<description>An empty publication</description>
</channel>
</rss>"#;

#[test]
fn feed_parses_into_entries() {
    let entries = parse_feed_bytes(FEED_XML.as_bytes()).unwrap();
    assert_eq!(entries.len(), 1);
    assert_eq!(entries[0].title.as_deref(), Some("My First Post"));
    assert_eq!(
        entries[0].link.as_deref(),
        Some("https://example.substack.com/p/my-first-post")
    );
    assert_eq!(
        entries[0].pub_date.as_deref(),
        Some("Sat, 02 Mar 2024 10:00:00 GMT")
    );
    assert_eq!(entries[0].content.as_deref(), Some("<h1>Hello</h1>"));
}

#[test]
fn garbage_bytes_fail_feed_parse() {
    let r = parse_feed_bytes(b"this is not a feed");
    assert!(matches!(r, Err(ParserError::FeedParseError)));
}

#[test]
fn built_post_converts_html_to_markdown() {
    let entries = parse_feed_bytes(FEED_XML.as_bytes()).unwrap();
    let posts = build_posts(&entries).unwrap();
    assert_eq!(posts.len(), 1);
    // The converter must have rewritten the HTML, not handed it back.
    assert_ne!(posts[0].md, "<h1>Hello</h1>");
    assert!(posts[0].md.contains("Hello"));
    assert!(!posts[0].md.contains("<h1>"));
    assert_eq!(posts[0].slug(), "my-first-post");
    assert_eq!(posts[0].title, "My First Post");
}

#[test]
fn entry_without_link_fails_build() {
    let e = RawEntry {
        title: Some(String::from("t")),
        link: None,
        content: Some(String::from("c")),
        pub_date: Some(String::from("Sat, 02 Mar 2024 10:00:00 GMT")),
    };
    let r = build_posts(&vec![e]);
    assert!(matches!(r, Err(ParserError::MalformedLink)));
}

#[test]
fn entry_without_date_fails_build() {
    let e = RawEntry {
        title: Some(String::from("t")),
        link: Some(String::from("https://example.com/p/x")),
        content: Some(String::from("c")),
        pub_date: None,
    };
    let r = build_posts(&vec![e]);
    assert!(matches!(r, Err(ParserError::InvalidDate)));
}

#[test]
fn entry_without_title_or_content_still_builds() {
    let e = RawEntry {
        title: None,
        link: Some(String::from("https://example.com/p/x")),
        content: None,
        pub_date: Some(String::from("Sat, 02 Mar 2024 10:00:00 GMT")),
    };
    let posts = build_posts(&vec![e]).unwrap();
    assert_eq!(posts[0].title, "");
    assert_eq!(posts[0].md, "");
}

#[test]
fn parser_builds_items_from_bytes() {
    let mut p = Parser::new(
        String::from("example.substack.com"),
        String::from("myblog"),
    );
    assert_eq!(p.url, "https://example.substack.com/feed");
    assert_eq!(p.output_dir, "myblog");
    p.build_items(FEED_XML.as_bytes()).unwrap();
    assert_eq!(p.items.len(), 1);
    assert_eq!(p.items[0].slug(), "my-first-post");
}

#[test]
fn parser_keeps_items_when_build_fails() {
    let mut p = Parser::new(
        String::from("example.substack.com"),
        String::from("myblog"),
    );
    p.build_items(FEED_XML.as_bytes()).unwrap();
    assert_eq!(p.items.len(), 1);
    let r = p.build_items(b"this is not a feed");
    assert!(matches!(r, Err(ParserError::FeedParseError)));
    // The failed call leaves the items exactly as they were.
    assert_eq!(p.items.len(), 1);
    assert_eq!(p.items[0].slug(), "my-first-post");
}

#[test]
fn output_file_content_is_byte_identical_to_body() {
    let post = Post::new(
        "# Title\n\nHello",
        "https://example.substack.com/p/my-post",
        "t",
        "Sat, 02 Mar 2024 10:00:00 GMT",
    )
    .unwrap();
    let files = output_files("dir", &vec![post]);
    assert_eq!(files.len(), 1);
    assert_eq!(files[0].0, "/tmp/dir/03-02-2024-my-post.md");
    assert_eq!(files[0].1.as_bytes(), "# Title\n\nHello".as_bytes());
}

#[test]
fn output_files_is_idempotent() {
    let make = || {
        let entries = parse_feed_bytes(FEED_XML.as_bytes()).unwrap();
        let posts = build_posts(&entries).unwrap();
        output_files("myblog", &posts)
    };
    let first = make();
    let second = make();
    assert_eq!(first, second);
}

#[test]
fn empty_feed_yields_zero_files() {
    let entries = parse_feed_bytes(EMPTY_FEED_XML.as_bytes()).unwrap();
    assert_eq!(entries.len(), 0);
    let posts = build_posts(&entries).unwrap();
    assert_eq!(posts.len(), 0);
    let files = output_files("myblog", &posts);
    assert_eq!(files.len(), 0);
}

#[test]
fn pipeline_happy_path_writes_one_file() {
    let s = PipelineState::Idle {
        input: String::from("example.substack.com"),
        output_dir: String::from("myblog"),
    };
    let (s, a) = step(s, PipelineEvent::Start);
    match &a {
        PipelineAction::Fetch { url } => {
            assert_eq!(url, "https://example.substack.com/feed")
        }
        _ => panic!("expected a fetch action"),
    }
    let (s, a) = step(
        s,
        PipelineEvent::FetchedBytes { bytes: FEED_XML.as_bytes().to_vec() },
    );
    match &a {
        PipelineAction::CheckDir { dir } => assert_eq!(dir, "/tmp/myblog"),
        _ => panic!("expected a directory check"),
    }
    let (s, a) = step(s, PipelineEvent::DirExists { exists: false });
    match &a {
        PipelineAction::Write { dir, clear_first, files } => {
            assert_eq!(dir, "/tmp/myblog");
            assert!(!clear_first);
            assert_eq!(files.len(), 1);
            assert_eq!(files[0].0, "/tmp/myblog/03-02-2024-my-first-post.md");
            assert!(files[0].1.contains("Hello"));
        }
        _ => panic!("expected a write action"),
    }
    let (s, a) = step(s, PipelineEvent::Written { count: 1 });
    assert!(matches!(a, PipelineAction::Report));
    match s {
        PipelineState::Done { report } => {
            assert_eq!(report, SaveStatus::Success { files_written: 1 });
            assert_eq!(report.count(), 1);
            assert_eq!(report.message(), "Successfully saved posts");
        }
        _ => panic!("expected a terminal success"),
    }
}

#[test]
fn pipeline_declined_overwrite_fails_without_write() {
    let s = PipelineState::Idle {
        input: String::from("example.substack.com"),
        output_dir: String::from("myblog"),
    };
    let (s, _) = step(s, PipelineEvent::Start);
    let (s, _) = step(
        s,
        PipelineEvent::FetchedBytes { bytes: FEED_XML.as_bytes().to_vec() },
    );
    let (s, a) = step(s, PipelineEvent::DirExists { exists: true });
    match &a {
        PipelineAction::Prompt { dir } => assert_eq!(dir, "/tmp/myblog"),
        _ => panic!("expected a prompt"),
    }
    let (s, a) = step(s, PipelineEvent::Answer { overwrite: false });
    // The refusal carries no write action: nothing on disk is touched.
    assert!(matches!(a, PipelineAction::Report));
    match s {
        PipelineState::Failed { error } => {
            assert_eq!(error, ParserError::DirectoryExists)
        }
        _ => panic!("expected a failure"),
    }
}

#[test]
fn pipeline_granted_overwrite_clears_then_writes() {
    let s = PipelineState::Idle {
        input: String::from("example.substack.com"),
        output_dir: String::from("myblog"),
    };
    let (s, _) = step(s, PipelineEvent::Start);
    let (s, _) = step(
        s,
        PipelineEvent::FetchedBytes { bytes: FEED_XML.as_bytes().to_vec() },
    );
    let (s, _) = step(s, PipelineEvent::DirExists { exists: true });
    let (_, a) = step(s, PipelineEvent::Answer { overwrite: true });
    match &a {
        PipelineAction::Write { clear_first, files, .. } => {
            assert!(clear_first);
            assert_eq!(files.len(), 1);
        }
        _ => panic!("expected a write action"),
    }
}

#[test]
fn pipeline_empty_input_fails() {
    let s = PipelineState::Idle {
        input: String::new(),
        output_dir: String::from("myblog"),
    };
    let (s, a) = step(s, PipelineEvent::Start);
    assert!(matches!(a, PipelineAction::Report));
    assert!(matches!(
        s,
        PipelineState::Failed { error: ParserError::InvalidInput }
    ));
}

#[test]
fn pipeline_fetch_failure_is_network_error() {
    let s = PipelineState::Idle {
        input: String::from("example.substack.com"),
        output_dir: String::from("myblog"),
    };
    let (s, _) = step(s, PipelineEvent::Start);
    let (s, _) = step(s, PipelineEvent::FetchFailed);
    assert!(matches!(
        s,
        PipelineState::Failed { error: ParserError::NetworkError }
    ));
}

#[test]
fn pipeline_bad_feed_is_parse_error() {
    let s = PipelineState::Idle {
        input: String::from("example.substack.com"),
        output_dir: String::from("myblog"),
    };
    let (s, _) = step(s, PipelineEvent::Start);
    let (s, _) = step(
        s,
        PipelineEvent::FetchedBytes { bytes: b"not xml".to_vec() },
    );
    assert!(matches!(
        s,
        PipelineState::Failed { error: ParserError::FeedParseError }
    ));
}

#[test]
fn pipeline_write_failures_surface() {
    let start = || {
        let s = PipelineState::Idle {
            input: String::from("example.substack.com"),
            output_dir: String::from("myblog"),
        };
        let (s, _) = step(s, PipelineEvent::Start);
        let (s, _) = step(
            s,
            PipelineEvent::FetchedBytes { bytes: FEED_XML.as_bytes().to_vec() },
        );
        let (s, _) = step(s, PipelineEvent::DirExists { exists: false });
        s
    };
    let (s, _) = step(start(), PipelineEvent::WriteError);
    assert!(matches!(
        s,
        PipelineState::Failed { error: ParserError::WriteFailed }
    ));
    let (s, _) = step(start(), PipelineEvent::DeleteFailed);
    assert!(matches!(
        s,
        PipelineState::Failed { error: ParserError::CantDelete }
    ));
}

#[test]
fn pipeline_empty_feed_succeeds_with_zero_files() {
    let s = PipelineState::Idle {
        input: String::from("example.substack.com"),
        output_dir: String::from("myblog"),
    };
    let (s, _) = step(s, PipelineEvent::Start);
    let (s, _) = step(
        s,
        PipelineEvent::FetchedBytes { bytes: EMPTY_FEED_XML.as_bytes().to_vec() },
    );
    let (s, a) = step(s, PipelineEvent::DirExists { exists: false });
    match &a {
        PipelineAction::Write { files, .. } => assert_eq!(files.len(), 0),
        _ => panic!("expected a write action"),
    }
    let (s, _) = step(s, PipelineEvent::Written { count: 0 });
    match s {
        PipelineState::Done { report } => assert_eq!(report.count(), 0),
        _ => panic!("expected a terminal success"),
    }
}
