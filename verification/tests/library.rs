use substack_dl::date::Date;
use substack_dl::errors::ParserError;
use substack_dl::post::Post;
use substack_dl::resolver::get_substack_url;
use substack_dl::writer::SavePlan;
use substack_dl::writer::get_save_dir;
use substack_dl::writer::plan_save;

#[test]
fn resolve_bare_domain() {
    let r = get_substack_url(String::from("example.substack.com"));
    assert_eq!(r, Ok(String::from("https://example.substack.com/feed")));
}

#[test]
fn resolve_with_https_scheme() {
    let r = get_substack_url(String::from("https://example.substack.com"));
    assert_eq!(r, Ok(String::from("https://example.substack.com/feed")));
}

#[test]
fn resolve_with_http_scheme() {
    let r = get_substack_url(String::from("http://example.substack.com"));
    assert_eq!(r, Ok(String::from("https://example.substack.com/feed")));
}

#[test]
fn resolve_keeps_path_after_scheme() {
    let r = get_substack_url(String::from("https://example.substack.com/archive"));
    assert_eq!(r, Ok(String::from("https://example.substack.com/archive/feed")));
}

#[test]
fn resolve_empty_input_fails() {
    let r = get_substack_url(String::new());
    assert_eq!(r, Err(ParserError::InvalidInput));
}

#[test]
fn resolve_ends_in_feed_suffix() {
    let r = get_substack_url(String::from("another.substack.com")).unwrap();
    assert!(r.ends_with("/feed"));
    assert_eq!(r.matches("://").count(), 1);
}

#[test]
fn slug_is_last_segment() {
    let p = Post::new(
        "body",
        "https://example.substack.com/p/my-first-post",
        "My First Post",
        "Sat, 02 Mar 2024 10:00:00 GMT",
    )
    .unwrap();
    assert_eq!(p.slug(), "my-first-post");
}

#[test]
fn slug_skips_trailing_slashes() {
    let p = Post::new(
        "body",
        "https://example.substack.com/p/my-post/",
        "t",
        "Sat, 02 Mar 2024 10:00:00 GMT",
    )
    .unwrap();
    assert_eq!(p.slug(), "my-post");
}

#[test]
fn slug_of_empty_link_fails() {
    let r = Post::new("body", "", "t", "Sat, 02 Mar 2024 10:00:00 GMT");
    assert!(matches!(r, Err(ParserError::MalformedLink)));
}

#[test]
fn slug_of_only_slashes_fails() {
    let r = Post::new("body", "///", "t", "Sat, 02 Mar 2024 10:00:00 GMT");
    assert!(matches!(r, Err(ParserError::MalformedLink)));
}

#[test]
fn date_parses_rfc2822() {
    let d = Date::parse_rfc2822("Sat, 02 Mar 2024 10:00:00 GMT").unwrap();
    assert_eq!(d, Date { year: 2024, month: 3, day: 2 });
}

#[test]
fn date_without_weekday_parses() {
    let d = Date::parse_rfc2822("02 Mar 2024 10:00:00 GMT").unwrap();
    assert_eq!(d, Date { year: 2024, month: 3, day: 2 });
}

#[test]
fn date_with_wrong_weekday_is_invalid() {
    // 2024-03-02 was a Saturday; the parser rejects an inconsistent weekday.
    assert!(Date::parse_rfc2822("Mon, 02 Mar 2024 10:00:00 GMT").is_none());
}

#[test]
fn garbage_date_fails_post_build() {
    let r = Post::new("body", "https://example.com/p/x", "t", "not a date");
    assert!(matches!(r, Err(ParserError::InvalidDate)));
}

#[test]
fn format_date_zero_pads() {
    let d = Date { year: 2024, month: 3, day: 2 };
    assert_eq!(substack_dl::date::format_date(&d), "03-02-2024");
}

#[test]
fn filename_is_date_then_slug() {
    let p = Post::new(
        "body",
        "https://example.substack.com/p/my-first-post",
        "My First Post",
        "Sat, 02 Mar 2024 10:00:00 GMT",
    )
    .unwrap();
    assert_eq!(p.filename(), "03-02-2024-my-first-post.md");
}

#[test]
fn save_dir_is_under_staging_root() {
    assert_eq!(get_save_dir("myblog"), "/tmp/myblog");
}

#[test]
fn plan_refuses_existing_dir_without_overwrite() {
    assert_eq!(plan_save(true, false), SavePlan::Refused);
}

#[test]
fn plan_clears_existing_dir_with_overwrite() {
    assert_eq!(plan_save(true, true), SavePlan::ClearThenWrite);
}

#[test]
fn plan_creates_missing_dir() {
    assert_eq!(plan_save(false, false), SavePlan::CreateThenWrite);
    assert_eq!(plan_save(false, true), SavePlan::CreateThenWrite);
}

#[test]
fn error_messages_name_each_kind() {
    assert_eq!(ParserError::DirectoryExists.message(), "Overwrite not allowed");
    assert_eq!(ParserError::CantDelete.message(), "Unable to delete directory");
    assert_eq!(ParserError::WriteFailed.message(), "Unable to save all items");
    assert_eq!(ParserError::InvalidInput.message(), "no source identifier provided");
    assert_eq!(ParserError::NetworkError.message(), "unable to fetch the feed");
    assert_eq!(ParserError::FeedParseError.message(), "unable to parse the feed");
    assert_eq!(
        ParserError::MalformedLink.message(),
        "unable to split url to find the slug"
    );
    assert_eq!(
        ParserError::InvalidDate.message(),
        "unable to parse the publication date"
    );
}
