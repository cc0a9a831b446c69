use ifi_blog::feed::{latest_post, FetchError};
use ifi_blog::latch::FeedItem;

#[test]
fn first_item_of_a_feed() {
    let body = br#"<?xml version="1.0"?>
<rss version="2.0"><channel><title>Blog</title><link>https://example.org</link>
<description>news</description>
<item><title>Newest</title><link>https://example.org/2</link><description>second</description></item>
<item><title>Older</title><link>https://example.org/1</link></item>
</channel></rss>"#;
    assert_eq!(
        latest_post(body),
        Ok(FeedItem {
            title: Some("Newest".to_string()),
            description: Some("second".to_string()),
            link: Some("https://example.org/2".to_string()),
        })
    );
}

#[test]
fn item_with_missing_parts() {
    let body = br#"<rss version="2.0"><channel><title>Blog</title><link>l</link><description>d</description>
<item><title>Only a title</title></item></channel></rss>"#;
    assert_eq!(
        latest_post(body),
        Ok(FeedItem { title: Some("Only a title".to_string()), description: None, link: None })
    );
}

#[test]
fn feed_without_posts() {
    let body = br#"<rss version="2.0"><channel><title>Blog</title><link>l</link><description>d</description></channel></rss>"#;
    assert_eq!(latest_post(body), Err(FetchError::NoPosts));
}

#[test]
fn body_that_is_no_feed() {
    assert_eq!(latest_post(b"<html><body>404</body></html>"), Err(FetchError::Malformed));
    assert_eq!(latest_post(b""), Err(FetchError::Malformed));
}
