use rss_cli::document::read_feed;
use rss_cli::guard::check_npt_safe;
use rss_cli::model::{FeedItem, FeedRecord};
use rss_cli::render::{feed_label, item_line, item_lines, shows_feed};
use rss_cli::stamp::{parse_published, Stamp};

const RSS: &str = r#"<?xml version="1.0" encoding="UTF-8"?>
<rss version="2.0">
  <channel>
    <title>Example</title>
    <link>https://example.com/</link>
    <description>An example</description>
    <item>
      <title>First</title>
      <link>https://example.com/1</link>
      <pubDate>Fri, 01 Mar 2024 00:00:00 GMT</pubDate>
    </item>
    <item>
      <description>No title here</description>
    </item>
  </channel>
</rss>"#;

fn entry(title: &str, link: Option<&str>, published: Option<&str>) -> FeedItem {
    FeedItem {
        title: title.to_string(),
        link: link.map(|s| s.to_string()),
        published: published.map(|s| s.to_string()),
    }
}

#[test]
fn parses_rss_document() {
    let (title, items) = read_feed(RSS.as_bytes()).unwrap();
    assert_eq!(title.as_deref(), Some("Example"));
    assert_eq!(items.len(), 2);
    assert_eq!(items[0].title, "First");
    assert_eq!(items[0].link.as_deref(), Some("https://example.com/1"));
    assert_eq!(items[0].published.as_deref(), Some("2024-03-01T00:00:00+00:00"));
    assert_eq!(items[1].title, "Untitled");
    assert_eq!(items[1].link, None);
    assert_eq!(items[1].published, None);
}

#[test]
fn rejects_non_feed_bytes() {
    let err = read_feed(b"hello, world").unwrap_err();
    assert_eq!(err, "failed to parse feed");
}

#[test]
fn parses_rfc3339_instants() {
    assert_eq!(
        parse_published(&Some("2024-03-01T00:00:00Z".to_string())),
        Some(Stamp { secs: 1709251200, nanos: 0 })
    );
    assert_eq!(
        parse_published(&Some("2024-03-01T01:00:00.25+01:00".to_string())),
        Some(Stamp { secs: 1709251200, nanos: 250_000_000 })
    );
    assert_eq!(parse_published(&Some("2024-03-01".to_string())), None);
    assert_eq!(parse_published(&None), None);
}

#[test]
fn item_lines_omit_missing_parts() {
    assert_eq!(item_line(&entry("T", None, None)), "- T");
    assert_eq!(item_line(&entry("T", Some("L"), None)), "- T | L");
    assert_eq!(item_line(&entry("T", None, Some("P"))), "- T | P");
    assert_eq!(item_line(&entry("T", Some("L"), Some("P"))), "- T | P | L");
    assert_eq!(item_line(&entry("T", Some(""), Some(""))), "- T");
}

#[test]
fn listing_heading_and_labels() {
    let items = vec![entry("a", None, None), entry("b", Some("l"), None)];
    let lines = item_lines("Feed X", &items);
    assert_eq!(lines, vec!["Feed: Feed X", "- a", "- b | l"]);
    let untitled = FeedRecord { title: None, url: "https://u".to_string(), items: vec![] };
    assert_eq!(feed_label(&untitled), "Untitled (https://u)");
    let titled = FeedRecord { title: Some("T".to_string()), url: "https://t".to_string(), items: vec![] };
    assert_eq!(feed_label(&titled), "T (https://t)");
    assert!(shows_feed(&titled, &None));
    assert!(shows_feed(&titled, &Some("https://t".to_string())));
    assert!(!shows_feed(&titled, &Some("https://u".to_string())));
}

fn podcast(duration: &str) -> String {
    format!(
        r#"<?xml version="1.0"?>
<rss version="2.0" xmlns:itunes="http://www.itunes.com/dtds/podcast-1.0.dtd">
  <channel>
    <title>Cast</title>
    <item>
      <title>Episode: the end of time</title>
      <itunes:duration>{}</itunes:duration>
    </item>
  </channel>
</rss>"#,
        duration
    )
}

fn podcast_with(tag: &str, duration: &str) -> String {
    format!(
        r#"<?xml version="1.0"?>
<rss version="2.0" xmlns:itunes="http://www.itunes.com/dtds/podcast-1.0.dtd">
  <channel>
    <title>Cast</title>
    <item>
      <title>Episode: the end of time</title>
      <{tag}>{duration}</itunes:duration>
    </item>
  </channel>
</rss>"#
    )
}

#[test]
fn reads_podcast_durations_the_parser_takes() {
    for d in [
        "1:02:03",
        "3600",
        "12.5",
        "999999999999999",
        "\n        1:00:00\n      ",
        "1 hour",
        "",
        "<![CDATA[12:00]]>",
        " <!-- note -->\u{663}",
    ] {
        let doc = podcast(d);
        assert!(check_npt_safe(doc.as_bytes()), "{:?}", d);
        let (title, items) = read_feed(doc.as_bytes()).unwrap();
        assert_eq!(title.as_deref(), Some("Cast"));
        assert_eq!(items.len(), 1);
        assert_eq!(items[0].title, "Episode: the end of time");
    }
    let attributed = podcast_with("itunes:duration unit=\"h>m\"", "1:00");
    assert!(!check_npt_safe(attributed.as_bytes()));
    let attributed = podcast_with("itunes:duration unit=\"hm\"", "1:00");
    assert!(check_npt_safe(attributed.as_bytes()));
    assert_eq!(read_feed(attributed.as_bytes()).unwrap().1.len(), 1);
}

#[test]
fn refuses_play_times_the_parser_cannot_take() {
    for d in [
        "999999999999999999999",
        "12:999999999999999999999:00",
        "\u{663}",
        "&#1635;",
        "<![CDATA[\u{663}]]>",
        "<![CDATA[999999999999999999999]]>",
        "<!-- note -->\u{663}",
    ] {
        let doc = podcast(d);
        assert!(!check_npt_safe(doc.as_bytes()), "{:?}", d);
        assert_eq!(read_feed(doc.as_bytes()).unwrap_err(), "failed to parse feed");
    }
    let media = r#"<rss version="2.0" xmlns:media="http://search.yahoo.com/mrss/"><channel><title>M</title>
<item><title>x</title><media:thumbnail url="https://a/b.png" time="99999999999999999999999"/></item>
</channel></rss>"#;
    assert!(!check_npt_safe(media.as_bytes()));
    assert!(read_feed(media.as_bytes()).is_err());
    let utf16: Vec<u8> = "<rss/>".encode_utf16().flat_map(|u| u.to_le_bytes()).collect();
    assert!(!check_npt_safe(&utf16));
    let mut escaped = b"<?xml version=\"1.0\" encoding=\"ISO-2022-JP\"?><rss version=\"2.0\"><channel><title>M</title><item><title>x</title><media:thumbnail url=\"u\" ".to_vec();
    escaped.extend_from_slice(&[0x1b, b'(', b'B']);
    escaped.extend_from_slice(b"time=\"99999999999999999999\"/></item></channel></rss>");
    assert!(!check_npt_safe(&escaped));
    assert!(read_feed(&escaped).is_err());
}

#[test]
fn accepts_ordinary_media_attributes() {
    let media = r#"<rss version="2.0" xmlns:media="http://search.yahoo.com/mrss/"><channel><title>M</title>
<item><title>x</title><media:thumbnail url="https://a/b.png" time = '12:05:01.5'/>
<media:text start="00:00:01" end="later">hi</media:text>
<link time="2024-01-01T00:00:00Z">https://a/x</link></item>
</channel></rss>"#;
    assert!(check_npt_safe(media.as_bytes()));
    let (_, items) = read_feed(media.as_bytes()).unwrap();
    assert_eq!(items.len(), 1);
}
