use rss_cli::input::{Command, KeyCode, KeyEvent};
use rss_cli::model::{FeedDb, FeedItem, FeedRecord};
use rss_cli::session::{clamp_index, App, FetchPurpose, Focus, Mode, PAGE_JUMP};

fn item(title: &str, published: Option<&str>) -> FeedItem {
    FeedItem {
        title: title.to_string(),
        link: None,
        published: published.map(|p| p.to_string()),
    }
}

fn feed(title: Option<&str>, url: &str, items: Vec<FeedItem>) -> FeedRecord {
    FeedRecord {
        title: title.map(|t| t.to_string()),
        url: url.to_string(),
        items,
    }
}

fn key(code: KeyCode) -> KeyEvent {
    KeyEvent { code, ctrl: false }
}

fn press(app: &mut App, code: KeyCode) -> Command {
    app.handle_key(key(code))
}

fn type_text(app: &mut App, text: &str) {
    for c in text.chars() {
        assert!(matches!(press(app, KeyCode::Char(c)), Command::Continue));
    }
}

fn app_with(feeds: Vec<FeedRecord>) -> App {
    App::new(FeedDb { feeds })
}

fn titles(app: &App) -> Vec<String> {
    app.current_items().into_iter().map(|d| d.title).collect()
}

#[test]
fn add_feed_then_all_view_newest_first() {
    let mut app = App::new(FeedDb::new());
    assert!(matches!(press(&mut app, KeyCode::Char('a')), Command::Continue));
    assert_eq!(app.mode, Mode::AddUrl);
    assert_eq!(app.status, "Enter feed URL.");
    type_text(&mut app, "https://example.com/feed");
    let url = match press(&mut app, KeyCode::Enter) {
        Command::Fetch(u, FetchPurpose::Add) => u,
        other => panic!("unexpected {:?}", other),
    };
    assert_eq!(url, "https://example.com/feed");
    assert_eq!(app.mode, Mode::Normal);
    assert_eq!(app.input, "");
    let items = vec![
        item("January", Some("2024-01-01T00:00:00Z")),
        item("March", Some("2024-03-01T00:00:00Z")),
    ];
    assert!(app.apply_fetch(url, FetchPurpose::Add, Ok((Some("Example".to_string()), items))));
    assert_eq!(app.db.feeds.len(), 1);
    assert_eq!(app.db.feeds[0].title.as_deref(), Some("Example"));
    assert_eq!(app.feed_selected, 1);
    assert_eq!(app.item_selected, Some(0));
    assert_eq!(app.status, "Added https://example.com/feed");
    assert_eq!(titles(&app), vec!["January", "March"]);
    app.move_selection(-1);
    assert_eq!(app.feed_selected, 0);
    assert_eq!(titles(&app), vec!["March", "January"]);
}

#[test]
fn all_view_puts_dated_entry_first() {
    let app = app_with(vec![
        feed(Some("A"), "https://a", vec![item("undated", None)]),
        feed(Some("B"), "https://b", vec![item("dated", Some("2024-01-01T00:00:00Z"))]),
    ]);
    let view = app.current_items();
    assert_eq!(view.len(), 2);
    assert_eq!(view[0].title, "dated");
    assert_eq!(view[0].feed_title, "B");
    assert_eq!(view[1].title, "undated");
    assert_eq!(view[1].feed_title, "A");

    let swapped = app_with(vec![
        feed(Some("B"), "https://b", vec![item("dated", Some("2024-01-01T00:00:00Z"))]),
        feed(Some("A"), "https://a", vec![item("undated", None)]),
    ]);
    assert_eq!(titles(&swapped), vec!["dated", "undated"]);
}

#[test]
fn delete_only_feed_resets_selection() {
    let mut app = app_with(vec![feed(Some("A"), "https://a", vec![item("x", None)])]);
    app.move_selection(1);
    assert_eq!(app.feed_selected, 1);
    assert!(matches!(press(&mut app, KeyCode::Char('d')), Command::Save));
    assert_eq!(app.feed_selected, 0);
    assert_eq!(app.item_selected, None);
    assert!(app.db.feeds.is_empty());
    assert_eq!(app.status, "Removed https://a");
}

#[test]
fn refresh_on_all_feeds_asks_for_a_feed() {
    let mut app = app_with(vec![feed(Some("A"), "https://a", vec![item("x", None)])]);
    assert_eq!(app.feed_selected, 0);
    assert!(matches!(press(&mut app, KeyCode::Char('r')), Command::Continue));
    assert_eq!(app.status, "Select a feed to refresh.");
    assert_eq!(app.db.feeds.len(), 1);
    assert_eq!(app.db.feeds[0].items.len(), 1);
}

#[test]
fn enter_with_blank_url_is_rejected() {
    let mut app = App::new(FeedDb::new());
    press(&mut app, KeyCode::Char('a'));
    type_text(&mut app, "   ");
    assert!(matches!(press(&mut app, KeyCode::Enter), Command::Continue));
    assert_eq!(app.status, "URL cannot be empty.");
    assert_eq!(app.mode, Mode::Normal);
    assert_eq!(app.input, "");
    assert!(app.db.feeds.is_empty());
}

#[test]
fn enter_trims_the_url() {
    let mut app = App::new(FeedDb::new());
    press(&mut app, KeyCode::Char('a'));
    type_text(&mut app, "  https://x.org/rss \t");
    match press(&mut app, KeyCode::Enter) {
        Command::Fetch(u, FetchPurpose::Add) => assert_eq!(u, "https://x.org/rss"),
        other => panic!("unexpected {:?}", other),
    }
}

#[test]
fn feed_moves_stay_in_range() {
    let mut app = app_with(vec![
        feed(Some("A"), "https://a", vec![]),
        feed(Some("B"), "https://b", vec![item("b1", None)]),
    ]);
    app.move_selection(PAGE_JUMP);
    assert_eq!(app.feed_selected, 2);
    app.move_selection(1);
    assert_eq!(app.feed_selected, 2);
    app.move_selection(-1);
    assert_eq!(app.feed_selected, 1);
    app.move_selection(-PAGE_JUMP);
    assert_eq!(app.feed_selected, 0);
    app.move_selection(isize::MIN);
    assert_eq!(app.feed_selected, 0);
    app.move_selection(isize::MAX);
    assert_eq!(app.feed_selected, 2);
    assert!(matches!(press(&mut app, KeyCode::PageUp), Command::Continue));
    assert_eq!(app.feed_selected, 0);
    press(&mut app, KeyCode::Char('j'));
    assert_eq!(app.feed_selected, 1);
    press(&mut app, KeyCode::Down);
    assert_eq!(app.feed_selected, 2);
    press(&mut app, KeyCode::Char('k'));
    assert_eq!(app.feed_selected, 1);
    press(&mut app, KeyCode::Up);
    assert_eq!(app.feed_selected, 0);
}

#[test]
fn feed_switch_refits_item_selection() {
    let mut app = app_with(vec![
        feed(Some("A"), "https://a", vec![]),
        feed(Some("B"), "https://b", vec![item("b1", None), item("b2", None)]),
    ]);
    assert_eq!(app.item_selected, Some(0));
    app.focus = Focus::Items;
    app.move_selection(1);
    assert_eq!(app.item_selected, Some(1));
    app.focus = Focus::Feeds;
    app.move_selection(1);
    assert_eq!(app.feed_selected, 1);
    assert_eq!(app.item_selected, None);
    app.move_selection(1);
    assert_eq!(app.feed_selected, 2);
    assert_eq!(app.item_selected, Some(0));
}

#[test]
fn item_moves_clamp_and_empty_view_has_none() {
    let mut app = app_with(vec![feed(
        None,
        "https://a",
        vec![item("1", None), item("2", None), item("3", None)],
    )]);
    assert!(matches!(press(&mut app, KeyCode::Tab), Command::Continue));
    assert_eq!(app.focus, Focus::Items);
    press(&mut app, KeyCode::PageDown);
    assert_eq!(app.item_selected, Some(2));
    press(&mut app, KeyCode::Up);
    assert_eq!(app.item_selected, Some(1));
    press(&mut app, KeyCode::PageUp);
    assert_eq!(app.item_selected, Some(0));
    press(&mut app, KeyCode::Left);
    assert_eq!(app.focus, Focus::Feeds);
    press(&mut app, KeyCode::Right);
    assert_eq!(app.focus, Focus::Items);

    let mut empty = App::new(FeedDb::new());
    assert_eq!(empty.item_selected, None);
    empty.focus = Focus::Items;
    empty.move_selection(1);
    assert_eq!(empty.item_selected, None);
}

#[test]
fn ensure_item_selection_clamps() {
    let mut app = App::new(FeedDb::new());
    app.ensure_item_selection(3);
    assert_eq!(app.item_selected, Some(0));
    app.item_selected = Some(7);
    app.ensure_item_selection(3);
    assert_eq!(app.item_selected, Some(2));
    app.ensure_item_selection(0);
    assert_eq!(app.item_selected, None);
}

#[test]
fn upsert_twice_equals_once() {
    let mut db = FeedDb::new();
    db.feeds.push(feed(Some("Other"), "https://o", vec![]));
    let make = || vec![item("e1", Some("2024-01-01T00:00:00Z")), item("e2", None)];
    let first = db.upsert("https://n".to_string(), Some("N".to_string()), make());
    let second = db.upsert("https://n".to_string(), Some("N".to_string()), make());
    assert_eq!(first, 1);
    assert_eq!(second, 1);
    assert_eq!(db.feeds.len(), 2);
    assert_eq!(db.feeds[1].title.as_deref(), Some("N"));
    assert_eq!(db.feeds[1].items.len(), 2);
    assert_eq!(db.feeds[1].items[0].title, "e1");
    let replaced = db.upsert("https://o".to_string(), None, vec![item("fresh", None)]);
    assert_eq!(replaced, 0);
    assert_eq!(db.feeds.len(), 2);
    assert_eq!(db.feeds[0].title, None);
    assert_eq!(db.feeds[0].items.len(), 1);
    assert_eq!(db.feeds[0].items[0].title, "fresh");
}

#[test]
fn find_and_remove() {
    let mut db = FeedDb::new();
    db.upsert("https://a".to_string(), None, vec![]);
    db.upsert("https://b".to_string(), None, vec![]);
    assert_eq!(db.find_feed(&"https://b".to_string()), Some(1));
    assert_eq!(db.find_feed(&"https://c".to_string()), None);
    assert!(db.remove(5).is_none());
    assert_eq!(db.len(), 2);
    let gone = db.remove(0).unwrap();
    assert_eq!(gone.url, "https://a");
    assert_eq!(db.len(), 1);
}

#[test]
fn merged_view_is_stable_for_equal_instants_and_bad_dates() {
    let app = app_with(vec![
        feed(
            Some("A"),
            "https://a",
            vec![
                item("a-bad", Some("yesterday")),
                item("a-noon", Some("2024-01-01T12:00:00Z")),
                item("a-none", None),
            ],
        ),
        feed(
            None,
            "https://b",
            vec![
                item("b-noon", Some("2024-01-01T13:00:00+01:00")),
                item("b-late", Some("2024-01-01T12:00:00.5Z")),
            ],
        ),
    ]);
    assert_eq!(
        titles(&app),
        vec!["b-late", "a-noon", "b-noon", "a-bad", "a-none"]
    );
    assert_eq!(app.current_items()[2].feed_title, "Untitled");
}

#[test]
fn escape_backspace_and_control_keys_in_url_entry() {
    let mut app = App::new(FeedDb::new());
    press(&mut app, KeyCode::Char('a'));
    type_text(&mut app, "abc");
    press(&mut app, KeyCode::Backspace);
    assert_eq!(app.input, "ab");
    app.handle_key(KeyEvent { code: KeyCode::Char('x'), ctrl: true });
    assert_eq!(app.input, "ab");
    press(&mut app, KeyCode::Tab);
    assert_eq!(app.input, "ab");
    assert!(matches!(press(&mut app, KeyCode::Esc), Command::Continue));
    assert_eq!(app.mode, Mode::Normal);
    assert_eq!(app.input, "");
    assert_eq!(app.status, "Add cancelled.");
    press(&mut app, KeyCode::Char('a'));
    press(&mut app, KeyCode::Backspace);
    assert_eq!(app.input, "");
}

#[test]
fn quit_keys_in_normal_mode() {
    let mut app = App::new(FeedDb::new());
    assert!(matches!(press(&mut app, KeyCode::Char('q')), Command::Quit));
    assert!(matches!(press(&mut app, KeyCode::Esc), Command::Quit));
    assert!(matches!(press(&mut app, KeyCode::Char('z')), Command::Continue));
    assert!(matches!(press(&mut app, KeyCode::Other), Command::Continue));
}

#[test]
fn refresh_selected_feed_and_fetch_failure() {
    let mut app = app_with(vec![feed(Some("A"), "https://a", vec![item("old", None)])]);
    app.move_selection(1);
    let url = match press(&mut app, KeyCode::Char('r')) {
        Command::Fetch(u, FetchPurpose::Refresh) => u,
        other => panic!("unexpected {:?}", other),
    };
    assert_eq!(url, "https://a");
    assert!(!app.apply_fetch(url.clone(), FetchPurpose::Refresh, Err("boom".to_string())));
    assert_eq!(app.status, "Error: boom");
    assert_eq!(app.db.feeds[0].items[0].title, "old");
    assert!(app.apply_fetch(url, FetchPurpose::Refresh, Ok((None, vec![item("new", None)]))));
    assert_eq!(app.status, "Refreshed https://a");
    assert_eq!(app.db.feeds.len(), 1);
    assert_eq!(app.db.feeds[0].title, None);
    assert_eq!(app.db.feeds[0].items[0].title, "new");
}

#[test]
fn delete_on_all_feeds_asks_for_a_feed() {
    let mut app = app_with(vec![feed(Some("A"), "https://a", vec![])]);
    assert!(matches!(press(&mut app, KeyCode::Char('d')), Command::Continue));
    assert_eq!(app.status, "Select a feed to delete.");
    assert_eq!(app.db.feeds.len(), 1);
}

#[test]
fn delete_selects_the_next_or_last_feed() {
    let mut app = app_with(vec![
        feed(Some("A"), "https://a", vec![]),
        feed(Some("B"), "https://b", vec![item("b", None)]),
        feed(Some("C"), "https://c", vec![]),
    ]);
    app.move_selection(1);
    assert!(matches!(press(&mut app, KeyCode::Char('d')), Command::Save));
    assert_eq!(app.feed_selected, 1);
    assert_eq!(app.db.feeds[0].url, "https://b");
    assert_eq!(app.item_selected, Some(0));
    app.move_selection(1);
    assert_eq!(app.feed_selected, 2);
    press(&mut app, KeyCode::Char('d'));
    assert_eq!(app.feed_selected, 1);
    assert_eq!(app.db.feeds.len(), 1);
    assert_eq!(app.db.feeds[0].url, "https://b");
}

#[test]
fn selected_feed_and_all_flag() {
    let mut app = app_with(vec![feed(Some("A"), "https://a", vec![])]);
    assert!(app.is_all_selected());
    assert_eq!(app.selected_feed(), None);
    app.move_selection(1);
    assert!(!app.is_all_selected());
    assert_eq!(app.selected_feed(), Some(0));
    assert_eq!(app.current_items_count(), 0);
}

#[test]
fn clamp_index_bounds() {
    assert_eq!(clamp_index(-3, 4), 0);
    assert_eq!(clamp_index(2, 4), 2);
    assert_eq!(clamp_index(9, 4), 3);
    assert_eq!(clamp_index(5, 0), 0);
    assert_eq!(clamp_index(-1, 0), 0);
}
