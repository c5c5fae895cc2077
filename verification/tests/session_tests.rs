use logscraper::filters::{DateFilter, DateFilterType, Filter, SearchFilter};
use logscraper::logline::Order;
use logscraper::registry::{Memory, Path};
use logscraper::session::{App, DateField, FilterType, Key, Modal, Mode, Screen};

const FMT: &str = "%Y-%m-%dT%H:%M:%S%z";

fn ms(s: &str) -> i64 {
    chrono::DateTime::parse_from_str(s, FMT)
        .expect("test date must parse")
        .timestamp_millis()
}

fn fresh() -> App {
    App::new(Memory::empty())
}

#[test]
fn new_session_defaults() {
    let app = fresh();
    assert_eq!(app.cur_screen, Screen::Main);
    assert_eq!(app.cur_mode, Mode::Page);
    assert_eq!(app.cur_order, Order::OrderByDate);
    assert_eq!(app.cur_size, 30);
    assert_eq!(app.cur_page, 1);
    assert!(app.needs_refresh);
    assert!(!app.exit_approved);
}

#[test]
fn mode_toggle_cycles_page_and_tail() {
    let mut app = fresh();
    app.handle(Key::Char('m'));
    assert_eq!(app.cur_mode, Mode::Tail);
    app.handle(Key::Char(' '));
    assert_eq!(app.cur_mode, Mode::Stopped);
    app.handle(Key::Char(' '));
    assert_eq!(app.cur_mode, Mode::Tail);
    app.handle(Key::Char('m'));
    assert_eq!(app.cur_mode, Mode::Page);
    assert!(app.needs_refresh);
}

#[test]
fn order_toggle_marks_page_stale() {
    let mut app = fresh();
    app.clear_refresh();
    app.handle(Key::Char('o'));
    assert_eq!(app.cur_order, Order::OrderByDateReverse);
    assert!(app.needs_refresh);
    app.handle(Key::Char('o'));
    assert_eq!(app.cur_order, Order::OrderByDate);
}

#[test]
fn page_size_is_clamped() {
    let mut app = fresh();
    app.handle(Key::Char('-'));
    assert_eq!(app.cur_size, 25);
    for _ in 0..10 {
        app.handle(Key::Char('-'));
    }
    assert_eq!(app.cur_size, 5);
    for _ in 0..300 {
        app.handle(Key::Char('+'));
    }
    assert_eq!(app.cur_size, 1000);
}

#[test]
fn page_navigation_stays_at_least_one() {
    let mut app = fresh();
    app.handle(Key::Char('h'));
    assert_eq!(app.cur_page, 1);
    app.handle(Key::Char('j'));
    app.handle(Key::Char('j'));
    assert_eq!(app.cur_page, 3);
    app.handle(Key::Char('h'));
    assert_eq!(app.cur_page, 2);
}

#[test]
fn page_offset_is_pages_before_times_size() {
    let mut app = fresh();
    assert_eq!(app.page_offset(), 0);
    app.handle(Key::Char('j'));
    assert_eq!(app.page_offset(), 30);
    app.handle(Key::Char('j'));
    assert_eq!(app.page_offset(), 60);
}

#[test]
fn exit_screen_confirms_or_returns() {
    let mut app = fresh();
    app.handle(Key::Char('q'));
    assert_eq!(app.cur_screen, Screen::Exit);
    app.handle(Key::Char('n'));
    assert_eq!(app.cur_screen, Screen::Main);
    assert!(!app.exit_approved);
    app.handle(Key::Char('q'));
    app.handle(Key::Char('y'));
    assert!(app.exit_approved);
}

#[test]
fn config_screen_adds_selects_and_deletes_paths() {
    let mut app = fresh();
    app.handle(Key::Char('p'));
    assert_eq!(app.cur_screen, Screen::Additional);
    assert_eq!(app.cur_modal, Some(Modal::Path));

    app.handle(Key::Char('a'));
    assert_eq!(app.memory.paths.len(), 1);
    assert_eq!(app.selected_index, Some(0));

    app.handle(Key::Char('a'));
    assert_eq!(app.memory.paths.len(), 2);
    assert_eq!(app.selected_index, Some(1));

    app.handle(Key::Up);
    assert_eq!(app.selected_index, Some(0));
    app.handle(Key::Up);
    assert_eq!(app.selected_index, Some(1));
    app.handle(Key::Down);
    assert_eq!(app.selected_index, Some(0));

    app.handle(Key::Char('d'));
    assert_eq!(app.memory.paths.len(), 1);
    assert_eq!(app.selected_index, Some(0));
    app.handle(Key::Char('d'));
    assert_eq!(app.memory.paths.len(), 0);
    assert_eq!(app.selected_index, None);
}

#[test]
fn editing_a_path_types_into_the_buffer() {
    let mut app = fresh();
    app.memory.add_path(Path::new("/old".to_string(), "/old".to_string()));
    app.handle(Key::Char('p'));
    app.handle(Key::Down);
    app.handle(Key::Enter);
    assert!(app.editing_mode);
    assert_eq!(app.edit_buffer, "/old");

    app.handle(Key::Backspace);
    app.handle(Key::Char('k'));
    assert_eq!(app.edit_buffer, "/olk");

    app.handle(Key::Enter);
    assert!(!app.editing_mode);
    assert_eq!(app.memory.paths[0].path, "/olk");
    assert_eq!(app.memory.paths[0].name, "/olk");
    assert_eq!(app.edit_buffer, "");
}

#[test]
fn quitting_the_config_screen_requests_a_save() {
    let mut app = fresh();
    app.handle(Key::Char('f'));
    let save = app.handle(Key::Char('q'));
    assert!(save);
    assert_eq!(app.cur_screen, Screen::Main);
    assert_eq!(app.cur_modal, None);
    assert_eq!(app.selected_index, None);
}

#[test]
fn filter_editor_commits_a_substring_filter() {
    let mut app = fresh();
    app.handle(Key::Char('f'));
    app.handle(Key::Char('a'));
    assert_eq!(app.memory.filters.len(), 1);
    app.handle(Key::Enter);
    assert!(app.editing_mode);
    for c in "test".chars() {
        app.handle(Key::Char(c));
    }
    app.handle(Key::Enter);
    match &app.memory.filters[0] {
        Filter::Search(f) => assert_eq!(f.substr, "test"),
        _ => panic!("the committed filter must be a substring filter"),
    }
}

#[test]
fn digit_keys_pick_the_filter_kind() {
    let mut app = fresh();
    app.handle(Key::Char('f'));
    assert_eq!(app.filter_type, FilterType::Search);
    app.handle(Key::Char('2'));
    assert_eq!(app.filter_type, FilterType::Regex);
    app.handle(Key::Char('3'));
    assert_eq!(app.filter_type, FilterType::Date);
    assert_eq!(app.date_filter_type, DateFilterType::Between);
    assert_eq!(app.editing_date_field, DateField::Start);
    app.handle(Key::Char('1'));
    assert_eq!(app.date_filter_type, DateFilterType::Before);
    app.handle(Key::Char('2'));
    assert_eq!(app.date_filter_type, DateFilterType::After);
}

#[test]
fn opening_a_date_filter_formats_its_bounds() {
    let mut app = fresh();
    app.memory.add_filter(Filter::Date(DateFilter {
        date_format: FMT.to_string(),
        date_start: Some(ms("2021-10-08T18:27:11+09:00")),
        date_finish: None,
        filter_type: DateFilterType::After,
    }));
    app.handle(Key::Char('f'));
    app.handle(Key::Down);
    app.handle(Key::Enter);
    assert!(app.editing_mode);
    assert_eq!(app.filter_type, FilterType::Date);
    assert_eq!(app.date_filter_type, DateFilterType::After);
    assert_eq!(app.date_start_buffer, "2021-10-08T09:27:11+0000");
    assert_eq!(app.date_finish_buffer, "");
}

#[test]
fn date_editor_commits_parsed_bounds() {
    let mut app = fresh();
    app.memory.add_filter(Filter::Search(SearchFilter { substr: "x".to_string() }));
    app.handle(Key::Char('f'));
    app.handle(Key::Down);
    app.handle(Key::Enter);
    assert!(app.editing_mode);
    app.handle(Key::Tab);
    app.handle(Key::Tab);
    assert_eq!(app.filter_type, FilterType::Date);
    assert_eq!(app.editing_date_field, DateField::Start);
    for c in "2021-10-08T18:27:11+0900".chars() {
        app.handle(Key::Char(c));
    }
    assert_eq!(app.date_start_buffer, "2021-10-08T18:27:11+0900");
    app.handle(Key::Enter);
    match &app.memory.filters[0] {
        Filter::Date(d) => {
            assert_eq!(d.date_format, FMT);
            assert_eq!(d.date_start, Some(ms("2021-10-08T18:27:11+0900")));
            assert_eq!(d.date_finish, None);
            assert_eq!(d.filter_type, DateFilterType::Between);
        },
        _ => panic!("the committed filter must be a date filter"),
    }
    assert_eq!(app.date_start_buffer, "");
}

#[test]
fn tab_cycles_the_edited_filter_kind() {
    let mut app = fresh();
    app.memory.add_filter(Filter::Search(SearchFilter { substr: "seed".to_string() }));
    app.handle(Key::Char('f'));
    app.handle(Key::Down);
    app.handle(Key::Enter);
    assert_eq!(app.filter_type, FilterType::Search);
    app.handle(Key::Tab);
    assert_eq!(app.filter_type, FilterType::Regex);
    match &app.memory.filters[0] {
        Filter::Regex(f) => assert_eq!(f.pattern, "seed"),
        _ => panic!("tab must commit the intermediate regex"),
    }
    app.handle(Key::Tab);
    assert_eq!(app.filter_type, FilterType::Date);
    assert_eq!(app.editing_date_field, DateField::Start);
    app.handle(Key::Tab);
    assert_eq!(app.editing_date_field, DateField::Finish);
    app.handle(Key::Tab);
    assert_eq!(app.filter_type, FilterType::Search);
    match &app.memory.filters[0] {
        Filter::Date(d) => {
            assert_eq!(d.date_start, None);
            assert_eq!(d.date_finish, None);
        },
        _ => panic!("tab from the finish bound must commit the date filter"),
    }
}

#[test]
fn update_logs_appends_in_order() {
    let mut app = fresh();
    app.update_logs(&vec!["a".to_string(), "b".to_string()]);
    app.update_logs(&vec!["c".to_string()]);
    assert_eq!(app.logs, vec!["a".to_string(), "b".to_string(), "c".to_string()]);
}

#[test]
fn sync_refresh_detects_configuration_edits() {
    let mut app = fresh();
    app.clear_refresh();
    app.sync_refresh();
    assert!(!app.needs_refresh);

    app.memory.add_path(Path::new("/a".to_string(), "a".to_string()));
    app.sync_refresh();
    assert!(app.needs_refresh);
    assert_eq!(app.last_paths_count, 1);

    app.clear_refresh();
    app.sync_refresh();
    assert!(!app.needs_refresh);
    assert!(app.should_refresh() == false);
}

#[test]
fn configuration_edit_forces_paged_mode_from_any_mode() {
    let mut app = fresh();
    app.handle(Key::Char('m'));
    assert_eq!(app.cur_mode, Mode::Tail);
    app.clear_refresh();

    app.memory.add_filter(Filter::Search(SearchFilter { substr: "x".to_string() }));
    app.sync_refresh();
    assert_eq!(app.cur_mode, Mode::Page);
    assert!(app.needs_refresh);
    assert_eq!(app.last_filters_count, 1);
}

#[test]
fn screen_texts() {
    assert_eq!(
        Screen::Main.keys_hint(),
        "(q) - quit / (f/p) - add [filter/path] / (o/m) - change [order/mode]"
    );
    assert_eq!(Screen::Additional.keys_hint(), "(q) - quit to Main / ");
    assert_eq!(Screen::Exit.keys_hint(), "(y) - quit / (Any) - back to Main ");
    assert_eq!(Modal::Filter.title(), "Create a new filter");
    assert_eq!(Modal::Path.title(), "Create a new path");
    assert_eq!(Mode::Page.nav_text(), "Page Mode");
    assert_eq!(Mode::Tail.nav_text(), "Tail Mode");
    assert_eq!(Mode::Stopped.nav_text(), "Stopped");
    assert_eq!(Order::OrderByDate.order_text(), "ASC Order");
    assert_eq!(Order::OrderByDateReverse.order_text(), "DESC Order");
}
