//! The session state machine: the current mode, screen and request
//! parameters, and the exhaustive transition relation that every key press
//! drives. The caller performs the outside work the transitions call for
//! (persisting the configuration, starting or stopping the tail).

use vstd::prelude::*;

use crate::filters::{parse_instant, DateFilter, DateFilterType, Filter, RegexFilter, SearchFilter};
use crate::logline::Order;
use crate::registry::{Memory, Path};

verus! {

/// Which pipeline feeds the display.
#[derive(Clone, Copy, Debug, PartialEq, Eq, Structural)]
pub enum Mode {
    Page,
    Tail,
    Stopped,
}

/// Which screen has the keyboard.
#[derive(Clone, Copy, Debug, PartialEq, Eq, Structural)]
pub enum Screen {
    Main,
    Additional,
    Exit,
}

/// Which list the configuration screen is editing.
#[derive(Clone, Copy, Debug, PartialEq, Eq, Structural)]
pub enum Modal {
    Filter,
    Path,
}

/// Which date bound of a date filter is being typed.
#[derive(Clone, Copy, Debug, PartialEq, Eq, Structural)]
pub enum DateField {
    Start,
    Finish,
    Inactive,
}

/// Which kind of filter the editor is building.
#[derive(Clone, Copy, Debug, PartialEq, Eq, Structural)]
pub enum FilterType {
    Date,
    Regex,
    Search,
}

/// One key press, as the session understands it.
#[derive(Clone, Copy, Debug, PartialEq, Eq, Structural)]
pub enum Key {
    Char(char),
    Enter,
    Backspace,
    Esc,
    Tab,
    Up,
    Down,
    Other,
}

/// The canonical timestamp format used for typed and displayed date bounds.
pub open spec fn date_fmt() -> Seq<char> {
    "%Y-%m-%dT%H:%M:%S%z"@
}

/// What formatting an instant (milliseconds since the Unix epoch) with a
/// format string yields.
pub uninterp spec fn format_instant(t: i64, fmt: Seq<char>) -> Seq<char>;

/// Relies on chrono's DateTime::from_timestamp_millis and format: the text is
/// a function of the instant and the format alone; an instant outside
/// chrono's range yields the empty string.
#[verifier::external_body]
fn format_instant_utc(t: i64, fmt: &str) -> (r: String)
    requires
        fmt@ == "%Y-%m-%dT%H:%M:%S%z"@,
    ensures
        r@ == format_instant(t, fmt@),
{
    match chrono::DateTime::<chrono::Utc>::from_timestamp_millis(t) {
        Some(d) => d.format(fmt).to_string(),
        None => String::new(),
    }
}

/// Relies on String::push: appends one character.
#[verifier::external_body]
fn push_char(s: &mut String, c: char)
    ensures
        final(s)@ == old(s)@.push(c),
{
    s.push(c);
}

/// Relies on String::pop: removes the last character, if any.
#[verifier::external_body]
fn pop_char(s: &mut String)
    ensures
        old(s)@.len() == 0 ==> final(s)@ == old(s)@,
        old(s)@.len() > 0 ==> final(s)@ == old(s)@.drop_last(),
{
    s.pop();
}

/// The whole interactive state of one session.
pub struct App {
    pub cur_screen: Screen,
    pub cur_modal: Option<Modal>,
    pub cur_order: Order,
    pub cur_mode: Mode,
    pub cur_size: usize,
    pub cur_page: usize,
    pub exit_approved: bool,
    pub logs: Vec<String>,
    pub memory: Memory,
    pub selected_index: Option<usize>,
    pub editing_mode: bool,
    pub edit_buffer: String,
    pub filter_type: FilterType,
    pub date_filter_type: DateFilterType,
    pub date_start_buffer: String,
    pub date_finish_buffer: String,
    pub editing_date_field: DateField,
    pub needs_refresh: bool,
    pub last_order: Order,
    pub last_mode: Mode,
    pub last_size: usize,
    pub last_paths_count: usize,
    pub last_filters_count: usize,
}

// ---------------------------------------------------------------------------
// The main screen's transitions
// ---------------------------------------------------------------------------

/// The other sort order.
pub open spec fn toggle_order(o: Order) -> Order {
    if o == Order::OrderByDate {
        Order::OrderByDateReverse
    } else {
        Order::OrderByDate
    }
}

/// The mode after a mode-toggle command.
pub open spec fn next_mode(m: Mode) -> Mode {
    match m {
        Mode::Page => Mode::Tail,
        Mode::Tail => Mode::Page,
        Mode::Stopped => Mode::Page,
    }
}

/// The page size after a grow command: five more, capped at 1000.
pub open spec fn grown_size(s: int) -> int {
    if s + 5 <= 1000 {
        s + 5
    } else {
        1000
    }
}

/// The page size after a shrink command: five less, floored at 5.
pub open spec fn shrunk_size(s: int) -> int {
    if s >= 10 {
        s - 5
    } else {
        5
    }
}

/// The state after one key on the main screen. Order, mode, page size and
/// page number commands that take effect in `Page` mode mark the page stale.
pub open spec fn main_step(s: App, key: Key) -> App {
    match key {
        Key::Char(c) => if c == 'q' {
            App { cur_screen: Screen::Exit, ..s }
        } else if c == 'p' {
            App { cur_screen: Screen::Additional, cur_modal: Some(Modal::Path), ..s }
        } else if c == 'f' {
            App { cur_screen: Screen::Additional, cur_modal: Some(Modal::Filter), ..s }
        } else if c == 'o' {
            App {
                cur_order: toggle_order(s.cur_order),
                needs_refresh: if s.cur_mode == Mode::Page {
                    true
                } else {
                    s.needs_refresh
                },
                ..s
            }
        } else if c == 'm' {
            App {
                cur_mode: next_mode(s.cur_mode),
                needs_refresh: if next_mode(s.cur_mode) == Mode::Page {
                    true
                } else {
                    s.needs_refresh
                },
                ..s
            }
        } else if s.cur_mode == Mode::Page {
            if c == '+' {
                App { cur_size: grown_size(s.cur_size as int) as usize, needs_refresh: true, ..s }
            } else if c == '-' {
                App { cur_size: shrunk_size(s.cur_size as int) as usize, needs_refresh: true, ..s }
            } else if c == 'j' {
                App {
                    cur_page: if s.cur_page < usize::MAX {
                        (s.cur_page + 1) as usize
                    } else {
                        s.cur_page
                    },
                    needs_refresh: true,
                    ..s
                }
            } else if c == 'h' {
                App {
                    cur_page: if s.cur_page > 1 {
                        (s.cur_page - 1) as usize
                    } else {
                        s.cur_page
                    },
                    needs_refresh: true,
                    ..s
                }
            } else {
                s
            }
        } else if c == ' ' {
            match s.cur_mode {
                Mode::Tail => App { cur_mode: Mode::Stopped, ..s },
                Mode::Stopped => App { cur_mode: Mode::Tail, ..s },
                Mode::Page => s,
            }
        } else {
            s
        },
        Key::Enter => if s.cur_mode == Mode::Page {
            App { needs_refresh: true, ..s }
        } else {
            s
        },
        _ => s,
    }
}

/// The state after one key on the exit screen: `y` approves leaving,
/// anything else returns to the main screen.
pub open spec fn exit_step(s: App, key: Key) -> App {
    match key {
        Key::Char(c) => if c == 'y' {
            App { exit_approved: true, ..s }
        } else {
            App { cur_screen: Screen::Main, ..s }
        },
        _ => App { cur_screen: Screen::Main, ..s },
    }
}

// ---------------------------------------------------------------------------
// The configuration screen's transitions
// ---------------------------------------------------------------------------

/// The bound a typed buffer stands for: absent when the buffer is empty or
/// does not parse with the canonical format.
pub open spec fn parsed_bound(buf: String) -> Option<i64> {
    if buf@.len() == 0 {
        None
    } else {
        parse_instant(buf@, date_fmt())
    }
}

/// Whether `f` is a date filter with the canonical format and exactly these
/// bounds and relation kind.
pub open spec fn is_committed_date(
    f: Filter,
    ds: Option<i64>,
    df: Option<i64>,
    ft: DateFilterType,
) -> bool {
    match f {
        Filter::Date(d) => d.date_format@ == date_fmt() && d.date_start == ds && d.date_finish
            == df && d.filter_type == ft,
        _ => false,
    }
}

/// The fields no configuration-screen key touches.
pub open spec fn same_display(a: App, b: App) -> bool {
    &&& b.cur_order == a.cur_order
    &&& b.cur_mode == a.cur_mode
    &&& b.cur_size == a.cur_size
    &&& b.cur_page == a.cur_page
    &&& b.exit_approved == a.exit_approved
    &&& b.logs == a.logs
    &&& b.needs_refresh == a.needs_refresh
    &&& b.last_order == a.last_order
    &&& b.last_mode == a.last_mode
    &&& b.last_size == a.last_size
    &&& b.last_paths_count == a.last_paths_count
    &&& b.last_filters_count == a.last_filters_count
}

pub open spec fn same_memory(a: App, b: App) -> bool {
    b.memory.paths@ == a.memory.paths@ && b.memory.filters@ == a.memory.filters@
}

pub open spec fn same_nav(a: App, b: App) -> bool {
    b.cur_screen == a.cur_screen && b.cur_modal == a.cur_modal
}

/// What committing the editor (Enter while editing) does to the lists: the
/// selected path becomes the typed text (as both path and name); the
/// selected filter becomes the filter the editor describes; an absent
/// selection, or one out of range, changes nothing.
pub open spec fn commit_memory(pre: App, post: App) -> bool {
    match (pre.cur_modal, pre.selected_index) {
        (Some(Modal::Path), Some(i)) => if i < pre.memory.paths@.len() {
            post.memory.paths@ == pre.memory.paths@.update(
                i as int,
                Path { path: pre.edit_buffer, name: pre.edit_buffer },
            ) && post.memory.filters@ == pre.memory.filters@
        } else {
            same_memory(pre, post)
        },
        (Some(Modal::Filter), Some(i)) => if i < pre.memory.filters@.len() {
            post.memory.paths@ == pre.memory.paths@ && match pre.filter_type {
                FilterType::Search => post.memory.filters@ == pre.memory.filters@.update(
                    i as int,
                    Filter::Search(SearchFilter { substr: pre.edit_buffer }),
                ),
                FilterType::Regex => post.memory.filters@ == pre.memory.filters@.update(
                    i as int,
                    Filter::Regex(RegexFilter { pattern: pre.edit_buffer }),
                ),
                FilterType::Date => {
                    &&& post.memory.filters@.len() == pre.memory.filters@.len()
                    &&& (forall|k: int|
                        0 <= k < pre.memory.filters@.len() && k != i
                            ==> post.memory.filters@[k] == pre.memory.filters@[k])
                    &&& is_committed_date(
                        post.memory.filters@[i as int],
                        parsed_bound(pre.date_start_buffer),
                        parsed_bound(pre.date_finish_buffer),
                        pre.date_filter_type,
                    )
                },
            }
        } else {
            same_memory(pre, post)
        },
        _ => same_memory(pre, post),
    }
}

/// The relation between the states before and after one key while the
/// editor is open.
pub open spec fn edit_step(pre: App, post: App, key: Key) -> bool {
    same_display(pre, post) && same_nav(pre, post) && match key {
        Key::Enter => {
            &&& commit_memory(pre, post)
            &&& post.selected_index == pre.selected_index
            &&& post.filter_type == pre.filter_type
            &&& post.date_filter_type == pre.date_filter_type
            &&& !post.editing_mode
            &&& post.edit_buffer@.len() == 0
            &&& post.date_start_buffer@.len() == 0
            &&& post.date_finish_buffer@.len() == 0
            &&& post.editing_date_field == DateField::Inactive
        },
        Key::Char(c) => {
            &&& same_memory(pre, post)
            &&& post.selected_index == pre.selected_index
            &&& post.editing_mode == pre.editing_mode
            &&& post.filter_type == pre.filter_type
            &&& post.date_filter_type == pre.date_filter_type
            &&& post.editing_date_field == pre.editing_date_field
            &&& if pre.filter_type == FilterType::Date && pre.editing_date_field
                == DateField::Start {
                &&& post.date_start_buffer@ == pre.date_start_buffer@.push(c)
                &&& post.date_finish_buffer == pre.date_finish_buffer
                &&& post.edit_buffer == pre.edit_buffer
            } else if pre.filter_type == FilterType::Date && pre.editing_date_field
                == DateField::Finish {
                &&& post.date_start_buffer == pre.date_start_buffer
                &&& post.date_finish_buffer@ == pre.date_finish_buffer@.push(c)
                &&& post.edit_buffer == pre.edit_buffer
            } else {
                &&& post.date_start_buffer == pre.date_start_buffer
                &&& post.date_finish_buffer == pre.date_finish_buffer
                &&& post.edit_buffer@ == pre.edit_buffer@.push(c)
            }
        },
        Key::Backspace => {
            &&& same_memory(pre, post)
            &&& post.selected_index == pre.selected_index
            &&& post.editing_mode == pre.editing_mode
            &&& post.filter_type == pre.filter_type
            &&& post.date_filter_type == pre.date_filter_type
            &&& post.editing_date_field == pre.editing_date_field
            &&& if pre.filter_type == FilterType::Date && pre.editing_date_field
                == DateField::Start {
                &&& post.date_start_buffer@ == (if pre.date_start_buffer@.len() == 0 {
                    pre.date_start_buffer@
                } else {
                    pre.date_start_buffer@.drop_last()
                })
                &&& post.date_finish_buffer == pre.date_finish_buffer
                &&& post.edit_buffer == pre.edit_buffer
            } else if pre.filter_type == FilterType::Date && pre.editing_date_field
                == DateField::Finish {
                &&& post.date_start_buffer == pre.date_start_buffer
                &&& post.date_finish_buffer@ == (if pre.date_finish_buffer@.len() == 0 {
                    pre.date_finish_buffer@
                } else {
                    pre.date_finish_buffer@.drop_last()
                })
                &&& post.edit_buffer == pre.edit_buffer
            } else {
                &&& post.date_start_buffer == pre.date_start_buffer
                &&& post.date_finish_buffer == pre.date_finish_buffer
                &&& post.edit_buffer@ == (if pre.edit_buffer@.len() == 0 {
                    pre.edit_buffer@
                } else {
                    pre.edit_buffer@.drop_last()
                })
            }
        },
        Key::Esc => {
            &&& same_memory(pre, post)
            &&& post.selected_index == pre.selected_index
            &&& !post.editing_mode
            &&& post.edit_buffer@.len() == 0
            &&& post.filter_type == pre.filter_type
            &&& post.date_filter_type == pre.date_filter_type
            &&& post.date_start_buffer == pre.date_start_buffer
            &&& post.date_finish_buffer == pre.date_finish_buffer
            &&& post.editing_date_field == pre.editing_date_field
        },
        Key::Tab => tab_step(pre, post),
        _ => post == pre,
    }
}

/// What Tab does while editing: it cycles the filter kind being built,
/// committing the intermediate value to the selected filter slot, or moves
/// between the two date bounds.
pub open spec fn tab_step(pre: App, post: App) -> bool {
    if pre.cur_modal is Some && pre.selected_index is Some && pre.selected_index->0
        < pre.memory.filters@.len() {
        let i = pre.selected_index->0;
        match pre.filter_type {
            FilterType::Search => {
                &&& post.memory.paths@ == pre.memory.paths@
                &&& post.memory.filters@ == pre.memory.filters@.update(
                    i as int,
                    Filter::Regex(RegexFilter { pattern: pre.edit_buffer }),
                )
                &&& post.selected_index == pre.selected_index
                &&& post.editing_mode == pre.editing_mode
                &&& post.edit_buffer == pre.edit_buffer
                &&& post.filter_type == FilterType::Regex
                &&& post.date_filter_type == pre.date_filter_type
                &&& post.date_start_buffer == pre.date_start_buffer
                &&& post.date_finish_buffer == pre.date_finish_buffer
                &&& post.editing_date_field == pre.editing_date_field
            },
            FilterType::Regex => {
                &&& post.memory.paths@ == pre.memory.paths@
                &&& post.memory.filters@.len() == pre.memory.filters@.len()
                &&& (forall|k: int|
                    0 <= k < pre.memory.filters@.len() && k != i ==> post.memory.filters@[k]
                        == pre.memory.filters@[k])
                &&& is_committed_date(
                    post.memory.filters@[i as int],
                    None,
                    None,
                    DateFilterType::Between,
                )
                &&& post.selected_index == pre.selected_index
                &&& post.editing_mode == pre.editing_mode
                &&& post.edit_buffer == pre.edit_buffer
                &&& post.filter_type == FilterType::Date
                &&& post.date_filter_type == DateFilterType::Between
                &&& post.date_start_buffer@.len() == 0
                &&& post.date_finish_buffer@.len() == 0
                &&& post.editing_date_field == DateField::Start
            },
            FilterType::Date => match pre.editing_date_field {
                DateField::Start => {
                    &&& same_memory(pre, post)
                    &&& same_editor_except_date_field(pre, post)
                    &&& post.editing_date_field == DateField::Finish
                },
                DateField::Finish => {
                    &&& post.memory.paths@ == pre.memory.paths@
                    &&& post.memory.filters@.len() == pre.memory.filters@.len()
                    &&& (forall|k: int|
                        0 <= k < pre.memory.filters@.len() && k != i ==> post.memory.filters@[k]
                            == pre.memory.filters@[k])
                    &&& is_committed_date(
                        post.memory.filters@[i as int],
                        parsed_bound(pre.date_start_buffer),
                        parsed_bound(pre.date_finish_buffer),
                        pre.date_filter_type,
                    )
                    &&& post.selected_index == pre.selected_index
                    &&& post.editing_mode == pre.editing_mode
                    &&& post.edit_buffer == pre.edit_buffer
                    &&& post.filter_type == FilterType::Search
                    &&& post.date_filter_type == pre.date_filter_type
                    &&& post.date_start_buffer == pre.date_start_buffer
                    &&& post.date_finish_buffer == pre.date_finish_buffer
                    &&& post.editing_date_field == pre.editing_date_field
                },
                DateField::Inactive => {
                    &&& same_memory(pre, post)
                    &&& same_editor_except_date_field(pre, post)
                    &&& post.editing_date_field == DateField::Start
                },
            },
        }
    } else {
        post == pre
    }
}

pub open spec fn same_editor_except_date_field(a: App, b: App) -> bool {
    &&& b.selected_index == a.selected_index
    &&& b.editing_mode == a.editing_mode
    &&& b.edit_buffer == a.edit_buffer
    &&& b.filter_type == a.filter_type
    &&& b.date_filter_type == a.date_filter_type
    &&& b.date_start_buffer == a.date_start_buffer
    &&& b.date_finish_buffer == a.date_finish_buffer
}

/// The length of the list the open modal edits.
pub open spec fn modal_len(s: App, m: Modal) -> int {
    match m {
        Modal::Path => s.memory.paths@.len() as int,
        Modal::Filter => s.memory.filters@.len() as int,
    }
}

/// The selection after one move up in a nonempty list of length `n`: from
/// the top, or from no selection, it wraps to the bottom.
pub open spec fn moved_up(sel: Option<usize>, n: int) -> Option<usize> {
    match sel {
        Some(i) => if i == 0 {
            Some((n - 1) as usize)
        } else {
            Some((i - 1) as usize)
        },
        None => Some((n - 1) as usize),
    }
}

/// The selection after one move down in a nonempty list of length `n`: from
/// the bottom it wraps to the top; no selection selects the top.
pub open spec fn moved_down(sel: Option<usize>, n: int) -> Option<usize> {
    match sel {
        Some(i) => if i + 1 >= n {
            Some(0usize)
        } else {
            Some((i + 1) as usize)
        },
        None => Some(0usize),
    }
}

/// The selection after deleting index `i` from a list now `new_len` long.
pub open spec fn sel_after_delete(i: int, new_len: int) -> Option<usize> {
    if new_len == 0 {
        None
    } else if i >= new_len {
        Some((new_len - 1) as usize)
    } else {
        Some(i as usize)
    }
}

/// The relation between the states before and after one key on the
/// configuration screen while not editing; `save` says whether the key asks
/// the caller to persist the configuration.
pub open spec fn browse_step(pre: App, post: App, key: Key, save: bool) -> bool {
    same_display(pre, post) && match key {
        Key::Char(c) => if c == 'q' {
            save && post == (App {
                cur_screen: Screen::Main,
                cur_modal: None,
                selected_index: None,
                ..pre
            })
        } else if c == 'a' {
            !save && same_nav(pre, post) && match pre.cur_modal {
                Some(Modal::Path) => {
                    &&& post.memory.filters@ == pre.memory.filters@
                    &&& post.memory.paths@.len() == pre.memory.paths@.len() + 1
                    &&& (forall|k: int|
                        0 <= k < pre.memory.paths@.len() ==> post.memory.paths@[k]
                            == pre.memory.paths@[k])
                    &&& post.memory.paths@.last().path@.len() == 0
                    &&& post.memory.paths@.last().name@.len() == 0
                    &&& post.selected_index == Some(pre.memory.paths@.len() as usize)
                    &&& same_editor_after_select(pre, post)
                },
                Some(Modal::Filter) => {
                    &&& post.memory.paths@ == pre.memory.paths@
                    &&& post.memory.filters@.len() == pre.memory.filters@.len() + 1
                    &&& (forall|k: int|
                        0 <= k < pre.memory.filters@.len() ==> post.memory.filters@[k]
                            == pre.memory.filters@[k])
                    &&& (post.memory.filters@.last() matches Filter::Search(f)
                        && f.substr@.len() == 0)
                    &&& post.selected_index == Some(pre.memory.filters@.len() as usize)
                    &&& same_editor_after_select(pre, post)
                },
                None => post == pre,
            }
        } else if c == 'd' {
            !save && same_nav(pre, post) && match (pre.cur_modal, pre.selected_index) {
                (Some(Modal::Path), Some(i)) => if i < pre.memory.paths@.len() {
                    &&& post.memory.filters@ == pre.memory.filters@
                    &&& post.memory.paths@ == pre.memory.paths@.remove(i as int)
                    &&& post.selected_index == sel_after_delete(
                        i as int,
                        pre.memory.paths@.len() - 1,
                    )
                    &&& same_editor_after_select(pre, post)
                } else {
                    post == pre
                },
                (Some(Modal::Filter), Some(i)) => if i < pre.memory.filters@.len() {
                    &&& post.memory.paths@ == pre.memory.paths@
                    &&& post.memory.filters@ == pre.memory.filters@.remove(i as int)
                    &&& post.selected_index == sel_after_delete(
                        i as int,
                        pre.memory.filters@.len() - 1,
                    )
                    &&& same_editor_after_select(pre, post)
                } else {
                    post == pre
                },
                _ => post == pre,
            }
        } else if c == '1' {
            !save && (if pre.cur_modal == Some(Modal::Filter) {
                if pre.filter_type == FilterType::Date {
                    post == (App { date_filter_type: DateFilterType::Before, ..pre })
                } else {
                    post == (App { filter_type: FilterType::Search, ..pre })
                }
            } else {
                post == pre
            })
        } else if c == '2' {
            !save && (if pre.cur_modal == Some(Modal::Filter) {
                if pre.filter_type == FilterType::Date {
                    post == (App { date_filter_type: DateFilterType::After, ..pre })
                } else {
                    post == (App { filter_type: FilterType::Regex, ..pre })
                }
            } else {
                post == pre
            })
        } else if c == '3' {
            !save && (if pre.cur_modal == Some(Modal::Filter) {
                if pre.filter_type == FilterType::Date {
                    post == (App { date_filter_type: DateFilterType::Between, ..pre })
                } else {
                    &&& same_nav(pre, post)
                    &&& same_memory(pre, post)
                    &&& post.selected_index == pre.selected_index
                    &&& post.editing_mode == pre.editing_mode
                    &&& post.edit_buffer == pre.edit_buffer
                    &&& post.filter_type == FilterType::Date
                    &&& post.date_filter_type == DateFilterType::Between
                    &&& post.date_start_buffer@.len() == 0
                    &&& post.date_finish_buffer@.len() == 0
                    &&& post.editing_date_field == DateField::Start
                }
            } else {
                post == pre
            })
        } else {
            !save && post == pre
        },
        Key::Up => !save && same_nav(pre, post) && (match pre.cur_modal {
            Some(m) => if modal_len(pre, m) > 0 {
                &&& same_memory(pre, post)
                &&& post.selected_index == moved_up(pre.selected_index, modal_len(pre, m))
                &&& same_editor_after_select(pre, post)
            } else {
                post == pre
            },
            None => post == pre,
        }),
        Key::Down => !save && same_nav(pre, post) && (match pre.cur_modal {
            Some(m) => if modal_len(pre, m) > 0 {
                &&& same_memory(pre, post)
                &&& post.selected_index == moved_down(pre.selected_index, modal_len(pre, m))
                &&& same_editor_after_select(pre, post)
            } else {
                post == pre
            },
            None => post == pre,
        }),
        Key::Enter => !save && match (pre.cur_modal, pre.selected_index) {
            (Some(Modal::Path), Some(i)) => if i < pre.memory.paths@.len() {
                post == (App {
                    edit_buffer: pre.memory.paths@[i as int].path,
                    editing_mode: true,
                    ..pre
                })
            } else {
                post == pre
            },
            (Some(Modal::Filter), Some(i)) => if i < pre.memory.filters@.len() {
                match pre.memory.filters@[i as int] {
                    Filter::Search(f) => post == (App {
                        edit_buffer: f.substr,
                        filter_type: FilterType::Search,
                        editing_mode: true,
                        ..pre
                    }),
                    Filter::Regex(f) => post == (App {
                        edit_buffer: f.pattern,
                        filter_type: FilterType::Regex,
                        editing_mode: true,
                        ..pre
                    }),
                    Filter::Date(f) => {
                        &&& same_nav(pre, post)
                        &&& same_memory(pre, post)
                        &&& post.selected_index == pre.selected_index
                        &&& post.editing_mode
                        &&& post.edit_buffer == pre.edit_buffer
                        &&& post.filter_type == FilterType::Date
                        &&& post.date_filter_type == f.filter_type
                        &&& post.date_start_buffer@ == (match f.date_start {
                            Some(t) => format_instant(t, date_fmt()),
                            None => Seq::<char>::empty(),
                        })
                        &&& post.date_finish_buffer@ == (match f.date_finish {
                            Some(t) => format_instant(t, date_fmt()),
                            None => Seq::<char>::empty(),
                        })
                        &&& post.editing_date_field == DateField::Start
                    },
                }
            } else {
                post == pre
            },
            _ => post == pre,
        },
        _ => !save && post == pre,
    }
}

/// The editor fields a selection move leaves alone.
pub open spec fn same_editor_after_select(a: App, b: App) -> bool {
    &&& b.editing_mode == a.editing_mode
    &&& b.edit_buffer == a.edit_buffer
    &&& b.filter_type == a.filter_type
    &&& b.date_filter_type == a.date_filter_type
    &&& b.date_start_buffer == a.date_start_buffer
    &&& b.date_finish_buffer == a.date_finish_buffer
    &&& b.editing_date_field == a.editing_date_field
}

/// The relation of the whole configuration screen: the editor's relation
/// while editing, the browse relation otherwise.
pub open spec fn additional_step(pre: App, post: App, key: Key, save: bool) -> bool {
    if pre.editing_mode {
        edit_step(pre, post, key) && !save
    } else {
        browse_step(pre, post, key, save)
    }
}

// ---------------------------------------------------------------------------
// The executable session
// ---------------------------------------------------------------------------

impl App {
    /// A fresh session over a loaded configuration: main screen, paged mode,
    /// ascending order, page 1 of 30 lines, and a stale page so the first
    /// render fetches.
    pub fn new(memory: Memory) -> (r: App)
        ensures
            r.cur_screen == Screen::Main,
            r.cur_modal is None,
            r.cur_order == Order::OrderByDate,
            r.cur_mode == Mode::Page,
            r.cur_size == 30,
            r.cur_page == 1,
            !r.exit_approved,
            r.logs@.len() == 0,
            r.memory == memory,
            r.selected_index is None,
            !r.editing_mode,
            r.edit_buffer@.len() == 0,
            r.filter_type == FilterType::Search,
            r.date_filter_type == DateFilterType::Between,
            r.date_start_buffer@.len() == 0,
            r.date_finish_buffer@.len() == 0,
            r.editing_date_field == DateField::Inactive,
            r.needs_refresh,
            r.last_order == Order::OrderByDate,
            r.last_mode == Mode::Page,
            r.last_size == 30,
            r.last_paths_count == memory.paths@.len(),
            r.last_filters_count == memory.filters@.len(),
    {
        let paths_count = memory.paths.len();
        let filters_count = memory.filters.len();
        App {
            cur_screen: Screen::Main,
            cur_modal: None,
            cur_order: Order::OrderByDate,
            cur_mode: Mode::Page,
            cur_size: 30,
            cur_page: 1,
            exit_approved: false,
            logs: Vec::new(),
            memory,
            selected_index: None,
            editing_mode: false,
            edit_buffer: String::new(),
            filter_type: FilterType::Search,
            date_filter_type: DateFilterType::Between,
            date_start_buffer: String::new(),
            date_finish_buffer: String::new(),
            editing_date_field: DateField::Inactive,
            needs_refresh: true,
            last_order: Order::OrderByDate,
            last_mode: Mode::Page,
            last_size: 30,
            last_paths_count: paths_count,
            last_filters_count: filters_count,
        }
    }

    /// One key on the main screen.
    pub fn handle_main(&mut self, key: Key)
        ensures
            *final(self) == main_step(*old(self), key),
    {
        match key {
            Key::Char(c) => {
                if c == 'q' {
                    self.cur_screen = Screen::Exit;
                } else if c == 'p' {
                    self.cur_screen = Screen::Additional;
                    self.cur_modal = Some(Modal::Path);
                } else if c == 'f' {
                    self.cur_screen = Screen::Additional;
                    self.cur_modal = Some(Modal::Filter);
                } else if c == 'o' {
                    self.cur_order = match self.cur_order {
                        Order::OrderByDate => Order::OrderByDateReverse,
                        Order::OrderByDateReverse => Order::OrderByDate,
                    };
                    if self.cur_mode == Mode::Page {
                        self.needs_refresh = true;
                    }
                } else if c == 'm' {
                    self.cur_mode = match self.cur_mode {
                        Mode::Page => Mode::Tail,
                        Mode::Tail => Mode::Page,
                        Mode::Stopped => Mode::Page,
                    };
                    if self.cur_mode == Mode::Page {
                        self.needs_refresh = true;
                    }
                } else if self.cur_mode == Mode::Page {
                    if c == '+' {
                        self.cur_size = if self.cur_size <= 995 {
                            self.cur_size + 5
                        } else {
                            1000
                        };
                        self.needs_refresh = true;
                    } else if c == '-' {
                        self.cur_size = if self.cur_size >= 10 {
                            self.cur_size - 5
                        } else {
                            5
                        };
                        self.needs_refresh = true;
                    } else if c == 'j' {
                        if self.cur_page < usize::MAX {
                            self.cur_page = self.cur_page + 1;
                        }
                        self.needs_refresh = true;
                    } else if c == 'h' {
                        if self.cur_page > 1 {
                            self.cur_page = self.cur_page - 1;
                        }
                        self.needs_refresh = true;
                    }
                } else if c == ' ' {
                    match self.cur_mode {
                        Mode::Tail => {
                            self.cur_mode = Mode::Stopped;
                        },
                        Mode::Stopped => {
                            self.cur_mode = Mode::Tail;
                        },
                        Mode::Page => {},
                    }
                }
            },
            Key::Enter => {
                if self.cur_mode == Mode::Page {
                    self.load_page_logs();
                }
            },
            _ => {},
        }
    }

    /// One key on the exit screen.
    pub fn handle_exit(&mut self, key: Key)
        ensures
            *final(self) == exit_step(*old(self), key),
    {
        match key {
            Key::Char(c) => {
                if c == 'y' {
                    self.exit_approved = true;
                } else {
                    self.cur_screen = Screen::Main;
                }
            },
            _ => {
                self.cur_screen = Screen::Main;
            },
        }
    }

    /// One key on the configuration screen; the result asks the caller to
    /// persist the configuration.
    pub fn handle_additional(&mut self, key: Key) -> (save: bool)
        ensures
            additional_step(*old(self), *final(self), key, save),
    {
        if self.editing_mode {
            self.handle_additional_edit(key);
            false
        } else {
            self.handle_additional_browse(key)
        }
    }

    fn handle_additional_edit(&mut self, key: Key)
        requires
            old(self).editing_mode,
        ensures
            edit_step(*old(self), *final(self), key),
    {
        match key {
            Key::Enter => self.edit_commit(),
            Key::Char(c) => self.edit_typed(c),
            Key::Backspace => self.edit_erased(),
            Key::Esc => self.edit_cancel(),
            Key::Tab => self.edit_cycle(),
            _ => {},
        }
    }

    /// Enter while editing: commits the edited value to the selected slot
    /// and closes the editor.
    fn edit_commit(&mut self)
        ensures
            edit_step(*old(self), *final(self), Key::Enter),
    {
        match (self.cur_modal, self.selected_index) {
            (Some(Modal::Path), Some(index)) => {
                if index < self.memory.paths.len() {
                    let updated_path = Path::new(self.edit_buffer.clone(), self.edit_buffer.clone());
                    let _ = self.memory.update_path(index, updated_path);
                }
            },
            (Some(Modal::Filter), Some(index)) => {
                if index < self.memory.filters.len() {
                    let updated_filter = self.build_edited_filter();
                    let _ = self.memory.update_filter(index, updated_filter);
                }
            },
            _ => {},
        }
        self.editing_mode = false;
        self.edit_buffer = String::new();
        self.date_start_buffer = String::new();
        self.date_finish_buffer = String::new();
        self.editing_date_field = DateField::Inactive;
    }

    /// A typed character goes to the date bound being edited, or to the
    /// plain edit buffer.
    fn edit_typed(&mut self, c: char)
        ensures
            edit_step(*old(self), *final(self), Key::Char(c)),
    {
        if self.filter_type == FilterType::Date {
            match self.editing_date_field {
                DateField::Start => push_char(&mut self.date_start_buffer, c),
                DateField::Finish => push_char(&mut self.date_finish_buffer, c),
                DateField::Inactive => push_char(&mut self.edit_buffer, c),
            }
        } else {
            push_char(&mut self.edit_buffer, c);
        }
    }

    /// Backspace removes the last character of the buffer being edited.
    fn edit_erased(&mut self)
        ensures
            edit_step(*old(self), *final(self), Key::Backspace),
    {
        if self.filter_type == FilterType::Date {
            match self.editing_date_field {
                DateField::Start => pop_char(&mut self.date_start_buffer),
                DateField::Finish => pop_char(&mut self.date_finish_buffer),
                DateField::Inactive => pop_char(&mut self.edit_buffer),
            }
        } else {
            pop_char(&mut self.edit_buffer);
        }
    }

    /// Esc abandons the edit.
    fn edit_cancel(&mut self)
        ensures
            edit_step(*old(self), *final(self), Key::Esc),
    {
        self.editing_mode = false;
        self.edit_buffer = String::new();
    }

    /// Tab cycles the kind of filter being built, committing the
    /// intermediate value, or moves between the two date bounds.
    #[verifier::rlimit(100)]
    fn edit_cycle(&mut self)
        ensures
            edit_step(*old(self), *final(self), Key::Tab),
    {
        match (self.cur_modal, self.selected_index) {
            (Some(_), Some(index)) => {
                if index >= self.memory.filters.len() {
                    return ;
                }
                match self.filter_type {
                    FilterType::Search => {
                        let updated_filter = Filter::Regex(
                            RegexFilter { pattern: self.edit_buffer.clone() },
                        );
                        let _ = self.memory.update_filter(index, updated_filter);
                        self.filter_type = FilterType::Regex;
                    },
                    FilterType::Regex => {
                        let updated_filter = Filter::Date(
                            DateFilter {
                                date_format: canonical_format(),
                                date_start: None,
                                date_finish: None,
                                filter_type: DateFilterType::Between,
                            },
                        );
                        let _ = self.memory.update_filter(index, updated_filter);
                        self.filter_type = FilterType::Date;
                        self.date_filter_type = DateFilterType::Between;
                        self.date_start_buffer = String::new();
                        self.date_finish_buffer = String::new();
                        self.editing_date_field = DateField::Start;
                    },
                    FilterType::Date => {
                        match self.editing_date_field {
                            DateField::Start => {
                                self.editing_date_field = DateField::Finish;
                            },
                            DateField::Finish => {
                                let updated_filter = Filter::Date(
                                    DateFilter {
                                        date_format: canonical_format(),
                                        date_start: parse_buffer(&self.date_start_buffer),
                                        date_finish: parse_buffer(&self.date_finish_buffer),
                                        filter_type: self.date_filter_type,
                                    },
                                );
                                let _ = self.memory.update_filter(index, updated_filter);
                                self.filter_type = FilterType::Search;
                            },
                            DateField::Inactive => {
                                self.editing_date_field = DateField::Start;
                            },
                        }
                    },
                }
            },
            _ => {},
        }
    }

    /// The filter value the editor currently describes.
    fn build_edited_filter(&self) -> (r: Filter)
        ensures
            match self.filter_type {
                FilterType::Search => r == Filter::Search(
                    SearchFilter { substr: self.edit_buffer },
                ),
                FilterType::Regex => r == Filter::Regex(
                    RegexFilter { pattern: self.edit_buffer },
                ),
                FilterType::Date => is_committed_date(
                    r,
                    parsed_bound(self.date_start_buffer),
                    parsed_bound(self.date_finish_buffer),
                    self.date_filter_type,
                ),
            },
    {
        match self.filter_type {
            FilterType::Search => Filter::Search(SearchFilter { substr: self.edit_buffer.clone() }),
            FilterType::Regex => Filter::Regex(RegexFilter { pattern: self.edit_buffer.clone() }),
            FilterType::Date => Filter::Date(
                DateFilter {
                    date_format: canonical_format(),
                    date_start: parse_buffer(&self.date_start_buffer),
                    date_finish: parse_buffer(&self.date_finish_buffer),
                    filter_type: self.date_filter_type,
                },
            ),
        }
    }

    fn handle_additional_browse(&mut self, key: Key) -> (save: bool)
        requires
            !old(self).editing_mode,
        ensures
            browse_step(*old(self), *final(self), key, save),
    {
        match key {
            Key::Char(c) => {
                if c == 'q' {
                    self.cur_screen = Screen::Main;
                    self.cur_modal = None;
                    self.selected_index = None;
                    return true;
                } else if c == 'a' {
                    self.browse_add();
                } else if c == 'd' {
                    self.browse_delete();
                } else if c == '1' || c == '2' || c == '3' {
                    self.browse_pick_kind(c);
                }
                false
            },
            Key::Up => {
                self.browse_up();
                false
            },
            Key::Down => {
                self.browse_down();
                false
            },
            Key::Enter => {
                self.browse_open_editor();
                false
            },
            _ => false,
        }
    }

    /// Adds a fresh, empty entry to the open list and selects it.
    fn browse_add(&mut self)
        requires
            !old(self).editing_mode,
        ensures
            browse_step(*old(self), *final(self), Key::Char('a'), false),
    {
        match self.cur_modal {
            Some(Modal::Path) => {
                self.memory.add_path(Path::new(String::new(), String::new()));
                self.selected_index = Some(self.memory.paths.len() - 1);
            },
            Some(Modal::Filter) => {
                self.memory.add_filter(Filter::Search(SearchFilter { substr: String::new() }));
                self.selected_index = Some(self.memory.filters.len() - 1);
            },
            None => {},
        }
    }

    /// Deletes the selected entry of the open list and keeps the selection
    /// in range.
    fn browse_delete(&mut self)
        requires
            !old(self).editing_mode,
        ensures
            browse_step(*old(self), *final(self), Key::Char('d'), false),
    {
        match (self.cur_modal, self.selected_index) {
            (Some(Modal::Path), Some(index)) => {
                if index < self.memory.paths.len() {
                    let _ = self.memory.remove_path(index);
                    if self.memory.paths.len() == 0 {
                        self.selected_index = None;
                    } else if index >= self.memory.paths.len() {
                        self.selected_index = Some(self.memory.paths.len() - 1);
                    }
                }
            },
            (Some(Modal::Filter), Some(index)) => {
                if index < self.memory.filters.len() {
                    let _ = self.memory.remove_filter(index);
                    if self.memory.filters.len() == 0 {
                        self.selected_index = None;
                    } else if index >= self.memory.filters.len() {
                        self.selected_index = Some(self.memory.filters.len() - 1);
                    }
                }
            },
            _ => {},
        }
    }

    /// The digit keys pick the kind of filter to build, or the relation of
    /// a date filter.
    fn browse_pick_kind(&mut self, c: char)
        requires
            !old(self).editing_mode,
            c == '1' || c == '2' || c == '3',
        ensures
            browse_step(*old(self), *final(self), Key::Char(c), false),
    {
        if !matches!(self.cur_modal, Some(Modal::Filter)) {
            return ;
        }
        if c == '1' {
            if self.filter_type == FilterType::Date {
                self.date_filter_type = DateFilterType::Before;
            } else {
                self.filter_type = FilterType::Search;
            }
        } else if c == '2' {
            if self.filter_type == FilterType::Date {
                self.date_filter_type = DateFilterType::After;
            } else {
                self.filter_type = FilterType::Regex;
            }
        } else {
            if self.filter_type == FilterType::Date {
                self.date_filter_type = DateFilterType::Between;
            } else {
                self.filter_type = FilterType::Date;
                self.date_filter_type = DateFilterType::Between;
                self.date_start_buffer = String::new();
                self.date_finish_buffer = String::new();
                self.editing_date_field = DateField::Start;
            }
        }
    }

    /// Moves the selection one entry up, wrapping at the top.
    fn browse_up(&mut self)
        requires
            !old(self).editing_mode,
        ensures
            browse_step(*old(self), *final(self), Key::Up, false),
    {
        match self.cur_modal {
            Some(Modal::Path) => {
                if self.memory.paths.len() > 0 {
                    self.selected_index = match self.selected_index {
                        Some(i) => if i == 0 {
                            Some(self.memory.paths.len() - 1)
                        } else {
                            Some(i - 1)
                        },
                        None => Some(self.memory.paths.len() - 1),
                    };
                }
            },
            Some(Modal::Filter) => {
                if self.memory.filters.len() > 0 {
                    self.selected_index = match self.selected_index {
                        Some(i) => if i == 0 {
                            Some(self.memory.filters.len() - 1)
                        } else {
                            Some(i - 1)
                        },
                        None => Some(self.memory.filters.len() - 1),
                    };
                }
            },
            None => {},
        }
    }

    /// Moves the selection one entry down, wrapping at the bottom.
    fn browse_down(&mut self)
        requires
            !old(self).editing_mode,
        ensures
            browse_step(*old(self), *final(self), Key::Down, false),
    {
        match self.cur_modal {
            Some(Modal::Path) => {
                if self.memory.paths.len() > 0 {
                    self.selected_index = match self.selected_index {
                        Some(i) => if i >= self.memory.paths.len() - 1 {
                            Some(0)
                        } else {
                            Some(i + 1)
                        },
                        None => Some(0),
                    };
                }
            },
            Some(Modal::Filter) => {
                if self.memory.filters.len() > 0 {
                    self.selected_index = match self.selected_index {
                        Some(i) => if i >= self.memory.filters.len() - 1 {
                            Some(0)
                        } else {
                            Some(i + 1)
                        },
                        None => Some(0),
                    };
                }
            },
            None => {},
        }
    }

    /// Enter opens the editor on the selected entry, loading its current
    /// value into the buffers.
    fn browse_open_editor(&mut self)
        requires
            !old(self).editing_mode,
        ensures
            browse_step(*old(self), *final(self), Key::Enter, false),
    {
        match (self.cur_modal, self.selected_index) {
            (Some(Modal::Path), Some(index)) => {
                if index < self.memory.paths.len() {
                    self.edit_buffer = self.memory.paths[index].path.clone();
                    self.editing_mode = true;
                }
            },
            (Some(Modal::Filter), Some(index)) => {
                if index < self.memory.filters.len() {
                    match &self.memory.filters[index] {
                        Filter::Search(f) => {
                            self.edit_buffer = f.substr.clone();
                            self.filter_type = FilterType::Search;
                            self.editing_mode = true;
                        },
                        Filter::Regex(f) => {
                            self.edit_buffer = f.pattern.clone();
                            self.filter_type = FilterType::Regex;
                            self.editing_mode = true;
                        },
                        Filter::Date(f) => {
                            let ds = f.date_start;
                            let df = f.date_finish;
                            let ft = f.filter_type;
                            self.filter_type = FilterType::Date;
                            self.date_filter_type = ft;
                            self.date_start_buffer = match ds {
                                Some(t) => format_instant_utc(t, "%Y-%m-%dT%H:%M:%S%z"),
                                None => String::new(),
                            };
                            self.date_finish_buffer = match df {
                                Some(t) => format_instant_utc(t, "%Y-%m-%dT%H:%M:%S%z"),
                                None => String::new(),
                            };
                            self.editing_date_field = DateField::Start;
                            self.editing_mode = true;
                        },
                    }
                }
            },
            _ => {},
        }
    }

    /// One key, routed to the screen that has the keyboard; the result asks
    /// the caller to persist the configuration.
    pub fn handle(&mut self, key: Key) -> (save: bool)
        ensures
            match old(self).cur_screen {
                Screen::Main => *final(self) == main_step(*old(self), key) && !save,
                Screen::Additional => additional_step(*old(self), *final(self), key, save),
                Screen::Exit => *final(self) == exit_step(*old(self), key) && !save,
            },
    {
        match self.cur_screen {
            Screen::Main => {
                self.handle_main(key);
                false
            },
            Screen::Additional => self.handle_additional(key),
            Screen::Exit => {
                self.handle_exit(key);
                false
            },
        }
    }

    /// Appends the lines drained from the delivery channel to the display
    /// buffer.
    pub fn update_logs(&mut self, new_logs: &Vec<String>)
        ensures
            final(self).logs@ == old(self).logs@ + new_logs@,
            *final(self) == (App { logs: final(self).logs, ..*old(self) }),
    {
        let mut i: usize = 0;
        while i < new_logs.len()
            invariant
                0 <= i <= new_logs@.len(),
                self.logs@ == old(self).logs@ + new_logs@.take(i as int),
                *self == (App { logs: self.logs, ..*old(self) }),
            decreases new_logs@.len() - i,
        {
            self.logs.push(new_logs[i].clone());
            proof {
                assert(old(self).logs@ + new_logs@.take(i + 1) =~= (old(self).logs@
                    + new_logs@.take(i as int)).push(new_logs@[i as int]));
            }
            i = i + 1;
        }
        proof {
            assert(new_logs@.take(new_logs@.len() as int) =~= new_logs@);
        }
    }

    /// Marks the current page stale, forcing a re-query on the next render.
    pub fn load_page_logs(&mut self)
        ensures
            *final(self) == (App { needs_refresh: true, ..*old(self) }),
    {
        self.needs_refresh = true;
    }

    /// The line offset of the current page: pages before this one times the
    /// page size, clipped to `usize`.
    pub fn page_offset(&self) -> (r: usize)
        ensures
            ({
                let want = if self.cur_page >= 1 {
                    (self.cur_page - 1) * self.cur_size
                } else {
                    0int
                };
                r == if want <= usize::MAX {
                    want
                } else {
                    usize::MAX as int
                }
            }),
    {
        let pages_before = if self.cur_page >= 1 {
            self.cur_page - 1
        } else {
            0
        };
        match pages_before.checked_mul(self.cur_size) {
            Some(v) => v,
            None => usize::MAX,
        }
    }

    /// Whether the display should run a fresh paged read now.
    pub fn should_refresh(&self) -> (r: bool)
        ensures
            r == (self.needs_refresh && self.cur_mode == Mode::Page),
    {
        self.needs_refresh && self.cur_mode == Mode::Page
    }

    /// Marks the pending refresh as done.
    pub fn clear_refresh(&mut self)
        ensures
            *final(self) == (App { needs_refresh: false, ..*old(self) }),
    {
        self.needs_refresh = false;
    }

    /// Detects configuration edits while in paged mode — order, page size,
    /// mode, or the number of paths or filters — marks the page stale and
    /// records the settings it compared.
    pub fn sync_refresh(&mut self)
        ensures
            *final(self) == sync_step(*old(self)),
    {
        let order_changed = self.cur_order != self.last_order;
        let size_changed = self.cur_size != self.last_size;
        let paths_changed = self.memory.paths.len() != self.last_paths_count;
        let filters_changed = self.memory.filters.len() != self.last_filters_count;
        if order_changed || size_changed || paths_changed || filters_changed {
            self.cur_mode = Mode::Page;
            self.needs_refresh = true;
            self.last_order = self.cur_order;
            self.last_mode = Mode::Page;
            self.last_size = self.cur_size;
            self.last_paths_count = self.memory.paths.len();
            self.last_filters_count = self.memory.filters.len();
        } else if self.cur_mode == Mode::Page && self.last_mode != Mode::Page {
            self.needs_refresh = true;
            self.last_mode = Mode::Page;
        }
    }
}

/// Whether a setting of the paged request — order, page size, or the number
/// of registered paths or filters — differs from what the last staleness
/// check recorded.
pub open spec fn config_changed(s: App) -> bool {
    s.cur_order != s.last_order || s.cur_size != s.last_size || s.memory.paths@.len()
        != s.last_paths_count || s.memory.filters@.len() != s.last_filters_count
}

/// The state after one staleness check: a changed request setting forces the
/// session back to paged mode with a stale page, from any mode, and is
/// recorded; a return to paged mode alone also marks the page stale.
pub open spec fn sync_step(s: App) -> App {
    if config_changed(s) {
        App {
            cur_mode: Mode::Page,
            needs_refresh: true,
            last_order: s.cur_order,
            last_mode: Mode::Page,
            last_size: s.cur_size,
            last_paths_count: s.memory.paths@.len() as usize,
            last_filters_count: s.memory.filters@.len() as usize,
            ..s
        }
    } else if s.cur_mode == Mode::Page && s.last_mode != Mode::Page {
        App { needs_refresh: true, last_mode: Mode::Page, ..s }
    } else {
        s
    }
}

/// The canonical timestamp format as a fresh string.
fn canonical_format() -> (r: String)
    ensures
        r@ == date_fmt(),
{
    String::from_str("%Y-%m-%dT%H:%M:%S%z")
}

/// The bound a typed buffer stands for, executed: absent when the buffer is
/// empty or fails to parse.
fn parse_buffer(buf: &String) -> (r: Option<i64>)
    ensures
        r == parsed_bound(*buf),
{
    if buf.as_str().is_empty() {
        None
    } else {
        crate::filters::parse_date_token(buf.as_str(), "%Y-%m-%dT%H:%M:%S%z")
    }
}

impl Screen {
    /// The key hints shown for this screen.
    pub fn keys_hint(&self) -> (r: String)
        ensures
            *self == Screen::Main ==> r@ == "(q) - quit / (f/p) - add [filter/path] / (o/m) - change [order/mode]"@,
            *self == Screen::Additional ==> r@ == "(q) - quit to Main / "@,
            *self == Screen::Exit ==> r@ == "(y) - quit / (Any) - back to Main "@,
    {
        match self {
            Screen::Main => "(q) - quit / (f/p) - add [filter/path] / (o/m) - change [order/mode]".to_owned(),
            Screen::Additional => "(q) - quit to Main / ".to_owned(),
            Screen::Exit => "(y) - quit / (Any) - back to Main ".to_owned(),
        }
    }
}

impl Modal {
    /// The title of the modal.
    pub fn title(&self) -> (r: String)
        ensures
            *self == Modal::Filter ==> r@ == "Create a new filter"@,
            *self == Modal::Path ==> r@ == "Create a new path"@,
    {
        match self {
            Modal::Filter => "Create a new filter".to_owned(),
            Modal::Path => "Create a new path".to_owned(),
        }
    }
}

impl Mode {
    /// The text of the mode indicator.
    pub fn nav_text(&self) -> (r: String)
        ensures
            *self == Mode::Page ==> r@ == "Page Mode"@,
            *self == Mode::Tail ==> r@ == "Tail Mode"@,
            *self == Mode::Stopped ==> r@ == "Stopped"@,
    {
        match self {
            Mode::Page => "Page Mode".to_owned(),
            Mode::Tail => "Tail Mode".to_owned(),
            Mode::Stopped => "Stopped".to_owned(),
        }
    }
}

impl Order {
    /// The text of the order indicator.
    pub fn order_text(&self) -> (r: String)
        ensures
            *self == Order::OrderByDate ==> r@ == "ASC Order"@,
            *self == Order::OrderByDateReverse ==> r@ == "DESC Order"@,
    {
        match self {
            Order::OrderByDate => "ASC Order".to_owned(),
            Order::OrderByDateReverse => "DESC Order".to_owned(),
        }
    }
}

} // verus!
