use vstd::prelude::*;
use crate::app::AppState;
use crate::models::{CurrentPage, TodoItem};

verus! {

/// The label of a page in the menu.
pub open spec fn menu_text(page: CurrentPage) -> Seq<char> {
    match page {
        CurrentPage::Tasks => " [1] Tâches"@,
        CurrentPage::Archives => " [2] Archives"@,
    }
}

/// The title above the list that a page shows.
pub open spec fn title_text(page: CurrentPage) -> Seq<char> {
    match page {
        CurrentPage::Tasks => " Mes Tâches "@,
        CurrentPage::Archives => " Archives "@,
    }
}

/// The legend of the keys that work on a page. The archive page offers
/// neither toggling nor archiving.
pub open spec fn help_text(page: CurrentPage) -> Seq<char> {
    match page {
        CurrentPage::Tasks => " [Spc] Fait | [Enter] Archiver | [x] Suppr | [J/K] Déplacer | [q] Quitter "@,
        CurrentPage::Archives => " [x] Suppr | [J/K] Déplacer | [q] Quitter "@,
    }
}

/// The marker in front of a task: a tick when done, an empty box otherwise.
pub open spec fn marker_text(is_done: bool) -> Seq<char> {
    if is_done {
        "✔ "@
    } else {
        "☐ "@
    }
}

/// The line that shows a task: its marker, then its description.
pub open spec fn entry_text(t: TodoItem) -> Seq<char> {
    marker_text(t.is_done) + t.description@
}

/// One entry of the menu, highlighted when its page is shown.
pub struct MenuEntry {
    pub label: String,
    pub active: bool,
}

/// One line of the shown list.
pub struct EntryLine {
    pub text: String,
    /// Done tasks are drawn dimmed and struck through.
    pub is_done: bool,
}

/// Everything that one frame shows, derived from the state alone.
pub struct Screen {
    /// The menu: the task page first, then the archive page.
    pub menu: Vec<MenuEntry>,
    pub title: String,
    pub lines: Vec<EntryLine>,
    /// The highlighted line, if any.
    pub selected: Option<usize>,
    pub help: String,
}

/// The menu label of `page`.
pub fn menu_label(page: CurrentPage) -> (r: &'static str)
    ensures
        r@ == menu_text(page),
{
    match page {
        CurrentPage::Tasks => " [1] Tâches",
        CurrentPage::Archives => " [2] Archives",
    }
}

/// The title of `page`.
pub fn page_title(page: CurrentPage) -> (r: &'static str)
    ensures
        r@ == title_text(page),
{
    match page {
        CurrentPage::Tasks => " Mes Tâches ",
        CurrentPage::Archives => " Archives ",
    }
}

/// The key legend of `page`.
pub fn help_line(page: CurrentPage) -> (r: &'static str)
    ensures
        r@ == help_text(page),
{
    match page {
        CurrentPage::Tasks => " [Spc] Fait | [Enter] Archiver | [x] Suppr | [J/K] Déplacer | [q] Quitter ",
        CurrentPage::Archives => " [x] Suppr | [J/K] Déplacer | [q] Quitter ",
    }
}

/// The line that shows `item`.
pub fn entry_line(item: &TodoItem) -> (r: EntryLine)
    ensures
        r.text@ == entry_text(*item),
        r.is_done == item.is_done,
{
    let marker = if item.is_done {
        "✔ "
    } else {
        "☐ "
    };
    let mut text = String::from_str(marker);
    text.append(item.description.as_str());
    EntryLine { text, is_done: item.is_done }
}

/// What the screen shows for `state`: the menu with the shown page
/// highlighted, the page's title, one line per entry of the shown list, the
/// cursor, and the page's key legend.
pub fn screen(state: &AppState) -> (r: Screen)
    ensures
        r.menu@.len() == 2,
        r.menu@[0].label@ == menu_text(CurrentPage::Tasks),
        r.menu@[0].active == (state.current_page == CurrentPage::Tasks),
        r.menu@[1].label@ == menu_text(CurrentPage::Archives),
        r.menu@[1].active == (state.current_page == CurrentPage::Archives),
        r.title@ == title_text(state.current_page),
        r.lines@.len() == state.displayed().len(),
        forall|j: int|
            0 <= j < r.lines@.len() ==> {
                &&& (#[trigger] r.lines@[j]).text@ == entry_text(state.displayed()[j])
                &&& r.lines@[j].is_done == state.displayed()[j].is_done
            },
        r.selected == state.selected,
        r.help@ == help_text(state.current_page),
{
    let mut menu: Vec<MenuEntry> = Vec::new();
    menu.push(
        MenuEntry {
            label: String::from_str(menu_label(CurrentPage::Tasks)),
            active: state.current_page == CurrentPage::Tasks,
        },
    );
    menu.push(
        MenuEntry {
            label: String::from_str(menu_label(CurrentPage::Archives)),
            active: state.current_page == CurrentPage::Archives,
        },
    );
    let list: &Vec<TodoItem> = match state.current_page {
        CurrentPage::Tasks => &state.items,
        CurrentPage::Archives => &state.archives,
    };
    let mut lines: Vec<EntryLine> = Vec::new();
    let mut k: usize = 0;
    while k < list.len()
        invariant
            list@ == state.displayed(),
            k <= list@.len(),
            lines@.len() == k,
            forall|j: int|
                0 <= j < k ==> {
                    &&& (#[trigger] lines@[j]).text@ == entry_text(list@[j])
                    &&& lines@[j].is_done == list@[j].is_done
                },
        decreases list@.len() - k,
    {
        lines.push(entry_line(&list[k]));
        k = k + 1;
    }
    Screen {
        menu,
        title: String::from_str(page_title(state.current_page)),
        lines,
        selected: state.selected,
        help: String::from_str(help_line(state.current_page)),
    }
}

} // verus!
