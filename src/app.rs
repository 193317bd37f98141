use vstd::prelude::*;
use crate::cursor::{
    clamp, clamped, cursor_valid, next_cursor, previous_cursor, reindex, reindexed, step_down,
    step_up,
};
use crate::models::{CurrentPage, Key, TodoItem};

verus! {

/// The list that a page shows.
pub open spec fn list_of(page: CurrentPage, items: Seq<TodoItem>, archives: Seq<TodoItem>) -> Seq<
    TodoItem,
> {
    match page {
        CurrentPage::Tasks => items,
        CurrentPage::Archives => archives,
    }
}

/// `s` without its entry at `c`, when `c` names one; `s` itself otherwise.
pub open spec fn removed_at(s: Seq<TodoItem>, c: Option<usize>) -> Seq<TodoItem> {
    match c {
        Some(i) => if (i as nat) < s.len() {
            s.remove(i as int)
        } else {
            s
        },
        None => s,
    }
}

/// `s` with its entries at `i` and `i + 1` exchanged.
pub open spec fn swapped(s: Seq<TodoItem>, i: int) -> Seq<TodoItem> {
    s.update(i, s[i + 1]).update(i + 1, s[i])
}

/// The same task with its completion flag flipped.
pub open spec fn toggled(t: TodoItem) -> TodoItem {
    TodoItem { is_done: !t.is_done, description: t.description }
}

/// The whole mutable state of the application.
pub struct AppState {
    /// The active tasks, in display order.
    pub items: Vec<TodoItem>,
    /// The archived tasks, oldest archived first.
    pub archives: Vec<TodoItem>,
    /// The index of the selected entry of the shown list, if any.
    pub selected: Option<usize>,
    /// The page that is shown.
    pub current_page: CurrentPage,
    /// False once the user asked to quit.
    pub running: bool,
}

impl AppState {
    /// The list that is shown.
    pub open spec fn displayed(self) -> Seq<TodoItem> {
        list_of(self.current_page, self.items@, self.archives@)
    }

    /// The list that is not shown.
    pub open spec fn hidden(self) -> Seq<TodoItem> {
        match self.current_page {
            CurrentPage::Tasks => self.archives@,
            CurrentPage::Archives => self.items@,
        }
    }

    /// The selection invariant: the cursor is unset on an empty shown list
    /// and names one of its entries otherwise.
    pub open spec fn wf(self) -> bool {
        cursor_valid(self.selected, self.displayed().len())
    }

    /// Both lists are as in `self`.
    pub open spec fn same_lists(self, post: AppState) -> bool {
        &&& post.items@ == self.items@
        &&& post.archives@ == self.archives@
    }

    /// The page and the running flag are as in `self`.
    pub open spec fn same_mode(self, post: AppState) -> bool {
        &&& post.current_page == self.current_page
        &&& post.running == self.running
    }

    /// Nothing observable changed.
    pub open spec fn unchanged(self, post: AppState) -> bool {
        &&& self.same_lists(post)
        &&& self.same_mode(post)
        &&& post.selected == self.selected
    }

    /// `post` is `self` with the cursor one entry further down.
    pub open spec fn next_step(self, post: AppState) -> bool {
        &&& self.same_lists(post)
        &&& self.same_mode(post)
        &&& post.selected == next_cursor(self.selected, self.displayed().len())
    }

    /// `post` is `self` with the cursor one entry further up.
    pub open spec fn previous_step(self, post: AppState) -> bool {
        &&& self.same_lists(post)
        &&& self.same_mode(post)
        &&& post.selected == previous_cursor(self.selected, self.displayed().len())
    }

    /// `post` is `self` with the selected active task's flag flipped; on
    /// the archive page or without a selected task, `self` unchanged.
    pub open spec fn toggle_step(self, post: AppState) -> bool {
        &&& self.same_mode(post)
        &&& post.selected == self.selected
        &&& post.archives@ == self.archives@
        &&& post.items@ == match self.selected {
            Some(i) => if self.current_page == CurrentPage::Tasks && (i as nat)
                < self.items@.len() {
                self.items@.update(i as int, toggled(self.items@[i as int]))
            } else {
                self.items@
            },
            None => self.items@,
        }
    }

    /// True when archiving acts on `self`: the task page is shown and the
    /// cursor names one of its tasks.
    pub open spec fn can_archive(self) -> bool {
        &&& self.current_page == CurrentPage::Tasks
        &&& self.selected is Some
        &&& (self.selected->0 as nat) < self.items@.len()
    }

    /// `post` is `self` with the selected task taken out of the active list
    /// and appended to the archive, and the cursor reindexed; when archiving
    /// does not act, `self` unchanged.
    pub open spec fn archive_step(self, post: AppState) -> bool {
        if self.can_archive() {
            let i = self.selected->0;
            &&& self.same_mode(post)
            &&& post.items@ == self.items@.remove(i as int)
            &&& post.archives@ == self.archives@.push(self.items@[i as int])
            &&& post.selected == reindexed(i, post.items@.len())
        } else {
            self.unchanged(post)
        }
    }

    /// `post` is `self` with the selected entry taken out of the shown list
    /// and the cursor reindexed against that list's new length.
    pub open spec fn delete_step(self, post: AppState) -> bool {
        &&& self.same_mode(post)
        &&& post.hidden() == self.hidden()
        &&& post.displayed() == removed_at(self.displayed(), self.selected)
        &&& post.selected == match self.selected {
            Some(i) => reindexed(i, post.displayed().len()),
            None => None,
        }
    }

    /// True when the selected entry occurs nowhere else in either list.
    pub open spec fn selected_entry_unique(self) -> bool {
        let i = self.selected->0 as int;
        &&& forall|j: int|
            0 <= j < self.displayed().len() && j != i ==> self.displayed()[j]
                != self.displayed()[i]
        &&& !self.hidden().contains(self.displayed()[i])
    }

    /// True when the selected entry has a predecessor in the shown list.
    pub open spec fn can_move_up(self) -> bool {
        &&& self.selected is Some
        &&& 0 < self.selected->0
        &&& (self.selected->0 as nat) < self.displayed().len()
    }

    /// True when the selected entry has a successor in the shown list.
    pub open spec fn can_move_down(self) -> bool {
        &&& self.selected is Some
        &&& (self.selected->0 as nat) + 1 < self.displayed().len()
    }

    /// `post` is `self` with the selected entry exchanged with the one
    /// above it and the cursor following it.
    pub open spec fn move_up_step(self, post: AppState) -> bool {
        if self.can_move_up() {
            let i = self.selected->0;
            &&& self.same_mode(post)
            &&& post.hidden() == self.hidden()
            &&& post.displayed() == swapped(self.displayed(), i - 1)
            &&& post.selected == Some((i - 1) as usize)
        } else {
            self.unchanged(post)
        }
    }

    /// `post` is `self` with the selected entry exchanged with the one
    /// below it and the cursor following it.
    pub open spec fn move_down_step(self, post: AppState) -> bool {
        if self.can_move_down() {
            let i = self.selected->0;
            &&& self.same_mode(post)
            &&& post.hidden() == self.hidden()
            &&& post.displayed() == swapped(self.displayed(), i as int)
            &&& post.selected == Some((i + 1) as usize)
        } else {
            self.unchanged(post)
        }
    }

    /// `post` is `self` showing `page`, with the cursor clamped to the list
    /// of that page.
    pub open spec fn switch_step(self, page: CurrentPage, post: AppState) -> bool {
        &&& self.same_lists(post)
        &&& post.running == self.running
        &&& post.current_page == page
        &&& post.selected == clamped(self.selected, list_of(page, self.items@, self.archives@).len())
    }

    /// `post` is `self` with the running flag cleared.
    pub open spec fn exit_step(self, post: AppState) -> bool {
        &&& self.same_lists(post)
        &&& post.current_page == self.current_page
        &&& post.selected == self.selected
        &&& !post.running
    }

    /// A running state on the task page, showing `items` with the first one
    /// selected, and an empty archive.
    pub fn with_tasks(items: Vec<TodoItem>) -> (r: AppState)
        ensures
            r.items@ == items@,
            r.archives@.len() == 0,
            r.current_page == CurrentPage::Tasks,
            r.running,
            r.selected == (if items@.len() == 0 {
                None
            } else {
                Some(0usize)
            }),
            r.wf(),
    {
        let selected = if items.len() == 0 {
            None
        } else {
            Some(0)
        };
        AppState {
            items,
            archives: Vec::new(),
            selected,
            current_page: CurrentPage::Tasks,
            running: true,
        }
    }

    /// The number of entries of the shown list.
    pub fn displayed_len(&self) -> (r: usize)
        ensures
            r == self.displayed().len(),
    {
        match self.current_page {
            CurrentPage::Tasks => self.items.len(),
            CurrentPage::Archives => self.archives.len(),
        }
    }

    /// Moves the cursor one entry down the shown list, stopping at its end.
    pub fn next(&mut self)
        ensures
            old(self).next_step(*final(self)),
            old(self).wf() ==> final(self).wf(),
            old(self).displayed().len() > 0 ==> final(self).wf(),
    {
        let len = self.displayed_len();
        self.selected = step_down(self.selected, len);
    }

    /// Moves the cursor one entry up the shown list, stopping at its start.
    pub fn previous(&mut self)
        ensures
            old(self).previous_step(*final(self)),
            old(self).wf() ==> final(self).wf(),
            old(self).displayed().len() > 0 ==> final(self).wf(),
    {
        let len = self.displayed_len();
        self.selected = step_up(self.selected, len);
    }

    /// Flips the completion flag of the selected task on the task page.
    pub fn toggle_status(&mut self)
        ensures
            old(self).toggle_step(*final(self)),
            old(self).wf() ==> final(self).wf(),
    {
        if let Some(i) = self.selected {
            if self.current_page == CurrentPage::Tasks && i < self.items.len() {
                let flag = self.items[i].is_done;
                self.items[i].is_done = !flag;
            }
        }
    }
    /// Moves the selected task from the task page to the end of the
    /// archive and reindexes the cursor against the shorter task list.
    pub fn archive_current(&mut self)
        ensures
            old(self).archive_step(*final(self)),
            final(self).items@.len() + final(self).archives@.len() == old(self).items@.len()
                + old(self).archives@.len(),
            old(self).can_archive() ==> {
                &&& final(self).items@.len() + 1 == old(self).items@.len()
                &&& final(self).archives@.len() == old(self).archives@.len() + 1
                &&& final(self).archives@.last() == old(self).items@[old(self).selected->0 as int]
            },
            old(self).wf() ==> final(self).wf(),
    {
        if self.current_page != CurrentPage::Tasks {
            return ;
        }
        if let Some(i) = self.selected {
            if i < self.items.len() {
                let item = self.items.remove(i);
                self.archives.push(item);
                let len = self.items.len();
                self.adjust_selection(i, len);
            }
        }
    }

    /// Takes the selected entry out of the shown list and reindexes the
    /// cursor against that list's new length.
    pub fn delete_current(&mut self)
        ensures
            old(self).delete_step(*final(self)),
            old(self).wf() && old(self).selected is Some ==> final(self).displayed().len() + 1
                == old(self).displayed().len(),
            old(self).wf() && old(self).selected is Some && old(self).selected_entry_unique() ==> {
                let gone = old(self).displayed()[old(self).selected->0 as int];
                &&& !final(self).items@.contains(gone)
                &&& !final(self).archives@.contains(gone)
            },
            old(self).wf() ==> final(self).wf(),
    {
        if let Some(i) = self.selected {
            let list = self.get_active_list_mut();
            if i < list.len() {
                list.remove(i);
            }
            let len = list.len();
            self.adjust_selection(i, len);
            proof {
                let pre = old(self).displayed();
                if (i as nat) < pre.len() {
                    assert forall|k: int| 0 <= k < self.displayed().len() implies self.displayed()[k]
                        == pre[if k < i {
                        k
                    } else {
                        k + 1
                    }] by {}
                }
            }
        }
    }

    /// Places the cursor after the entry at `removed_index` left a list
    /// that now has `new_len` entries.
    fn adjust_selection(&mut self, removed_index: usize, new_len: usize)
        ensures
            final(self).same_lists(*old(self)),
            final(self).same_mode(*old(self)),
            final(self).selected == reindexed(removed_index, new_len as nat),
    {
        self.selected = reindex(removed_index, new_len);
    }

    /// Exchanges the selected entry with the one above it; the cursor
    /// follows the entry.
    pub fn move_up(&mut self)
        ensures
            old(self).move_up_step(*final(self)),
            old(self).wf() ==> final(self).wf(),
    {
        if let Some(i) = self.selected {
            let list = self.get_active_list_mut();
            if i > 0 && i < list.len() {
                let entry = list.remove(i);
                list.insert(i - 1, entry);
                proof {
                    assert(list@ =~= swapped(old(self).displayed(), i - 1));
                }
                self.selected = Some(i - 1);
            }
        }
    }

    /// Exchanges the selected entry with the one below it; the cursor
    /// follows the entry.
    pub fn move_down(&mut self)
        ensures
            old(self).move_down_step(*final(self)),
            old(self).wf() ==> final(self).wf(),
    {
        if let Some(i) = self.selected {
            let list = self.get_active_list_mut();
            if list.len() > 0 && i < list.len() - 1 {
                let entry = list.remove(i);
                list.insert(i + 1, entry);
                proof {
                    assert(list@ =~= swapped(old(self).displayed(), i as int));
                }
                self.selected = Some(i + 1);
            }
        }
    }

    /// Shows `page`, bringing the cursor within that page's list.
    pub fn switch_page(&mut self, page: CurrentPage)
        ensures
            old(self).switch_step(page, *final(self)),
            final(self).wf(),
    {
        self.current_page = page;
        let len = self.displayed_len();
        self.selected = clamp(self.selected, len);
    }

    /// Clears the running flag; the control loop ends after it.
    pub fn request_exit(&mut self)
        ensures
            old(self).exit_step(*final(self)),
            old(self).wf() ==> final(self).wf(),
    {
        self.running = false;
    }

    /// What a key press does to `self`.
    pub open spec fn key_step(self, key: Key, post: AppState) -> bool {
        match key {
            Key::Esc => self.exit_step(post),
            Key::Up => self.previous_step(post),
            Key::Down => self.next_step(post),
            Key::Enter => self.archive_step(post),
            Key::Delete => self.delete_step(post),
            Key::Other => self.unchanged(post),
            Key::Char(c) => if c == 'q' {
                self.exit_step(post)
            } else if c == '1' {
                self.switch_step(CurrentPage::Tasks, post)
            } else if c == '2' {
                self.switch_step(CurrentPage::Archives, post)
            } else if c == 'k' {
                self.previous_step(post)
            } else if c == 'j' {
                self.next_step(post)
            } else if c == ' ' {
                self.toggle_step(post)
            } else if c == 'x' {
                self.delete_step(post)
            } else if c == 'K' {
                self.move_up_step(post)
            } else if c == 'J' {
                self.move_down_step(post)
            } else {
                self.unchanged(post)
            },
        }
    }

    /// Performs the operation bound to `key`; other keys change nothing.
    pub fn handle_key(&mut self, key: Key)
        ensures
            old(self).key_step(key, *final(self)),
            old(self).wf() ==> final(self).wf(),
    {
        match key {
            Key::Esc => self.request_exit(),
            Key::Up => self.previous(),
            Key::Down => self.next(),
            Key::Enter => self.archive_current(),
            Key::Delete => self.delete_current(),
            Key::Other => {},
            Key::Char(c) => {
                if c == 'q' {
                    self.request_exit();
                } else if c == '1' {
                    self.switch_page(CurrentPage::Tasks);
                } else if c == '2' {
                    self.switch_page(CurrentPage::Archives);
                } else if c == 'k' {
                    self.previous();
                } else if c == 'j' {
                    self.next();
                } else if c == ' ' {
                    self.toggle_status();
                } else if c == 'x' {
                    self.delete_current();
                } else if c == 'K' {
                    self.move_up();
                } else if c == 'J' {
                    self.move_down();
                }
            },
        }
    }

    /// The shown list, to be changed in place.
    fn get_active_list_mut(&mut self) -> (r: &mut Vec<TodoItem>)
        ensures
            r@ == old(self).displayed(),
            final(self).same_mode(*old(self)),
            final(self).selected == old(self).selected,
            final(self).hidden() == old(self).hidden(),
            final(self).displayed() == final(r)@,
    {
        match self.current_page {
            CurrentPage::Tasks => &mut self.items,
            CurrentPage::Archives => &mut self.archives,
        }
    }
}

impl Default for AppState {
    /// A running state on the task page with both lists empty and no
    /// selection.
    fn default() -> (r: AppState)
        ensures
            r.items@.len() == 0,
            r.archives@.len() == 0,
            r.current_page == CurrentPage::Tasks,
            r.running,
            r.selected is None,
            r.wf(),
    {
        AppState::with_tasks(Vec::new())
    }
}

/// Exchanging two neighbours twice gives the list back.
proof fn lemma_swapped_twice(s: Seq<TodoItem>, i: int)
    requires
        0 <= i,
        i + 1 < s.len(),
    ensures
        swapped(swapped(s, i), i) == s,
{
    assert(swapped(swapped(s, i), i) =~= s);
}

/// Two states that show the same page and agree on the shown and the
/// hidden list agree on both lists.
proof fn lemma_lists_from_views(a: AppState, b: AppState)
    requires
        a.current_page == b.current_page,
        a.displayed() == b.displayed(),
        a.hidden() == b.hidden(),
    ensures
        a.same_lists(b),
{
}

/// Moving the selected entry up and then down again restores both lists
/// and the cursor, whenever the entry had one above it.
pub proof fn lemma_move_up_then_down(a: AppState, b: AppState, c: AppState)
    requires
        a.can_move_up(),
        a.move_up_step(b),
        b.move_down_step(c),
    ensures
        a.unchanged(c),
{
    let i = a.selected->0 as int;
    assert(b.can_move_down());
    lemma_swapped_twice(a.displayed(), i - 1);
    lemma_lists_from_views(a, c);
}

/// Moving the selected entry down and then up again restores both lists
/// and the cursor, whenever the entry had one below it.
pub proof fn lemma_move_down_then_up(a: AppState, b: AppState, c: AppState)
    requires
        a.can_move_down(),
        a.move_down_step(b),
        b.move_up_step(c),
    ensures
        a.unchanged(c),
{
    let i = a.selected->0 as int;
    assert(a.items.len() == a.items@.len() && a.archives.len() == a.archives@.len());
    assert(b.displayed().len() == a.displayed().len());
    assert(b.can_move_up());
    lemma_swapped_twice(a.displayed(), i);
    lemma_lists_from_views(a, c);
}

} // verus!
