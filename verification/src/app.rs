//! The interactive console's state: which screen is open, the form buffers,
//! list selection and search, and the registry being managed.

use vstd::prelude::*;
use crate::db::{
    CommandModel, CommandView, Database, DbView, GroupModel, GroupView, clone_opt, clone_strings,
    command_views, group_views, opt_view,
};
use crate::ranking::{Ranked, rank_of, rank_sorted, ranked_views, sort_by_rank};
use crate::registry::{
    field_hit, filter_commands, filter_groups, find_command, find_group, group_pos, command_pos,
    selected_commands, selected_groups,
};
use crate::text::{chars_of, contains_chars, to_lowercase, unicode_lowercase, views};

verus! {

/// The screens of the console.
#[derive(Copy, Clone, PartialEq, Eq, Debug, Structural)]
pub enum AppScreen {
    Dashboard,
    ListCommands,
    AddCommand,
    AddGroup,
    UpdateCommandList,
    UpdateCommandForm,
    UpdateGroupForm,
    DeleteCommandList,
    ExportMenu,
    ImportForm,
}

/// The focusable parts of the command form.
#[derive(Copy, Clone, PartialEq, Eq, Debug, Structural)]
pub enum FormField {
    Title,
    Description,
    Script,
    Group,
    Save,
    Cancel,
}

/// The focusable parts of the group form.
#[derive(Copy, Clone, PartialEq, Eq, Debug, Structural)]
pub enum GroupFormField {
    Name,
    Description,
    CommandsList,
    AvailableCommands,
    Save,
    Cancel,
}

/// A command or group, with how often it ran.
pub struct UsedItem {
    pub name: String,
    pub is_group: bool,
    pub use_count: u32,
}

/// The mathematical value of a used item.
pub struct ItemView {
    pub name: Seq<char>,
    pub is_group: bool,
    pub use_count: u32,
}

impl View for UsedItem {
    type V = ItemView;

    open spec fn view(&self) -> ItemView {
        ItemView { name: self.name@, is_group: self.is_group, use_count: self.use_count }
    }
}

impl Clone for UsedItem {
    fn clone(&self) -> (r: Self)
        ensures
            r@ == self@,
    {
        UsedItem { name: self.name.clone(), is_group: self.is_group, use_count: self.use_count }
    }
}

impl Ranked for UsedItem {
    open spec fn view_rank(v: ItemView) -> u32 {
        v.use_count
    }

    fn use_count_of(&self) -> (r: u32) {
        self.use_count
    }
}

impl Ranked for CommandModel {
    open spec fn view_rank(v: CommandView) -> u32 {
        v.use_count
    }

    fn use_count_of(&self) -> (r: u32) {
        self.use_count
    }
}

impl Ranked for GroupModel {
    open spec fn view_rank(v: GroupView) -> u32 {
        v.use_count
    }

    fn use_count_of(&self) -> (r: u32) {
        self.use_count
    }
}

/// The views of a list of used items.
pub open spec fn item_views(v: Seq<UsedItem>) -> Seq<ItemView> {
    v.map_values(|x: UsedItem| x@)
}

/// The console state.
pub struct App {
    pub screen: AppScreen,
    pub db: Database,
    pub should_quit: bool,
    pub list_selected: usize,
    pub list_tab: usize,
    pub form_title: String,
    pub form_desc: String,
    pub form_script: String,
    pub form_group: String,
    pub form_focus: FormField,
    pub form_error: Option<String>,
    pub group_name: String,
    pub group_desc: String,
    pub group_commands: Vec<String>,
    pub group_focus: GroupFormField,
    pub group_commands_selected: usize,
    pub group_avail_selected: usize,
    pub group_error: Option<String>,
    pub delete_confirm_title: Option<String>,
    pub delete_confirm_group: bool,
    pub update_target_title: String,
    pub update_target_group_name: String,
    pub export_selected: usize,
    pub export_message: Option<String>,
    pub import_path: String,
    pub import_message: Option<String>,
    pub tick_count: u64,
    pub dashboard_selected: usize,
    pub list_search_query: String,
    pub list_is_searching: bool,
    pub list_grabbed: Option<usize>,
    pub dashboard_focused_panel: usize,
    pub dashboard_history_selected: usize,
}

/// The mathematical value of the console state.
pub struct AppView {
    pub screen: AppScreen,
    pub db: DbView,
    pub should_quit: bool,
    pub list_selected: usize,
    pub list_tab: usize,
    pub form_title: Seq<char>,
    pub form_desc: Seq<char>,
    pub form_script: Seq<char>,
    pub form_group: Seq<char>,
    pub form_focus: FormField,
    pub form_error: Option<Seq<char>>,
    pub group_name: Seq<char>,
    pub group_desc: Seq<char>,
    pub group_commands: Seq<Seq<char>>,
    pub group_focus: GroupFormField,
    pub group_commands_selected: usize,
    pub group_avail_selected: usize,
    pub group_error: Option<Seq<char>>,
    pub delete_confirm_title: Option<Seq<char>>,
    pub delete_confirm_group: bool,
    pub update_target_title: Seq<char>,
    pub update_target_group_name: Seq<char>,
    pub export_selected: usize,
    pub export_message: Option<Seq<char>>,
    pub import_path: Seq<char>,
    pub import_message: Option<Seq<char>>,
    pub tick_count: u64,
    pub dashboard_selected: usize,
    pub list_search_query: Seq<char>,
    pub list_is_searching: bool,
    pub list_grabbed: Option<usize>,
    pub dashboard_focused_panel: usize,
    pub dashboard_history_selected: usize,
}

impl View for App {
    type V = AppView;

    open spec fn view(&self) -> AppView {
        AppView {
            screen: self.screen,
            db: self.db@,
            should_quit: self.should_quit,
            list_selected: self.list_selected,
            list_tab: self.list_tab,
            form_title: self.form_title@,
            form_desc: self.form_desc@,
            form_script: self.form_script@,
            form_group: self.form_group@,
            form_focus: self.form_focus,
            form_error: opt_view(self.form_error),
            group_name: self.group_name@,
            group_desc: self.group_desc@,
            group_commands: views(self.group_commands@),
            group_focus: self.group_focus,
            group_commands_selected: self.group_commands_selected,
            group_avail_selected: self.group_avail_selected,
            group_error: opt_view(self.group_error),
            delete_confirm_title: opt_view(self.delete_confirm_title),
            delete_confirm_group: self.delete_confirm_group,
            update_target_title: self.update_target_title@,
            update_target_group_name: self.update_target_group_name@,
            export_selected: self.export_selected,
            export_message: opt_view(self.export_message),
            import_path: self.import_path@,
            import_message: opt_view(self.import_message),
            tick_count: self.tick_count,
            dashboard_selected: self.dashboard_selected,
            list_search_query: self.list_search_query@,
            list_is_searching: self.list_is_searching,
            list_grabbed: self.list_grabbed,
            dashboard_focused_panel: self.dashboard_focused_panel,
            dashboard_history_selected: self.dashboard_history_selected,
        }
    }
}

/// The state of a freshly opened console on `screen`, managing `db`.
pub open spec fn initial_view(screen: AppScreen, db: DbView) -> AppView {
    AppView {
        screen: screen,
        db: db,
        should_quit: false,
        list_selected: 0,
        list_tab: 0,
        form_title: Seq::empty(),
        form_desc: Seq::empty(),
        form_script: Seq::empty(),
        form_group: Seq::empty(),
        form_focus: FormField::Title,
        form_error: None,
        group_name: Seq::empty(),
        group_desc: Seq::empty(),
        group_commands: Seq::empty(),
        group_focus: GroupFormField::Name,
        group_commands_selected: 0,
        group_avail_selected: 0,
        group_error: None,
        delete_confirm_title: None,
        delete_confirm_group: false,
        update_target_title: Seq::empty(),
        update_target_group_name: Seq::empty(),
        export_selected: 0,
        export_message: None,
        import_path: Seq::empty(),
        import_message: None,
        tick_count: 0,
        dashboard_selected: 0,
        list_search_query: Seq::empty(),
        list_is_searching: true,
        list_grabbed: None,
        dashboard_focused_panel: 0,
        dashboard_history_selected: 0,
    }
}

/// The command form emptied, focus on the title.
pub open spec fn with_empty_form(a: AppView) -> AppView {
    AppView {
        form_title: Seq::empty(),
        form_desc: Seq::empty(),
        form_script: Seq::empty(),
        form_group: Seq::empty(),
        form_focus: FormField::Title,
        form_error: None,
        ..a
    }
}

/// The command form filled from `c`, to edit it.
pub open spec fn with_edit_form(a: AppView, c: CommandView) -> AppView {
    AppView {
        form_title: c.title,
        form_desc: c.description,
        form_script: c.script,
        form_group: match c.group {
            Some(g) => g,
            None => Seq::empty(),
        },
        form_focus: FormField::Title,
        form_error: None,
        update_target_title: c.title,
        ..a
    }
}

/// The group form emptied, focus on the name.
pub open spec fn with_empty_group_form(a: AppView) -> AppView {
    AppView {
        group_name: Seq::empty(),
        group_desc: Seq::empty(),
        group_commands: Seq::empty(),
        group_focus: GroupFormField::Name,
        group_commands_selected: 0,
        group_avail_selected: 0,
        group_error: None,
        ..a
    }
}

/// The group form filled from `g`, to edit it.
pub open spec fn with_edit_group_form(a: AppView, g: GroupView) -> AppView {
    AppView {
        group_name: g.name,
        group_desc: g.description,
        group_commands: g.commands,
        group_focus: GroupFormField::Name,
        group_commands_selected: 0,
        group_avail_selected: 0,
        group_error: None,
        update_target_group_name: g.name,
        ..a
    }
}

/// The used item that stands for a command.
pub open spec fn command_item(c: CommandView) -> ItemView {
    ItemView { name: c.title, is_group: false, use_count: c.use_count }
}

/// The used item that stands for a group.
pub open spec fn group_item(g: GroupView) -> ItemView {
    ItemView { name: g.name, is_group: true, use_count: g.use_count }
}

/// Every command, then every group, as used items.
pub open spec fn all_items(db: DbView) -> Seq<ItemView> {
    db.commands.map_values(|c: CommandView| command_item(c)) + db.groups.map_values(
        |g: GroupView| group_item(g),
    )
}

/// The favourite commands, then the favourite groups, as used items.
pub open spec fn favorite_items(db: DbView) -> Seq<ItemView> {
    db.commands.filter(|c: CommandView| c.favorite).map_values(|c: CommandView| command_item(c))
        + db.groups.filter(|g: GroupView| g.favorite).map_values(|g: GroupView| group_item(g))
}

/// Every command and group, most used first (ties in registry order).
pub open spec fn most_run(db: DbView) -> Seq<ItemView> {
    rank_sorted(all_items(db), rank_of::<UsedItem>())
}

/// An item passes the console search when the query is empty or its name
/// matches.
pub open spec fn item_selected(it: ItemView, q: Seq<char>) -> bool {
    q.len() == 0 || field_hit(it.name, q)
}

/// The items that the console search keeps.
pub open spec fn selected_items(s: Seq<ItemView>, q: Seq<char>) -> Seq<ItemView> {
    s.filter(|it: ItemView| item_selected(it, q))
}

/// The commands shown on the console's command tab.
pub open spec fn filtered_commands(a: AppView) -> Seq<CommandView> {
    selected_commands(a.db.commands, a.list_search_query, true)
}

/// The groups shown on the console's group tab.
pub open spec fn filtered_groups(a: AppView) -> Seq<GroupView> {
    selected_groups(a.db.groups, a.list_search_query, true)
}

/// The favourites shown on the console's favourites tab.
pub open spec fn filtered_favorites(a: AppView) -> Seq<ItemView> {
    selected_items(favorite_items(a.db), a.list_search_query)
}

/// The registry with the favourite mark of the first entry called `name`
/// flipped (a group when `is_group`, else a command); unchanged when there is
/// none.
pub open spec fn toggled_favorite(db: DbView, name: Seq<char>, is_group: bool) -> DbView {
    if is_group {
        match group_pos(db.groups, name) {
            Some(i) => DbView {
                groups: db.groups.update(i, GroupView { favorite: !db.groups[i].favorite, ..db.groups[i] }),
                ..db
            },
            None => db,
        }
    } else {
        match command_pos(db.commands, name) {
            Some(i) => DbView {
                commands: db.commands.update(
                    i,
                    CommandView { favorite: !db.commands[i].favorite, ..db.commands[i] },
                ),
                ..db
            },
            None => db,
        }
    }
}

/// Whether `toggled_favorite` finds an entry to flip.
pub open spec fn favorite_found(db: DbView, name: Seq<char>, is_group: bool) -> bool {
    if is_group {
        group_pos(db.groups, name) is Some
    } else {
        command_pos(db.commands, name) is Some
    }
}

/// The used item of a command.
fn item_of_command(c: &CommandModel) -> (r: UsedItem)
    ensures
        r@ == command_item(c@),
{
    UsedItem { name: c.title.clone(), is_group: false, use_count: c.use_count }
}

/// The used item of a group.
fn item_of_group(g: &GroupModel) -> (r: UsedItem)
    ensures
        r@ == group_item(g@),
{
    UsedItem { name: g.name.clone(), is_group: true, use_count: g.use_count }
}

/// The items of `s` that the console search for `q` keeps.
pub fn filter_items(s: Vec<UsedItem>, q: &str) -> (r: Vec<UsedItem>)
    ensures
        item_views(r@) == selected_items(item_views(s@), q@),
{
    let ghost sv = item_views(s@);
    let ghost pred = |it: ItemView| item_selected(it, q@);
    let lq_s = to_lowercase(q);
    let lq = chars_of(lq_s.as_str());
    let all = q.unicode_len() == 0;
    let mut r: Vec<UsedItem> = Vec::new();
    let mut i: usize = 0;
    proof {
        reveal(Seq::filter);
        assert(sv.take(0) =~= Seq::<ItemView>::empty());
    }
    while i < s.len()
        invariant
            sv == item_views(s@),
            pred == (|it: ItemView| item_selected(it, q@)),
            lq@ == unicode_lowercase(q@),
            all == (q@.len() == 0),
            i <= s@.len(),
            item_views(r@) == sv.take(i as int).filter(pred),
        decreases s@.len() - i,
    {
        let keep = if all {
            true
        } else {
            let ln = to_lowercase(s[i].name.as_str());
            let lnv = chars_of(ln.as_str());
            contains_chars(&lnv, &lq)
        };
        let ghost before = r@;
        proof {
            reveal(Seq::filter);
            assert(sv.take(i + 1).drop_last() =~= sv.take(i as int));
            assert(sv[i as int] == s@[i as int]@);
        }
        if keep {
            r.push(s[i].clone());
            assert(item_views(r@) =~= item_views(before).push(s@[i as int]@));
        }
        i = i + 1;
    }
    proof {
        assert(sv.take(i as int) =~= sv);
    }
    r
}

impl App {
    /// A console opened on `screen` over the registry `db`.
    pub fn new(screen: AppScreen, db: Database) -> (app: App)
        ensures
            app@ == initial_view(screen, db@),
    {
        let group_commands: Vec<String> = Vec::new();
        assert(views(group_commands@) =~= Seq::<Seq<char>>::empty());
        App {
            screen,
            db,
            should_quit: false,
            list_selected: 0,
            list_tab: 0,
            form_title: String::new(),
            form_desc: String::new(),
            form_script: String::new(),
            form_group: String::new(),
            form_focus: FormField::Title,
            form_error: None,
            group_name: String::new(),
            group_desc: String::new(),
            group_commands,
            group_focus: GroupFormField::Name,
            group_commands_selected: 0,
            group_avail_selected: 0,
            group_error: None,
            delete_confirm_title: None,
            delete_confirm_group: false,
            update_target_title: String::new(),
            update_target_group_name: String::new(),
            export_selected: 0,
            export_message: None,
            import_path: String::new(),
            import_message: None,
            tick_count: 0,
            dashboard_selected: 0,
            list_search_query: String::new(),
            list_is_searching: true,
            list_grabbed: None,
            dashboard_focused_panel: 0,
            dashboard_history_selected: 0,
        }
    }

    /// Empties the command form.
    pub fn init_form_empty(&mut self)
        ensures
            final(self)@ == with_empty_form(old(self)@),
    {
        self.form_title = String::new();
        self.form_desc = String::new();
        self.form_script = String::new();
        self.form_group = String::new();
        self.form_focus = FormField::Title;
        self.form_error = None;
    }

    /// Fills the command form from `cmd`, to edit it.
    pub fn init_form_edit(&mut self, cmd: &CommandModel)
        ensures
            final(self)@ == with_edit_form(old(self)@, cmd@),
    {
        self.form_title = cmd.title.clone();
        self.form_desc = cmd.description.clone();
        self.form_script = cmd.script.clone();
        self.form_group = match &cmd.group {
            Some(g) => g.clone(),
            None => String::new(),
        };
        self.form_focus = FormField::Title;
        self.form_error = None;
        self.update_target_title = cmd.title.clone();
    }

    /// Empties the group form.
    pub fn init_group_form_empty(&mut self)
        ensures
            final(self)@ == with_empty_group_form(old(self)@),
    {
        self.group_name = String::new();
        self.group_desc = String::new();
        self.group_commands = Vec::new();
        self.group_focus = GroupFormField::Name;
        self.group_commands_selected = 0;
        self.group_avail_selected = 0;
        self.group_error = None;
        assert(views(self.group_commands@) =~= Seq::<Seq<char>>::empty());
    }

    /// Fills the group form from `grp`, to edit it.
    pub fn init_group_form_edit(&mut self, grp: &GroupModel)
        ensures
            final(self)@ == with_edit_group_form(old(self)@, grp@),
    {
        self.group_name = grp.name.clone();
        self.group_desc = grp.description.clone();
        self.group_commands = clone_strings(&grp.commands);
        self.group_focus = GroupFormField::Name;
        self.group_commands_selected = 0;
        self.group_avail_selected = 0;
        self.group_error = None;
        self.update_target_group_name = grp.name.clone();
    }

    /// The commands that the search query keeps, in registry order.
    pub fn get_filtered_commands(&self) -> (r: Vec<CommandModel>)
        ensures
            command_views(r@) == filtered_commands(self@),
    {
        filter_commands(&self.db.commands, self.list_search_query.as_str(), true)
    }

    /// The groups that the search query keeps, in registry order.
    pub fn get_filtered_groups(&self) -> (r: Vec<GroupModel>)
        ensures
            group_views(r@) == filtered_groups(self@),
    {
        filter_groups(&self.db.groups, self.list_search_query.as_str(), true)
    }

    /// Every command, then every group, as used items.
    pub fn all_items(&self) -> (r: Vec<UsedItem>)
        ensures
            item_views(r@) == all_items(self@.db),
    {
        let ghost cs = self@.db.commands;
        let ghost gs = self@.db.groups;
        let mut r: Vec<UsedItem> = Vec::new();
        let mut i: usize = 0;
        while i < self.db.commands.len()
            invariant
                cs == self@.db.commands,
                i <= self.db.commands@.len(),
                item_views(r@) =~= cs.take(i as int).map_values(|c: CommandView| command_item(c)),
            decreases self.db.commands@.len() - i,
        {
            let ghost before = r@;
            r.push(item_of_command(&self.db.commands[i]));
            proof {
                assert(cs[i as int] == self.db.commands@[i as int]@);
                assert(item_views(r@) =~= item_views(before).push(command_item(cs[i as int])));
                assert(cs.take(i + 1) =~= cs.take(i as int).push(cs[i as int]));
            }
            i = i + 1;
        }
        let ghost first = r@;
        proof {
            assert(cs.take(i as int) =~= cs);
        }
        let mut k: usize = 0;
        while k < self.db.groups.len()
            invariant
                gs == self@.db.groups,
                k <= self.db.groups@.len(),
                item_views(r@) =~= item_views(first) + gs.take(k as int).map_values(
                    |g: GroupView| group_item(g),
                ),
            decreases self.db.groups@.len() - k,
        {
            let ghost before = r@;
            r.push(item_of_group(&self.db.groups[k]));
            proof {
                assert(gs[k as int] == self.db.groups@[k as int]@);
                assert(item_views(r@) =~= item_views(before).push(group_item(gs[k as int])));
                assert(gs.take(k + 1) =~= gs.take(k as int).push(gs[k as int]));
            }
            k = k + 1;
        }
        proof {
            assert(gs.take(k as int) =~= gs);
        }
        r
    }

    /// Every command and group, most used first; ties keep registry order
    /// (the dashboard's "Most Run Items").
    pub fn most_run_items(&self) -> (r: Vec<UsedItem>)
        ensures
            item_views(r@) == most_run(self@.db),
    {
        let items = self.all_items();
        let r = sort_by_rank(items);
        proof {
            assert(ranked_views(r@) == item_views(r@));
            assert(ranked_views(items@) == item_views(items@));
        }
        r
    }

    /// The most-used ordering, restricted to items that the search keeps.
    pub fn get_filtered_most_run(&self) -> (r: Vec<UsedItem>)
        ensures
            item_views(r@) == selected_items(most_run(self@.db), self@.list_search_query),
    {
        let sorted = self.most_run_items();
        filter_items(sorted, self.list_search_query.as_str())
    }

    /// The favourite commands, then the favourite groups, as used items.
    pub fn favorite_items(&self) -> (r: Vec<UsedItem>)
        ensures
            item_views(r@) == favorite_items(self@.db),
    {
        let ghost cs = self@.db.commands;
        let ghost gs = self@.db.groups;
        let ghost cp = |c: CommandView| c.favorite;
        let ghost gp = |g: GroupView| g.favorite;
        let mut r: Vec<UsedItem> = Vec::new();
        let mut i: usize = 0;
        proof {
            reveal(Seq::filter);
            assert(cs.take(0) =~= Seq::<CommandView>::empty());
            assert(gs.take(0) =~= Seq::<GroupView>::empty());
        }
        while i < self.db.commands.len()
            invariant
                cs == self@.db.commands,
                cp == (|c: CommandView| c.favorite),
                i <= self.db.commands@.len(),
                item_views(r@) =~= cs.take(i as int).filter(cp).map_values(
                    |c: CommandView| command_item(c),
                ),
            decreases self.db.commands@.len() - i,
        {
            let ghost before = r@;
            proof {
                reveal(Seq::filter);
                assert(cs[i as int] == self.db.commands@[i as int]@);
                assert(cs.take(i + 1).drop_last() =~= cs.take(i as int));
            }
            if self.db.commands[i].favorite {
                r.push(item_of_command(&self.db.commands[i]));
                assert(item_views(r@) =~= item_views(before).push(command_item(cs[i as int])));
            }
            i = i + 1;
        }
        let ghost first = r@;
        proof {
            assert(cs.take(i as int) =~= cs);
        }
        let mut k: usize = 0;
        while k < self.db.groups.len()
            invariant
                gs == self@.db.groups,
                gp == (|g: GroupView| g.favorite),
                k <= self.db.groups@.len(),
                item_views(r@) =~= item_views(first) + gs.take(k as int).filter(gp).map_values(
                    |g: GroupView| group_item(g),
                ),
            decreases self.db.groups@.len() - k,
        {
            let ghost before = r@;
            proof {
                reveal(Seq::filter);
                assert(gs[k as int] == self.db.groups@[k as int]@);
                assert(gs.take(k + 1).drop_last() =~= gs.take(k as int));
            }
            if self.db.groups[k].favorite {
                r.push(item_of_group(&self.db.groups[k]));
                assert(item_views(r@) =~= item_views(before).push(group_item(gs[k as int])));
            }
            k = k + 1;
        }
        proof {
            assert(gs.take(k as int) =~= gs);
        }
        r
    }

    /// The favourites that the search query keeps.
    pub fn get_filtered_favorites(&self) -> (r: Vec<UsedItem>)
        ensures
            item_views(r@) == filtered_favorites(self@),
    {
        let items = self.favorite_items();
        filter_items(items, self.list_search_query.as_str())
    }

    /// Flips the favourite mark of the first group (`is_group`) or command
    /// called `name`. Returns whether one was found, so that the registry
    /// needs saving.
    pub fn toggle_favorite(&mut self, name: &str, is_group: bool) -> (changed: bool)
        ensures
            final(self)@ == (AppView {
                db: toggled_favorite(old(self)@.db, name@, is_group),
                ..old(self)@
            }),
            changed == favorite_found(old(self)@.db, name@, is_group),
    {
        proof {
            crate::registry::lemma_group_pos(self@.db.groups, name@);
            crate::registry::lemma_command_pos(self@.db.commands, name@);
        }
        if is_group {
            match find_group(&self.db.groups, name) {
                Some(pos) => {
                    let mut g = self.db.groups[pos].clone();
                    g.favorite = !g.favorite;
                    let ghost before = self.db.groups@;
                    self.db.groups.set(pos, g);
                    proof {
                        assert(group_views(self.db.groups@) =~= group_views(before).update(
                            pos as int,
                            g@,
                        ));
                    }
                    true
                },
                None => false,
            }
        } else {
            match find_command(&self.db.commands, name) {
                Some(pos) => {
                    let mut c = self.db.commands[pos].clone();
                    c.favorite = !c.favorite;
                    let ghost before = self.db.commands@;
                    self.db.commands.set(pos, c);
                    proof {
                        assert(command_views(self.db.commands@) =~= command_views(before).update(
                            pos as int,
                            c@,
                        ));
                    }
                    true
                },
                None => false,
            }
        }
    }
}

} // verus!
