//! Discoverability: the command palette (a searchable list of actions) and
//! context-sensitive key hints.
use vstd::prelude::*;
use crate::action::Action;
use crate::mode::AppMode;
use crate::tab::Tab;
use crate::text::{copy_str, pop_char, push_char, spec_contains, spec_str_to_lowercase, str_contains, strings_view, to_lowercase};

verus! {

/// Abstract content of a command.
pub ghost struct CommandView {
    pub id: Seq<char>,
    pub name: Seq<char>,
    pub description: Seq<char>,
    pub keys: Seq<Seq<char>>,
    pub available_in: Seq<AppMode>,
    pub tabs: Seq<Tab>,
    pub action: Action,
}

/// A command that can be executed from the command palette.
#[derive(Debug, Clone)]
pub struct Command {
    /// Unique identifier
    pub id: String,
    /// Display name
    pub name: String,
    /// Description of what the command does
    pub description: String,
    /// Key binding(s) that trigger this command
    pub keys: Vec<String>,
    /// Which modes this command is available in
    pub available_in: Vec<AppMode>,
    /// Which tabs this command is available in (empty = all)
    pub tabs: Vec<Tab>,
    /// The action to execute
    pub action: Action,
}

impl View for Command {
    type V = CommandView;

    open spec fn view(&self) -> CommandView {
        CommandView {
            id: self.id@,
            name: self.name@,
            description: self.description@,
            keys: strings_view(self.keys@),
            available_in: self.available_in@,
            tabs: self.tabs@,
            action: self.action,
        }
    }
}

/// Views of a sequence of commands.
pub open spec fn commands_view(v: Seq<Command>) -> Seq<CommandView> {
    v.map_values(|c: Command| c@)
}

/// Views of a sequence of command references.
pub open spec fn command_refs_view(v: Seq<&Command>) -> Seq<CommandView> {
    v.map_values(|c: &Command| c@)
}

/// The three modes, in order.
pub open spec fn spec_all_modes() -> Seq<AppMode> {
    seq![AppMode::Navigation, AppMode::Edit, AppMode::View]
}

impl Command {
    /// Create a new command available in every mode and every tab.
    pub fn new(id: &str, name: &str, action: Action) -> (r: Self)
        ensures
            r@ == (CommandView {
                id: id@,
                name: name@,
                description: Seq::empty(),
                keys: Seq::empty(),
                available_in: spec_all_modes(),
                tabs: Seq::empty(),
                action,
            }),
    {
        let keys: Vec<String> = Vec::new();
        let r = Command {
            id: copy_str(id),
            name: copy_str(name),
            description: String::new(),
            keys,
            available_in: vec![AppMode::Navigation, AppMode::Edit, AppMode::View],
            tabs: Vec::new(),
            action,
        };
        assert(strings_view(r.keys@) =~= Seq::<Seq<char>>::empty());
        assert(r.available_in@ =~= spec_all_modes());
        r
    }

    /// Set description.
    pub fn description(self, desc: &str) -> (r: Self)
        ensures
            r@ == (CommandView { description: desc@, ..self@ }),
    {
        let mut c = self;
        c.description = copy_str(desc);
        c
    }

    /// Set key bindings.
    pub fn keys(self, keys: Vec<String>) -> (r: Self)
        ensures
            r@ == (CommandView { keys: strings_view(keys@), ..self@ }),
    {
        let mut c = self;
        c.keys = keys;
        c
    }

    /// Set available modes.
    pub fn available_in(self, modes: Vec<AppMode>) -> (r: Self)
        ensures
            r@ == (CommandView { available_in: modes@, ..self@ }),
    {
        let mut c = self;
        c.available_in = modes;
        c
    }

    /// Set available tabs.
    pub fn tabs(self, tabs: Vec<Tab>) -> (r: Self)
        ensures
            r@ == (CommandView { tabs: tabs@, ..self@ }),
    {
        let mut c = self;
        c.tabs = tabs;
        c
    }
}

/// Whether a command matches the lowercased query `q`: an empty query matches everything;
/// otherwise the lowercased name, description or one of the lowercased keys contains `q`.
pub open spec fn spec_matches(c: CommandView, q: Seq<char>) -> bool {
    ||| q.len() == 0
    ||| spec_contains(spec_str_to_lowercase(c.name), q)
    ||| spec_contains(spec_str_to_lowercase(c.description), q)
    ||| exists|k: int| 0 <= k < c.keys.len() && spec_contains(spec_str_to_lowercase(#[trigger] c.keys[k]), q)
}

/// Indices among the first `n` commands that match `q`, ascending.
pub open spec fn spec_filter_prefix(cmds: Seq<CommandView>, q: Seq<char>, n: int) -> Seq<usize>
    decreases n,
{
    if n <= 0 {
        Seq::empty()
    } else {
        let prev = spec_filter_prefix(cmds, q, n - 1);
        if spec_matches(cmds[n - 1], q) { prev.push((n - 1) as usize) } else { prev }
    }
}

/// Indices of the commands matching `search` (compared case-insensitively), ascending;
/// with an empty search, every command.
pub open spec fn spec_filtered(cmds: Seq<CommandView>, search: Seq<char>) -> Seq<usize> {
    if search.len() == 0 {
        Seq::new(cmds.len(), |i: int| i as usize)
    } else {
        spec_filter_prefix(cmds, spec_str_to_lowercase(search), cmds.len() as int)
    }
}

/// Whether a command is offered in `mode` on `tab`.
pub open spec fn spec_available(c: CommandView, mode: AppMode, tab: Tab) -> bool {
    c.available_in.contains(mode) && (c.tabs.len() == 0 || c.tabs.contains(tab))
}

/// Commands of `cmds` available in `mode` on `tab`, in registry order.
pub open spec fn spec_available_commands(cmds: Seq<CommandView>, mode: AppMode, tab: Tab) -> Seq<CommandView>
    decreases cmds.len(),
{
    if cmds.len() == 0 {
        cmds
    } else {
        let prev = spec_available_commands(cmds.drop_last(), mode, tab);
        if spec_available(cmds.last(), mode, tab) { prev.push(cmds.last()) } else { prev }
    }
}

/// Whether `cmd` matches the lowercased query `q`.
fn command_matches(cmd: &Command, q: &str) -> (r: bool)
    ensures
        r == spec_matches(cmd@, q@),
{
    if q.unicode_len() == 0 {
        return true;
    }
    let name = to_lowercase(cmd.name.as_str());
    if str_contains(name.as_str(), q) {
        return true;
    }
    let desc = to_lowercase(cmd.description.as_str());
    if str_contains(desc.as_str(), q) {
        return true;
    }
    let mut k: usize = 0;
    while k < cmd.keys.len()
        invariant
            k <= cmd.keys@.len(),
            forall|j: int| 0 <= j < k ==> !spec_contains(spec_str_to_lowercase(#[trigger] cmd@.keys[j]), q@),
        decreases cmd.keys@.len() - k,
    {
        let key = to_lowercase(cmd.keys[k].as_str());
        if str_contains(key.as_str(), q) {
            assert(cmd@.keys[k as int] == cmd.keys@[k as int]@);
            return true;
        }
        assert(cmd@.keys[k as int] == cmd.keys@[k as int]@);
        k = k + 1;
    }
    false
}

fn contains_mode(v: &Vec<AppMode>, m: AppMode) -> (r: bool)
    ensures
        r == v@.contains(m),
{
    let mut i: usize = 0;
    while i < v.len()
        invariant
            i <= v@.len(),
            forall|j: int| 0 <= j < i ==> v@[j] != m,
        decreases v@.len() - i,
    {
        if v[i] == m {
            return true;
        }
        i = i + 1;
    }
    false
}

fn contains_tab(v: &Vec<Tab>, t: Tab) -> (r: bool)
    ensures
        r == v@.contains(t),
{
    let mut i: usize = 0;
    while i < v.len()
        invariant
            i <= v@.len(),
            forall|j: int| 0 <= j < i ==> v@[j] != t,
        decreases v@.len() - i,
    {
        if v[i] == t {
            return true;
        }
        i = i + 1;
    }
    false
}

/// Command palette state.
#[derive(Debug)]
pub struct CommandPalette {
    /// Whether the palette is visible
    pub visible: bool,
    /// Search input buffer
    pub search: String,
    /// Selected index into `filtered`
    pub selected: usize,
    /// All available commands
    pub commands: Vec<Command>,
    /// Indices into `commands` of the commands matching the search
    pub filtered: Vec<usize>,
}

/// `q` is palette `p` after toggling: hidden when it was shown (nothing else changes),
/// else shown with an empty search, the first entry selected and every command listed.
pub open spec fn spec_palette_toggled(p: CommandPalette, q: CommandPalette) -> bool {
    &&& q.visible == !p.visible
    &&& q.commands@ == p.commands@
    &&& p.visible ==> q.search@ == p.search@ && q.selected == p.selected && q.filtered@ == p.filtered@
    &&& !p.visible ==> q.search@ == Seq::<char>::empty() && q.selected == 0
        && q.filtered@ == spec_filtered(commands_view(p.commands@), Seq::<char>::empty())
}

/// `q` is palette `p` after typing `c`: the search grows, the list is filtered anew and
/// the first entry selected.
pub open spec fn spec_palette_typed(p: CommandPalette, q: CommandPalette, c: char) -> bool {
    &&& q.visible == p.visible
    &&& q.search@ == p.search@.push(c)
    &&& q.selected == 0
    &&& q.commands@ == p.commands@
    &&& q.filtered@ == spec_filtered(commands_view(p.commands@), p.search@.push(c))
}

/// `q` is palette `p` after Backspace: the search loses its last character, the list is
/// filtered anew and the selection clamped to it.
pub open spec fn spec_palette_backspaced(p: CommandPalette, q: CommandPalette) -> bool {
    &&& q.visible == p.visible
    &&& q.search@ == if p.search@.len() == 0 { p.search@ } else { p.search@.drop_last() }
    &&& q.commands@ == p.commands@
    &&& q.filtered@ == spec_filtered(commands_view(p.commands@), q.search@)
    &&& q.selected == if p.selected <= q.filtered@.len() - 1 {
        p.selected as int
    } else if q.filtered@.len() == 0 {
        0
    } else {
        q.filtered@.len() - 1
    }
}

/// `q` is palette `p` with the selection moved up (`up`) or down, stopping at the ends;
/// nothing else changes.
pub open spec fn spec_palette_moved(p: CommandPalette, q: CommandPalette, up: bool) -> bool {
    &&& q.selected == if up {
        if p.selected == 0 { 0 } else { (p.selected - 1) as usize }
    } else if p.selected + 1 < p.filtered@.len() {
        (p.selected + 1) as usize
    } else {
        p.selected
    }
    &&& q.visible == p.visible
    &&& q.search@ == p.search@
    &&& q.commands@ == p.commands@
    &&& q.filtered@ == p.filtered@
}

impl CommandPalette {
    /// Recompute `filtered` from `search`.
    fn update_filtered(&mut self)
        ensures
            final(self).filtered@ == spec_filtered(commands_view(final(self).commands@), final(self).search@),
            final(self).visible == old(self).visible,
            final(self).search@ == old(self).search@,
            final(self).selected == old(self).selected,
            final(self).commands@ == old(self).commands@,
    {
        let ghost cv = commands_view(self.commands@);
        let mut out: Vec<usize> = Vec::new();
        let mut i: usize = 0;
        if self.search.unicode_len() == 0 {
            while i < self.commands.len()
                invariant
                    cv == commands_view(self.commands@),
                    i <= self.commands@.len(),
                    out@ == Seq::new(i as nat, |j: int| j as usize),
                decreases self.commands@.len() - i,
            {
                out.push(i);
                assert(out@ =~= Seq::new((i + 1) as nat, |j: int| j as usize));
                i = i + 1;
            }
            self.filtered = out;
            return;
        }
        let q = to_lowercase(self.search.as_str());
        while i < self.commands.len()
            invariant
                cv == commands_view(self.commands@),
                i <= self.commands@.len(),
                out@ == spec_filter_prefix(cv, q@, i as int),
            decreases self.commands@.len() - i,
        {
            if command_matches(&self.commands[i], q.as_str()) {
                out.push(i);
            }
            i = i + 1;
        }
        self.filtered = out;
    }

    /// Create a new command palette holding the default command registry, hidden, with
    /// every command listed.
    pub fn new() -> (r: Self)
        ensures
            !r.visible,
            r.search@ == Seq::<char>::empty(),
            r.selected == 0,
            commands_view(r.commands@) == spec_registry(),
            r.filtered@ == Seq::new(r.commands@.len(), |i: int| i as usize),
    {
        let commands = build_command_registry();
        let mut filtered: Vec<usize> = Vec::new();
        let mut i: usize = 0;
        while i < commands.len()
            invariant
                i <= commands@.len(),
                filtered@ == Seq::new(i as nat, |k: int| k as usize),
            decreases commands@.len() - i,
        {
            filtered.push(i);
            i = i + 1;
            assert(filtered@ =~= Seq::new(i as nat, |k: int| k as usize));
        }
        CommandPalette { visible: false, search: String::new(), selected: 0, commands, filtered }
    }

    /// Show the command palette with an empty search.
    pub fn show(&mut self)
        ensures
            final(self).visible,
            final(self).search@ == Seq::<char>::empty(),
            final(self).selected == 0,
            final(self).commands@ == old(self).commands@,
            final(self).filtered@ == spec_filtered(commands_view(old(self).commands@), Seq::<char>::empty()),
    {
        self.visible = true;
        self.search = String::new();
        self.selected = 0;
        self.update_filtered();
    }

    /// Hide the command palette.
    pub fn close(&mut self)
        ensures
            !final(self).visible,
            final(self).search@ == old(self).search@,
            final(self).selected == old(self).selected,
            final(self).commands@ == old(self).commands@,
            final(self).filtered@ == old(self).filtered@,
            *final(self) == (CommandPalette { visible: false, ..*old(self) }),
    {
        self.visible = false;
    }

    /// Toggle visibility: hide when visible, otherwise show with an empty search.
    pub fn toggle(&mut self)
        ensures
            spec_palette_toggled(*old(self), *final(self)),
            final(self).visible == !old(self).visible,
            final(self).commands@ == old(self).commands@,
            old(self).visible ==> final(self).search@ == old(self).search@
                && final(self).selected == old(self).selected
                && final(self).filtered@ == old(self).filtered@,
            !old(self).visible ==> final(self).search@ == Seq::<char>::empty()
                && final(self).selected == 0
                && final(self).filtered@ == spec_filtered(commands_view(old(self).commands@), Seq::<char>::empty()),
    {
        if self.visible {
            self.close();
        } else {
            self.show();
        }
    }

    /// Add a character to the search; the selection returns to the first match.
    pub fn push_char(&mut self, c: char)
        ensures
            spec_palette_typed(*old(self), *final(self), c),
            final(self).visible == old(self).visible,
            final(self).search@ == old(self).search@.push(c),
            final(self).selected == 0,
            final(self).commands@ == old(self).commands@,
            final(self).filtered@ == spec_filtered(commands_view(old(self).commands@), old(self).search@.push(c)),
    {
        push_char(&mut self.search, c);
        self.update_filtered();
        self.selected = 0;
    }

    /// Remove the last character from the search; the selection is clamped to the
    /// new match list.
    pub fn backspace(&mut self)
        ensures
            spec_palette_backspaced(*old(self), *final(self)),
            final(self).visible == old(self).visible,
            final(self).search@ == if old(self).search@.len() == 0 {
                old(self).search@
            } else {
                old(self).search@.drop_last()
            },
            final(self).commands@ == old(self).commands@,
            final(self).filtered@ == spec_filtered(commands_view(old(self).commands@), final(self).search@),
            final(self).selected == if old(self).selected <= final(self).filtered@.len() - 1 {
                old(self).selected as int
            } else if final(self).filtered@.len() == 0 {
                0
            } else {
                final(self).filtered@.len() - 1
            },
    {
        let _ = pop_char(&mut self.search);
        self.update_filtered();
        let last = if self.filtered.len() == 0 { 0 } else { self.filtered.len() - 1 };
        if self.selected > last {
            self.selected = last;
        }
    }

    /// Move selection up (stops at the first entry).
    pub fn select_prev(&mut self)
        ensures
            spec_palette_moved(*old(self), *final(self), true),
            final(self).selected == if old(self).selected == 0 { 0 } else { (old(self).selected - 1) as usize },
            final(self).visible == old(self).visible,
            final(self).search@ == old(self).search@,
            final(self).commands@ == old(self).commands@,
            final(self).filtered@ == old(self).filtered@,
    {
        self.selected = self.selected.saturating_sub(1);
    }

    /// Move selection down (stops at the last entry).
    pub fn select_next(&mut self)
        ensures
            spec_palette_moved(*old(self), *final(self), false),
            final(self).selected == if old(self).selected + 1 < old(self).filtered@.len() {
                (old(self).selected + 1) as usize
            } else {
                old(self).selected
            },
            final(self).visible == old(self).visible,
            final(self).search@ == old(self).search@,
            final(self).commands@ == old(self).commands@,
            final(self).filtered@ == old(self).filtered@,
    {
        if self.selected < self.filtered.len() && self.selected + 1 < self.filtered.len() {
            self.selected = self.selected + 1;
        }
    }

    /// The currently selected command, if the selection and its index are in range.
    pub fn selected_command(&self) -> (r: Option<&Command>)
        ensures
            r is Some <==> (self.selected < self.filtered@.len() && self.filtered@[self.selected as int] < self.commands@.len()),
            r is Some ==> r->0@ == self.commands@[self.filtered@[self.selected as int] as int]@,
    {
        if self.selected < self.filtered.len() {
            let idx = self.filtered[self.selected];
            if idx < self.commands.len() {
                return Some(&self.commands[idx]);
            }
        }
        None
    }

    /// The selected command, when it is offered in `mode` on `tab`.
    pub fn selected_command_if_available(&self, mode: AppMode, tab: Tab) -> (r: Option<&Command>)
        ensures
            r is Some <==> (self.selected < self.filtered@.len()
                && self.filtered@[self.selected as int] < self.commands@.len()
                && spec_available(self.commands@[self.filtered@[self.selected as int] as int]@, mode, tab)),
            r is Some ==> r->0@ == self.commands@[self.filtered@[self.selected as int] as int]@,
    {
        match self.selected_command() {
            Some(c) => {
                if contains_mode(&c.available_in, mode) && (c.tabs.len() == 0 || contains_tab(&c.tabs, tab)) {
                    Some(c)
                } else {
                    None
                }
            },
            None => None,
        }
    }

    /// Commands available in `mode` on `tab`, in registry order.
    pub fn available_commands(&self, mode: AppMode, tab: Tab) -> (r: Vec<&Command>)
        ensures
            command_refs_view(r@) == spec_available_commands(commands_view(self.commands@), mode, tab),
    {
        let ghost cv = commands_view(self.commands@);
        let mut out: Vec<&Command> = Vec::new();
        let mut i: usize = 0;
        while i < self.commands.len()
            invariant
                cv == commands_view(self.commands@),
                i <= self.commands@.len(),
                command_refs_view(out@) == spec_available_commands(cv.subrange(0, i as int), mode, tab),
            decreases self.commands@.len() - i,
        {
            let c = &self.commands[i];
            assert(cv.subrange(0, i + 1).drop_last() =~= cv.subrange(0, i as int));
            assert(cv.subrange(0, i + 1).last() == c@);
            let ghost o0 = out@;
            if contains_mode(&c.available_in, mode) && (c.tabs.len() == 0 || contains_tab(&c.tabs, tab)) {
                out.push(c);
                assert(command_refs_view(out@) =~= command_refs_view(o0).push(c@));
            }
            i = i + 1;
        }
        assert(cv.subrange(0, cv.len() as int) =~= cv);
        out
    }
}

/// Abstract registry entry.
pub open spec fn spec_entry(id: Seq<char>, name: Seq<char>, desc: Seq<char>, keys: Seq<Seq<char>>, action: Action) -> CommandView {
    CommandView { id, name, description: desc, keys, available_in: spec_all_modes(), tabs: Seq::empty(), action }
}

/// The default command registry.
pub open spec fn spec_registry() -> Seq<CommandView> {
    seq![
        spec_entry("quit"@, "Quit"@, "Exit the application"@, seq!["q"@], Action::Quit),
        spec_entry("help"@, "Show Help"@, "Show help overlay with key bindings"@, seq!["?"@], Action::ShowHelp),
        spec_entry("tab_next"@, "Next Tab"@, "Switch to next tab"@, seq!["Tab"@], Action::TabNext),
        spec_entry("tab_prev"@, "Previous Tab"@, "Switch to previous tab"@, seq!["Shift+Tab"@], Action::TabPrev),
        spec_entry("jump_dashboard"@, "Jump to Dashboard"@, "Jump to Dashboard tab"@, seq!["1"@], Action::JumpToTab(1)),
        spec_entry("jump_positions"@, "Jump to Positions"@, "Jump to Positions tab"@, seq!["2"@], Action::JumpToTab(2)),
        spec_entry("jump_charts"@, "Jump to Charts"@, "Jump to Charts tab"@, seq!["3"@], Action::JumpToTab(3)),
        spec_entry("jump_orders"@, "Jump to Orders"@, "Jump to Orders tab"@, seq!["4"@], Action::JumpToTab(4)),
        spec_entry("jump_alerts"@, "Jump to Alerts"@, "Jump to Alerts tab"@, seq!["5"@], Action::JumpToTab(5)),
        spec_entry("jump_yield"@, "Jump to Yield"@, "Jump to Yield Curve tab"@, seq!["6"@], Action::JumpToTab(6)),
        spec_entry("jump_loans"@, "Jump to Loans"@, "Jump to Loans tab"@, seq!["7"@], Action::JumpToTab(7)),
        spec_entry("jump_scenarios"@, "Jump to Scenarios"@, "Jump to Scenarios tab"@, seq!["9"@], Action::JumpToTab(9)),
        spec_entry("jump_settings"@, "Jump to Settings"@, "Jump to Settings tab"@, seq!["0"@], Action::JumpToTab(0)),
        spec_entry("split_pane"@, "Toggle Split Pane"@, "Toggle split pane view"@, seq!["p"@], Action::SplitPaneToggle),
        spec_entry("log_panel"@, "Toggle Log Panel"@, "Toggle log panel overlay"@, seq!["`"@, "~"@], Action::ToggleLogPanel),
        spec_entry("mode_cycle"@, "Cycle Mode"@, "Cycle through application modes"@, seq!["m"@], Action::ModeCycle),
    ]
}

fn entry(id: &str, name: &str, desc: &str, key: &str, action: Action) -> (r: Command)
    ensures
        r@ == spec_entry(id@, name@, desc@, seq![key@], action),
{
    let keys = vec![copy_str(key)];
    assert(strings_view(keys@) =~= seq![key@]);
    Command::new(id, name, action).description(desc).keys(keys)
}

/// Build the default command registry.
pub fn build_command_registry() -> (r: Vec<Command>)
    ensures
        commands_view(r@) == spec_registry(),
{
    let mut v: Vec<Command> = Vec::new();
    v.push(entry("quit", "Quit", "Exit the application", "q", Action::Quit));
    v.push(entry("help", "Show Help", "Show help overlay with key bindings", "?", Action::ShowHelp));
    v.push(entry("tab_next", "Next Tab", "Switch to next tab", "Tab", Action::TabNext));
    v.push(entry("tab_prev", "Previous Tab", "Switch to previous tab", "Shift+Tab", Action::TabPrev));
    v.push(entry("jump_dashboard", "Jump to Dashboard", "Jump to Dashboard tab", "1", Action::JumpToTab(1)));
    v.push(entry("jump_positions", "Jump to Positions", "Jump to Positions tab", "2", Action::JumpToTab(2)));
    v.push(entry("jump_charts", "Jump to Charts", "Jump to Charts tab", "3", Action::JumpToTab(3)));
    v.push(entry("jump_orders", "Jump to Orders", "Jump to Orders tab", "4", Action::JumpToTab(4)));
    v.push(entry("jump_alerts", "Jump to Alerts", "Jump to Alerts tab", "5", Action::JumpToTab(5)));
    v.push(entry("jump_yield", "Jump to Yield", "Jump to Yield Curve tab", "6", Action::JumpToTab(6)));
    v.push(entry("jump_loans", "Jump to Loans", "Jump to Loans tab", "7", Action::JumpToTab(7)));
    v.push(entry("jump_scenarios", "Jump to Scenarios", "Jump to Scenarios tab", "9", Action::JumpToTab(9)));
    v.push(entry("jump_settings", "Jump to Settings", "Jump to Settings tab", "0", Action::JumpToTab(0)));
    v.push(entry("split_pane", "Toggle Split Pane", "Toggle split pane view", "p", Action::SplitPaneToggle));
    let keys = vec![copy_str("`"), copy_str("~")];
    assert(strings_view(keys@) =~= seq!["`"@, "~"@]);
    v.push(Command::new("log_panel", "Toggle Log Panel", Action::ToggleLogPanel).description("Toggle log panel overlay").keys(keys));
    v.push(entry("mode_cycle", "Cycle Mode", "Cycle through application modes", "m", Action::ModeCycle));
    assert(commands_view(v@) =~= spec_registry());
    v
}

/// Key hints for the hint bar in `mode` on `tab`.
pub open spec fn spec_context_hints(mode: AppMode, tab: Tab) -> Seq<(Seq<char>, Seq<char>)> {
    match mode {
        AppMode::Navigation => {
            let base = seq![("Tab"@, "next"@), ("?"@, "help"@), (":"@, "palette"@)];
            match tab {
                Tab::Positions => base + seq![("↑↓"@, "scroll"@), ("Enter"@, "detail"@)],
                Tab::Orders => base + seq![("/"@, "filter"@)],
                Tab::Charts => base + seq![("/"@, "search"@)],
                _ => base,
            }
        },
        AppMode::Edit => seq![("Esc"@, "cancel"@), ("Enter"@, "confirm"@)],
        AppMode::View => seq![("Esc"@, "close"@), ("↑↓"@, "scroll"@)],
    }
}

/// Views of key/description hint pairs.
pub open spec fn hints_view(v: Seq<(String, String)>) -> Seq<(Seq<char>, Seq<char>)> {
    v.map_values(|p: (String, String)| (p.0@, p.1@))
}

fn hint(v: &mut Vec<(String, String)>, key: &str, desc: &str)
    ensures
        hints_view(final(v)@) == hints_view(old(v)@).push((key@, desc@)),
{
    v.push((copy_str(key), copy_str(desc)));
    assert(hints_view(v@) =~= hints_view(old(v)@).push((key@, desc@)));
}

/// Context-sensitive key hints for the current mode and tab.
pub fn get_context_hints(mode: AppMode, tab: Tab) -> (r: Vec<(String, String)>)
    ensures
        hints_view(r@) == spec_context_hints(mode, tab),
{
    let mut hints: Vec<(String, String)> = Vec::new();
    match mode {
        AppMode::Navigation => {
            hint(&mut hints, "Tab", "next");
            hint(&mut hints, "?", "help");
            hint(&mut hints, ":", "palette");
            match tab {
                Tab::Positions => {
                    hint(&mut hints, "↑↓", "scroll");
                    hint(&mut hints, "Enter", "detail");
                },
                Tab::Orders => {
                    hint(&mut hints, "/", "filter");
                },
                Tab::Charts => {
                    hint(&mut hints, "/", "search");
                },
                _ => {},
            }
        },
        AppMode::Edit => {
            hint(&mut hints, "Esc", "cancel");
            hint(&mut hints, "Enter", "confirm");
        },
        AppMode::View => {
            hint(&mut hints, "Esc", "close");
            hint(&mut hints, "↑↓", "scroll");
        },
    }
    assert(hints_view(hints@) =~= spec_context_hints(mode, tab));
    hints
}

} // verus!
