use vstd::prelude::*;

use crate::action::Action;
use crate::components::{
    double_g, ends_in_double_g, find_label, first_index, first_match, first_row, last_index,
    last_row, next_index, next_row, prev_index, prev_row, InputMode, Key,
};
use crate::teamcity::texts;
use crate::teamcity::types::BuildType;
use crate::text::{
    alphanumeric, ascii_graphic, ascii_lower_char, ascii_lowercase, contains_text, is_alphanumeric, is_ascii_graphic, is_infix,
    joined, lower_of, lowercase, pop_char, push_char,
};

verus! {

/// Whether a configuration passes the filter: its lower-cased name contains
/// the (already lower-cased) filter text.
pub open spec fn keeps(bt: BuildType, filter: Option<Seq<char>>) -> bool {
    match filter {
        None => true,
        Some(f) => is_infix(f, lower_of(bt.name@)),
    }
}

/// The configurations that pass the filter, in the order of the full list.
pub open spec fn shown(bts: Seq<BuildType>, filter: Option<Seq<char>>) -> Seq<BuildType>
    decreases bts.len(),
{
    if bts.len() == 0 {
        Seq::empty()
    } else {
        let rest = shown(bts.drop_last(), filter);
        if keeps(bts.last(), filter) {
            rest.push(bts.last())
        } else {
            rest
        }
    }
}

/// The label a configuration is offered under in the fuzzy picker.
pub open spec fn project_label(bt: BuildType) -> Seq<char> {
    bt.name@ + " ("@ + bt.id@ + ")"@
}

/// The view of an optional string.
pub open spec fn opt_view(s: Option<String>) -> Option<Seq<char>> {
    match s {
        Some(t) => Some(t@),
        None => None,
    }
}

/// `idx` lists, in order, where each of `rows` stands in `bts`.
pub open spec fn picks(bts: Seq<BuildType>, rows: Seq<BuildType>, idx: Seq<usize>) -> bool {
    &&& idx.len() == rows.len()
    &&& forall|k: int|
        0 <= k < idx.len() ==> #[trigger] idx[k] < bts.len() && bts[idx[k] as int] == rows[k]
}

/// What the project-list screen holds.
pub struct ProjectsView {
    pub build_types: Seq<BuildType>,
    pub selected: Option<usize>,
    pub input_mode: InputMode,
    pub input_buffer: Seq<char>,
    pub last_events: Seq<Key>,
    pub filter: Option<Seq<char>>,
}

impl ProjectsView {
    /// The rows on display: the configurations that pass the filter.
    pub open spec fn rows(self) -> Seq<BuildType> {
        shown(self.build_types, self.filter)
    }

    pub open spec fn row_count(self) -> usize {
        self.rows().len() as usize
    }

    /// The configuration under the cursor, if the cursor is on a row.
    pub open spec fn selected_row(self) -> Option<BuildType> {
        match self.selected {
            Some(i) => if i < self.rows().len() {
                Some(self.rows()[i as int])
            } else {
                None
            },
            None => None,
        }
    }

    /// The labels offered to the fuzzy picker, one per row.
    pub open spec fn labels(self) -> Seq<Seq<char>> {
        self.rows().map_values(|bt: BuildType| project_label(bt))
    }
}

/// The screen after a key press. Every key is remembered; in normal mode the
/// keys move the cursor or enter filter editing, in editing mode they edit
/// the filter text.
pub open spec fn key_state(v: ProjectsView, key: Key) -> ProjectsView {
    let v = ProjectsView { last_events: v.last_events.push(key), ..v };
    let n = v.row_count();
    match v.input_mode {
        InputMode::Normal => match key {
            Key::Char('G') => ProjectsView { selected: last_index(n), ..v },
            Key::Char('g') => if double_g(v.last_events) {
                ProjectsView { selected: first_index(n), last_events: Seq::empty(), ..v }
            } else {
                v
            },
            Key::Char('j') => ProjectsView { selected: next_index(v.selected, n), ..v },
            Key::Char('k') => ProjectsView { selected: prev_index(v.selected, n), ..v },
            Key::Char('/') => ProjectsView { input_mode: InputMode::Editing, ..v },
            _ => v,
        },
        InputMode::Editing => match key {
            Key::Esc => ProjectsView {
                input_mode: InputMode::Normal,
                input_buffer: Seq::empty(),
                ..v
            },
            Key::Char(c) => if alphanumeric(c) || ascii_graphic(c) || c == ' ' {
                ProjectsView { input_buffer: v.input_buffer.push(c), ..v }
            } else {
                v
            },
            Key::Backspace => if v.input_buffer.len() > 0 {
                ProjectsView { input_buffer: v.input_buffer.drop_last(), ..v }
            } else {
                v
            },
            Key::Enter => ProjectsView {
                filter: if v.input_buffer.len() == 0 {
                    None
                } else {
                    Some(lower_of(v.input_buffer))
                },
                input_buffer: Seq::empty(),
                input_mode: InputMode::Normal,
                ..v
            },
            _ => v,
        },
    }
}

/// The action a key press yields on the screen `v` (as it was before the
/// press).
pub open spec fn key_action(v: ProjectsView, key: Key, a: Action) -> bool {
    match v.input_mode {
        InputMode::Normal => match key {
            Key::Char('f') => match a {
                Action::Fzf { options } => texts(options@) == v.labels(),
                _ => false,
            },
            Key::Char('o') => match v.selected_row() {
                Some(bt) => match bt.web_url {
                    Some(url) => a == Action::OpenUrl { url },
                    None => a == Action::Render,
                },
                None => a == Action::Render,
            },
            Key::Enter => match v.selected_row() {
                Some(bt) => a == Action::LoadBuilds { project_id: bt.id, title: bt.name },
                None => a == Action::Render,
            },
            _ => a == Action::Render,
        },
        InputMode::Editing => a == Action::Render,
    }
}

/// The screen after the dispatcher offers it `a`: a tick forgets the keys
/// pressed so far, a fuzzy pick moves the cursor to the first row whose label
/// is the pick (and nowhere if none is).
pub open spec fn update_state(v: ProjectsView, a: Action) -> ProjectsView {
    match a {
        Action::Tick => ProjectsView { last_events: Seq::empty(), ..v },
        Action::FzfSelected { selected } => match first_match(v.labels(), selected@) {
            Some(i) => ProjectsView { selected: Some(i), ..v },
            None => v,
        },
        _ => v,
    }
}

/// The list of build configurations, with a filter and a cursor.
pub struct Projects {
    build_types: Vec<BuildType>,
    selected: Option<usize>,
    input_mode: InputMode,
    input_buffer: String,
    last_events: Vec<Key>,
    pub filter_string: Option<String>,
}

impl View for Projects {
    type V = ProjectsView;

    closed spec fn view(&self) -> ProjectsView {
        ProjectsView {
            build_types: self.build_types@,
            selected: self.selected,
            input_mode: self.input_mode,
            input_buffer: self.input_buffer@,
            last_events: self.last_events@,
            filter: opt_view(self.filter_string),
        }
    }
}

proof fn lemma_shown_len(bts: Seq<BuildType>, f: Option<Seq<char>>)
    ensures
        shown(bts, f).len() <= bts.len(),
    decreases bts.len(),
{
    if bts.len() > 0 {
        lemma_shown_len(bts.drop_last(), f);
    }
}

fn keeps_row(bt: &BuildType, filter: &Option<String>) -> (r: bool)
    ensures
        r == keeps(*bt, opt_view(*filter)),
{
    match filter {
        None => true,
        Some(f) => {
            let lower = lowercase(bt.name.as_str());
            contains_text(lower.as_str(), f.as_str())
        },
    }
}

fn label_of(bt: &BuildType) -> (r: String)
    ensures
        r@ == project_label(*bt),
{
    let s = joined(bt.name.as_str(), " (");
    let s = joined(s.as_str(), bt.id.as_str());
    joined(s.as_str(), ")")
}

impl Projects {
    /// A fresh screen over `build_configs`: no filter, no cursor, no keys.
    pub fn new(build_configs: Vec<BuildType>) -> (r: Self)
        ensures
            r@ == (ProjectsView {
                build_types: build_configs@,
                selected: None,
                input_mode: InputMode::Normal,
                input_buffer: Seq::empty(),
                last_events: Seq::empty(),
                filter: None,
            }),
    {
        Projects {
            build_types: build_configs,
            selected: None,
            input_mode: InputMode::Normal,
            input_buffer: String::new(),
            last_events: Vec::new(),
            filter_string: None,
        }
    }

    /// The row under the cursor, if any.
    pub fn selected(&self) -> (r: Option<usize>)
        ensures
            r == self@.selected,
    {
        self.selected
    }

    /// Whether keys currently edit the filter text.
    pub fn is_editing(&self) -> (r: bool)
        ensures
            r == (self@.input_mode == InputMode::Editing),
    {
        self.input_mode == InputMode::Editing
    }

    /// The filter text being edited.
    pub fn input_buffer(&self) -> (r: &String)
        ensures
            r@ == self@.input_buffer,
    {
        &self.input_buffer
    }

    /// Lifecycle start: the cursor goes to the first configuration, if any.
    pub fn init(&mut self)
        ensures
            final(self)@ == (ProjectsView {
                selected: if old(self)@.build_types.len() > 0 {
                    Some(0)
                } else {
                    old(self)@.selected
                },
                ..old(self)@
            }),
    {
        if self.build_types.len() > 0 {
            self.selected = Some(0);
        }
    }

    /// The positions in the full list of the rows on display, in order.
    pub fn visible(&self) -> (r: Vec<usize>)
        ensures
            picks(self@.build_types, self@.rows(), r@),
    {
        let ghost bts = self.build_types@;
        let ghost f = opt_view(self.filter_string);
        let mut r: Vec<usize> = Vec::new();
        let mut i: usize = 0;
        while i < self.build_types.len()
            invariant
                0 <= i <= self.build_types.len(),
                bts == self.build_types@,
                f == opt_view(self.filter_string),
                picks(bts, shown(bts.subrange(0, i as int), f), r@),
                forall|k: int| 0 <= k < r@.len() ==> r@[k] < i,
            decreases self.build_types.len() - i,
        {
            let ghost p = bts.subrange(0, i + 1);
            let ghost before = r@;
            proof {
                assert(p.drop_last() =~= bts.subrange(0, i as int));
                assert(p.last() == bts[i as int]);
            }
            if keeps_row(&self.build_types[i], &self.filter_string) {
                r.push(i);
                proof {
                    assert(shown(p, f) == shown(bts.subrange(0, i as int), f).push(bts[i as int]));
                    assert forall|k: int| 0 <= k < r@.len() implies r@[k] < bts.len() && bts[r@[k] as int]
                        == shown(p, f)[k] by {
                        if k < before.len() {
                            assert(r@[k] == before[k]);
                        }
                    }
                }
            } else {
                proof {
                    assert(shown(p, f) == shown(bts.subrange(0, i as int), f));
                }
            }
            i += 1;
        }
        proof {
            assert(bts.subrange(0, bts.len() as int) =~= bts);
        }
        r
    }

    /// How many rows are on display.
    pub fn row_count(&self) -> (r: usize)
        ensures
            r == self@.row_count(),
            r as int == self@.rows().len(),
    {
        self.visible().len()
    }

    /// The fuzzy-picker labels of the rows on display.
    pub fn labels(&self) -> (r: Vec<String>)
        ensures
            texts(r@) == self@.labels(),
    {
        let idx = self.visible();
        let mut r: Vec<String> = Vec::new();
        let mut k: usize = 0;
        while k < idx.len()
            invariant
                0 <= k <= idx.len(),
                picks(self@.build_types, self@.rows(), idx@),
                texts(r@) == self@.labels().subrange(0, k as int),
            decreases idx.len() - k,
        {
            let ghost before = r@;
            assert(idx@[k as int] < self.build_types@.len());
            let label = label_of(&self.build_types[idx[k]]);
            r.push(label);
            proof {
                assert(self@.rows()[k as int] == self.build_types@[idx@[k as int] as int]);
                assert(texts(r@) =~= texts(before).push(label@));
                assert(self@.labels().subrange(0, k + 1) =~= self@.labels().subrange(
                    0,
                    k as int,
                ).push(project_label(self@.rows()[k as int])));
            }
            k += 1;
        }
        proof {
            assert(self@.labels().subrange(0, k as int) =~= self@.labels());
        }
        r
    }

    /// Sets the filter; `None` (or the empty text) shows every configuration.
    pub fn filter_build_types(&mut self, filter_string: Option<&String>)
        ensures
            final(self)@ == (ProjectsView {
                filter: match filter_string {
                    Some(s) => Some(lower_of(s@)),
                    None => None,
                },
                ..old(self)@
            }),
    {
        self.filter_string = match filter_string {
            Some(s) => Some(lowercase(s.as_str())),
            None => None,
        };
    }

    /// Cursor to the next row, wrapping to the first.
    pub fn move_down(&mut self)
        ensures
            final(self)@ == (ProjectsView {
                selected: next_index(old(self)@.selected, old(self)@.row_count()),
                ..old(self)@
            }),
    {
        let n = self.row_count();
        self.selected = next_row(self.selected, n);
    }

    /// Cursor to the previous row, wrapping to the last.
    pub fn move_up(&mut self)
        ensures
            final(self)@ == (ProjectsView {
                selected: prev_index(old(self)@.selected, old(self)@.row_count()),
                ..old(self)@
            }),
    {
        let n = self.row_count();
        self.selected = prev_row(self.selected, n);
    }

    /// Cursor to the first row.
    pub fn move_begin(&mut self)
        ensures
            final(self)@ == (ProjectsView {
                selected: first_index(old(self)@.row_count()),
                ..old(self)@
            }),
    {
        let n = self.row_count();
        self.selected = first_row(n);
    }

    /// Cursor to the last row.
    pub fn move_end(&mut self)
        ensures
            final(self)@ == (ProjectsView {
                selected: last_index(old(self)@.row_count()),
                ..old(self)@
            }),
    {
        let n = self.row_count();
        self.selected = last_row(n);
    }

    /// The configuration under the cursor, as a position in the full list.
    fn selected_position(&self) -> (r: Option<usize>)
        ensures
            match r {
                Some(p) => p < self@.build_types.len() && self@.selected_row() == Some(
                    self@.build_types[p as int],
                ),
                None => self@.selected_row() is None,
            },
    {
        match self.selected {
            Some(i) => {
                let idx = self.visible();
                if i < idx.len() {
                    Some(idx[i])
                } else {
                    None
                }
            },
            None => None,
        }
    }

    /// Moves the cursor to the first row whose picker label is `selected`;
    /// leaves it where it is when no row has that label.
    pub fn select_project(&mut self, selected: &String)
        ensures
            final(self)@ == (match first_match(old(self)@.labels(), selected@) {
                Some(i) => ProjectsView { selected: Some(i), ..old(self)@ },
                None => old(self)@,
            }),
    {
        let labels = self.labels();
        proof {
            assert(labels@.map_values(|t: String| t@) == texts(labels@));
        }
        match find_label(&labels, selected) {
            Some(i) => {
                self.selected = Some(i);
            },
            None => {},
        }
    }

    /// Interprets a key press; see `key_state` and `key_action`.
    pub fn handle_key_event(&mut self, key: Key) -> (r: Option<Action>)
        ensures
            final(self)@ == key_state(old(self)@, key),
            r is Some,
            key_action(old(self)@, key, r.unwrap()),
    {
        self.last_events.push(key);
        let action = match self.input_mode {
            InputMode::Normal => match key {
                Key::Char('G') => {
                    self.move_end();
                    Action::Render
                },
                Key::Char('g') => {
                    if ends_in_double_g(&self.last_events) {
                        self.move_begin();
                        self.last_events.clear();
                    }
                    Action::Render
                },
                Key::Char('j') => {
                    self.move_down();
                    Action::Render
                },
                Key::Char('k') => {
                    self.move_up();
                    Action::Render
                },
                Key::Char('f') => Action::Fzf { options: self.labels() },
                Key::Char('o') => match self.selected_position() {
                    Some(p) => match &self.build_types[p].web_url {
                        Some(url) => Action::OpenUrl { url: url.clone() },
                        None => Action::Render,
                    },
                    None => Action::Render,
                },
                Key::Enter => match self.selected_position() {
                    Some(p) => Action::LoadBuilds {
                        project_id: self.build_types[p].id.clone(),
                        title: self.build_types[p].name.clone(),
                    },
                    None => Action::Render,
                },
                Key::Char('/') => {
                    self.input_mode = InputMode::Editing;
                    Action::Render
                },
                _ => Action::Render,
            },
            InputMode::Editing => match key {
                Key::Esc => {
                    self.input_mode = InputMode::Normal;
                    self.input_buffer = String::new();
                    Action::Render
                },
                Key::Char(c) => {
                    if is_alphanumeric(c) || is_ascii_graphic(c) || c == ' ' {
                        push_char(&mut self.input_buffer, c);
                    }
                    Action::Render
                },
                Key::Backspace => {
                    pop_char(&mut self.input_buffer);
                    Action::Render
                },
                Key::Enter => {
                    if self.input_buffer.as_str().is_empty() {
                        self.filter_build_types(None);
                    } else {
                        let text = self.input_buffer.clone();
                        self.filter_build_types(Some(&text));
                    }
                    self.input_buffer = String::new();
                    self.input_mode = InputMode::Normal;
                    Action::Render
                },
                _ => Action::Render,
            },
        };
        Some(action)
    }

    /// Reacts to an action offered by the dispatcher; see `update_state`.
    /// The screen never answers with a follow-up action.
    pub fn update(&mut self, action: &Action) -> (r: Option<Action>)
        ensures
            final(self)@ == update_state(old(self)@, *action),
            r is None,
    {
        match action {
            Action::Tick => {
                self.last_events.clear();
            },
            Action::FzfSelected { selected } => {
                self.select_project(selected);
            },
            _ => {},
        }
        None
    }
}

/// Filtering an already filtered list by the same text changes nothing, and
/// without a filter every configuration is shown, in order.
pub proof fn lemma_filter_idempotent(bts: Seq<BuildType>, f: Option<Seq<char>>)
    ensures
        shown(shown(bts, f), f) == shown(bts, f),
        shown(bts, None) == bts,
    decreases bts.len(),
{
    if bts.len() > 0 {
        lemma_filter_idempotent(bts.drop_last(), f);
        let rest = shown(bts.drop_last(), f);
        if keeps(bts.last(), f) {
            assert(rest.push(bts.last()).drop_last() =~= rest);
        }
        assert(bts.drop_last().push(bts.last()) =~= bts);
    }
}

/// Setting the same filter twice leaves the screen as setting it once does,
/// and clearing it shows the full list again.
pub proof fn lemma_refilter(v: ProjectsView, s: Seq<char>)
    ensures
        ({
            let once = ProjectsView { filter: Some(lower_of(s)), ..v };
            let twice = ProjectsView { filter: Some(lower_of(s)), ..once };
            twice == once && twice.rows() == once.rows()
        }),
        (ProjectsView { filter: None, ..v }).rows() == v.build_types,
{
    lemma_filter_idempotent(v.build_types, None);
}

/// In normal mode two presses of `g` in a row put the cursor on the first
/// row (nowhere on an empty list); a tick between the presses breaks the
/// pair, so the second press then leaves the cursor where the first left it.
pub proof fn lemma_double_g(v: ProjectsView)
    requires
        v.input_mode == InputMode::Normal,
    ensures
        key_state(key_state(v, Key::Char('g')), Key::Char('g')).selected == first_index(
            v.row_count(),
        ),
        key_state(update_state(key_state(v, Key::Char('g')), Action::Tick), Key::Char('g')).selected
            == key_state(v, Key::Char('g')).selected,
{
    let v1 = key_state(v, Key::Char('g'));
    assert(v1.rows() == v.rows());
    let v2 = key_state(v1, Key::Char('g'));
    if !double_g(v.last_events.push(Key::Char('g'))) {
        assert(v1.last_events == v.last_events.push(Key::Char('g')));
        assert(double_g(v1.last_events.push(Key::Char('g'))));
    }
    let t = update_state(v1, Action::Tick);
    assert(t.last_events.push(Key::Char('g')).len() == 1);
}

/// The icon for a configuration kind, whatever its letter case: a gear for
/// regular builds, a puzzle piece for composite ones, a rocket for
/// deployments and a package for anything else.
pub open spec fn icon_of(kind: Option<String>) -> Seq<char> {
    match kind {
        Some(k) => {
            let l = k@.map_values(|c: char| ascii_lower_char(c));
            if l == "regular"@ {
                "\u{2699}\u{fe0f}"@
            } else if l == "composite"@ {
                "\u{1f9e9}"@
            } else if l == "deployment"@ {
                "\u{1f680}"@
            } else {
                "\u{1f4e6}"@
            }
        },
        None => "\u{1f4e6}"@,
    }
}

/// The icon for the kind of `bt`.
pub fn icon_for(bt: &BuildType) -> (r: String)
    ensures
        r@ == icon_of(bt.kind),
{
    match &bt.kind {
        Some(k) => {
            let l = ascii_lowercase(k.as_str());
            if l == String::from_str("regular") {
                String::from_str("\u{2699}\u{fe0f}")
            } else if l == String::from_str("composite") {
                String::from_str("\u{1f9e9}")
            } else if l == String::from_str("deployment") {
                String::from_str("\u{1f680}")
            } else {
                String::from_str("\u{1f4e6}")
            }
        },
        None => String::from_str("\u{1f4e6}"),
    }
}

/// What one row of the configuration table shows.
pub struct ProjectRow {
    pub name: String,
    pub id: String,
}

impl Projects {
    /// The rows of the configuration table: the icon and name, and the id, of
    /// each configuration on display.
    pub fn rows(&self) -> (r: Vec<ProjectRow>)
        ensures
            r@.len() == self@.rows().len(),
            forall|k: int|
                0 <= k < r@.len() ==> (#[trigger] r@[k]).name@ == icon_of(self@.rows()[k].kind)
                    + " "@ + self@.rows()[k].name@ && r@[k].id@ == self@.rows()[k].id@,
    {
        let idx = self.visible();
        let mut r: Vec<ProjectRow> = Vec::new();
        let mut k: usize = 0;
        while k < idx.len()
            invariant
                0 <= k <= idx.len(),
                picks(self@.build_types, self@.rows(), idx@),
                r@.len() == k,
                forall|j: int|
                    0 <= j < k ==> (#[trigger] r@[j]).name@ == icon_of(self@.rows()[j].kind)
                        + " "@ + self@.rows()[j].name@ && r@[j].id@ == self@.rows()[j].id@,
            decreases idx.len() - k,
        {
            assert(idx@[k as int] < self.build_types@.len());
            let bt = &self.build_types[idx[k]];
            let icon = icon_for(bt);
            let icon = joined(icon.as_str(), " ");
            let name = joined(icon.as_str(), bt.name.as_str());
            r.push(ProjectRow { name, id: bt.id.clone() });
            k += 1;
        }
        r
    }

    /// The heading of the name column, with the filter in parentheses.
    pub fn name_header(&self) -> (r: String)
        ensures
            r@ == "Name "@ + match self@.filter {
                Some(f) => "("@ + f + ")"@,
                None => Seq::empty(),
            },
    {
        match &self.filter_string {
            Some(f) => {
                let t = joined("Name ", "(");
                let t = joined(t.as_str(), f.as_str());
                let r = joined(t.as_str(), ")");
                assert(r@ =~= "Name "@ + ("("@ + f@ + ")"@));
                r
            },
            None => {
                let r = String::from_str("Name ");
                assert(r@ =~= "Name "@ + Seq::<char>::empty());
                r
            },
        }
    }

    /// The line under the table: the root project of the configuration under
    /// the cursor, or a note that nothing is selected.
    pub fn footer(&self) -> (r: String)
        ensures
            r@ == match self@.selected_row() {
                Some(bt) => "Root project: "@ + match bt.project_name {
                    Some(n) => n@,
                    None => "N/A"@,
                },
                None => "No project selected"@,
            },
    {
        match self.selected_position() {
            Some(p) => match &self.build_types[p].project_name {
                Some(n) => joined("Root project: ", n.as_str()),
                None => joined("Root project: ", "N/A"),
            },
            None => String::from_str("No project selected"),
        }
    }
}

} // verus!
