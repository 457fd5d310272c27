use vstd::prelude::*;

use crate::action::Action;
use crate::components::{
    double_g, ends_in_double_g, find_label, first_index, first_match, first_row, last_index,
    last_row, next_index, next_row, prev_index, prev_row, Key,
};
use crate::teamcity::texts;
use crate::teamcity::types::{Build, Change};
use crate::text::{i64_text, int_text, joined, nat_text, opt_text, usize_text};
use crate::time::{
    clock_text, format_datetime_to_human_readable_string, format_duration,
    parse_tc_datetime_to_epoch, tc_epoch, tc_human_date, MAX_TIMESTAMP, MIN_TIMESTAMP,
};

verus! {

/// The label a build is offered under in the fuzzy picker: its id, its
/// number and its configuration, as in `#101 3.2 [auth]`.
pub open spec fn build_label(b: Build) -> Seq<char> {
    "#"@ + int_text(
        match b.id {
            Some(n) => n as int,
            None => 0,
        },
    ) + " "@ + opt_text(b.build_number) + " ["@ + opt_text(b.build_type_id) + "]"@
}

/// What the build-list screen holds.
pub struct BuildsView {
    pub title: Seq<char>,
    pub items: Seq<Build>,
    pub selected: Option<usize>,
    pub last_events: Seq<Key>,
}

impl BuildsView {
    pub open spec fn row_count(self) -> usize {
        self.items.len() as usize
    }

    /// The build under the cursor, if the cursor is on a row.
    pub open spec fn selected_row(self) -> Option<Build> {
        match self.selected {
            Some(i) => if i < self.items.len() {
                Some(self.items[i as int])
            } else {
                None
            },
            None => None,
        }
    }

    /// The labels offered to the fuzzy picker, one per build.
    pub open spec fn labels(self) -> Seq<Seq<char>> {
        self.items.map_values(|b: Build| build_label(b))
    }
}

/// The screen after a key press: every key is remembered, and the keys move
/// the cursor.
pub open spec fn key_state(v: BuildsView, key: Key) -> BuildsView {
    let v = BuildsView { last_events: v.last_events.push(key), ..v };
    let n = v.row_count();
    match key {
        Key::Char('G') => BuildsView { selected: last_index(n), ..v },
        Key::Char('g') => if double_g(v.last_events) {
            BuildsView { selected: first_index(n), last_events: Seq::empty(), ..v }
        } else {
            v
        },
        Key::Char('j') | Key::Down => BuildsView { selected: next_index(v.selected, n), ..v },
        Key::Char('k') | Key::Up => BuildsView { selected: prev_index(v.selected, n), ..v },
        _ => v,
    }
}

/// The action a key press yields on the screen `v` (as it was before the
/// press).
pub open spec fn key_action(v: BuildsView, key: Key, a: Action) -> bool {
    match key {
        Key::Char('f') => match a {
            Action::Fzf { options } => texts(options@) == v.labels(),
            _ => false,
        },
        Key::Char('o') => match v.selected_row() {
            Some(b) => match b.web_url {
                Some(url) => a == Action::OpenUrl { url },
                None => a == Action::Render,
            },
            None => a == Action::Render,
        },
        Key::Esc | Key::Char('h') => a == Action::ShowProjects,
        _ => a == Action::Render,
    }
}

/// The screen after the dispatcher offers it `a`: a tick forgets the keys
/// pressed so far, a fuzzy pick moves the cursor to the first build whose
/// label is the pick (and nowhere if none is).
pub open spec fn update_state(v: BuildsView, a: Action) -> BuildsView {
    match a {
        Action::Tick => BuildsView { last_events: Seq::empty(), ..v },
        Action::FzfSelected { selected } => match first_match(v.labels(), selected@) {
            Some(i) => BuildsView { selected: Some(i), ..v },
            None => v,
        },
        _ => v,
    }
}

/// The build history of one configuration, with a cursor.
pub struct Builds {
    title: String,
    items: Vec<Build>,
    selected: Option<usize>,
    last_events: Vec<Key>,
}

impl View for Builds {
    type V = BuildsView;

    closed spec fn view(&self) -> BuildsView {
        BuildsView {
            title: self.title@,
            items: self.items@,
            selected: self.selected,
            last_events: self.last_events@,
        }
    }
}

fn label_of(b: &Build) -> (r: String)
    ensures
        r@ == build_label(*b),
{
    let id = match b.id {
        Some(n) => n,
        None => 0,
    };
    let digits = i64_text(id);
    let s = joined("#", digits.as_str());
    let s = joined(s.as_str(), " ");
    let s = match &b.build_number {
        Some(t) => joined(s.as_str(), t.as_str()),
        None => s,
    };
    let s = joined(s.as_str(), " [");
    let s = match &b.build_type_id {
        Some(t) => joined(s.as_str(), t.as_str()),
        None => s,
    };
    let r = joined(s.as_str(), "]");
    proof {
        assert(opt_text(b.build_number) == match b.build_number {
            Some(t) => t@,
            None => Seq::<char>::empty(),
        });
        assert(r@ =~= build_label(*b));
    }
    r
}

impl Builds {
    /// A fresh screen titled `project_title` over `builds`: no cursor, no keys.
    pub fn new(project_title: String, builds: Vec<Build>) -> (r: Self)
        ensures
            r@ == (BuildsView {
                title: project_title@,
                items: builds@,
                selected: None,
                last_events: Seq::empty(),
            }),
    {
        Builds { title: project_title, items: builds, selected: None, last_events: Vec::new() }
    }

    pub fn title(&self) -> (r: &String)
        ensures
            r@ == self@.title,
    {
        &self.title
    }

    pub fn items(&self) -> (r: &Vec<Build>)
        ensures
            r@ == self@.items,
    {
        &self.items
    }

    /// The row under the cursor, if any.
    pub fn selected(&self) -> (r: Option<usize>)
        ensures
            r == self@.selected,
    {
        self.selected
    }

    /// Lifecycle start: the cursor goes to the first build, if any.
    pub fn init(&mut self)
        ensures
            final(self)@ == (BuildsView {
                selected: if old(self)@.items.len() > 0 {
                    Some(0)
                } else {
                    old(self)@.selected
                },
                ..old(self)@
            }),
    {
        if self.items.len() > 0 {
            self.selected = Some(0);
        }
    }

    /// The fuzzy-picker labels of the builds.
    pub fn labels(&self) -> (r: Vec<String>)
        ensures
            texts(r@) == self@.labels(),
    {
        let mut r: Vec<String> = Vec::new();
        let mut k: usize = 0;
        while k < self.items.len()
            invariant
                0 <= k <= self.items.len(),
                texts(r@) == self@.labels().subrange(0, k as int),
            decreases self.items.len() - k,
        {
            let ghost before = r@;
            let label = label_of(&self.items[k]);
            r.push(label);
            proof {
                assert(texts(r@) =~= texts(before).push(label@));
                assert(self@.labels().subrange(0, k + 1) =~= self@.labels().subrange(
                    0,
                    k as int,
                ).push(build_label(self@.items[k as int])));
            }
            k += 1;
        }
        proof {
            assert(self@.labels().subrange(0, k as int) =~= self@.labels());
        }
        r
    }

    /// Cursor to the next build, wrapping to the first.
    pub fn move_down(&mut self)
        ensures
            final(self)@ == (BuildsView {
                selected: next_index(old(self)@.selected, old(self)@.row_count()),
                ..old(self)@
            }),
    {
        self.selected = next_row(self.selected, self.items.len());
    }

    /// Cursor to the previous build, wrapping to the last.
    pub fn move_up(&mut self)
        ensures
            final(self)@ == (BuildsView {
                selected: prev_index(old(self)@.selected, old(self)@.row_count()),
                ..old(self)@
            }),
    {
        self.selected = prev_row(self.selected, self.items.len());
    }

    /// Cursor to the first build.
    pub fn move_begin(&mut self)
        ensures
            final(self)@ == (BuildsView { selected: first_index(old(self)@.row_count()), ..old(self)@ }),
    {
        self.selected = first_row(self.items.len());
    }

    /// Cursor to the last build.
    pub fn move_end(&mut self)
        ensures
            final(self)@ == (BuildsView { selected: last_index(old(self)@.row_count()), ..old(self)@ }),
    {
        self.selected = last_row(self.items.len());
    }

    /// Moves the cursor to the first build whose picker label is `selected`;
    /// leaves it where it is when no build has that label.
    pub fn select_build(&mut self, selected: &String)
        ensures
            final(self)@ == (match first_match(old(self)@.labels(), selected@) {
                Some(i) => BuildsView { selected: Some(i), ..old(self)@ },
                None => old(self)@,
            }),
    {
        let labels = self.labels();
        proof {
            assert(labels@.map_values(|t: String| t@) == texts(labels@));
        }
        match find_label(&labels, selected) {
            Some(i) => {
                self.selected = Some(i);
            },
            None => {},
        }
    }

    /// Interprets a key press; see `key_state` and `key_action`.
    pub fn handle_key_event(&mut self, key: Key) -> (r: Option<Action>)
        ensures
            final(self)@ == key_state(old(self)@, key),
            r is Some,
            key_action(old(self)@, key, r.unwrap()),
    {
        self.last_events.push(key);
        let action = match key {
            Key::Char('G') => {
                self.move_end();
                Action::Render
            },
            Key::Char('g') => {
                if ends_in_double_g(&self.last_events) {
                    self.move_begin();
                    self.last_events.clear();
                }
                Action::Render
            },
            Key::Char('j') | Key::Down => {
                self.move_down();
                Action::Render
            },
            Key::Char('k') | Key::Up => {
                self.move_up();
                Action::Render
            },
            Key::Char('f') => Action::Fzf { options: self.labels() },
            Key::Char('o') => match self.selected {
                Some(i) => if i < self.items.len() {
                    match &self.items[i].web_url {
                        Some(url) => Action::OpenUrl { url: url.clone() },
                        None => Action::Render,
                    }
                } else {
                    Action::Render
                },
                None => Action::Render,
            },
            Key::Esc | Key::Char('h') => Action::ShowProjects,
            _ => Action::Render,
        };
        Some(action)
    }

    /// Reacts to an action offered by the dispatcher; see `update_state`.
    /// The screen never answers with a follow-up action.
    pub fn update(&mut self, action: &Action) -> (r: Option<Action>)
        ensures
            final(self)@ == update_state(old(self)@, *action),
            r is None,
    {
        match action {
            Action::Tick => {
                self.last_events.clear();
            },
            Action::FzfSelected { selected } => {
                self.select_build(selected);
            },
            _ => {},
        }
        None
    }
}

/// Two presses of `g` in a row put the cursor on the first build (nowhere
/// on an empty list); a tick between the presses breaks the pair, so the
/// second press then leaves the cursor where the first left it.
pub proof fn lemma_double_g(v: BuildsView)
    ensures
        key_state(key_state(v, Key::Char('g')), Key::Char('g')).selected == first_index(
            v.row_count(),
        ),
        key_state(update_state(key_state(v, Key::Char('g')), Action::Tick), Key::Char('g')).selected
            == key_state(v, Key::Char('g')).selected,
{
    let v1 = key_state(v, Key::Char('g'));
    if !double_g(v.last_events.push(Key::Char('g'))) {
        assert(double_g(v1.last_events.push(Key::Char('g'))));
    }
    let t = update_state(v1, Action::Tick);
    assert(t.last_events.push(Key::Char('g')).len() == 1);
}

/// What one row of the build table shows.
pub struct BuildRow {
    pub number: String,
    pub branch: String,
    pub status: String,
    pub last_changes: String,
    pub start: String,
    pub duration: String,
    /// The build failed, or its outcome is unknown; such rows are flagged.
    pub failed: bool,
}

/// The status cell: the status text, or else the bare status.
pub open spec fn status_cell(b: Build) -> Seq<char> {
    match b.status_text {
        Some(t) => t@,
        None => opt_text(b.status),
    }
}

/// The changes listed with a build.
pub open spec fn change_list(b: Build) -> Seq<Change> {
    match b.changes {
        Some(c) => match c.change {
            Some(v) => v@,
            None => Seq::empty(),
        },
        None => Seq::empty(),
    }
}

/// The user names that the changes carry, in order.
pub open spec fn user_names(cs: Seq<Change>) -> Seq<Seq<char>>
    decreases cs.len(),
{
    if cs.len() == 0 {
        Seq::empty()
    } else {
        user_names(cs.drop_last()) + match cs.last().username {
            Some(u) => seq![u@],
            None => Seq::empty(),
        }
    }
}

/// The last-changes cell: the single author and the count, or just the
/// count, with a warning when no change names its author.
pub open spec fn changes_cell(b: Build) -> Seq<char> {
    let cs = change_list(b);
    let users = user_names(cs);
    if cs.len() == 0 {
        "No changes"@
    } else if users.len() == 0 {
        "\u{26a0}\u{fe0f} "@ + nat_text(cs.len()) + " Changes from 0 users"@
    } else if users.len() == 1 {
        users[0] + ": "@ + nat_text(cs.len())
    } else {
        nat_text(cs.len()) + " Changes"@
    }
}

/// The start cell: the start time for people, empty when absent or unreadable.
pub open spec fn start_cell(b: Build) -> Seq<char> {
    match b.start_date {
        Some(s) => match tc_human_date(s@) {
            Some(t) => t,
            None => Seq::empty(),
        },
        None => Seq::empty(),
    }
}

/// The duration cell at the instant `now`: from the start to the finish, or
/// to `now` while the build runs; empty when the build has not started, a
/// time is unreadable, or the end comes before the start.
pub open spec fn duration_cell(b: Build, now: int) -> Seq<char> {
    match b.start_date {
        None => Seq::empty(),
        Some(st) => {
            let end = match b.finish_date {
                Some(f) => tc_epoch(f@),
                None => Some(now),
            };
            match (tc_epoch(st@), end) {
                (Some(s), Some(e)) => if e >= s && MIN_TIMESTAMP <= e - s <= MAX_TIMESTAMP {
                    clock_text(e - s)
                } else {
                    Seq::empty()
                },
                _ => Seq::empty(),
            }
        },
    }
}

/// Whether the build is flagged: its status is `FAILURE` or `UNKNOWN`.
pub open spec fn failed_status(b: Build) -> bool {
    match b.status {
        Some(s) => s@ == "FAILURE"@ || s@ == "UNKNOWN"@,
        None => false,
    }
}

fn opt_string(s: &Option<String>) -> (r: String)
    ensures
        r@ == opt_text(*s),
{
    match s {
        Some(t) => t.clone(),
        None => String::new(),
    }
}

fn changes_text(b: &Build) -> (r: String)
    ensures
        r@ == changes_cell(*b),
{
    let empty: Vec<Change> = Vec::new();
    let cs: &Vec<Change> = match &b.changes {
        Some(c) => match &c.change {
            Some(v) => v,
            None => &empty,
        },
        None => &empty,
    };
    assert(cs@ == change_list(*b));
    let mut users: Vec<String> = Vec::new();
    let mut i: usize = 0;
    while i < cs.len()
        invariant
            0 <= i <= cs.len(),
            crate::teamcity::texts(users@) == user_names(cs@.subrange(0, i as int)),
        decreases cs.len() - i,
    {
        let ghost before = users@;
        proof {
            assert(cs@.subrange(0, i + 1).drop_last() =~= cs@.subrange(0, i as int));
        }
        match &cs[i].username {
            Some(u) => {
                users.push(u.clone());
                proof {
                    assert(crate::teamcity::texts(users@) =~= crate::teamcity::texts(before) + seq![u@]);
                }
            },
            None => {
                proof {
                    assert(crate::teamcity::texts(users@) =~= crate::teamcity::texts(before) + Seq::<Seq<char>>::empty());
                }
            },
        }
        i += 1;
    }
    proof {
        assert(cs@.subrange(0, cs@.len() as int) =~= cs@);
    }
    let n = usize_text(cs.len());
    if cs.len() == 0 {
        String::from_str("No changes")
    } else if users.len() == 0 {
        let t = joined("\u{26a0}\u{fe0f} ", n.as_str());
        joined(t.as_str(), " Changes from 0 users")
    } else if users.len() == 1 {
        assert(users@[0]@ == crate::teamcity::texts(users@)[0]);
        let t = joined(users[0].as_str(), ": ");
        joined(t.as_str(), n.as_str())
    } else {
        joined(n.as_str(), " Changes")
    }
}

fn duration_text(b: &Build, now: i64) -> (r: String)
    ensures
        r@ == duration_cell(*b, now as int),
{
    match &b.start_date {
        None => String::new(),
        Some(st) => {
            let start = parse_tc_datetime_to_epoch(st.as_str());
            let end = match &b.finish_date {
                Some(f) => parse_tc_datetime_to_epoch(f.as_str()),
                None => Ok(now),
            };
            match (start, end) {
                (Ok(s), Ok(e)) => {
                    if e >= s {
                        let d = (e as i128) - (s as i128);
                        if d <= MAX_TIMESTAMP as i128 {
                            match format_duration(d as i64) {
                                Ok(t) => t,
                                Err(_) => String::new(),
                            }
                        } else {
                            String::new()
                        }
                    } else {
                        String::new()
                    }
                },
                _ => String::new(),
            }
        },
    }
}

/// What the row of build `b` shows at the instant `now` (Unix seconds).
pub fn build_row(b: &Build, now: i64) -> (r: BuildRow)
    ensures
        r.number@ == opt_text(b.build_number),
        r.branch@ == opt_text(b.branch_name),
        r.status@ == status_cell(*b),
        r.last_changes@ == changes_cell(*b),
        r.start@ == start_cell(*b),
        r.duration@ == duration_cell(*b, now as int),
        r.failed == failed_status(*b),
{
    let status = match &b.status_text {
        Some(t) => t.clone(),
        None => opt_string(&b.status),
    };
    let start = match &b.start_date {
        Some(s) => match format_datetime_to_human_readable_string(s.as_str()) {
            Ok(t) => t,
            Err(_) => String::new(),
        },
        None => String::new(),
    };
    let failed = match &b.status {
        Some(s) => *s == String::from_str("FAILURE") || *s == String::from_str("UNKNOWN"),
        None => false,
    };
    BuildRow {
        number: opt_string(&b.build_number),
        branch: opt_string(&b.branch_name),
        status,
        last_changes: changes_text(b),
        start,
        duration: duration_text(b, now),
        failed,
    }
}

impl Builds {
    /// The rows of the build table at the instant `now`, one per build.
    pub fn rows(&self, now: i64) -> (r: Vec<BuildRow>)
        ensures
            r@.len() == self@.items.len(),
            forall|k: int|
                0 <= k < r@.len() ==> (#[trigger] r@[k]).status@ == status_cell(self@.items[k])
                    && r@[k].number@ == opt_text(self@.items[k].build_number)
                    && r@[k].branch@ == opt_text(self@.items[k].branch_name)
                    && r@[k].last_changes@ == changes_cell(self@.items[k])
                    && r@[k].start@ == start_cell(self@.items[k])
                    && r@[k].duration@ == duration_cell(self@.items[k], now as int)
                    && r@[k].failed == failed_status(self@.items[k]),
    {
        let mut r: Vec<BuildRow> = Vec::new();
        let mut i: usize = 0;
        while i < self.items.len()
            invariant
                0 <= i <= self.items.len(),
                r@.len() == i,
                forall|k: int|
                    0 <= k < i ==> (#[trigger] r@[k]).status@ == status_cell(self@.items[k])
                        && r@[k].number@ == opt_text(self@.items[k].build_number)
                        && r@[k].branch@ == opt_text(self@.items[k].branch_name)
                        && r@[k].last_changes@ == changes_cell(self@.items[k])
                        && r@[k].start@ == start_cell(self@.items[k])
                        && r@[k].duration@ == duration_cell(self@.items[k], now as int)
                        && r@[k].failed == failed_status(self@.items[k]),
            decreases self.items.len() - i,
        {
            let row = build_row(&self.items[i], now);
            r.push(row);
            i += 1;
        }
        r
    }
}

} // verus!
