use vstd::prelude::*;

use crate::action::Action;
use crate::components::builds::{self, Builds, BuildsView};
use crate::components::projects::{self, Projects, ProjectsView};
use crate::components::{InputMode, Key};
use crate::teamcity::types::{Build, BuildType};
use crate::text::{copy_opt, joined};

verus! {

/// The key-binding mode of the runtime; there is only one so far.
#[derive(Debug, Default, Clone, Copy, PartialEq, Eq, Hash, Structural)]
pub enum Mode {
    #[default]
    Home,
}

/// A raw event from the terminal or its timers.
#[derive(Debug, Clone, Copy, PartialEq, Eq, Structural)]
pub enum Event {
    Quit,
    Tick,
    Render,
    Resize(u16, u16),
    Key(Key),
    Other,
}

/// Work that only the terminal side can do, in the order it is to be done.
#[derive(Debug, Clone, PartialEq, Eq)]
pub enum Effect {
    ClearScreen,
    Resize(u16, u16),
    Render,
    /// Run the fuzzy picker over `options`; its pick comes back as
    /// `Action::FzfSelected`.
    RunFzf { options: Vec<String> },
    /// Fetch the build history of `project_id` in the background; the outcome
    /// comes back through `builds_fetched`.
    FetchBuilds { project_id: String, title: String },
    OpenUrl { url: String },
}

/// What the runtime asks of the loop once a drain pass is over.
#[derive(Debug, Clone, Copy, PartialEq, Eq, Structural)]
pub enum Control {
    Continue,
    Suspend,
    Quit,
}

/// The screen that is active.
pub enum Screen {
    Projects(Projects),
    Builds(Builds),
}

pub enum ScreenView {
    Projects(ProjectsView),
    Builds(BuildsView),
}

impl View for Screen {
    type V = ScreenView;

    open spec fn view(&self) -> ScreenView {
        match self {
            Screen::Projects(p) => ScreenView::Projects(p@),
            Screen::Builds(b) => ScreenView::Builds(b@),
        }
    }
}

/// The active screen after a key press.
pub open spec fn screen_key_state(s: ScreenView, key: Key) -> ScreenView {
    match s {
        ScreenView::Projects(p) => ScreenView::Projects(projects::key_state(p, key)),
        ScreenView::Builds(b) => ScreenView::Builds(builds::key_state(b, key)),
    }
}

/// The action the active screen makes of a key press.
pub open spec fn screen_key_action(s: ScreenView, key: Key, a: Action) -> bool {
    match s {
        ScreenView::Projects(p) => projects::key_action(p, key, a),
        ScreenView::Builds(b) => builds::key_action(b, key, a),
    }
}

/// The active screen after it is offered an action.
pub open spec fn screen_update(s: ScreenView, a: Action) -> ScreenView {
    match s {
        ScreenView::Projects(p) => ScreenView::Projects(projects::update_state(p, a)),
        ScreenView::Builds(b) => ScreenView::Builds(builds::update_state(b, a)),
    }
}

impl Screen {
    pub fn init(&mut self)
        ensures
            match (old(self)@, final(self)@) {
                (ScreenView::Projects(p0), ScreenView::Projects(p1)) => p1 == (ProjectsView {
                    selected: if p0.build_types.len() > 0 {
                        Some(0)
                    } else {
                        p0.selected
                    },
                    ..p0
                }),
                (ScreenView::Builds(b0), ScreenView::Builds(b1)) => b1 == (BuildsView {
                    selected: if b0.items.len() > 0 {
                        Some(0)
                    } else {
                        b0.selected
                    },
                    ..b0
                }),
                _ => false,
            },
    {
        match self {
            Screen::Projects(p) => p.init(),
            Screen::Builds(b) => b.init(),
        }
    }

    pub fn handle_key_event(&mut self, key: Key) -> (r: Option<Action>)
        ensures
            final(self)@ == screen_key_state(old(self)@, key),
            r is Some,
            screen_key_action(old(self)@, key, r.unwrap()),
    {
        match self {
            Screen::Projects(p) => p.handle_key_event(key),
            Screen::Builds(b) => b.handle_key_event(key),
        }
    }

    pub fn update(&mut self, action: &Action) -> (r: Option<Action>)
        ensures
            final(self)@ == screen_update(old(self)@, *action),
            r is None,
    {
        match self {
            Screen::Projects(p) => p.update(action),
            Screen::Builds(b) => b.update(action),
        }
    }
}

/// The runtime's own key bindings: Ctrl-C and Ctrl-D quit, Ctrl-Z suspends.
pub open spec fn global_binding(key: Key) -> Option<Action> {
    match key {
        Key::Ctrl('c') | Key::Ctrl('d') => Some(Action::Quit),
        Key::Ctrl('z') => Some(Action::Suspend),
        _ => None,
    }
}

/// The runtime's state, seen as values.
pub struct AppView {
    pub screen: ScreenView,
    pub should_quit: bool,
    pub should_suspend: bool,
    pub mode: Mode,
    pub build_types: Seq<BuildType>,
    pub pending: Seq<Action>,
}

/// The project-list screen as it is mounted afresh over `bts`.
pub open spec fn fresh_projects(bts: Seq<BuildType>) -> ScreenView {
    ScreenView::Projects(
        ProjectsView {
            build_types: bts,
            selected: if bts.len() > 0 {
                Some(0)
            } else {
                None
            },
            input_mode: InputMode::Normal,
            input_buffer: Seq::empty(),
            last_events: Seq::empty(),
            filter: None,
        },
    )
}

/// The build-list screen as it is mounted afresh.
pub open spec fn fresh_builds(title: Seq<char>, items: Seq<Build>) -> ScreenView {
    ScreenView::Builds(
        BuildsView {
            title,
            items,
            selected: if items.len() > 0 {
                Some(0)
            } else {
                None
            },
            last_events: Seq::empty(),
        },
    )
}

/// The active screen once `a` has been processed: navigation mounts a fresh
/// screen; any other action is offered to the screen in place.
pub open spec fn screen_after(v: AppView, a: Action) -> ScreenView {
    match a {
        Action::LoadBuilds { project_id, title } => fresh_builds(title@, Seq::empty()),
        Action::ShowBuilds { title, items } => fresh_builds(title@, items@),
        Action::ShowProjects => fresh_projects(v.build_types),
        _ => screen_update(v.screen, a),
    }
}

/// The terminal work that processing `a` asks for.
pub open spec fn effects_of(a: Action, effects: Seq<Effect>) -> bool {
    match a {
        Action::ClearScreen => effects == seq![Effect::ClearScreen],
        Action::Resize(w, h) => effects == seq![Effect::Resize(w, h), Effect::Render],
        Action::Render => effects == seq![Effect::Render],
        Action::Fzf { options } => effects == seq![Effect::RunFzf { options }],
        Action::OpenUrl { url } => effects == seq![Effect::OpenUrl { url }],
        Action::LoadBuilds { project_id, title } => effects == seq![
            Effect::Render,
            Effect::FetchBuilds { project_id, title },
        ],
        Action::ShowBuilds { .. } => effects == seq![Effect::Render],
        Action::ShowProjects => effects == seq![Effect::Render],
        _ => effects.len() == 0,
    }
}

/// The runtime: the active screen, the quit and suspend flags, the
/// configurations fetched at start (to mount the project list again), and
/// the queue of actions waiting for the next drain pass.
pub struct App {
    screen: Screen,
    should_quit: bool,
    should_suspend: bool,
    mode: Mode,
    build_types: Vec<BuildType>,
    pending: Vec<Action>,
}

impl View for App {
    type V = AppView;

    closed spec fn view(&self) -> AppView {
        AppView {
            screen: self.screen@,
            should_quit: self.should_quit,
            should_suspend: self.should_suspend,
            mode: self.mode,
            build_types: self.build_types@,
            pending: self.pending@,
        }
    }
}

/// A copy of a configuration.
pub fn copy_build_type(bt: &BuildType) -> (r: BuildType)
    ensures
        r == *bt,
{
    BuildType {
        id: bt.id.clone(),
        name: bt.name.clone(),
        description: copy_opt(&bt.description),
        project_name: copy_opt(&bt.project_name),
        project_id: copy_opt(&bt.project_id),
        href: copy_opt(&bt.href),
        web_url: copy_opt(&bt.web_url),
        kind: copy_opt(&bt.kind),
    }
}

/// A copy of a list of configurations.
pub fn copy_build_types(v: &Vec<BuildType>) -> (r: Vec<BuildType>)
    ensures
        r@ == v@,
{
    let mut r: Vec<BuildType> = Vec::new();
    let mut i: usize = 0;
    while i < v.len()
        invariant
            0 <= i <= v.len(),
            r@ == v@.subrange(0, i as int),
        decreases v.len() - i,
    {
        r.push(copy_build_type(&v[i]));
        proof {
            assert(r@ =~= v@.subrange(0, i + 1));
        }
        i += 1;
    }
    proof {
        assert(v@.subrange(0, v@.len() as int) =~= v@);
    }
    r
}

/// The action that the background fetch of `project_id`'s builds comes back
/// with: the builds to show, or an error that names the project.
pub fn builds_fetched(project_id: &str, title: String, outcome: Result<Vec<Build>, String>) -> (r:
    Action)
    ensures
        match outcome {
            Ok(items) => r == Action::ShowBuilds { title, items },
            Err(e) => match r {
                Action::Error(m) => m@ == "Failed to fetch builds for project "@ + project_id@
                    + ": "@ + e@,
                _ => false,
            },
        },
{
    match outcome {
        Ok(items) => Action::ShowBuilds { title, items },
        Err(e) => {
            let m = joined("Failed to fetch builds for project ", project_id);
            let m = joined(m.as_str(), ": ");
            Action::Error(joined(m.as_str(), e.as_str()))
        },
    }
}

impl App {
    /// The runtime at start: the project list over `build_types` (not yet
    /// initialised), no flags raised, nothing queued.
    pub fn new(build_types: Vec<BuildType>) -> (r: Self)
        ensures
            r@ == (AppView {
                screen: ScreenView::Projects(
                    ProjectsView {
                        build_types: build_types@,
                        selected: None,
                        input_mode: InputMode::Normal,
                        input_buffer: Seq::empty(),
                        last_events: Seq::empty(),
                        filter: None,
                    },
                ),
                should_quit: false,
                should_suspend: false,
                mode: Mode::Home,
                build_types: build_types@,
                pending: Seq::empty(),
            }),
    {
        let screen = Screen::Projects(Projects::new(copy_build_types(&build_types)));
        App {
            screen,
            should_quit: false,
            should_suspend: false,
            mode: Mode::Home,
            build_types,
            pending: Vec::new(),
        }
    }

    /// The active screen.
    pub fn screen(&self) -> (r: &Screen)
        ensures
            r@ == self@.screen,
    {
        &self.screen
    }

    pub fn should_quit(&self) -> (r: bool)
        ensures
            r == self@.should_quit,
    {
        self.should_quit
    }

    pub fn should_suspend(&self) -> (r: bool)
        ensures
            r == self@.should_suspend,
    {
        self.should_suspend
    }

    pub fn mode(&self) -> (r: Mode)
        ensures
            r == self@.mode,
    {
        self.mode
    }

    /// The actions waiting for the next drain pass, oldest first.
    pub fn pending(&self) -> (r: &Vec<Action>)
        ensures
            r@ == self@.pending,
    {
        &self.pending
    }

    /// Lifecycle start of the active screen.
    pub fn init(&mut self)
        ensures
            final(self)@ == (AppView { screen: final(self)@.screen, ..old(self)@ }),
            match (old(self)@.screen, final(self)@.screen) {
                (ScreenView::Projects(p0), ScreenView::Projects(p1)) => p1 == (ProjectsView {
                    selected: if p0.build_types.len() > 0 {
                        Some(0)
                    } else {
                        p0.selected
                    },
                    ..p0
                }),
                (ScreenView::Builds(b0), ScreenView::Builds(b1)) => b1 == (BuildsView {
                    selected: if b0.items.len() > 0 {
                        Some(0)
                    } else {
                        b0.selected
                    },
                    ..b0
                }),
                _ => false,
            },
    {
        self.screen.init();
    }

    /// Queues `action` behind everything already waiting.
    pub fn send(&mut self, action: Action)
        ensures
            final(self)@ == (AppView { pending: old(self)@.pending.push(action), ..old(self)@ }),
    {
        self.pending.push(action);
    }

    /// Starts a drain pass: hands out every queued action, oldest first, and
    /// leaves the queue empty. What is queued while the pass runs waits for
    /// the next one.
    pub fn take_pending(&mut self) -> (r: Vec<Action>)
        ensures
            r@ == old(self)@.pending,
            final(self)@ == (AppView { pending: Seq::empty(), ..old(self)@ }),
    {
        let r = self.pending.split_off(0);
        proof {
            assert(self.pending@ =~= Seq::<Action>::empty());
            assert(r@ =~= old(self)@.pending);
        }
        r
    }

    /// Processes one action of a drain pass: applies its built-in effect on
    /// the runtime (flags, navigation), then offers it to the active screen
    /// (a freshly mounted screen has nothing to do with the navigation action
    /// that mounted it), queueing any follow-up for the next pass. Returns the
    /// terminal work to do, in order.
    pub fn handle_action(&mut self, action: Action) -> (effects: Vec<Effect>)
        ensures
            final(self)@.screen == screen_after(old(self)@, action),
            final(self)@.should_quit == (old(self)@.should_quit || action == Action::Quit),
            final(self)@.should_suspend == match action {
                Action::Suspend => true,
                Action::Resume => false,
                _ => old(self)@.should_suspend,
            },
            final(self)@.mode == old(self)@.mode,
            final(self)@.build_types == old(self)@.build_types,
            final(self)@.pending == old(self)@.pending,
            effects_of(action, effects@),
    {
        let mut effects: Vec<Effect> = Vec::new();
        let follow = match &action {
            Action::LoadBuilds { .. } | Action::ShowBuilds { .. } | Action::ShowProjects => None,
            _ => self.screen.update(&action),
        };
        match action {
            Action::Quit => {
                self.should_quit = true;
            },
            Action::Suspend => {
                self.should_suspend = true;
            },
            Action::Resume => {
                self.should_suspend = false;
            },
            Action::ClearScreen => {
                effects.push(Effect::ClearScreen);
                assert(effects@ =~= seq![Effect::ClearScreen]);
            },
            Action::Resize(w, h) => {
                effects.push(Effect::Resize(w, h));
                effects.push(Effect::Render);
                assert(effects@ =~= seq![Effect::Resize(w, h), Effect::Render]);
            },
            Action::Render => {
                effects.push(Effect::Render);
                assert(effects@ =~= seq![Effect::Render]);
            },
            Action::Fzf { options } => {
                let ghost o = options;
                effects.push(Effect::RunFzf { options });
                assert(effects@ =~= seq![Effect::RunFzf { options: o }]);
            },
            Action::OpenUrl { url } => {
                let ghost u = url;
                effects.push(Effect::OpenUrl { url });
                assert(effects@ =~= seq![Effect::OpenUrl { url: u }]);
            },
            Action::LoadBuilds { project_id, title } => {
                let mut screen = Screen::Builds(Builds::new(title.clone(), Vec::new()));
                screen.init();
                self.screen = screen;
                effects.push(Effect::Render);
                let ghost (p, t) = (project_id, title);
                effects.push(Effect::FetchBuilds { project_id, title });
                assert(effects@ =~= seq![Effect::Render, Effect::FetchBuilds { project_id: p, title: t }]);
                assert(self.screen@ == fresh_builds(t@, Seq::empty()));
            },
            Action::ShowBuilds { title, items } => {
                let ghost (t, its) = (title, items);
                let mut screen = Screen::Builds(Builds::new(title, items));
                screen.init();
                self.screen = screen;
                effects.push(Effect::Render);
                assert(effects@ =~= seq![Effect::Render]);
                assert(self.screen@ == fresh_builds(t@, its@));
            },
            Action::ShowProjects => {
                let mut screen = Screen::Projects(Projects::new(copy_build_types(&self.build_types)));
                screen.init();
                self.screen = screen;
                effects.push(Effect::Render);
                assert(effects@ =~= seq![Effect::Render]);
                assert(self.screen@ == fresh_projects(self.build_types@));
            },
            _ => {},
        }
        match follow {
            Some(a) => self.pending.push(a),
            None => {},
        }
        effects
    }

    /// The action that a key bound for the whole runtime stands for, before
    /// the active screen sees the key: Ctrl-C and Ctrl-D quit, Ctrl-Z suspends.
    pub fn global_action(key: Key) -> (r: Option<Action>)
        ensures
            r == global_binding(key),
    {
        match key {
            Key::Ctrl('c') | Key::Ctrl('d') => Some(Action::Quit),
            Key::Ctrl('z') => Some(Action::Suspend),
            _ => None,
        }
    }

    /// Turns a raw event into queued actions: lifecycle events map to their
    /// action; a key goes first to the runtime's own bindings, then to the
    /// active screen, whose answer is queued too.
    pub fn handle_event(&mut self, event: Event)
        ensures
            final(self)@.should_quit == old(self)@.should_quit,
            final(self)@.should_suspend == old(self)@.should_suspend,
            final(self)@.mode == old(self)@.mode,
            final(self)@.build_types == old(self)@.build_types,
            match event {
                Event::Quit => final(self)@.pending == old(self)@.pending.push(Action::Quit)
                    && final(self)@.screen == old(self)@.screen,
                Event::Tick => final(self)@.pending == old(self)@.pending.push(Action::Tick)
                    && final(self)@.screen == old(self)@.screen,
                Event::Render => final(self)@.pending == old(self)@.pending.push(Action::Render)
                    && final(self)@.screen == old(self)@.screen,
                Event::Resize(w, h) => final(self)@.pending == old(self)@.pending.push(
                    Action::Resize(w, h),
                ) && final(self)@.screen == old(self)@.screen,
                Event::Key(k) => {
                    let before = match global_binding(k) {
                        Some(g) => old(self)@.pending.push(g),
                        None => old(self)@.pending,
                    };
                    &&& final(self)@.screen == screen_key_state(old(self)@.screen, k)
                    &&& final(self)@.pending.len() == before.len() + 1
                    &&& final(self)@.pending.drop_last() == before
                    &&& screen_key_action(old(self)@.screen, k, final(self)@.pending.last())
                },
                Event::Other => final(self)@ == old(self)@,
            },
    {
        match event {
            Event::Quit => self.pending.push(Action::Quit),
            Event::Tick => self.pending.push(Action::Tick),
            Event::Render => self.pending.push(Action::Render),
            Event::Resize(w, h) => self.pending.push(Action::Resize(w, h)),
            Event::Key(k) => {
                match App::global_action(k) {
                    Some(g) => self.pending.push(g),
                    None => {},
                }
                let ghost before = self.pending@;
                match self.screen.handle_key_event(k) {
                    Some(a) => {
                        self.pending.push(a);
                        proof {
                            assert(self.pending@.drop_last() =~= before);
                        }
                    },
                    None => {},
                }
            },
            Event::Other => {},
        }
    }

    /// Ends a drain pass. A pending suspension queues `Resume` then
    /// `ClearScreen`, so that the terminal is reset before it is painted
    /// again, and asks the loop to suspend; otherwise a raised quit flag asks
    /// it to stop.
    pub fn after_drain(&mut self) -> (r: Control)
        ensures
            old(self)@.should_suspend ==> r == Control::Suspend && final(self)@ == (AppView {
                pending: old(self)@.pending.push(Action::Resume).push(Action::ClearScreen),
                ..old(self)@
            }),
            !old(self)@.should_suspend ==> final(self)@ == old(self)@ && r == (if old(
                self,
            )@.should_quit {
                Control::Quit
            } else {
                Control::Continue
            }),
    {
        if self.should_suspend {
            self.pending.push(Action::Resume);
            self.pending.push(Action::ClearScreen);
            Control::Suspend
        } else if self.should_quit {
            Control::Quit
        } else {
            Control::Continue
        }
    }
}

} // verus!
