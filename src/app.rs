//! The decisions of the event loop: how a terminal event becomes an action,
//! and what an action does to the shared state before it is broadcast.
//! The loop itself, which waits for events, draws and runs queries, lies
//! outside the library and performs the effects returned here.

use vstd::prelude::*;
use crate::action::Action;
use crate::buffer::{Buffer, Rect};
use crate::data::{Data, DataFrame, DataState, DataView, Grid, data_title, frame_color, spec_frame_color};
use crate::focus::Focus;
use crate::keymap::{Key, KeyBindings, KeySequenceResolver, step, opt_int};

verus! {

/// A terminal event, as the loop receives it.
#[derive(Clone, Copy, Debug, PartialEq, Eq, Structural)]
pub enum Event {
    Quit,
    Tick,
    Render,
    Resize(u16, u16),
    Key(Key),
    Other,
}

/// How an event was resolved.
#[derive(Clone, Debug, PartialEq, Eq)]
pub enum Resolution {
    /// A lifecycle event, turned into its action.
    Action(Action),
    /// A key press that completed the binding at this index.
    Binding(usize),
    /// Nothing was resolved; the raw event went to the components.
    Unresolved,
}

/// What the loop must do after an action was applied.
#[derive(Clone, Copy, Debug, PartialEq, Eq, Structural)]
pub enum Effect {
    Nothing,
    Render,
    Resize(u16, u16),
    RunQuery,
}

/// State shared by all regions.
pub struct AppState {
    pub connection_string: String,
    pub focus: Focus,
    pub table_buf_logged: bool,
}

/// The focus after `action`.
pub open spec fn focus_after(f: Focus, action: Action) -> Focus {
    match action {
        Action::FocusMenu => Focus::Menu,
        Action::FocusEditor => Focus::Editor,
        Action::FocusHistory => Focus::History,
        Action::FocusData => Focus::Data,
        Action::FocusFavorites => Focus::Favorites,
        Action::CycleFocusForwards => next_focus(f),
        Action::CycleFocusBackwards => prev_focus(f),
        _ => f,
    }
}

pub open spec fn next_focus(f: Focus) -> Focus {
    match f {
        Focus::Menu => Focus::Editor,
        Focus::Editor => Focus::History,
        Focus::History => Focus::Data,
        Focus::Data => Focus::Favorites,
        Focus::Favorites => Focus::Menu,
    }
}

pub open spec fn prev_focus(f: Focus) -> Focus {
    match f {
        Focus::Menu => Focus::Favorites,
        Focus::Editor => Focus::Menu,
        Focus::History => Focus::Editor,
        Focus::Data => Focus::History,
        Focus::Favorites => Focus::Data,
    }
}

/// What the loop must do after `action`.
pub open spec fn effect_of(action: Action) -> Effect {
    match action {
        Action::Render => Effect::Render,
        Action::Resize(w, h) => Effect::Resize(w, h),
        Action::Query(_, _, _) => Effect::RunQuery,
        _ => Effect::Nothing,
    }
}

/// The application core: bindings, pending keys, shared state, the data region.
pub struct App {
    pub keybindings: KeyBindings,
    pub state: AppState,
    pub should_quit: bool,
    pub last_tick_key_events: KeySequenceResolver,
    pub data: Data,
}

impl App {
    pub open spec fn wf(&self) -> bool {
        self.data.wf()
    }

    /// A fresh core: the editor has the focus, nothing is pending, no data.
    pub fn new(connection_string: String, keybindings: KeyBindings) -> (r: App)
        ensures
            r.wf(),
            r.state.focus == Focus::Editor,
            r.state.connection_string == connection_string,
            !r.state.table_buf_logged,
            !r.should_quit,
            r.last_tick_key_events.pending@ == Seq::<Key>::empty(),
            r.keybindings == keybindings,
            r.data.data_state == crate::data::DataState::Blank,
            r.data.scrollable.content_width() == 0,
            r.data.scrollable.content_height() == 0,
            r.data.scrollable.x_offset == 0,
            r.data.scrollable.y_offset == 0,
    {
        App {
            keybindings,
            state: AppState { connection_string, focus: Focus::Editor, table_buf_logged: false },
            should_quit: false,
            last_tick_key_events: KeySequenceResolver::new(),
            data: Data::new(),
        }
    }

    /// Resolves one terminal event. Lifecycle events become their actions.
    /// A key press goes through the bindings of the focused region; when it
    /// completes no binding, the raw key goes to the data region.
    pub fn handle_event(&mut self, e: Event) -> (r: Resolution)
        requires
            old(self).wf(),
        ensures
            final(self).wf(),
            final(self).state == old(self).state,
            final(self).should_quit == old(self).should_quit,
            final(self).keybindings == old(self).keybindings,
            final(self).data.data_state == old(self).data.data_state,
            match e {
                Event::Key(k) => {
                    let (o, p) = step(old(self).keybindings.bindings@, old(self).state.focus, old(self).last_tick_key_events.pending@, k);
                    &&& final(self).last_tick_key_events.pending@ == p
                    &&& match o {
                        Some(i) => r == Resolution::Binding(i as usize) && i < old(self).keybindings.bindings@.len()
                            && final(self).data == old(self).data,
                        None => r == Resolution::Unresolved && final(self).data.scrollable == crate::data::key_effect_in(
                            old(self).data.scrollable,
                            old(self).state.focus,
                            k,
                        ),
                    }
                },
                _ => {
                    &&& final(self).last_tick_key_events == old(self).last_tick_key_events
                    &&& final(self).data == old(self).data
                    &&& r == match e {
                        Event::Quit => Resolution::Action(Action::Quit),
                        Event::Tick => Resolution::Action(Action::Tick),
                        Event::Render => Resolution::Action(Action::Render),
                        Event::Resize(w, h) => Resolution::Action(Action::Resize(w, h)),
                        _ => Resolution::Unresolved,
                    }
                },
            },
    {
        match e {
            Event::Quit => Resolution::Action(Action::Quit),
            Event::Tick => Resolution::Action(Action::Tick),
            Event::Render => Resolution::Action(Action::Render),
            Event::Resize(w, h) => Resolution::Action(Action::Resize(w, h)),
            Event::Key(k) => {
                let focus = self.state.focus;
                let found = self.last_tick_key_events.resolve(&self.keybindings, focus, k);
                match found {
                    Some(i) => Resolution::Binding(i),
                    None => {
                        self.data.handle_key(focus, k);
                        Resolution::Unresolved
                    },
                }
            },
            Event::Other => Resolution::Unresolved,
        }
    }

    /// Applies one drained action: first its global effect (a tick drops
    /// the pending keys, quit sets the flag, focus actions move the focus),
    /// then the broadcast to the data region. Returns what the loop must do.
    pub fn apply(&mut self, action: &Action) -> (r: Effect)
        requires
            old(self).wf(),
        ensures
            final(self).wf(),
            r == effect_of(*action),
            final(self).should_quit == (old(self).should_quit || *action is Quit),
            final(self).state.focus == focus_after(old(self).state.focus, *action),
            final(self).state.connection_string == old(self).state.connection_string,
            final(self).state.table_buf_logged == old(self).state.table_buf_logged,
            final(self).keybindings == old(self).keybindings,
            final(self).last_tick_key_events.pending@ == (if *action is Tick {
                Seq::<Key>::empty()
            } else {
                old(self).last_tick_key_events.pending@
            }),
            final(self).data.data_state == old(self).data.data_state,
            final(self).data.scrollable == (if *action is Query {
                crate::scroll_table::ScrollTable { x_offset: 0, y_offset: 0, ..old(self).data.scrollable }
            } else {
                old(self).data.scrollable
            }),
    {
        let effect = match action {
            Action::Tick => {
                self.last_tick_key_events.tick();
                Effect::Nothing
            },
            Action::Quit => {
                self.should_quit = true;
                Effect::Nothing
            },
            Action::Resize(w, h) => Effect::Resize(*w, *h),
            Action::Render => Effect::Render,
            Action::FocusMenu => {
                self.state.focus = Focus::Menu;
                Effect::Nothing
            },
            Action::FocusEditor => {
                self.state.focus = Focus::Editor;
                Effect::Nothing
            },
            Action::FocusHistory => {
                self.state.focus = Focus::History;
                Effect::Nothing
            },
            Action::FocusData => {
                self.state.focus = Focus::Data;
                Effect::Nothing
            },
            Action::FocusFavorites => {
                self.state.focus = Focus::Favorites;
                Effect::Nothing
            },
            Action::CycleFocusForwards => {
                self.state.focus = self.state.focus.next();
                Effect::Nothing
            },
            Action::CycleFocusBackwards => {
                self.state.focus = self.state.focus.prev();
                Effect::Nothing
            },
            Action::Query(_, _, _) => Effect::RunQuery,
            _ => Effect::Nothing,
        };
        self.data.update(action);
        effect
    }

    /// Takes the outcome of a query that the loop ran, and hands it to the
    /// data region.
    pub fn set_query_result(&mut self, result: Result<Grid, String>)
        requires
            old(self).wf(),
        ensures
            final(self).wf(),
            final(self).state.focus == old(self).state.focus,
            final(self).should_quit == old(self).should_quit,
            final(self).last_tick_key_events == old(self).last_tick_key_events,
            result is Ok ==> !final(self).state.table_buf_logged,
            result is Err ==> final(self).state.table_buf_logged == old(self).state.table_buf_logged,
            final(self).state.connection_string == old(self).state.connection_string,
            final(self).keybindings == old(self).keybindings,
            Data::takes_outcome(old(self).data, final(self).data, Some(result)),
    {
        if result.is_ok() {
            self.state.table_buf_logged = false;
        }
        self.data.set_data_state(Some(result));
    }

    /// Draws the data region into `area` of `buf` (see `Data::draw`) and
    /// returns its frame: the title, a border marked as focused when the data
    /// region has the focus, and what it holds. Drawing results marks the
    /// table as logged.
    pub fn draw_data(&mut self, area: Rect, buf: &mut Buffer) -> (r: DataFrame)
        requires
            old(self).wf(),
            old(buf).wf(),
            area.wf(),
        ensures
            final(self).wf(),
            final(self).state.focus == old(self).state.focus,
            final(self).state.connection_string == old(self).state.connection_string,
            final(self).state.table_buf_logged == (old(self).state.table_buf_logged
                || old(self).data.data_state == DataState::HasResults),
            final(self).should_quit == old(self).should_quit,
            final(self).keybindings == old(self).keybindings,
            final(self).last_tick_key_events == old(self).last_tick_key_events,
            final(self).data.data_state == old(self).data.data_state,
            r.title@ == data_title(),
            r.border == spec_frame_color(old(self).state.focus == Focus::Data),
            final(buf).wf(),
            final(buf).area == old(buf).area,
            old(self).data.data_state != DataState::HasResults ==> {
                &&& r.view matches DataView::Message(m) && m@ == Data::message(old(self).data.data_state)
                &&& final(self).data.scrollable == old(self).data.scrollable
                &&& *final(buf) == *old(buf)
            },
            old(self).data.data_state == DataState::HasResults ==> {
                &&& final(self).data.scrollable.bordered
                &&& final(self).data.scrollable.parent_area == area
                &&& final(self).data.scrollable.content == old(self).data.scrollable.content
                &&& r.view == DataView::Grid(final(self).data.scrollable.spec_scrollbars())
                &&& forall|row: int, c: int|
                    0 <= row < old(buf).area.height && 0 <= c < old(buf).area.width ==> #[trigger] final(buf).at(row, c)
                        == final(self).data.scrollable.rendered_at(*old(buf), row, c)
            },
    {
        let focused = self.state.focus == Focus::Data;
        if let DataState::HasResults = self.data.data_state {
            self.state.table_buf_logged = true;
        }
        let view = self.data.draw(area, buf);
        proof {
            reveal_strlit("bottom");
        }
        DataFrame { title: "bottom".to_owned(), border: frame_color(focused), view }
    }
}

} // verus!
