use vstd::prelude::*;
use std::collections::VecDeque;

verus! {

/// What the game is doing.
#[derive(Clone, Copy, Debug, PartialEq, Eq, Structural)]
pub enum GameStates {
    Loading,
    Playable,
    Saving,
}

/// Whether the player controls the world or a menu.
#[derive(Clone, Copy, Debug, PartialEq, Eq, Structural)]
pub enum PlayerStates {
    Active,
    Menu,
}

/// A request to the game, handled at the start of the next update. `S` names a screen of
/// the user interface and `C` a cursor mode of the window.
#[derive(Debug, PartialEq, Eq)]
pub enum GameEvents<S, C> {
    QuitGame,
    SetCursorMode(C),
    ChangeScreen(S),
    LoadChunks,
    EnterToWorld,
    LeaveToWorld,
    PauseGame,
    UnpauseGame,
}

/// What the caller must do outside the game state after an event.
#[derive(Debug, PartialEq, Eq)]
pub enum GameAction<S, C> {
    /// Close the window.
    CloseWindow,
    /// Set the window's cursor mode.
    SetCursor(C),
    /// Show a screen.
    ShowScreen(S),
    /// Start loading the world around the player.
    LoadWorld,
    /// Tell the user interface that the player is in the world.
    EnterWorld,
    /// Leave the world and tell the user interface.
    LeaveWorld,
    /// Nothing outside the game state.
    Nothing,
}

/// The flags of the game's flow.
pub struct FlowView {
    pub state: GameStates,
    pub paused: bool,
    pub in_world: bool,
}

/// The flags after one event.
pub open spec fn flow_after<S, C>(v: FlowView, e: GameEvents<S, C>) -> FlowView {
    match e {
        GameEvents::LoadChunks => FlowView { state: GameStates::Loading, ..v },
        GameEvents::EnterToWorld => FlowView { state: GameStates::Playable, paused: false, in_world: true },
        GameEvents::LeaveToWorld => FlowView { in_world: false, ..v },
        GameEvents::PauseGame => FlowView { paused: true, ..v },
        GameEvents::UnpauseGame => FlowView { paused: false, ..v },
        _ => v,
    }
}

/// The outside action of one event. Loading the chunks also queues a change to `loading_screen`.
pub open spec fn action_of<S, C>(e: GameEvents<S, C>) -> GameAction<S, C> {
    match e {
        GameEvents::QuitGame => GameAction::CloseWindow,
        GameEvents::SetCursorMode(c) => GameAction::SetCursor(c),
        GameEvents::ChangeScreen(s) => GameAction::ShowScreen(s),
        GameEvents::LoadChunks => GameAction::LoadWorld,
        GameEvents::EnterToWorld => GameAction::EnterWorld,
        GameEvents::LeaveToWorld => GameAction::LeaveWorld,
        _ => GameAction::Nothing,
    }
}

/// The work of one update after the events are handled: chunk generation, the world's update,
/// and the user interface's update.
#[derive(Clone, Copy, Debug, PartialEq, Eq, Structural)]
pub struct UpdateWork {
    pub generate_chunks: bool,
    pub update_world: bool,
    pub update_ui: bool,
}

/// The game's flow: whether it is loading, paused or in the world, and the events waiting to
/// be handled, first in first out.
pub struct GameFlow<S, C> {
    state: GameStates,
    paused: bool,
    in_world: bool,
    events_queue: VecDeque<GameEvents<S, C>>,
}

impl<S: Copy, C: Copy> GameFlow<S, C> {
    /// The flags.
    pub closed spec fn view(&self) -> FlowView {
        FlowView { state: self.state, paused: self.paused, in_world: self.in_world }
    }

    /// The waiting events, oldest first.
    pub closed spec fn queue(&self) -> Seq<GameEvents<S, C>> {
        self.events_queue@
    }

    /// A game that is playable, not paused, not in the world, with nothing waiting.
    pub fn new() -> (g: Self)
        ensures
            g.view() == (FlowView { state: GameStates::Playable, paused: false, in_world: false }),
            g.queue() == Seq::<GameEvents<S, C>>::empty(),
    {
        GameFlow { state: GameStates::Playable, paused: false, in_world: false, events_queue: VecDeque::new() }
    }

    /// What the game is doing.
    pub fn state(&self) -> (s: GameStates)
        ensures
            s == self.view().state,
    {
        self.state
    }

    /// The player is in the world.
    pub fn is_in_world(&self) -> (r: bool)
        ensures
            r == self.view().in_world,
    {
        self.in_world
    }

    /// The game is paused.
    pub fn is_paused(&self) -> (r: bool)
        ensures
            r == self.view().paused,
    {
        self.paused
    }

    /// Queues an event behind those already waiting.
    pub fn add_event(&mut self, event: GameEvents<S, C>)
        ensures
            final(self).queue() == old(self).queue().push(event),
            final(self).view() == old(self).view(),
    {
        self.events_queue.push_back(event);
    }

    /// Takes the oldest waiting event, if any.
    pub fn pop_event(&mut self) -> (e: Option<GameEvents<S, C>>)
        ensures
            old(self).queue().len() == 0 ==> e.is_none() && final(self).queue() == old(self).queue(),
            old(self).queue().len() > 0 ==> e == Some(old(self).queue()[0])
                && final(self).queue() == old(self).queue().drop_first(),
            final(self).view() == old(self).view(),
    {
        self.events_queue.pop_front()
    }

    /// Handles one event: updates the flags and returns what the caller must do. Loading the
    /// chunks queues a change to `loading_screen` first.
    pub fn apply_event(&mut self, event: GameEvents<S, C>, loading_screen: S) -> (a: GameAction<S, C>)
        ensures
            final(self).view() == flow_after(old(self).view(), event),
            a == action_of(event),
            event is LoadChunks ==> final(self).queue() == old(self).queue().push(GameEvents::ChangeScreen(loading_screen)),
            !(event is LoadChunks) ==> final(self).queue() == old(self).queue(),
    {
        match event {
            GameEvents::QuitGame => GameAction::CloseWindow,
            GameEvents::SetCursorMode(mode) => GameAction::SetCursor(mode),
            GameEvents::ChangeScreen(id) => GameAction::ShowScreen(id),
            GameEvents::LoadChunks => {
                self.add_event(GameEvents::ChangeScreen(loading_screen));
                self.state = GameStates::Loading;
                GameAction::LoadWorld
            },
            GameEvents::EnterToWorld => {
                self.in_world = true;
                self.paused = false;
                self.state = GameStates::Playable;
                GameAction::EnterWorld
            },
            GameEvents::LeaveToWorld => {
                self.in_world = false;
                GameAction::LeaveWorld
            },
            GameEvents::PauseGame => {
                self.paused = true;
                GameAction::Nothing
            },
            GameEvents::UnpauseGame => {
                self.paused = false;
                GameAction::Nothing
            },
        }
    }

    /// Answers the escape key. In the world, from the heads-up display, it queues a change to
    /// `pause_screen` and then a pause, and the screen stays; from the pause screen it queues an
    /// unpause and the caller goes back to the previous screen; from any other screen, or outside
    /// the world, nothing is queued and the caller goes back. Returns whether the caller goes
    /// back. The flags do not change here: the queued events take effect when they are handled.
    pub fn on_escape(&mut self, on_hud: bool, on_pause_screen: bool, pause_screen: S) -> (go_back: bool)
        ensures
            final(self).view() == old(self).view(),
            old(self).view().in_world && on_hud ==> !go_back && final(self).queue()
                == old(self).queue().push(GameEvents::ChangeScreen(pause_screen)).push(GameEvents::PauseGame),
            old(self).view().in_world && !on_hud && on_pause_screen ==> go_back
                && final(self).queue() == old(self).queue().push(GameEvents::UnpauseGame),
            old(self).view().in_world && !on_hud && !on_pause_screen ==> go_back
                && final(self).queue() == old(self).queue(),
            !old(self).view().in_world ==> go_back && final(self).queue() == old(self).queue(),
    {
        if self.in_world {
            if on_hud {
                self.add_event(GameEvents::ChangeScreen(pause_screen));
                self.add_event(GameEvents::PauseGame);
                false
            } else {
                if on_pause_screen {
                    self.add_event(GameEvents::UnpauseGame);
                }
                true
            }
        } else {
            true
        }
    }

    /// The work of this update, decided once the queued events are handled: chunks are generated
    /// only while loading, the world is updated only while the player is in it, and the user
    /// interface every time. The escape key and the end of loading only queue events, so they do
    /// not change this.
    pub fn update_work(&self) -> (w: UpdateWork)
        ensures
            w.generate_chunks == (self.view().state == GameStates::Loading),
            w.update_world == self.view().in_world,
            w.update_ui,
    {
        let generate_chunks = match self.state {
            GameStates::Loading => true,
            _ => false,
        };
        UpdateWork { generate_chunks, update_world: self.in_world, update_ui: true }
    }

    /// Ends the loading: while loading, once no chunk is pending, queues entering the world and
    /// returns `true`; otherwise queues nothing and returns `false`. The flags do not change
    /// here: the world is entered when the queued event is handled.
    pub fn finish_loading(&mut self, pending_chunks: usize) -> (entered: bool)
        ensures
            entered == (old(self).view().state == GameStates::Loading && pending_chunks == 0),
            final(self).view() == old(self).view(),
            entered ==> final(self).queue() == old(self).queue().push(GameEvents::EnterToWorld),
            !entered ==> final(self).queue() == old(self).queue(),
    {
        let entered = match self.state {
            GameStates::Loading => pending_chunks == 0,
            _ => false,
        };
        if entered {
            self.add_event(GameEvents::EnterToWorld);
        }
        entered
    }
}

/// Law: entering the world always leaves the game playable, unpaused and in the world,
/// whatever it was doing; leaving keeps the other flags.
pub proof fn lemma_enter_leave_world<S, C>(v: FlowView)
    ensures
        flow_after(v, GameEvents::<S, C>::EnterToWorld)
            == (FlowView { state: GameStates::Playable, paused: false, in_world: true }),
        flow_after(v, GameEvents::<S, C>::LeaveToWorld) == (FlowView { in_world: false, ..v }),
{
}

/// Law: pausing then unpausing gives back the flags of an unpaused game.
pub proof fn lemma_pause_unpause<S, C>(v: FlowView)
    ensures
        flow_after(flow_after(v, GameEvents::<S, C>::PauseGame), GameEvents::<S, C>::UnpauseGame)
            == (FlowView { paused: false, ..v }),
        flow_after(v, GameEvents::<S, C>::PauseGame).in_world == v.in_world,
        flow_after(v, GameEvents::<S, C>::PauseGame).state == v.state,
{
}

/// Law: what the caller does for each event. An event that names a screen shows exactly that
/// screen, and one that names a cursor mode sets exactly that mode; only quitting closes the
/// window; only loading the chunks starts loading the world; only entering and leaving the world
/// tell the caller so; and exactly pausing and unpausing leave nothing to do outside the flags.
pub proof fn lemma_event_actions<S, C>(s: S, c: C, e: GameEvents<S, C>)
    ensures
        action_of(GameEvents::<S, C>::ChangeScreen(s)) == GameAction::<S, C>::ShowScreen(s),
        action_of(GameEvents::<S, C>::SetCursorMode(c)) == GameAction::<S, C>::SetCursor(c),
        action_of(e) is ShowScreen <==> e is ChangeScreen,
        action_of(e) is SetCursor <==> e is SetCursorMode,
        action_of(e) is CloseWindow <==> e is QuitGame,
        action_of(e) is LoadWorld <==> e is LoadChunks,
        action_of(e) is EnterWorld <==> e is EnterToWorld,
        action_of(e) is LeaveWorld <==> e is LeaveToWorld,
        action_of(e) is Nothing <==> (e is PauseGame || e is UnpauseGame),
{
}

/// Law: the events that act only outside the game (showing a screen, setting the cursor,
/// quitting) leave the flags as they are; loading sets only the state, to loading.
pub proof fn lemma_outside_events_keep_flags<S, C>(v: FlowView, e: GameEvents<S, C>)
    ensures
        (e is ChangeScreen || e is SetCursorMode || e is QuitGame) ==> flow_after(v, e) == v,
        e is LoadChunks ==> flow_after(v, e) == (FlowView { state: GameStates::Loading, ..v }),
{
}

} // verus!
