//! The controller: the application state, the per-tick step functions, and
//! their mathematical model. One loop iteration is: translate the key event
//! (`handle_event`, first phase), dispatch at most one queued command
//! (`handle_event`, second phase), run the model update (`update_model`),
//! then decide what to redraw (`update_view`). The outer shell performs the
//! terminal and collaborator work the outcome values ask for and hands the
//! results back in as plain values.

use vstd::prelude::*;
use std::collections::VecDeque;
use crate::config::{
    spec_parse,
    spec_parse_error_message,
    AppMode,
    Command,
    ScreenEnum,
};
use crate::input::{keymap, spec_keymap, KeyCode, KeyEvent, KeyEventKind};
use crate::playback::{format_playback_label, idle_label, spec_idle_label, spec_playback_label};
use crate::screen::{MainScreen, MainScreenView};
use crate::widget::{spec_buffer_input, CommandLine, CommandLineView};

verus! {

/// What the dispatcher asks of the outer loop after one tick.
#[derive(Debug)]
pub enum HandleOutcome {
    /// Nothing further this tick.
    Continue,
    /// `Quit` was dequeued: the loop halts on this tick.
    Quit,
    /// The command must be forwarded to the active screen's event handler;
    /// the handler's boolean result comes back through
    /// `App::absorb_screen_result`.
    Forward(Command),
    /// `Logout` was dequeued: the shell must rebuild its login-screen
    /// widget and invoke the collaborator's logout.
    Logout,
}

/// Mathematical model of the controller state.
#[verifier::ext_equal]
pub struct AppView {
    pub current_screen: ScreenEnum,
    pub current_mode: AppMode,
    pub need_re_update_view: bool,
    pub command_queue: Seq<Command>,
    pub main_screen: MainScreenView,
    pub command_line: CommandLineView,
    pub playback_label: Seq<char>,
}

/// The controller state: which screen and input mode are active, whether
/// the view must be re-rendered, the FIFO command queue, the main screen's
/// model, the command line, and the playback readout.
pub struct App {
    pub current_screen: ScreenEnum,
    pub current_mode: AppMode,
    pub need_re_update_view: bool,
    pub command_queue: VecDeque<Command>,
    pub main_screen: MainScreen,
    pub command_line: CommandLine,
    pub playback_label: Vec<char>,
}

impl View for App {
    type V = AppView;

    open spec fn view(&self) -> AppView {
        AppView {
            current_screen: self.current_screen,
            current_mode: self.current_mode,
            need_re_update_view: self.need_re_update_view,
            command_queue: self.command_queue@,
            main_screen: self.main_screen@,
            command_line: self.command_line@,
            playback_label: self.playback_label@,
        }
    }
}

/// The transient prompt shown when `GotoScreen(Login)` is rejected because
/// a session is already authenticated.
pub open spec fn spec_logout_first_message() -> Seq<char> {
    seq![
        'y', 'o', 'u', ' ', 'h', 'a', 'v', 'e', ' ', 't', 'o', ' ', 'l', 'o', 'g', 'o', 'u',
        't', ' ', 'f', 'r', 'o', 'm', ' ', 'c', 'u', 'r', 'r', 'e', 'n', 't', ' ', 'a', 'c',
        'c', 'o', 'u', 'n', 't', ' ', 'f', 'i', 'r', 's', 't', '!',
    ]
}

/// The rejection prompt as a value.
pub fn logout_first_message() -> (m: Vec<char>)
    ensures
        m@ == spec_logout_first_message(),
{
    let m: Vec<char> = vec![
        'y', 'o', 'u', ' ', 'h', 'a', 'v', 'e', ' ', 't', 'o', ' ', 'l', 'o', 'g', 'o', 'u',
        't', ' ', 'f', 'r', 'o', 'm', ' ', 'c', 'u', 'r', 'r', 'e', 'n', 't', ' ', 'a', 'c',
        'c', 'o', 'u', 'n', 't', ' ', 'f', 'i', 'r', 's', 't', '!',
    ];
    proof {
        assert(m@ =~= spec_logout_first_message());
    }
    m
}

/// The optional playlist name, viewed as a sequence of characters.
pub open spec fn spec_opt_name(o: Option<String>) -> Option<Seq<char>> {
    match o {
        Some(s) => Some(s@),
        None => None,
    }
}

/// Appending one command to the queue; nothing else moves.
pub open spec fn spec_enqueue(v: AppView, c: Command) -> AppView {
    AppView { command_queue: v.command_queue.push(c), ..v }
}

/// Committing the buffered text to the parser: on success the command is
/// enqueued and the buffer cleared; on failure nothing is enqueued and the
/// buffer is replaced by the error message.
pub open spec fn spec_parse_command(v: AppView) -> AppView {
    match spec_parse(v.command_line.buffer) {
        Ok(c) => AppView {
            command_queue: v.command_queue.push(c),
            command_line: CommandLineView { buffer: Seq::empty(), ..v.command_line },
            ..v
        },
        Err(e) => AppView {
            command_line: CommandLineView {
                buffer: spec_parse_error_message(e),
                ..v.command_line
            },
            ..v
        },
    }
}

/// The input-translation phase of one tick: what one key event does to the
/// state, given the current input mode. `None` (no key pending) and key
/// releases change nothing.
pub open spec fn spec_translate(v: AppView, event: Option<KeyEvent>) -> AppView {
    match event {
        None => v,
        Some(e) => if e.kind is Release {
            v
        } else {
            match (v.current_mode, e.code) {
                (AppMode::Normal, k) => spec_enqueue(v, spec_keymap(k)),
                (AppMode::CommandEntry, KeyCode::Enter) => AppView {
                    current_mode: AppMode::Normal,
                    ..spec_parse_command(v)
                },
                (AppMode::CommandEntry, KeyCode::Esc) => AppView {
                    current_mode: AppMode::Normal,
                    command_line: CommandLineView { buffer: Seq::empty(), ..v.command_line },
                    ..v
                },
                (AppMode::CommandEntry, k) => AppView {
                    command_line: CommandLineView {
                        buffer: spec_buffer_input(v.command_line.buffer, k),
                        ..v.command_line
                    },
                    ..v
                },
            }
        },
    }
}

/// The screen transition: moving to `Login` while a session is
/// authenticated is rejected and only appends a prompt; any other move
/// changes the screen and forces a redraw.
pub open spec fn spec_switch_screen(v: AppView, to: ScreenEnum, is_login: bool) -> AppView {
    if to is Login && is_login {
        AppView {
            command_line: CommandLineView {
                buffer: v.command_line.buffer + spec_logout_first_message(),
                ..v.command_line
            },
            ..v
        }
    } else {
        AppView { current_screen: to, need_re_update_view: true, ..v }
    }
}

/// The post-login initialization: the main screen's model is rebuilt from
/// the favorite-playlist data, the screen becomes `Main`, and a redraw is
/// forced.
pub open spec fn spec_init_after_login(v: AppView, favorite: Option<Seq<char>>) -> AppView {
    AppView {
        main_screen: MainScreenView { playlist_name: favorite },
        current_screen: ScreenEnum::Main,
        need_re_update_view: true,
        ..v
    }
}

/// The dispatch phase of one tick: at most one command leaves the queue.
/// `Quit` halts; `GotoScreen` runs the screen state machine;
/// `EnterCommand` switches to text entry with an empty buffer and the `:`
/// prompt; `Logout` is handed to the shell; the navigation and playback
/// events are forwarded to the active screen; everything else (including
/// `Nop`) does nothing.
pub open spec fn spec_dispatch(v: AppView, is_login: bool) -> (AppView, HandleOutcome) {
    if v.command_queue.len() == 0 {
        (v, HandleOutcome::Continue)
    } else {
        let c = v.command_queue[0];
        let v1 = AppView { command_queue: v.command_queue.drop_first(), ..v };
        match c {
            Command::Quit => (v1, HandleOutcome::Quit),
            Command::GotoScreen(to) => (
                spec_switch_screen(v1, to, is_login),
                HandleOutcome::Continue,
            ),
            Command::EnterCommand => (
                AppView {
                    current_mode: AppMode::CommandEntry,
                    command_line: CommandLineView {
                        buffer: Seq::empty(),
                        prompt: seq![':'],
                        ..v1.command_line
                    },
                    ..v1
                },
                HandleOutcome::Continue,
            ),
            Command::Logout => (v1, HandleOutcome::Logout),
            Command::Down | Command::Up | Command::NextPanel | Command::PrevPanel
                | Command::Esc | Command::Play => (v1, HandleOutcome::Forward(c)),
            _ => (v1, HandleOutcome::Continue),
        }
    }
}

/// One whole event-handling tick: translate the key event, then dispatch
/// one command.
pub open spec fn spec_handle_event(v: AppView, event: Option<KeyEvent>, is_login: bool) -> (
    AppView,
    HandleOutcome,
) {
    spec_dispatch(spec_translate(v, event), is_login)
}

/// The screen part of the model update: on `Help` the dirty flag is forced
/// false; on `Main` it is the screen's own result; on `Login` it is the
/// screen's own result until the session authenticates, at which point the
/// post-login initialization runs and the redraw is forced.
pub open spec fn spec_update_screen_model(
    v: AppView,
    screen_dirty: bool,
    is_login: bool,
    favorite: Option<Seq<char>>,
) -> AppView {
    match v.current_screen {
        ScreenEnum::Help => AppView { need_re_update_view: false, ..v },
        ScreenEnum::Login => if is_login {
            AppView { need_re_update_view: true, ..spec_init_after_login(v, favorite) }
        } else {
            AppView { need_re_update_view: screen_dirty, ..v }
        },
        ScreenEnum::Main => AppView { need_re_update_view: screen_dirty, ..v },
    }
}

/// The playback part of the model update: the readout is reformatted only
/// when the player reports both a position and a duration; otherwise it
/// silently keeps its text.
pub open spec fn spec_update_playback(
    v: AppView,
    position_secs: Option<u64>,
    duration_secs: Option<u64>,
) -> AppView {
    match (position_secs, duration_secs) {
        (Some(p), Some(d)) => AppView {
            playback_label: spec_playback_label(p as int, d as int),
            ..v
        },
        _ => v,
    }
}

/// One whole model-update tick.
pub open spec fn spec_update_model(
    v: AppView,
    screen_dirty: bool,
    is_login: bool,
    favorite: Option<Seq<char>>,
    position_secs: Option<u64>,
    duration_secs: Option<u64>,
) -> AppView {
    spec_update_playback(
        spec_update_screen_model(v, screen_dirty, is_login, favorite),
        position_secs,
        duration_secs,
    )
}

impl App {
    /// The controller at startup: main screen active, shortcut mode, a
    /// forced first render, an empty queue, an empty command line and the
    /// idle playback readout.
    pub fn new() -> (app: App)
        ensures
            app@.current_screen is Main,
            app@.current_mode is Normal,
            app@.need_re_update_view == true,
            app@.command_queue == Seq::<Command>::empty(),
            app@.main_screen.playlist_name is None,
            app@.command_line.buffer == Seq::<char>::empty(),
            app@.command_line.prompt == Seq::<char>::empty(),
            app@.command_line.cursor_visible == false,
            app@.playback_label == spec_idle_label(),
    {
        App {
            current_screen: ScreenEnum::Main,
            current_mode: AppMode::Normal,
            need_re_update_view: true,
            command_queue: VecDeque::new(),
            main_screen: MainScreen::new(),
            command_line: CommandLine::new(),
            playback_label: idle_label(),
        }
    }

    /// Translates one key through the Normal-mode keymap and appends the
    /// resulting command — always exactly one, `Nop` for unmapped keys —
    /// to the queue; nothing else changes.
    pub fn get_command_from_key(&mut self, key_code: KeyCode)
        ensures
            final(self)@ == spec_enqueue(old(self)@, spec_keymap(key_code)),
    {
        let cmd = keymap(key_code);
        self.command_queue.push_back(cmd);
    }

    /// Leaves CommandEntry mode.
    pub fn back_to_normal_mode(&mut self)
        ensures
            final(self)@ == (AppView { current_mode: AppMode::Normal, ..old(self)@ }),
    {
        self.current_mode = AppMode::Normal;
    }

    /// Enters CommandEntry mode.
    pub fn switch_to_command_entry_mode(&mut self)
        ensures
            final(self)@ == (AppView { current_mode: AppMode::CommandEntry, ..old(self)@ }),
    {
        self.current_mode = AppMode::CommandEntry;
    }

    /// Appends a transient message to the command line.
    pub fn show_prompt(&mut self, text: &Vec<char>)
        ensures
            final(self)@ == (AppView {
                command_line: CommandLineView {
                    buffer: old(self)@.command_line.buffer + text@,
                    ..old(self)@.command_line
                },
                ..old(self)@
            }),
    {
        self.command_line.insert_text(text);
    }

    /// Commits the buffered command-line text: the buffer is cleared, then
    /// on a successful parse the command is enqueued, and on a failed one
    /// nothing is enqueued and the buffer is repopulated with the error
    /// message.
    pub fn parse_command(&mut self)
        ensures
            final(self)@ == spec_parse_command(old(self)@),
    {
        let input_cmd = self.command_line.get_contents();
        self.command_line.reset();
        match Command::parse(&input_cmd) {
            Ok(cmd) => {
                self.command_queue.push_back(cmd);
            },
            Err(e) => {
                let msg = e.message();
                self.command_line.insert_text(&msg);
                proof {
                    assert(self.command_line@.buffer =~= spec_parse_error_message(e));
                }
            },
        }
    }

    /// The screen state machine: moving to `Login` while authenticated is
    /// rejected with a prompt and changes nothing else; any other move
    /// changes the screen and forces a redraw.
    pub fn switch_screen(&mut self, to_screen: ScreenEnum, is_login: bool)
        ensures
            final(self)@ == spec_switch_screen(old(self)@, to_screen, is_login),
    {
        if matches!(to_screen, ScreenEnum::Login) && is_login {
            let msg = logout_first_message();
            self.show_prompt(&msg);
            return ;
        }
        self.need_re_update_view = true;
        self.current_screen = to_screen;
    }

    /// The post-login initialization: rebuilds the main screen's model
    /// from the favorite-playlist data, moves to `Main` and forces a
    /// redraw.
    pub fn init_after_login(&mut self, favorite_playlist: Option<String>)
        ensures
            final(self)@ == spec_init_after_login(old(self)@, spec_opt_name(favorite_playlist)),
    {
        self.main_screen = MainScreen::new();
        match favorite_playlist {
            Some(playlist_name) => {
                self.main_screen.update_playlist_model(playlist_name);
            },
            None => {},
        }
        self.need_re_update_view = true;
        self.current_screen = ScreenEnum::Main;
    }

    /// The `Login`-screen model update: `need_redraw` is the login
    /// screen's own result, and `is_login` whether the collaborator now
    /// reports an authenticated session; on authentication the post-login
    /// initialization runs and the redraw is owed unconditionally.
    pub fn update_login_model(
        &mut self,
        need_redraw: bool,
        is_login: bool,
        favorite_playlist: Option<String>,
    ) -> (dirty: bool)
        ensures
            is_login ==> final(self)@ == spec_init_after_login(
                old(self)@,
                spec_opt_name(favorite_playlist),
            ) && dirty == true,
            !is_login ==> final(self)@ == old(self)@ && dirty == need_redraw,
    {
        if is_login {
            self.init_after_login(favorite_playlist);
            true
        } else {
            need_redraw
        }
    }

    /// One model-update tick. `screen_dirty` is the active screen's own
    /// update result (meaningless and ignored on `Help`), `is_login` the
    /// collaborator's session state, `favorite_playlist` its favorite
    /// playlist's name, and the last two the player's position and
    /// duration in seconds. On `Help` the dirty flag is forced false; the
    /// playback readout is reformatted exactly when position and duration
    /// are both known.
    pub fn update_model(
        &mut self,
        screen_dirty: bool,
        is_login: bool,
        favorite_playlist: Option<String>,
        position_secs: Option<u64>,
        duration_secs: Option<u64>,
    )
        ensures
            final(self)@ == spec_update_model(
                old(self)@,
                screen_dirty,
                is_login,
                spec_opt_name(favorite_playlist),
                position_secs,
                duration_secs,
            ),
            old(self)@.current_screen is Help ==> final(self)@.need_re_update_view == false,
            old(self)@.current_screen is Login && is_login ==> {
                &&& final(self)@.current_screen is Main
                &&& final(self)@.need_re_update_view == true
                &&& final(self)@.main_screen.playlist_name == spec_opt_name(favorite_playlist)
            },
    {
        let dirty = match self.current_screen {
            ScreenEnum::Help => false,
            ScreenEnum::Login => self.update_login_model(screen_dirty, is_login, favorite_playlist),
            ScreenEnum::Main => screen_dirty,
        };
        self.need_re_update_view = dirty;
        match (position_secs, duration_secs) {
            (Some(p), Some(d)) => {
                self.playback_label = format_playback_label(p, d);
            },
            _ => {},
        }
    }

    /// One event-handling tick: applies the key event (if any), then
    /// dequeues and dispatches at most one command, exactly as
    /// `spec_handle_event` states. The returned outcome names the outside
    /// work the shell owes this tick.
    pub fn handle_event(&mut self, event: Option<KeyEvent>, is_login: bool) -> (outcome:
        HandleOutcome)
        ensures
            final(self)@ == spec_handle_event(old(self)@, event, is_login).0,
            outcome == spec_handle_event(old(self)@, event, is_login).1,
    {
        match event {
            Some(key_event) => {
                if matches!(key_event.kind, KeyEventKind::Press) || matches!(
                    key_event.kind,
                    KeyEventKind::Repeat,
                ) {
                    match (self.current_mode, key_event.code) {
                        (AppMode::Normal, _) => self.get_command_from_key(key_event.code),
                        (AppMode::CommandEntry, KeyCode::Enter) => {
                            self.parse_command();
                            self.back_to_normal_mode();
                        },
                        (AppMode::CommandEntry, KeyCode::Esc) => {
                            self.command_line.reset();
                            self.back_to_normal_mode();
                        },
                        (AppMode::CommandEntry, _) => {
                            self.command_line.input(key_event.code);
                        },
                    }
                }
            },
            None => {},
        }
        proof {
            assert(self@ =~= spec_translate(old(self)@, event));
        }
        match self.command_queue.pop_front() {
            Some(cmd) => {
                proof {
                    assert(self@.command_queue =~= spec_translate(
                        old(self)@,
                        event,
                    ).command_queue.drop_first());
                }
                match cmd {
                    Command::Quit => HandleOutcome::Quit,
                    Command::GotoScreen(to_screen) => {
                        self.switch_screen(to_screen, is_login);
                        HandleOutcome::Continue
                    },
                    Command::EnterCommand => {
                        self.switch_to_command_entry_mode();
                        self.command_line.reset();
                        self.command_line.set_prompt(vec![':']);
                        proof {
                            assert(self.command_line@.prompt =~= seq![':']);
                        }
                        HandleOutcome::Continue
                    },
                    Command::Logout => HandleOutcome::Logout,
                    Command::Down | Command::Up | Command::NextPanel | Command::PrevPanel
                        | Command::Esc | Command::Play => HandleOutcome::Forward(cmd),
                    _ => HandleOutcome::Continue,
                }
            },
            None => HandleOutcome::Continue,
        }
    }

    /// Folds a forwarded command's screen-handler result into the dirty
    /// flag: a forwarded command can set it but never clear it.
    pub fn absorb_screen_result(&mut self, screen_result: bool)
        ensures
            final(self)@ == (AppView {
                need_re_update_view: old(self)@.need_re_update_view || screen_result,
                ..old(self)@
            }),
    {
        self.need_re_update_view = self.need_re_update_view || screen_result;
    }

    /// The per-tick view decision: the active screen's view is refreshed
    /// exactly when the dirty flag is set and the screen is not the static
    /// `Help`; the command-line cursor shows exactly in CommandEntry mode.
    /// The command line and the playback gauge are always redrawn by the
    /// renderer, whatever this returns.
    pub fn update_view(&mut self) -> (redraw_screen: bool)
        ensures
            redraw_screen == (old(self)@.need_re_update_view && !(old(
                self,
            )@.current_screen is Help)),
            final(self)@ == (AppView {
                command_line: CommandLineView {
                    cursor_visible: old(self)@.current_mode is CommandEntry,
                    ..old(self)@.command_line
                },
                ..old(self)@
            }),
    {
        let redraw_screen = self.need_re_update_view && !matches!(
            self.current_screen,
            ScreenEnum::Help,
        );
        let show_cursor = match self.current_mode {
            AppMode::Normal => false,
            AppMode::CommandEntry => true,
        };
        self.command_line.set_cursor_visibility(show_cursor);
        redraw_screen
    }
}

} // verus!
