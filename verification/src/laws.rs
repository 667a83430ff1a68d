//! Properties of the controller that relate several step functions:
//! FIFO dispatch, the halting of `Quit`, the login-screen guard, the
//! behaviour of unmapped keys, and the command-entry round trip. Each is
//! stated over the step functions of `crate::app` and proved for every
//! state and input its statement admits.

use vstd::prelude::*;
use crate::app::{
    spec_dispatch,
    spec_handle_event,
    spec_logout_first_message,
    spec_translate,
    AppView,
};
use crate::config::{Command, ScreenEnum};
use crate::input::{spec_key_is_mapped, spec_keymap, KeyCode, KeyEvent, KeyEventKind};

verus! {

/// The state after `n` event-handling ticks during which no key event
/// arrives: each tick dispatches at most one queued command.
pub open spec fn spec_run_idle(v: AppView, is_login: bool, n: nat) -> AppView
    decreases n,
{
    if n == 0 {
        v
    } else {
        spec_handle_event(spec_run_idle(v, is_login, (n - 1) as nat), None, is_login).0
    }
}

/// Dispatching one command removes exactly the front of the queue and
/// never enqueues: whatever the command was, the queue afterwards is the
/// old queue without its first element.
pub proof fn lemma_dispatch_pops_front(v: AppView, is_login: bool)
    requires
        v.command_queue.len() > 0,
    ensures
        spec_dispatch(v, is_login).0.command_queue =~= v.command_queue.drop_first(),
{
}

/// After `i` idle ticks the queue is the original queue with its first
/// `i` commands gone: commands leave the queue one per tick, in order.
pub proof fn lemma_run_idle_queue(v: AppView, is_login: bool, n: nat)
    requires
        n <= v.command_queue.len(),
    ensures
        spec_run_idle(v, is_login, n).command_queue =~= v.command_queue.skip(n as int),
    decreases n,
{
    if n == 0 {
        assert(v.command_queue.skip(0) =~= v.command_queue);
    } else {
        lemma_run_idle_queue(v, is_login, (n - 1) as nat);
        let w = spec_run_idle(v, is_login, (n - 1) as nat);
        assert(w.command_queue.len() > 0);
        lemma_dispatch_pops_front(w, is_login);
        assert(v.command_queue.skip(n as int - 1).drop_first() =~= v.command_queue.skip(
            n as int,
        ));
    }
}

/// For every sequence of enqueued commands, dispatch is FIFO, one command
/// per tick: with no new input arriving, the command dispatched at tick
/// `i` (counting from zero) is exactly the `i`-th command of the queue.
pub proof fn lemma_fifo_order(v: AppView, is_login: bool, i: int)
    requires
        0 <= i < v.command_queue.len(),
    ensures
        spec_run_idle(v, is_login, i as nat).command_queue.len() == v.command_queue.len() - i,
        spec_run_idle(v, is_login, i as nat).command_queue[0] == v.command_queue[i],
        spec_handle_event(
            spec_run_idle(v, is_login, i as nat),
            None,
            is_login,
        ).0.command_queue =~= v.command_queue.skip(i + 1),
{
    lemma_run_idle_queue(v, is_login, i as nat);
    let w = spec_run_idle(v, is_login, i as nat);
    lemma_dispatch_pops_front(w, is_login);
    assert(w.command_queue.drop_first() =~= v.command_queue.skip(i + 1));
}

/// `Quit` dequeued at any queue position halts the loop on that tick
/// without executing the commands queued after it: once the first `i`
/// commands have been dispatched, the tick that dequeues the `Quit` at
/// position `i` reports the `Quit` outcome, and beyond that one dequeue it
/// changes nothing — the rest of the queue included.
pub proof fn lemma_quit_halts(v: AppView, is_login: bool, i: int)
    requires
        0 <= i < v.command_queue.len(),
        v.command_queue[i] is Quit,
    ensures
        spec_handle_event(spec_run_idle(v, is_login, i as nat), None, is_login).1 is Quit,
        ({
            let w = spec_run_idle(v, is_login, i as nat);
            let (after, outcome) = spec_handle_event(w, None, is_login);
            &&& after.command_queue =~= v.command_queue.skip(i + 1)
            &&& after.current_screen == w.current_screen
            &&& after.current_mode == w.current_mode
            &&& after.need_re_update_view == w.need_re_update_view
            &&& after.main_screen == w.main_screen
            &&& after.command_line == w.command_line
            &&& after.playback_label == w.playback_label
        }),
{
    lemma_fifo_order(v, is_login, i);
}

/// The login guard of the screen state machine: `GotoScreen(Login)`
/// dispatched while the session is authenticated never changes the current
/// screen and always appends the rejection prompt to the command line,
/// leaving the dirty flag alone; dispatched while unauthenticated it
/// always moves to `Login` and forces a redraw.
pub proof fn lemma_goto_login_guard(v: AppView, is_login: bool)
    requires
        v.command_queue.len() > 0,
        v.command_queue[0] == Command::GotoScreen(ScreenEnum::Login),
    ensures
        ({
            let (after, outcome) = spec_handle_event(v, None, is_login);
            &&& outcome is Continue
            &&& is_login ==> {
                &&& after.current_screen == v.current_screen
                &&& after.need_re_update_view == v.need_re_update_view
                &&& after.command_line.buffer == v.command_line.buffer
                    + spec_logout_first_message()
            }
            &&& !is_login ==> {
                &&& after.current_screen is Login
                &&& after.need_re_update_view == true
                &&& after.command_line == v.command_line
            }
        }),
{
}

/// An unmapped key in Normal mode enqueues exactly one `Nop` and changes
/// nothing else of the state; if the queue was empty, the whole tick —
/// the `Nop` being dequeued and dispatched at once — leaves the state
/// exactly as it was.
pub proof fn lemma_unmapped_key_nop(v: AppView, code: KeyCode, kind: KeyEventKind, is_login: bool)
    requires
        v.current_mode is Normal,
        !spec_key_is_mapped(code),
        !(kind is Release),
    ensures
        ({
            let w = spec_translate(v, Some(KeyEvent { kind, code }));
            &&& w.command_queue =~= v.command_queue.push(Command::Nop)
            &&& w.current_screen == v.current_screen
            &&& w.current_mode == v.current_mode
            &&& w.need_re_update_view == v.need_re_update_view
            &&& w.main_screen == v.main_screen
            &&& w.command_line == v.command_line
            &&& w.playback_label == v.playback_label
        }),
        v.command_queue.len() == 0 ==> {
            let (after, outcome) = spec_handle_event(v, Some(KeyEvent { kind, code }), is_login);
            &&& after =~= v
            &&& outcome is Continue
        },
{
    let w = spec_translate(v, Some(KeyEvent { kind, code }));
    assert(spec_keymap(code) is Nop);
    if v.command_queue.len() == 0 {
        let (after, outcome) = spec_handle_event(v, Some(KeyEvent { kind, code }), is_login);
        assert(after.command_queue =~= v.command_queue);
    }
}

/// Typing a sequence of keys while in CommandEntry mode: only the text
/// buffer moves.
pub open spec fn spec_type_keys(v: AppView, keys: Seq<KeyCode>) -> AppView
    decreases keys.len(),
{
    if keys.len() == 0 {
        v
    } else {
        spec_type_keys(
            spec_translate(v, Some(KeyEvent { kind: KeyEventKind::Press, code: keys[0] })),
            keys.drop_first(),
        )
    }
}

proof fn lemma_type_keys_stay_in_entry(v: AppView, keys: Seq<KeyCode>)
    requires
        v.current_mode is CommandEntry,
        forall|j: int|
            0 <= j < keys.len() ==> !(keys[j] is Enter) && !(keys[j] is Esc),
    ensures
        ({
            let w = spec_type_keys(v, keys);
            &&& w.current_mode is CommandEntry
            &&& w.current_screen == v.current_screen
            &&& w.need_re_update_view == v.need_re_update_view
            &&& w.command_queue == v.command_queue
            &&& w.main_screen == v.main_screen
            &&& w.playback_label == v.playback_label
            &&& w.command_line.prompt == v.command_line.prompt
            &&& w.command_line.cursor_visible == v.command_line.cursor_visible
        }),
    decreases keys.len(),
{
    if keys.len() > 0 {
        let v1 = spec_translate(v, Some(KeyEvent { kind: KeyEventKind::Press, code: keys[0] }));
        lemma_type_keys_stay_in_entry(v1, keys.drop_first());
    }
}

/// The command-entry round trip: dispatching `EnterCommand` enters
/// CommandEntry mode with an empty buffer and the `:` prompt; typing any
/// text (no Enter, no Esc), then pressing Esc, returns to Normal mode with
/// the buffer empty again and no command enqueued — the queue holds
/// exactly what it held after the `EnterCommand` left it.
pub proof fn lemma_command_entry_esc_roundtrip(
    v: AppView,
    keys: Seq<KeyCode>,
    is_login: bool,
)
    requires
        v.command_queue.len() > 0,
        v.command_queue[0] is EnterCommand,
        forall|j: int|
            0 <= j < keys.len() ==> !(keys[j] is Enter) && !(keys[j] is Esc),
    ensures
        ({
            let entered = spec_handle_event(v, None, is_login).0;
            let typed = spec_type_keys(entered, keys);
            let escaped = spec_translate(
                typed,
                Some(KeyEvent { kind: KeyEventKind::Press, code: KeyCode::Esc }),
            );
            &&& entered.current_mode is CommandEntry
            &&& entered.command_line.buffer =~= Seq::<char>::empty()
            &&& escaped.current_mode is Normal
            &&& escaped.command_line.buffer =~= Seq::<char>::empty()
            &&& escaped.command_queue =~= v.command_queue.drop_first()
            &&& escaped.current_screen == v.current_screen
            &&& escaped.need_re_update_view == v.need_re_update_view
        }),
{
    let entered = spec_handle_event(v, None, is_login).0;
    lemma_type_keys_stay_in_entry(entered, keys);
}

} // verus!
