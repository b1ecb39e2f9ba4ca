//! What holds of the dispatcher over whole sequences of activations.
//!
//! The functions here replay a sequence of keys through the transition
//! function of the dispatcher and collect what it answers. The proofs state
//! the guarantees that the application relies on.

use vstd::prelude::*;
use crate::dispatcher::{advance, react, ActionView, DispatcherState};
use crate::event::OutboundEvent;
use crate::menu::{menu_for, EntryView, ItemId};

verus! {

/// The state after the activations `keys`, delivered in order from `state`.
pub open spec fn run(state: DispatcherState, keys: Seq<Seq<char>>) -> DispatcherState
    decreases keys.len(),
{
    if keys.len() == 0 {
        state
    } else {
        advance(run(state, keys.drop_last()), keys.last())
    }
}

/// All actions that the activations `keys` call for, in order.
pub open spec fn replies(state: DispatcherState, keys: Seq<Seq<char>>) -> Seq<ActionView>
    decreases keys.len(),
{
    if keys.len() == 0 {
        seq![]
    } else {
        replies(state, keys.drop_last()) + react(run(state, keys.drop_last()), keys.last())
    }
}

/// The events among `actions`, in order.
pub open spec fn emitted(actions: Seq<ActionView>) -> Seq<OutboundEvent>
    decreases actions.len(),
{
    if actions.len() == 0 {
        seq![]
    } else {
        match actions.last() {
            ActionView::Emit(event) => emitted(actions.drop_last()).push(event),
            _ => emitted(actions.drop_last()),
        }
    }
}

/// The menu on the tray icon once `actions` are carried out, where `menu`
/// was on it before: the last menu that was installed.
pub open spec fn installed(menu: Seq<EntryView>, actions: Seq<ActionView>) -> Seq<EntryView>
    decreases actions.len(),
{
    if actions.len() == 0 {
        menu
    } else {
        match actions.last() {
            ActionView::InstallMenu(newer) => newer,
            _ => installed(menu, actions.drop_last()),
        }
    }
}

/// One more activation at the end of a sequence.
pub proof fn lemma_run_push(state: DispatcherState, keys: Seq<Seq<char>>, key: Seq<char>)
    ensures
        run(state, keys.push(key)) == advance(run(state, keys), key),
        replies(state, keys.push(key)) == replies(state, keys) + react(run(state, keys), key),
{
    assert(keys.push(key).drop_last() =~= keys);
}

/// One more action at the end of a list: an event is collected, anything
/// else is passed over.
pub proof fn lemma_emitted_push(actions: Seq<ActionView>, action: ActionView)
    ensures
        emitted(actions.push(action)) == match action {
            ActionView::Emit(event) => emitted(actions).push(event),
            _ => emitted(actions),
        },
{
    assert(actions.push(action).drop_last() =~= actions);
}

/// One more action at the end of a list: a menu replaces the one before,
/// anything else leaves it.
pub proof fn lemma_installed_push(menu: Seq<EntryView>, actions: Seq<ActionView>, action: ActionView)
    ensures
        installed(menu, actions.push(action)) == match action {
            ActionView::InstallMenu(newer) => newer,
            _ => installed(menu, actions),
        },
{
    assert(actions.push(action).drop_last() =~= actions);
}

/// Events are collected piece by piece.
pub proof fn lemma_emitted_concat(first: Seq<ActionView>, second: Seq<ActionView>)
    ensures
        emitted(first + second) == emitted(first) + emitted(second),
    decreases second.len(),
{
    if second.len() == 0 {
        assert(first + second =~= first);
        assert(emitted(first) + emitted(second) =~= emitted(first));
    } else {
        let fewer = second.drop_last();
        assert(first + second =~= (first + fewer).push(second.last()));
        assert(second =~= fewer.push(second.last()));
        lemma_emitted_concat(first, fewer);
        lemma_emitted_push(first + fewer, second.last());
        lemma_emitted_push(fewer, second.last());
        assert(emitted(first + second) =~= emitted(first) + emitted(second));
    }
}

/// Menus are installed one after the other.
pub proof fn lemma_installed_concat(
    menu: Seq<EntryView>,
    first: Seq<ActionView>,
    second: Seq<ActionView>,
)
    ensures
        installed(menu, first + second) == installed(installed(menu, first), second),
    decreases second.len(),
{
    if second.len() == 0 {
        assert(first + second =~= first);
    } else {
        let fewer = second.drop_last();
        assert(first + second =~= (first + fewer).push(second.last()));
        assert(second =~= fewer.push(second.last()));
        lemma_installed_concat(menu, first, fewer);
        lemma_installed_push(menu, first + fewer, second.last());
        lemma_installed_push(installed(menu, first), fewer, second.last());
    }
}

/// What one activation emits and what it leaves on the tray icon.
///
/// A change of the flag emits its event and installs the menu of the new
/// flag. `history` emits its event. Every other activation emits nothing,
/// and none but a change of the flag touches the menu.
pub proof fn lemma_effects_of_step(state: DispatcherState, key: Seq<char>, menu: Seq<EntryView>)
    ensures
        emitted(react(state, key)) == if state.finished {
            Seq::<OutboundEvent>::empty()
        } else {
            match ItemId::recognize(key) {
                Some(ItemId::Start) => if state.recording {
                    Seq::<OutboundEvent>::empty()
                } else {
                    seq![OutboundEvent::StartRecording]
                },
                Some(ItemId::Stop) => if state.recording {
                    seq![OutboundEvent::StopRecording]
                } else {
                    Seq::<OutboundEvent>::empty()
                },
                Some(ItemId::History) => seq![OutboundEvent::ShowHistory],
                Some(ItemId::Quit) => Seq::<OutboundEvent>::empty(),
                None => Seq::<OutboundEvent>::empty(),
            }
        },
        installed(menu, react(state, key)) == if advance(state, key).recording
            != state.recording {
            menu_for(advance(state, key).recording)
        } else {
            menu
        },
{
    let nothing = Seq::<ActionView>::empty();
    let actions = react(state, key);
    if actions.len() == 2 {
        let event = actions[0];
        let newer = actions[1];
        assert(actions =~= nothing.push(event).push(newer));
        lemma_emitted_push(nothing, event);
        lemma_emitted_push(nothing.push(event), newer);
        lemma_installed_push(menu, nothing.push(event), newer);
        assert(emitted(actions) =~= seq![event->Emit_0]);
    } else if actions.len() == 1 {
        let only = actions[0];
        assert(actions =~= nothing.push(only));
        lemma_emitted_push(nothing, only);
        lemma_installed_push(menu, nothing, only);
        if only is Emit {
            assert(emitted(actions) =~= seq![only->Emit_0]);
        }
    } else {
        assert(actions =~= nothing);
    }
}

/// Two activations in a row, spelled out.
pub proof fn lemma_run_two(state: DispatcherState, first: Seq<char>, second: Seq<char>)
    ensures
        run(state, seq![first, second]) == advance(advance(state, first), second),
        replies(state, seq![first, second]) == react(state, first) + react(
            advance(state, first),
            second,
        ),
{
    let none = Seq::<Seq<char>>::empty();
    assert(seq![first, second] =~= none.push(first).push(second));
    lemma_run_push(state, none, first);
    lemma_run_push(state, none.push(first), second);
    assert(replies(state, none) + react(state, first) =~= react(state, first));
}

/// In every state that a sequence of activations reaches, the menu on the
/// tray icon is the menu of the recording flag: its start item is enabled
/// exactly while the flag is `false`, its stop item exactly while the flag
/// is `true`.
pub proof fn menu_follows_flag(state: DispatcherState, keys: Seq<Seq<char>>)
    ensures
        ({
            let menu = installed(menu_for(state.recording), replies(state, keys));
            let flag = run(state, keys).recording;
            &&& menu == menu_for(flag)
            &&& menu[ItemId::Start.position()].enabled == !flag
            &&& menu[ItemId::Stop.position()].enabled == flag
        }),
    decreases keys.len(),
{
    if keys.len() > 0 {
        let earlier = keys.drop_last();
        let before = run(state, earlier);
        menu_follows_flag(state, earlier);
        lemma_installed_concat(
            menu_for(state.recording),
            replies(state, earlier),
            react(before, keys.last()),
        );
        lemma_effects_of_step(before, keys.last(), menu_for(before.recording));
    }
}

/// Of two `start` in a row only the first can count: after it the
/// dispatcher records, and the second changes nothing and calls for
/// nothing. From idle the two together emit `StartRecording` once.
pub proof fn second_start_is_ignored(state: DispatcherState)
    requires
        !state.finished,
    ensures
        ({
            let start = ItemId::Start.key();
            let once = advance(state, start);
            &&& once.recording
            &&& advance(once, start) == once
            &&& react(once, start) == Seq::<ActionView>::empty()
            &&& run(state, seq![start, start]) == once
            &&& !state.recording ==> emitted(replies(state, seq![start, start])) == seq![
                OutboundEvent::StartRecording,
            ]
        }),
{
    let start = ItemId::Start.key();
    ItemId::Start.lemma_key_round_trip();
    lemma_run_two(state, start, start);
    lemma_effects_of_step(state, start, menu_for(state.recording));
    assert(react(state, start) + react(advance(state, start), start) =~= react(state, start));
}

/// Of two `stop` in a row only the first can count: after it the
/// dispatcher is idle, and the second changes nothing and calls for
/// nothing. From recording the two together emit `StopRecording` once.
pub proof fn second_stop_is_ignored(state: DispatcherState)
    requires
        !state.finished,
    ensures
        ({
            let stop = ItemId::Stop.key();
            let once = advance(state, stop);
            &&& !once.recording
            &&& advance(once, stop) == once
            &&& react(once, stop) == Seq::<ActionView>::empty()
            &&& run(state, seq![stop, stop]) == once
            &&& state.recording ==> emitted(replies(state, seq![stop, stop])) == seq![
                OutboundEvent::StopRecording,
            ]
        }),
{
    let stop = ItemId::Stop.key();
    ItemId::Stop.lemma_key_round_trip();
    lemma_run_two(state, stop, stop);
    lemma_effects_of_step(state, stop, menu_for(state.recording));
    assert(react(state, stop) + react(advance(state, stop), stop) =~= react(state, stop));
}

/// `start` and then `stop` lead from idle back to idle, and whatever menu
/// was on the tray icon before, the one on it now is the menu that the
/// process started with. The two emit their events once each, in order.
pub proof fn start_then_stop_restores(state: DispatcherState, menu: Seq<EntryView>)
    requires
        !state.finished,
        !state.recording,
    ensures
        ({
            let keys = seq![ItemId::Start.key(), ItemId::Stop.key()];
            &&& run(state, keys) == state
            &&& installed(menu, replies(state, keys)) == menu_for(
                DispatcherState::initial().recording,
            )
            &&& emitted(replies(state, keys)) == seq![
                OutboundEvent::StartRecording,
                OutboundEvent::StopRecording,
            ]
        }),
{
    let start = ItemId::Start.key();
    let stop = ItemId::Stop.key();
    ItemId::Start.lemma_key_round_trip();
    ItemId::Stop.lemma_key_round_trip();
    lemma_run_two(state, start, stop);
    let first = react(state, start);
    let second = react(advance(state, start), stop);
    lemma_effects_of_step(state, start, menu);
    lemma_effects_of_step(advance(state, start), stop, installed(menu, first));
    lemma_emitted_concat(first, second);
    lemma_installed_concat(menu, first, second);
    assert(emitted(first) + emitted(second) =~= seq![
        OutboundEvent::StartRecording,
        OutboundEvent::StopRecording,
    ]);
}

/// `history` leaves the state as it is, idle or recording, and emits
/// `ShowHistory` once and nothing else.
pub proof fn history_keeps_state(state: DispatcherState)
    requires
        !state.finished,
    ensures
        ({
            let history = ItemId::History.key();
            &&& advance(state, history) == state
            &&& react(state, history) == seq![ActionView::Emit(OutboundEvent::ShowHistory)]
            &&& emitted(react(state, history)) == seq![OutboundEvent::ShowHistory]
        }),
{
    let history = ItemId::History.key();
    ItemId::History.lemma_key_round_trip();
    lemma_effects_of_step(state, history, menu_for(state.recording));
}

/// Once the end of the process is asked for, no activation changes the
/// state or calls for an action.
pub proof fn finished_is_final(state: DispatcherState, keys: Seq<Seq<char>>)
    requires
        state.finished,
    ensures
        run(state, keys) == state,
        replies(state, keys) == Seq::<ActionView>::empty(),
    decreases keys.len(),
{
    if keys.len() > 0 {
        finished_is_final(state, keys.drop_last());
    }
}

/// `quit` asks for the end of the process with exit code 0, and after it
/// nothing happens any more: no transition, no event, no new menu.
pub proof fn quit_is_terminal(state: DispatcherState, keys: Seq<Seq<char>>)
    requires
        !state.finished,
    ensures
        ({
            let quit = ItemId::Quit.key();
            let after = advance(state, quit);
            &&& react(state, quit) == seq![ActionView::Exit(0)]
            &&& after.finished
            &&& after.recording == state.recording
            &&& run(after, keys) == after
            &&& replies(after, keys) == Seq::<ActionView>::empty()
            &&& emitted(replies(after, keys)) == Seq::<OutboundEvent>::empty()
            &&& forall|menu: Seq<EntryView>| installed(menu, replies(after, keys)) == menu
        }),
{
    let quit = ItemId::Quit.key();
    ItemId::Quit.lemma_key_round_trip();
    finished_is_final(advance(state, quit), keys);
}

} // verus!
