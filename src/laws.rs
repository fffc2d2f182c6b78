use vstd::prelude::*;

use crate::bridge::{reactions, Emitted, ReactionView, ShellEvent, WindowEvent};

verus! {

/// Whether an optional event is an `open-file` event.
pub open spec fn is_open_file(o: Option<Emitted>) -> bool {
    match o {
        Some(Emitted::OpenFile(_)) => true,
        _ => false,
    }
}

/// How many answers send an `open-file` event.
pub open spec fn count_open_file(rs: Seq<ReactionView>) -> nat
    decreases rs.len(),
{
    if rs.len() == 0 {
        0
    } else {
        count_open_file(rs.drop_last()) + if is_open_file(rs.last().emit) {
            1nat
        } else {
            0nat
        }
    }
}

/// How many answers send an `app-close-requested` event.
pub open spec fn count_close_notices(rs: Seq<ReactionView>) -> nat
    decreases rs.len(),
{
    if rs.len() == 0 {
        0
    } else {
        count_close_notices(rs.drop_last()) + if rs.last().emit == Some(Emitted::AppCloseRequested) {
            1nat
        } else {
            0nat
        }
    }
}

/// How many readiness signals arrive while the main window exists.
pub open spec fn count_ready_with_window(events: Seq<ShellEvent>) -> nat
    decreases events.len(),
{
    if events.len() == 0 {
        0
    } else {
        count_ready_with_window(events.drop_last()) + if events.last()
            == (ShellEvent::FrontendReady { main_window_present: true }) {
            1nat
        } else {
            0nat
        }
    }
}

/// How many close requests arrive.
pub open spec fn count_close_requests(events: Seq<ShellEvent>) -> nat
    decreases events.len(),
{
    if events.len() == 0 {
        0
    } else {
        count_close_requests(events.drop_last()) + if events.last() == ShellEvent::Window(
            WindowEvent::CloseRequested,
        ) {
            1nat
        } else {
            0nat
        }
    }
}

/// How many close requests the shell lets proceed to the native close.
pub open spec fn count_closes_let_through(path: Option<Seq<char>>, events: Seq<ShellEvent>) -> nat
    decreases events.len(),
{
    if events.len() == 0 {
        0
    } else {
        count_closes_let_through(path, events.drop_last()) + if events.last() == ShellEvent::Window(
            WindowEvent::CloseRequested,
        ) && !reactions(path, events).last().prevent_close {
            1nat
        } else {
            0nat
        }
    }
}

proof fn lemma_reactions_drop_last(path: Option<Seq<char>>, events: Seq<ShellEvent>)
    requires
        events.len() > 0,
    ensures
        reactions(path, events).drop_last() == reactions(path, events.drop_last()),
{
    assert(reactions(path, events).drop_last() =~= reactions(path, events.drop_last()));
}

/// Over any sequence of events, the shell sends one `open-file` event for
/// each readiness signal that finds the main window, when a file path was
/// captured, and none at all otherwise; each one carries the captured path.
pub proof fn lemma_open_file_count(path: Option<Seq<char>>, events: Seq<ShellEvent>)
    ensures
        count_open_file(reactions(path, events)) == if path is Some {
            count_ready_with_window(events)
        } else {
            0
        },
        forall|i: int|
            0 <= i < events.len() && #[trigger] is_open_file(reactions(path, events)[i].emit)
                ==> path is Some && reactions(path, events)[i].emit == Some(
                Emitted::OpenFile(path->0),
            ),
    decreases events.len(),
{
    if events.len() > 0 {
        lemma_reactions_drop_last(path, events);
        lemma_open_file_count(path, events.drop_last());
    }
}

/// Without a captured file path, no sequence of events makes the shell send
/// an `open-file` event.
pub proof fn lemma_no_open_file_without_path(events: Seq<ShellEvent>)
    ensures
        count_open_file(reactions(None, events)) == 0,
{
    lemma_open_file_count(None, events);
}

/// With a captured file path, one readiness signal sends exactly one
/// `open-file` event carrying that path when the main window exists, and
/// none when it does not.
pub proof fn lemma_open_file_exactly_once(path: Seq<char>, main_window_present: bool)
    ensures
        ({
            let rs = reactions(
                Some(path),
                seq![ShellEvent::FrontendReady { main_window_present }],
            );
            &&& count_open_file(rs) == if main_window_present {
                1nat
            } else {
                0nat
            }
            &&& main_window_present ==> rs[0].emit == Some(Emitted::OpenFile(path))
        }),
{
    let events = seq![ShellEvent::FrontendReady { main_window_present }];
    let rs = reactions(Some(path), events);
    lemma_open_file_count(Some(path), events);
    assert(events.drop_last() =~= Seq::<ShellEvent>::empty());
    assert(count_ready_with_window(events.drop_last()) == 0);
    assert(events.last() == ShellEvent::FrontendReady { main_window_present });
    assert(count_ready_with_window(events) == if main_window_present {
        1nat
    } else {
        0nat
    });
    assert(rs[0] == crate::bridge::reaction(Some(path), events[0]));
}

/// Readiness is not deduplicated: two readiness signals with a captured
/// file path and the main window present send two `open-file` events, both
/// carrying the path.
pub proof fn lemma_ready_twice_emits_twice(path: Seq<char>)
    ensures
        ({
            let rs = reactions(
                Some(path),
                seq![
                    ShellEvent::FrontendReady { main_window_present: true },
                    ShellEvent::FrontendReady { main_window_present: true },
                ],
            );
            &&& count_open_file(rs) == 2
            &&& rs[0].emit == Some(Emitted::OpenFile(path))
            &&& rs[1].emit == Some(Emitted::OpenFile(path))
        }),
{
    let ready = ShellEvent::FrontendReady { main_window_present: true };
    let events = seq![ready, ready];
    lemma_open_file_count(Some(path), events);
    assert(events.drop_last() =~= seq![ready]);
    assert(events.drop_last().drop_last() =~= Seq::<ShellEvent>::empty());
    assert(count_ready_with_window(events.drop_last().drop_last()) == 0);
    assert(events.drop_last().last() == ready);
    assert(events.last() == ready);
    assert(count_ready_with_window(events.drop_last()) == 1);
    assert(count_ready_with_window(events) == 2);
    let rs = reactions(Some(path), events);
    assert(rs[0] == crate::bridge::reaction(Some(path), events[0]));
    assert(rs[1] == crate::bridge::reaction(Some(path), events[1]));
}

/// Every close request is vetoed and answered by exactly one
/// `app-close-requested` event: over any sequence of events, there are as
/// many such events as close requests.
pub proof fn lemma_close_always_intercepted(path: Option<Seq<char>>, events: Seq<ShellEvent>)
    ensures
        forall|i: int|
            0 <= i < events.len() && #[trigger] events[i] == ShellEvent::Window(
                WindowEvent::CloseRequested,
            ) ==> reactions(path, events)[i].prevent_close && reactions(path, events)[i].emit
                == Some(Emitted::AppCloseRequested),
        count_close_notices(reactions(path, events)) == count_close_requests(events),
    decreases events.len(),
{
    if events.len() > 0 {
        lemma_reactions_drop_last(path, events);
        lemma_close_always_intercepted(path, events.drop_last());
    }
}

/// No sequence of events makes the shell let a close request proceed: the
/// window closes only when the frontend ends the process itself.
pub proof fn lemma_no_uncontrolled_close(path: Option<Seq<char>>, events: Seq<ShellEvent>)
    ensures
        count_closes_let_through(path, events) == 0,
    decreases events.len(),
{
    if events.len() > 0 {
        lemma_no_uncontrolled_close(path, events.drop_last());
    }
}

} // verus!
