//! What holds of a menu over whole runs of events.

use vstd::prelude::*;
use crate::layout::has_control;
use crate::menu::Event;
use crate::menu::Model;
use crate::menu::Next;
use crate::menu::Phase;
use crate::menu::Reaction;

verus! {

/// A run: events in the order of their arrival, each with its time.
pub type Run = Seq<(u64, Event)>;

/// The menu after a run.
pub open spec fn after(menu: Model, run: Run) -> Model
    decreases run.len(),
{
    if run.len() == 0 {
        menu
    } else {
        after(menu, run.drop_last()).next(run.last().0, run.last().1).0
    }
}

/// The answers to the events of a run, in order.
pub open spec fn answers(menu: Model, run: Run) -> Seq<Reaction>
    decreases run.len(),
{
    if run.len() == 0 {
        Seq::empty()
    } else {
        answers(menu, run.drop_last()).push(
            after(menu, run.drop_last()).next(run.last().0, run.last().1).1,
        )
    }
}

/// How many of the answers ask for the controls to be taken off the message.
pub open spec fn teardowns(answers: Seq<Reaction>) -> nat
    decreases answers.len(),
{
    if answers.len() == 0 {
        0
    } else {
        teardowns(answers.drop_last()) + if answers.last().next is Teardown {
            1nat
        } else {
            0nat
        }
    }
}

/// Whether an event is a use of one of the menu's current controls.
pub open spec fn qualifies(menu: Model, event: Event) -> bool {
    event matches Event::Interaction(i) && menu.message == Some(i.message_id) && has_control(
        menu.rows,
        i.component_id@,
    )
}

/// Every event of a run gets one answer, and the answer to the event at
/// `at` is the one the menu gives after the events before it.
pub proof fn lemma_answer_at(menu: Model, run: Run, at: int)
    requires
        0 <= at < run.len(),
    ensures
        answers(menu, run).len() == run.len(),
        answers(menu, run)[at] == after(menu, run.take(at)).next(run[at].0, run[at].1).1,
    decreases run.len(),
{
    lemma_answers_len(menu, run);
    let front = run.drop_last();
    if at == run.len() - 1 {
        assert(run.take(at) =~= front);
    } else {
        lemma_answer_at(menu, front, at);
        assert(front.take(at) =~= run.take(at));
    }
}

/// Every event of a run gets one answer.
pub proof fn lemma_answers_len(menu: Model, run: Run)
    ensures
        answers(menu, run).len() == run.len(),
    decreases run.len(),
{
    if run.len() > 0 {
        lemma_answers_len(menu, run.drop_last());
    }
}

/// What holds of every menu holds of a new one, and goes on holding
/// whatever arrives.
pub proof fn lemma_well_formed_throughout(menu: Model, run: Run)
    requires
        menu.well_formed(),
    ensures
        after(menu, run).well_formed(),
    decreases run.len(),
{
    if run.len() > 0 {
        lemma_well_formed_throughout(menu, run.drop_last());
    }
}

/// A menu that has ended stays as it is, whatever arrives.
pub proof fn lemma_end_is_final(menu: Model, run: Run)
    requires
        menu.phase.is_final(),
    ensures
        after(menu, run) == menu,
    decreases run.len(),
{
    if run.len() > 0 {
        lemma_end_is_final(menu, run.drop_last());
    }
}

proof fn lemma_busy_until_finished(menu: Model, run: Run, first: int, upto: int)
    requires
        0 <= first < upto <= run.len(),
        answers(menu, run)[first].next is Dispatch,
        forall|k: int| first < k < upto ==> !(run[k].1 is Finished),
    ensures
        after(menu, run.take(upto)).handling() || after(menu, run.take(upto)).phase.is_final(),
    decreases upto - first,
{
    let prefix = run.take(upto);
    assert(prefix.drop_last() =~= run.take(upto - 1));
    assert(prefix.last() == run[upto - 1]);
    if upto == first + 1 {
        lemma_answer_at(menu, run, first);
    } else {
        lemma_busy_until_finished(menu, run, first, upto - 1);
    }
}

/// At most one handler is at work at a time: between two events that each
/// start a handler, the first handler's return has arrived.
pub proof fn lemma_one_handler_at_a_time(menu: Model, run: Run, first: int, second: int)
    requires
        0 <= first < second < run.len(),
        answers(menu, run)[first].next is Dispatch,
        answers(menu, run)[second].next is Dispatch,
    ensures
        exists|k: int| first < k < second && run[k].1 is Finished,
{
    if forall|k: int| first < k < second ==> !(run[k].1 is Finished) {
        lemma_busy_until_finished(menu, run, first, second);
        lemma_answer_at(menu, run, second);
    }
}

/// The controls are taken off the message once when the menu ends by
/// timeout or on request, and never otherwise.
pub proof fn lemma_teardown_exactly_once(menu: Model, run: Run)
    ensures
        teardowns(answers(menu, run)) == (if !menu.phase.is_final() && (after(menu, run).phase
            is TimedOut || after(menu, run).phase is Closed) {
            1nat
        } else {
            0nat
        }),
    decreases run.len(),
{
    if run.len() > 0 {
        let front = run.drop_last();
        lemma_teardown_exactly_once(menu, front);
        assert(answers(menu, run).drop_last() =~= answers(menu, front));
        if menu.phase.is_final() {
            lemma_end_is_final(menu, front);
        }
    }
}

/// A menu that waits, and to which nothing arrives but what does not
/// qualify, ends by timeout with the first event that arrives after the idle
/// window has run out, and takes its controls off once.
pub proof fn lemma_idle_menu_times_out(menu: Model, run: Run, late: int)
    requires
        menu.phase is Active,
        menu.running is None,
        forall|k: int|
            0 <= k < run.len() ==> !(#[trigger] run[k].1 is Lost) && !(run[k].1 is Close)
                && !qualifies(menu, run[k].1),
        0 <= late < run.len(),
        menu.expired(run[late].0),
    ensures
        after(menu, run) == menu.ended(Phase::TimedOut),
        teardowns(answers(menu, run)) == 1,
{
    lemma_stays_or_times_out(menu, run);
    lemma_teardown_exactly_once(menu, run);
}

proof fn lemma_stays_or_times_out(menu: Model, run: Run)
    requires
        menu.phase is Active,
        menu.running is None,
        forall|k: int|
            0 <= k < run.len() ==> !(#[trigger] run[k].1 is Lost) && !(run[k].1 is Close)
                && !qualifies(menu, run[k].1),
    ensures
        after(menu, run) == (if exists|k: int| 0 <= k < run.len() && menu.expired(run[k].0) {
            menu.ended(Phase::TimedOut)
        } else {
            menu
        }),
    decreases run.len(),
{
    if run.len() > 0 {
        let front = run.drop_last();
        let last = run.len() - 1;
        lemma_stays_or_times_out(menu, front);
        assert(run[last] == run.last());
        assert(!(run[last].1 is Lost));
        if exists|k: int| 0 <= k < front.len() && menu.expired(front[k].0) {
            let k = choose|k: int| 0 <= k < front.len() && menu.expired(front[k].0);
            assert(menu.expired(run[k].0));
        } else if menu.expired(run[last].0) {
        } else {
            assert forall|k: int| 0 <= k < run.len() implies !menu.expired(run[k].0) by {
                if k < front.len() {
                    assert(front[k] == run[k]);
                }
            }
        }
    }
}

/// An interaction that names no control of the current layout starts no
/// handler and leaves the menu as it is, unless the idle window had already
/// run out when it arrived.
pub proof fn lemma_unknown_control_is_ignored(menu: Model, now: u64, event: Event)
    requires
        event matches Event::Interaction(i) && !has_control(menu.rows, i.component_id@),
    ensures
        !(menu.next(now, event).1.next is Dispatch),
        menu.next(now, event).0 == menu || (menu.phase is Active && menu.running is None
            && menu.expired(now) && menu.next(now, event).0 == menu.ended(Phase::TimedOut)),
{
}

/// A handler is started only for a use of a control that the current layout
/// holds, on the menu's own message, while the menu waits; the handler
/// started is the one of the control that the event names.
pub proof fn lemma_dispatch_is_routed(menu: Model, now: u64, event: Event)
    requires
        menu.next(now, event).1.next is Dispatch,
    ensures
        menu.phase is Active,
        menu.running is None,
        !menu.expired(now),
        qualifies(menu, event),
        event matches Event::Interaction(i) && menu.next(now, event).1.next == Next::Dispatch(
            crate::layout::position_of(menu.rows, i.component_id@).unwrap(),
        ) && menu.next(now, event).0.running == crate::layout::position_of(
            menu.rows,
            i.component_id@,
        ),
{
}

} // verus!
