use ayame::error::Error;
use ayame::error::Report;
use ayame::layout::Control;
use ayame::layout::Layout;
use ayame::layout::Position;
use ayame::menu::Event;
use ayame::menu::Interaction;
use ayame::menu::Menu;
use ayame::menu::Next;
use ayame::menu::Phase;
use ayame::menu::Reaction;

const MESSAGE: u64 = 4711;
const WINDOW: u64 = 100;

fn two_buttons() -> Layout {
    Layout::new()
        .add_row(vec![Control::button("first", "1")])
        .unwrap()
        .add_row(vec![Control::button("second", "2")])
        .unwrap()
}

fn waiting_menu() -> Menu<u32> {
    let mut menu = Menu::new(0, two_buttons(), WINDOW);
    menu.step(1000, &Event::Sent { message_id: MESSAGE });
    menu
}

fn busy_menu() -> Menu<u32> {
    let mut menu = waiting_menu();
    menu.step(1010, &click(MESSAGE, "first"));
    menu
}

fn click(message_id: u64, component_id: &str) -> Event {
    Event::Interaction(Interaction {
        message_id,
        component_id: String::from(component_id),
        values: Vec::new(),
        actor: 1,
    })
}

fn silent(next: Next) -> Reaction {
    Reaction { report: Report::Silent, next }
}

fn every_event() -> Vec<Event> {
    vec![
        Event::Sent { message_id: MESSAGE },
        Event::SendFailed,
        click(MESSAGE, "first"),
        click(MESSAGE, "nowhere"),
        Event::Tick,
        Event::Close,
        Event::Finished(Ok(())),
        Event::Finished(Err(Error::platform("gone"))),
        Event::Lost,
    ]
}

#[test]
fn new_menu_has_sent_nothing() {
    let menu = Menu::new(7u32, two_buttons(), WINDOW);
    assert_eq!(menu.phase(), Phase::Initialized);
    assert_eq!(menu.message(), None);
    assert_eq!(menu.running(), None);
    assert_eq!(*menu.state(), 7);
    assert_eq!(menu.layout().len(), 2);
}

#[test]
fn sent_message_makes_the_menu_active() {
    let mut menu = Menu::new(0u32, two_buttons(), WINDOW);
    let reaction = menu.step(1000, &Event::Sent { message_id: MESSAGE });
    assert_eq!(reaction, silent(Next::Wait));
    assert_eq!(menu.phase(), Phase::Active);
    assert_eq!(menu.message(), Some(MESSAGE));
}

#[test]
fn failed_send_ends_the_menu_without_teardown() {
    let mut menu = Menu::new(0u32, two_buttons(), WINDOW);
    let reaction = menu.step(1000, &Event::SendFailed);
    assert_eq!(reaction, Reaction { report: Report::Log, next: Next::Stop });
    assert_eq!(menu.phase(), Phase::Failed);
    assert_eq!(menu.message(), None);
}

#[test]
fn unsent_menu_ignores_everything_else() {
    for event in vec![click(MESSAGE, "first"), Event::Tick, Event::Close, Event::Lost, Event::Finished(Ok(()))] {
        let mut menu = Menu::new(0u32, two_buttons(), WINDOW);
        assert_eq!(menu.step(5000, &event), silent(Next::Ignore));
        assert_eq!(menu.phase(), Phase::Initialized);
    }
}

#[test]
fn interaction_is_routed_to_its_control() {
    let mut menu = waiting_menu();
    let reaction = menu.step(1010, &click(MESSAGE, "second"));
    assert_eq!(reaction, silent(Next::Dispatch(Position { row: 1, column: 0 })));
    assert_eq!(menu.running(), Some(Position { row: 1, column: 0 }));
    assert_eq!(menu.phase(), Phase::Active);
}

#[test]
fn unknown_identifier_is_ignored_and_logged() {
    let mut menu = waiting_menu();
    let reaction = menu.step(1010, &click(MESSAGE, "third"));
    assert_eq!(reaction, Reaction { report: Report::Log, next: Next::Ignore });
    assert_eq!(menu.phase(), Phase::Active);
    assert_eq!(menu.running(), None);
    assert_eq!(*menu.state(), 0);
    assert!(menu.state_mut().is_none());
    assert!(!menu.is_expired(1099));
    assert!(menu.is_expired(1100));
}

#[test]
fn unknown_identifier_never_ends_the_menu() {
    let mut menu = waiting_menu();
    for _ in 0..10 {
        let reaction = menu.step(1010, &click(MESSAGE, "third"));
        assert_eq!(reaction, Reaction { report: Report::Log, next: Next::Ignore });
    }
    assert_eq!(menu.phase(), Phase::Active);
    assert_eq!(
        menu.step(1020, &click(MESSAGE, "first")),
        silent(Next::Dispatch(Position { row: 0, column: 0 }))
    );
}

#[test]
fn interaction_on_another_message_is_ignored() {
    let mut menu = waiting_menu();
    let reaction = menu.step(1010, &click(MESSAGE + 1, "first"));
    assert_eq!(reaction, silent(Next::Ignore));
    assert_eq!(menu.running(), None);
}

#[test]
fn second_interaction_waits_for_no_handler() {
    let mut menu = busy_menu();
    assert_eq!(menu.running(), Some(Position { row: 0, column: 0 }));
    assert_eq!(menu.step(1011, &click(MESSAGE, "second")), silent(Next::Ignore));
    assert_eq!(menu.step(1012, &click(MESSAGE, "first")), silent(Next::Ignore));
    assert_eq!(menu.running(), Some(Position { row: 0, column: 0 }));
    assert_eq!(menu.step(1013, &Event::Finished(Ok(()))), silent(Next::Wait));
    assert_eq!(menu.running(), None);
    assert_eq!(
        menu.step(1014, &click(MESSAGE, "second")),
        silent(Next::Dispatch(Position { row: 1, column: 0 }))
    );
}

#[test]
fn state_is_handed_out_only_to_a_handler() {
    let mut menu = Menu::new(1u32, two_buttons(), WINDOW);
    assert!(menu.state_mut().is_none());
    menu.step(1000, &Event::Sent { message_id: MESSAGE });
    assert!(menu.state_mut().is_none());
    menu.step(1010, &click(MESSAGE, "first"));
    *menu.state_mut().unwrap() = 2;
    assert_eq!(*menu.state(), 2);
    menu.step(1020, &Event::Finished(Ok(())));
    assert!(menu.state_mut().is_none());
    assert_eq!(*menu.state(), 2);
    menu.step(1030, &Event::Close);
    assert!(menu.state_mut().is_none());
    assert_eq!(*menu.state(), 2);
}

#[test]
fn step_never_touches_the_state() {
    for event in every_event() {
        let mut menu = waiting_menu();
        menu.step(1010, &event);
        assert_eq!(*menu.state(), 0);
        let mut menu = busy_menu();
        *menu.state_mut().unwrap() = 9;
        menu.step(1020, &event);
        assert_eq!(*menu.state(), 9);
    }
}

#[test]
fn redraw_outside_a_handler_is_turned_down() {
    let mut menu = waiting_menu();
    let result = menu.redraw(Layout::new());
    assert_eq!(result, Err(Error::internal("redraw outside a handler")));
    assert_eq!(menu.layout().len(), 2);
    let mut menu = Menu::new(0u32, two_buttons(), WINDOW);
    assert_eq!(menu.redraw(Layout::new()), Err(Error::internal("redraw outside a handler")));
}

#[test]
fn redraw_changes_what_events_are_routed_by() {
    let mut menu = busy_menu();
    let fresh = Layout::new().add_row(vec![Control::button("third", "3")]).unwrap();
    assert_eq!(menu.redraw(fresh), Ok(()));
    assert_eq!(menu.layout().len(), 1);
    menu.step(1020, &Event::Finished(Ok(())));
    assert_eq!(
        menu.step(1030, &click(MESSAGE, "first")),
        Reaction { report: Report::Log, next: Next::Ignore }
    );
    assert_eq!(
        menu.step(1040, &click(MESSAGE, "third")),
        silent(Next::Dispatch(Position { row: 0, column: 0 }))
    );
}

#[test]
fn tick_within_the_window_goes_on_waiting() {
    let mut menu = waiting_menu();
    assert_eq!(menu.step(1000, &Event::Tick), silent(Next::Wait));
    assert_eq!(menu.step(1099, &Event::Tick), silent(Next::Wait));
    assert_eq!(menu.phase(), Phase::Active);
}

#[test]
fn clock_running_backwards_counts_as_no_time() {
    let mut menu = waiting_menu();
    assert!(!menu.is_expired(0));
    assert_eq!(menu.step(0, &Event::Tick), silent(Next::Wait));
    assert_eq!(menu.phase(), Phase::Active);
}

#[test]
fn idle_menu_times_out_and_tears_down_once() {
    let mut menu = waiting_menu();
    assert_eq!(menu.step(1050, &Event::Tick), silent(Next::Wait));
    assert_eq!(menu.step(1100, &Event::Tick), silent(Next::Teardown));
    assert_eq!(menu.phase(), Phase::TimedOut);
    for event in every_event() {
        assert_eq!(menu.step(1200, &event), silent(Next::Stop));
        assert_eq!(menu.phase(), Phase::TimedOut);
    }
}

#[test]
fn interaction_after_the_window_loses_to_the_timeout() {
    let mut menu = waiting_menu();
    assert_eq!(menu.step(1100, &click(MESSAGE, "first")), silent(Next::Teardown));
    assert_eq!(menu.phase(), Phase::TimedOut);
    assert_eq!(menu.running(), None);
    assert_eq!(menu.step(1101, &click(MESSAGE, "first")), silent(Next::Stop));
}

#[test]
fn zero_window_times_out_at_once() {
    let mut menu = Menu::new(0u32, two_buttons(), 0);
    menu.step(1000, &Event::Sent { message_id: MESSAGE });
    assert_eq!(menu.step(1000, &click(MESSAGE, "first")), silent(Next::Teardown));
    assert_eq!(menu.phase(), Phase::TimedOut);
}

#[test]
fn window_starts_anew_when_a_handler_returns() {
    let mut menu = waiting_menu();
    menu.step(1090, &click(MESSAGE, "first"));
    assert_eq!(menu.step(5000, &Event::Tick), silent(Next::Wait));
    assert_eq!(menu.step(5000, &Event::Finished(Ok(()))), silent(Next::Wait));
    assert_eq!(menu.step(5099, &Event::Tick), silent(Next::Wait));
    assert_eq!(menu.step(5100, &Event::Tick), silent(Next::Teardown));
    assert_eq!(menu.phase(), Phase::TimedOut);
}

#[test]
fn close_tears_down_once() {
    let mut menu = waiting_menu();
    assert_eq!(menu.step(1010, &Event::Close), silent(Next::Teardown));
    assert_eq!(menu.phase(), Phase::Closed);
    for event in every_event() {
        assert_eq!(menu.step(1020, &event), silent(Next::Stop));
        assert_eq!(menu.phase(), Phase::Closed);
    }
}

#[test]
fn close_lets_a_running_handler_finish() {
    let mut menu = busy_menu();
    assert_eq!(menu.step(1020, &Event::Close), silent(Next::Wait));
    assert_eq!(menu.phase(), Phase::Active);
    assert_eq!(menu.running(), Some(Position { row: 0, column: 0 }));
    *menu.state_mut().unwrap() = 5;
    assert_eq!(menu.step(1030, &Event::Finished(Ok(()))), silent(Next::Teardown));
    assert_eq!(menu.phase(), Phase::Closed);
    assert_eq!(*menu.state(), 5);
}

#[test]
fn close_after_a_failing_handler_still_reports_the_failure() {
    let mut menu = busy_menu();
    menu.step(1020, &Event::Close);
    let reaction = menu.step(1030, &Event::Finished(Err(Error::upstream("down"))));
    assert_eq!(reaction, Reaction { report: Report::ShowNotice, next: Next::Teardown });
    assert_eq!(menu.phase(), Phase::Closed);
}

#[test]
fn lost_message_ends_the_menu_without_teardown() {
    let mut menu = waiting_menu();
    assert_eq!(menu.step(1010, &Event::Lost), Reaction { report: Report::Log, next: Next::Stop });
    assert_eq!(menu.phase(), Phase::Failed);
    let mut menu = busy_menu();
    assert_eq!(menu.step(1020, &Event::Lost), Reaction { report: Report::Log, next: Next::Stop });
    assert_eq!(menu.phase(), Phase::Failed);
    assert_eq!(menu.running(), None);
    for event in every_event() {
        assert_eq!(menu.step(1030, &event), silent(Next::Stop));
        assert_eq!(menu.phase(), Phase::Failed);
    }
}

#[test]
fn lost_message_counts_even_after_the_window() {
    let mut menu = waiting_menu();
    assert_eq!(menu.step(9999, &Event::Lost), Reaction { report: Report::Log, next: Next::Stop });
    assert_eq!(menu.phase(), Phase::Failed);
}

#[test]
fn input_error_is_told_and_the_menu_goes_on() {
    let mut menu = busy_menu();
    let reaction = menu.step(1020, &Event::Finished(Err(Error::input("no such place"))));
    assert_eq!(reaction, Reaction { report: Report::TellUser, next: Next::Wait });
    assert_eq!(menu.phase(), Phase::Active);
    assert_eq!(menu.running(), None);
}

#[test]
fn upstream_error_shows_a_notice_and_the_menu_goes_on() {
    let mut menu = busy_menu();
    let reaction = menu.step(1020, &Event::Finished(Err(Error::upstream("fetch failed"))));
    assert_eq!(reaction, Reaction { report: Report::ShowNotice, next: Next::Wait });
    assert_eq!(menu.phase(), Phase::Active);
    assert_eq!(
        menu.step(1030, &click(MESSAGE, "second")),
        silent(Next::Dispatch(Position { row: 1, column: 0 }))
    );
    assert_eq!(menu.step(1040, &Event::Finished(Ok(()))), silent(Next::Wait));
    assert_eq!(menu.phase(), Phase::Active);
}

#[test]
fn platform_error_fails_the_menu_without_teardown() {
    let mut menu = busy_menu();
    let reaction = menu.step(1020, &Event::Finished(Err(Error::platform("message deleted"))));
    assert_eq!(reaction, Reaction { report: Report::Log, next: Next::Stop });
    assert_eq!(menu.phase(), Phase::Failed);
    assert_eq!(menu.step(1030, &click(MESSAGE, "first")), silent(Next::Stop));
}

#[test]
fn internal_error_closes_the_menu_when_it_recurs() {
    let mut menu = busy_menu();
    let reaction = menu.step(1020, &Event::Finished(Err(Error::internal("bad spec"))));
    assert_eq!(reaction, Reaction { report: Report::Log, next: Next::Wait });
    assert_eq!(menu.phase(), Phase::Active);
    menu.step(1030, &click(MESSAGE, "first"));
    assert_eq!(menu.step(1040, &Event::Finished(Ok(()))), silent(Next::Wait));
    menu.step(1050, &click(MESSAGE, "second"));
    let reaction = menu.step(1060, &Event::Finished(Err(Error::internal("bad spec again"))));
    assert_eq!(reaction, Reaction { report: Report::Log, next: Next::Teardown });
    assert_eq!(menu.phase(), Phase::Closed);
}

#[test]
fn return_of_no_handler_is_ignored() {
    let mut menu = waiting_menu();
    assert_eq!(menu.step(1010, &Event::Finished(Ok(()))), silent(Next::Ignore));
    assert_eq!(
        menu.step(1010, &Event::Finished(Err(Error::platform("gone")))),
        silent(Next::Ignore)
    );
    assert_eq!(menu.phase(), Phase::Active);
}

#[test]
fn second_send_report_is_ignored() {
    let mut menu = waiting_menu();
    assert_eq!(menu.step(1010, &Event::Sent { message_id: 1 }), silent(Next::Ignore));
    assert_eq!(menu.step(1010, &Event::SendFailed), silent(Next::Ignore));
    assert_eq!(menu.message(), Some(MESSAGE));
    let mut menu = busy_menu();
    assert_eq!(menu.step(1020, &Event::Sent { message_id: 1 }), silent(Next::Ignore));
    assert_eq!(menu.step(1020, &Event::SendFailed), silent(Next::Ignore));
    assert_eq!(menu.message(), Some(MESSAGE));
    assert_eq!(menu.running(), Some(Position { row: 0, column: 0 }));
}

#[test]
fn handlers_never_overlap_in_a_long_run() {
    let mut menu = waiting_menu();
    let run = vec![
        click(MESSAGE, "first"),
        click(MESSAGE, "second"),
        Event::Tick,
        click(MESSAGE, "first"),
        Event::Finished(Ok(())),
        click(MESSAGE, "second"),
        click(MESSAGE, "first"),
        Event::Finished(Err(Error::input("x"))),
        Event::Finished(Ok(())),
        click(MESSAGE, "nowhere"),
        click(MESSAGE, "first"),
    ];
    let mut in_flight = 0;
    let mut started = 0;
    for (i, event) in run.iter().enumerate() {
        let was_running = menu.running().is_some();
        let reaction = menu.step(1000 + i as u64, event);
        if let Next::Dispatch(_) = reaction.next {
            assert_eq!(in_flight, 0);
            in_flight += 1;
            started += 1;
        }
        if let Event::Finished(_) = event {
            if was_running {
                in_flight -= 1;
            }
        }
        assert!(in_flight <= 1);
        assert_eq!(menu.running().is_some(), in_flight == 1);
    }
    assert_eq!(started, 3);
}

#[test]
fn teardown_happens_once_in_a_long_run() {
    let mut menu = waiting_menu();
    let run = vec![
        (1010, click(MESSAGE, "first")),
        (1020, Event::Finished(Ok(()))),
        (1119, Event::Tick),
        (1120, Event::Tick),
        (1121, Event::Tick),
        (1122, Event::Close),
        (1123, click(MESSAGE, "first")),
        (5000, Event::Tick),
    ];
    let mut teardowns = 0;
    for (now, event) in run.iter() {
        if menu.step(*now, event).next == Next::Teardown {
            teardowns += 1;
        }
    }
    assert_eq!(teardowns, 1);
    assert_eq!(menu.phase(), Phase::TimedOut);
}
