use ayame::error::Error;
use ayame::layout::Control;
use ayame::layout::ControlKind;
use ayame::layout::Layout;
use ayame::layout::Position;
use ayame::layout::RenderSpec;
use ayame::layout::SelectOption;
use ayame::layout::MAX_CONTROLS;
use ayame::layout::MAX_ROWS;
use ayame::layout::MAX_ROW_WIDTH;

fn buttons(prefix: &str, count: usize) -> Vec<Control> {
    let mut row = Vec::new();
    for i in 0..count {
        row.push(Control::button(&format!("{}{}", prefix, i), "press"));
    }
    row
}

fn full_layout() -> Layout {
    let mut layout = Layout::new();
    for r in 0..MAX_ROWS {
        layout = layout.add_row(buttons(&format!("r{}c", r), MAX_ROW_WIDTH)).unwrap();
    }
    layout
}

#[test]
fn limits_are_five_by_five() {
    assert_eq!(MAX_ROWS, 5);
    assert_eq!(MAX_ROW_WIDTH, 5);
    assert_eq!(MAX_CONTROLS, 25);
}

#[test]
fn select_and_button_are_built_as_given() {
    let option = SelectOption {
        label: String::from("Monday"),
        value: String::from("Mon"),
        default_selection: true,
    };
    let select = Control::select("weekday", vec![option]);
    assert_eq!(select.identifier, "weekday");
    assert_eq!(select.kind(), ControlKind::Select);
    assert_eq!(
        select.render,
        RenderSpec::Select {
            options: vec![SelectOption {
                label: String::from("Monday"),
                value: String::from("Mon"),
                default_selection: true,
            }],
        }
    );
    let button = Control::button("close", "Close");
    assert_eq!(button.identifier, "close");
    assert_eq!(button.kind(), ControlKind::Button);
    assert_eq!(button.render, RenderSpec::Button { label: String::from("Close") });
}

#[test]
fn new_layout_is_empty() {
    let layout = Layout::new();
    assert_eq!(layout.len(), 0);
    assert_eq!(layout.total(), 0);
    assert!(layout.row(0).is_none());
    assert_eq!(layout.find("anything"), None);
}

#[test]
fn add_row_appends_in_order() {
    let layout = Layout::new()
        .add_row(vec![Control::button("a", "A"), Control::button("b", "B")])
        .unwrap()
        .add_row(vec![Control::button("c", "C")])
        .unwrap();
    assert_eq!(layout.len(), 2);
    assert_eq!(layout.total(), 3);
    assert_eq!(layout.row(0).unwrap().len(), 2);
    assert_eq!(layout.row(1).unwrap().len(), 1);
    assert!(layout.row(2).is_none());
    assert_eq!(layout.row(0).unwrap()[1].identifier, "b");
    assert_eq!(layout.row(1).unwrap()[0].identifier, "c");
}

#[test]
fn add_row_accepts_an_empty_row() {
    let layout = Layout::new().add_row(Vec::new()).unwrap();
    assert_eq!(layout.len(), 1);
    assert_eq!(layout.total(), 0);
}

#[test]
fn add_row_fills_a_message_to_its_capacity() {
    let layout = full_layout();
    assert_eq!(layout.len(), 5);
    assert_eq!(layout.total(), 25);
}

#[test]
fn add_row_turns_down_a_sixth_row() {
    let result = full_layout().add_row(vec![Control::button("one more", "x")]);
    assert_eq!(result, Err(Error::internal("layout capacity exceeded")));
    let result = full_layout().add_row(Vec::new());
    assert_eq!(result, Err(Error::internal("layout capacity exceeded")));
}

#[test]
fn add_row_turns_down_a_row_of_six() {
    let result = Layout::new().add_row(buttons("b", 6));
    assert_eq!(result, Err(Error::internal("layout capacity exceeded")));
    assert!(Layout::new().add_row(buttons("b", 5)).is_ok());
}

#[test]
fn add_row_turns_down_a_repeated_identifier() {
    let result = Layout::new().add_row(vec![Control::button("a", "A"), Control::button("a", "B")]);
    assert_eq!(result, Err(Error::internal("duplicate control identifier")));
    let result = Layout::new()
        .add_row(vec![Control::button("a", "A")])
        .unwrap()
        .add_row(vec![Control::button("b", "B"), Control::select("a", Vec::new())]);
    assert_eq!(result, Err(Error::internal("duplicate control identifier")));
}

#[test]
fn capacity_is_named_before_a_repeated_identifier() {
    let mut row = buttons("b", 5);
    row.push(Control::button("b0", "again"));
    let result = Layout::new().add_row(row);
    assert_eq!(result, Err(Error::internal("layout capacity exceeded")));
}

#[test]
fn find_gives_the_position_of_the_identifier() {
    let layout = Layout::new()
        .add_row(vec![Control::button("a", "A"), Control::button("b", "B")])
        .unwrap()
        .add_row(vec![Control::button("c", "C")])
        .unwrap();
    assert_eq!(layout.find("a"), Some(Position { row: 0, column: 0 }));
    assert_eq!(layout.find("b"), Some(Position { row: 0, column: 1 }));
    assert_eq!(layout.find("c"), Some(Position { row: 1, column: 0 }));
    assert_eq!(layout.find("d"), None);
    assert_eq!(layout.find(""), None);
    assert_eq!(layout.find("A"), None);
}

#[test]
fn control_gives_what_stands_at_a_position() {
    let layout = Layout::new()
        .add_row(vec![Control::button("a", "A"), Control::button("b", "B")])
        .unwrap();
    assert_eq!(
        layout.control(Position { row: 0, column: 1 }),
        Some(&Control::button("b", "B"))
    );
    assert_eq!(layout.control(Position { row: 0, column: 2 }), None);
    assert_eq!(layout.control(Position { row: 1, column: 0 }), None);
    let found = layout.find("b").unwrap();
    assert_eq!(layout.control(found).unwrap().identifier, "b");
}
