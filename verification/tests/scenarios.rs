use budgr::frontend::UI;
use budgr::log::Budgr;
use budgr::ui_data::{UIState, UserInput};

fn store_of(names: &[&str]) -> Budgr {
    let mut budgr = Budgr::new();
    for name in names {
        budgr.new_log(name.to_string()).unwrap();
    }
    budgr
}

fn type_text(ui: &mut UI, text: &str) {
    for c in text.chars() {
        ui.tick(UserInput::Char(c));
    }
}

fn open_form_of_first_log(ui: &mut UI) {
    ui.tick(UserInput::CursorPrev);
    ui.tick(UserInput::Submit);
    ui.tick(UserInput::Char('a'));
}

#[test]
fn opening_a_log_and_going_back_selects_nothing() {
    let mut ui = UI::new(store_of(&["Groceries", "Misc"]));
    assert_eq!(*ui.state(), UIState::Overview { cursor: None });

    ui.tick(UserInput::CursorNext);
    assert_eq!(*ui.state(), UIState::Overview { cursor: Some(1) });
    assert_eq!(ui.budgr().logs[1].name, "Misc");

    ui.tick(UserInput::Submit);
    assert_eq!(*ui.state(), UIState::LogDetail { log_id: 1, cursor: None });

    ui.tick(UserInput::Cancel);
    assert_eq!(*ui.state(), UIState::Overview { cursor: None });
}

#[test]
fn deleting_the_last_purchase_brings_the_cursor_back() {
    let mut budgr = store_of(&["Groceries"]);
    budgr.add_purchase(0, "Bread".to_string(), None, 3).unwrap();
    budgr.add_purchase(0, "Milk".to_string(), None, 2).unwrap();
    budgr.add_purchase(0, "Eggs".to_string(), None, 4).unwrap();
    let mut ui = UI::new(budgr);
    ui.tick(UserInput::CursorPrev);
    ui.tick(UserInput::Submit);
    assert_eq!(*ui.state(), UIState::LogDetail { log_id: 0, cursor: None });

    ui.tick(UserInput::CursorNext);
    ui.tick(UserInput::CursorNext);
    assert_eq!(*ui.state(), UIState::LogDetail { log_id: 0, cursor: Some(2) });

    ui.tick(UserInput::Char('d'));
    let left: Vec<&str> = ui.budgr().logs[0].purchases.iter().map(|p| p.name.as_str()).collect();
    assert_eq!(left, vec!["Bread", "Milk"]);
    assert_eq!(*ui.state(), UIState::LogDetail { log_id: 0, cursor: Some(1) });

    ui.tick(UserInput::Noop);
    assert_eq!(*ui.state(), UIState::LogDetail { log_id: 0, cursor: Some(1) });
}

#[test]
fn a_purchase_entered_in_the_form_is_listed() {
    let mut ui = UI::new(store_of(&["Groceries"]));
    open_form_of_first_log(&mut ui);
    type_text(&mut ui, "Coffee");
    ui.tick(UserInput::FocusNext);
    type_text(&mut ui, "450");
    ui.tick(UserInput::FocusNext);
    ui.tick(UserInput::Submit);

    assert_eq!(*ui.state(), UIState::LogDetail { log_id: 0, cursor: None });
    let listed = ui.budgr().list_purchases(0).unwrap();
    assert_eq!(listed.len(), 1);
    assert_eq!(listed[0].name, "Coffee");
    assert_eq!(listed[0].cost, 450);
    assert_eq!(listed[0].tag, None);
}

#[test]
fn a_cost_that_is_no_number_adds_no_purchase() {
    let mut ui = UI::new(store_of(&["Groceries"]));
    open_form_of_first_log(&mut ui);
    type_text(&mut ui, "Coffee");
    ui.tick(UserInput::FocusNext);
    type_text(&mut ui, "abc");
    ui.tick(UserInput::FocusNext);
    ui.tick(UserInput::Submit);

    assert_eq!(*ui.state(), UIState::LogDetail { log_id: 0, cursor: None });
    assert!(ui.budgr().list_purchases(0).unwrap().is_empty());
}
