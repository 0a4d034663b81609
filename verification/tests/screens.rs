use budgr::frontend::{
    budgr_show, log_show, move_cursor, process_input, purchase_input, Outcome, UI,
};
use budgr::layout::{alternate_colour, InputBox, Layout, OverviewRow, PurchaseRow, Shade};
use budgr::log::{Budgr, LogSummary, Purchase, PurchaseType};
use budgr::ui_data::{InputData, Key, UIState, UITransition, UserInput};

fn sample() -> Budgr {
    let mut budgr = Budgr::new();
    budgr.new_log("Groceries".to_string()).unwrap();
    budgr.new_log("Misc".to_string()).unwrap();
    budgr.new_log("Trips".to_string()).unwrap();
    budgr.add_purchase(0, "Bread".to_string(), Some(PurchaseType::Groceries), 3).unwrap();
    budgr.add_purchase(0, "Milk".to_string(), None, 2).unwrap();
    budgr.add_purchase(0, "Eggs".to_string(), None, 4).unwrap();
    budgr.add_purchase(2, "Train".to_string(), Some(PurchaseType::Leisure), 60).unwrap();
    budgr
}

fn field(text: &str, caret: usize) -> InputData {
    InputData { input: text.to_string(), character_pos: caret }
}

fn form(name: &str, cost: &str) -> Vec<InputData> {
    vec![field(name, name.chars().count()), field(cost, cost.chars().count()), field("", 0)]
}

fn all_inputs() -> Vec<UserInput> {
    vec![
        UserInput::FocusNext,
        UserInput::FocusPrev,
        UserInput::CursorNext,
        UserInput::CursorPrev,
        UserInput::Char('a'),
        UserInput::Char('d'),
        UserInput::Char('x'),
        UserInput::Submit,
        UserInput::Cancel,
        UserInput::Backspace,
        UserInput::Noop,
    ]
}

#[test]
fn every_key_has_its_meaning() {
    assert_eq!(process_input(Key::Char('q')), UserInput::Char('q'));
    assert_eq!(process_input(Key::Char(' ')), UserInput::Char(' '));
    assert_eq!(process_input(Key::Enter), UserInput::Submit);
    assert_eq!(process_input(Key::Left), UserInput::FocusPrev);
    assert_eq!(process_input(Key::Right), UserInput::FocusNext);
    assert_eq!(process_input(Key::Down), UserInput::CursorNext);
    assert_eq!(process_input(Key::Up), UserInput::CursorPrev);
    assert_eq!(process_input(Key::Esc), UserInput::Cancel);
    assert_eq!(process_input(Key::Backspace), UserInput::Backspace);
    assert_eq!(process_input(Key::Other), UserInput::Noop);
}

#[test]
fn the_cursor_moves_by_one_row_and_stops_at_the_ends() {
    assert_eq!(move_cursor(None, 3, &UserInput::CursorNext), Some(1));
    assert_eq!(move_cursor(Some(1), 3, &UserInput::CursorNext), Some(2));
    assert_eq!(move_cursor(Some(2), 3, &UserInput::CursorNext), Some(2));
    assert_eq!(move_cursor(Some(2), 3, &UserInput::CursorPrev), Some(1));
    assert_eq!(move_cursor(Some(1), 3, &UserInput::CursorPrev), Some(0));
    assert_eq!(move_cursor(Some(0), 3, &UserInput::CursorPrev), Some(0));
    assert_eq!(move_cursor(None, 3, &UserInput::CursorPrev), Some(0));
    assert_eq!(move_cursor(None, 1, &UserInput::CursorNext), Some(0));
}

#[test]
fn the_cursor_of_an_empty_list_selects_nothing() {
    for input in all_inputs() {
        assert_eq!(move_cursor(None, 0, &input), None);
        assert_eq!(move_cursor(Some(0), 0, &input), None);
        assert_eq!(move_cursor(Some(5), 0, &input), None);
    }
}

#[test]
fn a_cursor_behind_the_list_is_brought_back() {
    assert_eq!(move_cursor(Some(7), 3, &UserInput::Noop), Some(2));
    assert_eq!(move_cursor(Some(3), 3, &UserInput::Submit), Some(2));
    assert_eq!(move_cursor(Some(7), 3, &UserInput::CursorNext), Some(2));
    assert_eq!(move_cursor(Some(7), 3, &UserInput::CursorPrev), Some(2));
    assert_eq!(move_cursor(Some(3), 3, &UserInput::CursorPrev), Some(2));
    assert_eq!(move_cursor(Some(usize::MAX), 3, &UserInput::CursorNext), Some(2));
    assert_eq!(move_cursor(Some(usize::MAX), usize::MAX, &UserInput::CursorNext), Some(usize::MAX - 1));
    assert_eq!(move_cursor(None, 3, &UserInput::Noop), None);
    assert_eq!(move_cursor(Some(1), 3, &UserInput::Char('x')), Some(1));
}

#[test]
fn the_cursor_never_leaves_the_list() {
    for len in 0..4usize {
        let mut reached: Vec<Option<usize>> = vec![None];
        let mut next = 0;
        while next < reached.len() {
            let cursor = reached[next];
            next += 1;
            for input in [UserInput::CursorNext, UserInput::CursorPrev] {
                let moved = move_cursor(cursor, len, &input);
                match moved {
                    None => assert_eq!(len, 0),
                    Some(row) => assert!(row < len),
                }
                if !reached.contains(&moved) {
                    reached.push(moved);
                }
            }
        }
    }
}

#[test]
fn rows_alternate_between_dark_and_light() {
    assert_eq!(alternate_colour(0), Shade::Dark);
    assert_eq!(alternate_colour(1), Shade::Light);
    assert_eq!(alternate_colour(2), Shade::Dark);
    assert_eq!(alternate_colour(usize::MAX), Shade::Light);
}

#[test]
fn the_overview_draws_one_row_for_each_log() {
    let budgr = sample();
    let mut cursor = None;
    let out = budgr_show(&mut cursor, &UserInput::CursorNext, &budgr);
    assert_eq!(cursor, Some(1));
    assert_eq!(
        out,
        Outcome {
            transition: None,
            layout: Layout::Overview {
                logs: vec![
                    OverviewRow {
                        log: LogSummary {
                            id: 0,
                            name: "Groceries".to_string(),
                            purchase_count: 3,
                            total_cost: 9,
                        },
                        shade: Shade::Dark,
                    },
                    OverviewRow {
                        log: LogSummary {
                            id: 1,
                            name: "Misc".to_string(),
                            purchase_count: 0,
                            total_cost: 0,
                        },
                        shade: Shade::Light,
                    },
                    OverviewRow {
                        log: LogSummary {
                            id: 2,
                            name: "Trips".to_string(),
                            purchase_count: 1,
                            total_cost: 60,
                        },
                        shade: Shade::Dark,
                    },
                ],
                selected: Some(1),
            },
        }
    );
}

#[test]
fn the_overview_opens_the_selected_log() {
    let budgr = sample();
    let mut cursor = Some(2);
    let out = budgr_show(&mut cursor, &UserInput::Submit, &budgr);
    assert_eq!(out.transition, Some(UITransition::PushLogDetail(2)));
}

#[test]
fn submit_without_a_selected_log_does_nothing() {
    let budgr = sample();
    let mut cursor = None;
    let out = budgr_show(&mut cursor, &UserInput::Submit, &budgr);
    assert_eq!(out.transition, None);
    assert_eq!(cursor, None);
    let mut behind = Some(3);
    let out = budgr_show(&mut behind, &UserInput::Submit, &budgr);
    assert_eq!(out.transition, None);
    assert_eq!(behind, Some(2));
    let empty = Budgr::new();
    let mut none = None;
    let out = budgr_show(&mut none, &UserInput::Submit, &empty);
    assert_eq!(out, Outcome { transition: None, layout: Layout::Overview { logs: vec![], selected: None } });
}

#[test]
fn cancel_on_the_overview_ends_the_program() {
    let budgr = sample();
    let mut cursor = Some(1);
    let out = budgr_show(&mut cursor, &UserInput::Cancel, &budgr);
    assert_eq!(out.transition, Some(UITransition::Terminate));
}

#[test]
fn the_overview_asks_for_nothing_on_other_inputs() {
    let budgr = sample();
    for input in all_inputs() {
        if input == UserInput::Submit || input == UserInput::Cancel {
            continue;
        }
        let mut cursor = Some(1);
        let out = budgr_show(&mut cursor, &input, &budgr);
        assert_eq!(out.transition, None);
        assert_eq!(budgr, sample());
    }
}

#[test]
fn the_log_screen_draws_one_row_for_each_purchase() {
    let mut budgr = sample();
    let mut cursor = Some(0);
    let out = log_show(0, &mut cursor, &UserInput::CursorNext, &mut budgr);
    assert_eq!(cursor, Some(1));
    assert_eq!(
        out,
        Outcome {
            transition: None,
            layout: Layout::LogDetail {
                purchases: vec![
                    PurchaseRow {
                        purchase: Purchase {
                            name: "Bread".to_string(),
                            tag: Some(PurchaseType::Groceries),
                            cost: 3,
                        },
                        shade: Shade::Dark,
                    },
                    PurchaseRow {
                        purchase: Purchase { name: "Milk".to_string(), tag: None, cost: 2 },
                        shade: Shade::Light,
                    },
                    PurchaseRow {
                        purchase: Purchase { name: "Eggs".to_string(), tag: None, cost: 4 },
                        shade: Shade::Dark,
                    },
                ],
                selected: Some(1),
            },
        }
    );
    assert_eq!(budgr, sample());
}

#[test]
fn the_key_a_opens_the_form() {
    let mut budgr = sample();
    let mut cursor = None;
    let out = log_show(2, &mut cursor, &UserInput::Char('a'), &mut budgr);
    assert_eq!(out.transition, Some(UITransition::PushPurchaseForm(2)));
    assert_eq!(budgr, sample());
}

#[test]
fn the_key_d_deletes_the_selected_purchase() {
    let mut budgr = sample();
    let mut cursor = Some(1);
    let out = log_show(0, &mut cursor, &UserInput::Char('d'), &mut budgr);
    assert_eq!(out.transition, None);
    assert_eq!(cursor, Some(1));
    let names: Vec<&str> = budgr.logs[0].purchases.iter().map(|p| p.name.as_str()).collect();
    assert_eq!(names, vec!["Bread", "Eggs"]);
    match out.layout {
        Layout::LogDetail { purchases, selected } => {
            assert_eq!(purchases.len(), 2);
            assert_eq!(purchases[1].purchase.name, "Eggs");
            assert_eq!(purchases[1].shade, Shade::Light);
            assert_eq!(selected, Some(1));
        }
        other => panic!("{:?}", other),
    }
}

#[test]
fn deleting_the_only_purchase_leaves_nothing_selected() {
    let mut budgr = sample();
    let mut cursor = Some(0);
    let out = log_show(2, &mut cursor, &UserInput::Char('d'), &mut budgr);
    assert_eq!(cursor, None);
    assert!(budgr.logs[2].purchases.is_empty());
    assert_eq!(
        out,
        Outcome { transition: None, layout: Layout::LogDetail { purchases: vec![], selected: None } }
    );
}

#[test]
fn the_key_d_without_a_selected_purchase_deletes_nothing() {
    let mut budgr = sample();
    let mut cursor = None;
    log_show(0, &mut cursor, &UserInput::Char('d'), &mut budgr);
    assert_eq!(budgr, sample());
    assert_eq!(cursor, None);
    let mut behind = Some(3);
    log_show(0, &mut behind, &UserInput::Char('d'), &mut budgr);
    assert_eq!(budgr, sample());
    assert_eq!(behind, Some(2));
}

#[test]
fn cancel_on_a_log_goes_back() {
    let mut budgr = sample();
    let mut cursor = Some(1);
    let out = log_show(0, &mut cursor, &UserInput::Cancel, &mut budgr);
    assert_eq!(out.transition, Some(UITransition::PopScreen));
}

#[test]
fn submit_on_a_log_does_nothing() {
    let mut budgr = sample();
    let mut cursor = Some(1);
    let out = log_show(0, &mut cursor, &UserInput::Submit, &mut budgr);
    assert_eq!(out.transition, None);
    assert_eq!(cursor, Some(1));
    assert_eq!(budgr, sample());
}

#[test]
fn a_log_that_is_not_there_is_shown_empty() {
    let mut budgr = sample();
    let mut cursor = Some(1);
    let out = log_show(9, &mut cursor, &UserInput::Char('d'), &mut budgr);
    assert_eq!(cursor, None);
    assert_eq!(budgr, sample());
    assert_eq!(
        out,
        Outcome { transition: None, layout: Layout::LogDetail { purchases: vec![], selected: None } }
    );
}

#[test]
fn the_form_draws_three_boxes() {
    let mut budgr = sample();
    let mut fields = form("Coffee", "450");
    let mut active = 1;
    let out = purchase_input(&mut fields, &UserInput::Noop, &mut active, 0, &mut budgr);
    assert_eq!(
        out,
        Outcome {
            transition: None,
            layout: Layout::PurchaseForm {
                name: InputBox { text: "Coffee".to_string(), emphasized: false },
                cost: InputBox { text: "450".to_string(), emphasized: true },
                submit: InputBox { text: "Submit".to_string(), emphasized: false },
            },
        }
    );
    assert_eq!(fields, form("Coffee", "450"));
    assert_eq!(active, 1);
}

#[test]
fn the_focus_moves_by_one_field_and_stops_at_the_ends() {
    let mut budgr = sample();
    let mut fields = form("", "");
    let mut active = 0;
    purchase_input(&mut fields, &UserInput::FocusPrev, &mut active, 0, &mut budgr);
    assert_eq!(active, 0);
    purchase_input(&mut fields, &UserInput::FocusNext, &mut active, 0, &mut budgr);
    assert_eq!(active, 1);
    purchase_input(&mut fields, &UserInput::FocusNext, &mut active, 0, &mut budgr);
    assert_eq!(active, 2);
    let out = purchase_input(&mut fields, &UserInput::FocusNext, &mut active, 0, &mut budgr);
    assert_eq!(active, 2);
    assert_eq!(out.transition, None);
    purchase_input(&mut fields, &UserInput::FocusPrev, &mut active, 0, &mut budgr);
    assert_eq!(active, 1);
    assert_eq!(fields, form("", ""));
}

#[test]
fn chars_go_into_the_active_field() {
    let mut budgr = sample();
    let mut fields = form("Cofee", "");
    let mut active = 0;
    purchase_input(&mut fields, &UserInput::CursorPrev, &mut active, 0, &mut budgr);
    purchase_input(&mut fields, &UserInput::CursorPrev, &mut active, 0, &mut budgr);
    purchase_input(&mut fields, &UserInput::Char('f'), &mut active, 0, &mut budgr);
    assert_eq!(fields[0], field("Coffee", 4));
    purchase_input(&mut fields, &UserInput::CursorNext, &mut active, 0, &mut budgr);
    assert_eq!(fields[0], field("Coffee", 5));
    purchase_input(&mut fields, &UserInput::Backspace, &mut active, 0, &mut budgr);
    assert_eq!(fields[0], field("Coffe", 4));
    active = 1;
    purchase_input(&mut fields, &UserInput::Char('4'), &mut active, 0, &mut budgr);
    assert_eq!(fields[1], field("4", 1));
    assert_eq!(fields[0], field("Coffe", 4));
    active = 2;
    purchase_input(&mut fields, &UserInput::Char('z'), &mut active, 0, &mut budgr);
    assert_eq!(fields[2], field("z", 1));
    assert_eq!(budgr, sample());
}

#[test]
fn backspace_at_the_start_of_a_field_does_nothing() {
    let mut budgr = sample();
    let mut fields = vec![field("ab", 0), field("", 0), field("", 0)];
    let mut active = 0;
    purchase_input(&mut fields, &UserInput::Backspace, &mut active, 0, &mut budgr);
    assert_eq!(fields[0], field("ab", 0));
    active = 1;
    purchase_input(&mut fields, &UserInput::Backspace, &mut active, 0, &mut budgr);
    assert_eq!(fields[1], field("", 0));
}

#[test]
fn submit_on_the_button_adds_the_purchase_and_goes_back() {
    let mut budgr = sample();
    let mut fields = form("Coffee", "450");
    let mut active = 2;
    let out = purchase_input(&mut fields, &UserInput::Submit, &mut active, 1, &mut budgr);
    assert_eq!(out.transition, Some(UITransition::PopScreen));
    assert_eq!(
        budgr.list_purchases(1).unwrap(),
        vec![Purchase { name: "Coffee".to_string(), tag: None, cost: 450 }]
    );
    assert_eq!(budgr.logs[0], sample().logs[0]);
    assert_eq!(budgr.logs[2], sample().logs[2]);
}

#[test]
fn submit_with_a_cost_that_is_no_number_goes_back_and_adds_nothing() {
    for cost in ["abc", "", "4.5", "12a", "99999999999999999999"] {
        let mut budgr = sample();
        let mut fields = form("Coffee", cost);
        let mut active = 2;
        let out = purchase_input(&mut fields, &UserInput::Submit, &mut active, 1, &mut budgr);
        assert_eq!(out.transition, Some(UITransition::PopScreen));
        assert_eq!(budgr, sample());
    }
}

#[test]
fn submit_on_a_text_field_does_nothing() {
    for at in 0..2 {
        let mut budgr = sample();
        let mut fields = form("Coffee", "450");
        let mut active = at;
        let out = purchase_input(&mut fields, &UserInput::Submit, &mut active, 1, &mut budgr);
        assert_eq!(out.transition, None);
        assert_eq!(active, at);
        assert_eq!(fields, form("Coffee", "450"));
        assert_eq!(budgr, sample());
    }
}

#[test]
fn submit_for_a_log_that_is_not_there_goes_back_and_adds_nothing() {
    let mut budgr = sample();
    let mut fields = form("Coffee", "450");
    let mut active = 2;
    let out = purchase_input(&mut fields, &UserInput::Submit, &mut active, 3, &mut budgr);
    assert_eq!(out.transition, Some(UITransition::PopScreen));
    assert_eq!(budgr, sample());
}

#[test]
fn cancel_on_the_form_goes_back_and_adds_nothing() {
    for at in 0..3 {
        let mut budgr = sample();
        let mut fields = form("Coffee", "450");
        let mut active = at;
        let out = purchase_input(&mut fields, &UserInput::Cancel, &mut active, 1, &mut budgr);
        assert_eq!(out.transition, Some(UITransition::PopScreen));
        assert_eq!(budgr, sample());
    }
}

#[test]
fn the_screens_follow_the_table() {
    let overview = || UIState::Overview { cursor: Some(1) };
    let detail = || UIState::LogDetail { log_id: 4, cursor: Some(2) };
    let filled = || UIState::PurchaseForm { log_id: 4, fields: form("Coffee", "450"), active_field_index: 2 };
    let empty_form = |log_id| UIState::PurchaseForm {
        log_id,
        fields: vec![InputData::new(), InputData::new(), InputData::new()],
        active_field_index: 0,
    };

    let mut s = overview();
    s.transition(UITransition::Terminate);
    assert_eq!(s, UIState::Terminated);

    let mut s = overview();
    s.transition(UITransition::PushLogDetail(7));
    assert_eq!(s, UIState::LogDetail { log_id: 7, cursor: None });

    let mut s = detail();
    s.transition(UITransition::PopScreen);
    assert_eq!(s, UIState::Overview { cursor: None });

    let mut s = detail();
    s.transition(UITransition::PushPurchaseForm(4));
    assert_eq!(s, empty_form(4));

    let mut s = filled();
    s.transition(UITransition::PopScreen);
    assert_eq!(s, UIState::LogDetail { log_id: 4, cursor: None });

    for request in [UITransition::PopScreen, UITransition::PushPurchaseForm(1)] {
        let mut s = overview();
        s.transition(request);
        assert_eq!(s, overview());
    }
    for request in [UITransition::Terminate, UITransition::PushLogDetail(1)] {
        let mut s = detail();
        s.transition(request);
        assert_eq!(s, detail());
    }
    for request in
        [UITransition::Terminate, UITransition::PushLogDetail(1), UITransition::PushPurchaseForm(1)]
    {
        let mut s = filled();
        s.transition(request);
        assert_eq!(s, filled());
    }
    for request in [
        UITransition::Terminate,
        UITransition::PopScreen,
        UITransition::PushLogDetail(1),
        UITransition::PushPurchaseForm(1),
    ] {
        let mut s = UIState::Terminated;
        s.transition(request);
        assert_eq!(s, UIState::Terminated);
    }
}

#[test]
fn going_back_to_the_overview_selects_nothing() {
    let mut from_log = UIState::LogDetail { log_id: 1, cursor: Some(2) };
    from_log.transition(UITransition::PopScreen);
    assert_eq!(from_log, UIState::Overview { cursor: None });
    from_log.transition(UITransition::PopScreen);
    assert_eq!(from_log, UIState::Overview { cursor: None });

    let mut from_form =
        UIState::PurchaseForm { log_id: 1, fields: form("Coffee", "450"), active_field_index: 1 };
    from_form.transition(UITransition::PopScreen);
    assert_eq!(from_form, UIState::LogDetail { log_id: 1, cursor: None });
    from_form.transition(UITransition::PopScreen);
    assert_eq!(from_form, UIState::Overview { cursor: None });
}

#[test]
fn cancel_leads_from_the_form_back_to_the_overview_and_out() {
    let mut ui = UI::new(sample());
    ui.tick(UserInput::CursorNext);
    ui.tick(UserInput::CursorNext);
    ui.tick(UserInput::Submit);
    ui.tick(UserInput::CursorNext);
    ui.tick(UserInput::Char('a'));
    ui.tick(UserInput::Char('x'));
    assert!(matches!(ui.state(), UIState::PurchaseForm { log_id: 2, .. }));
    ui.tick(UserInput::Cancel);
    assert_eq!(*ui.state(), UIState::LogDetail { log_id: 2, cursor: None });
    ui.tick(UserInput::Cancel);
    assert_eq!(*ui.state(), UIState::Overview { cursor: None });
    assert!(ui.is_running());
    ui.tick(UserInput::Cancel);
    assert_eq!(*ui.state(), UIState::Terminated);
    assert!(!ui.is_running());
    assert_eq!(ui.into_budgr(), sample());
}

#[test]
fn nothing_happens_once_the_program_has_ended() {
    let mut ui = UI::new(sample());
    ui.tick(UserInput::Cancel);
    for input in all_inputs() {
        assert_eq!(ui.tick(input), None);
        assert_eq!(*ui.state(), UIState::Terminated);
        assert_eq!(*ui.budgr(), sample());
    }
}

#[test]
fn every_tick_draws_the_screen_that_took_the_input() {
    let mut ui = UI::new(sample());
    let drawn = ui.tick(UserInput::CursorPrev).unwrap();
    assert!(matches!(drawn, Layout::Overview { selected: Some(0), .. }));
    let drawn = ui.tick(UserInput::Submit).unwrap();
    assert!(matches!(drawn, Layout::Overview { selected: Some(0), .. }));
    let drawn = ui.tick(UserInput::Noop).unwrap();
    assert!(matches!(drawn, Layout::LogDetail { selected: None, .. }));
    let drawn = ui.tick(UserInput::Char('a')).unwrap();
    assert!(matches!(drawn, Layout::LogDetail { selected: None, .. }));
    let drawn = ui.tick(UserInput::Char('x')).unwrap();
    match drawn {
        Layout::PurchaseForm { name, cost, submit } => {
            assert_eq!(name, InputBox { text: "x".to_string(), emphasized: true });
            assert_eq!(cost, InputBox { text: "".to_string(), emphasized: false });
            assert_eq!(submit, InputBox { text: "Submit".to_string(), emphasized: false });
        }
        other => panic!("{:?}", other),
    }
    let drawn = ui.tick(UserInput::Cancel).unwrap();
    assert!(matches!(drawn, Layout::PurchaseForm { .. }));
}

#[test]
fn the_form_opens_empty_each_time() {
    let mut ui = UI::new(sample());
    ui.tick(UserInput::CursorPrev);
    ui.tick(UserInput::Submit);
    ui.tick(UserInput::Char('a'));
    ui.tick(UserInput::Char('x'));
    ui.tick(UserInput::FocusNext);
    ui.tick(UserInput::Cancel);
    ui.tick(UserInput::Char('a'));
    assert_eq!(
        *ui.state(),
        UIState::PurchaseForm {
            log_id: 0,
            fields: vec![InputData::new(), InputData::new(), InputData::new()],
            active_field_index: 0,
        }
    );
}

#[test]
fn the_cursor_stays_in_the_list_whatever_is_typed() {
    let inputs = all_inputs();
    let mut ui = UI::new(sample());
    let mut seed: usize = 12345;
    for _ in 0..4000 {
        seed = seed.wrapping_mul(6364136223846793005).wrapping_add(1442695040888963407);
        let input = inputs[(seed >> 33) % inputs.len()];
        if input == UserInput::Cancel && matches!(ui.state(), UIState::Overview { .. }) {
            continue;
        }
        ui.tick(input);
        match ui.state() {
            UIState::Overview { cursor } => {
                assert!(cursor.map_or(true, |row| row < ui.budgr().logs.len()));
            }
            UIState::LogDetail { log_id, cursor } => {
                let len = ui.budgr().logs[*log_id].purchases.len();
                assert!(cursor.map_or(true, |row| row < len));
            }
            UIState::PurchaseForm { fields, active_field_index, .. } => {
                assert_eq!(fields.len(), 3);
                assert!(*active_field_index <= 2);
            }
            UIState::Terminated => panic!("ended"),
        }
    }
}
