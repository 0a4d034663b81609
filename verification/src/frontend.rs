use crate::layout::{detail_layout, form_layout, overview_layout, Layout, LayoutView};
use crate::log::{
    purchase_views, purchases_of, with_purchase, without_purchase, Budgr, LogView, PurchaseView,
};
use crate::text::{parse_cost, parsed_cost};
use crate::ui_data::{
    field_views, form_wf, InputData, InputDataView, Key, UIState, UIStateView, UITransition,
    UserInput,
};
use vstd::prelude::*;

verus! {

/// What each key means: the chars stand for themselves, Enter submits, Esc cancels, the
/// arrows up and down move the cursor, the arrows left and right move the focus, and a
/// key that is none of these means nothing.
pub open spec fn normalized(key: Key) -> UserInput {
    match key {
        Key::Char(c) => UserInput::Char(c),
        Key::Enter => UserInput::Submit,
        Key::Left => UserInput::FocusPrev,
        Key::Right => UserInput::FocusNext,
        Key::Down => UserInput::CursorNext,
        Key::Up => UserInput::CursorPrev,
        Key::Esc => UserInput::Cancel,
        Key::Backspace => UserInput::Backspace,
        Key::Other => UserInput::Noop,
    }
}

/// The row `row` where the list has such a row, else the nearest row that it has, and
/// nothing where the list is empty.
pub open spec fn nearest_row(row: int, len: nat) -> Option<usize> {
    if len == 0 {
        None
    } else if row < 0 {
        Some(0)
    } else if row >= len {
        Some((len - 1) as usize)
    } else {
        Some(row as usize)
    }
}

/// Whether a cursor selects nothing or a row of a list of `len` rows.
pub open spec fn cursor_valid(cursor: Option<usize>, len: nat) -> bool {
    match cursor {
        Some(row) => row < len,
        None => true,
    }
}

/// The cursor brought back into a list of `len` rows: on the last row where it was
/// behind it, and on nothing where the list is empty.
pub open spec fn revalidated(cursor: Option<usize>, len: nat) -> Option<usize> {
    match cursor {
        Some(row) => nearest_row(row as int, len),
        None => None,
    }
}

/// The row that the cursor is on, and the first row where nothing is selected.
pub open spec fn row_of(cursor: Option<usize>) -> int {
    match cursor {
        Some(row) => row as int,
        None => 0,
    }
}

/// The cursor of a list of `len` rows after an input. `CursorNext` moves it down by one
/// row and `CursorPrev` up by one, from the first row where nothing was selected; it
/// stops at the first and at the last row. Any other input leaves it where it was. In
/// each case it is brought back into the list.
pub open spec fn moved_cursor(cursor: Option<usize>, len: nat, input: UserInput) -> Option<usize> {
    match input {
        UserInput::CursorNext => nearest_row(row_of(cursor) + 1, len),
        UserInput::CursorPrev => nearest_row(row_of(cursor) - 1, len),
        _ => revalidated(cursor, len),
    }
}

/// The cursor of a list of `len` rows after a run of inputs, one after the other.
pub open spec fn cursor_after(cursor: Option<usize>, len: nat, inputs: Seq<UserInput>) -> Option<
    usize,
>
    decreases inputs.len(),
{
    if inputs.len() == 0 {
        cursor
    } else {
        moved_cursor(cursor_after(cursor, len, inputs.drop_last()), len, inputs.last())
    }
}

/// What a screen makes of one input: the screen and the logs as they are after it, and
/// what the screen asks of the dispatcher.
pub struct StepView {
    pub state: UIStateView,
    pub logs: Seq<LogView>,
    pub request: Option<UITransition>,
}

/// The list of all logs. The cursor moves over the logs. `Submit` asks for the purchases
/// of the selected log, and for nothing where no log is selected. `Cancel` asks to end
/// the program.
pub open spec fn overview_step(cursor: Option<usize>, logs: Seq<LogView>, input: UserInput) -> StepView {
    StepView {
        state: UIStateView::Overview { cursor: moved_cursor(cursor, logs.len(), input) },
        logs,
        request: match input {
            UserInput::Submit => match cursor {
                Some(row) => if row < logs.len() {
                    Some(UITransition::PushLogDetail(row))
                } else {
                    None
                },
                None => None,
            },
            UserInput::Cancel => Some(UITransition::Terminate),
            _ => None,
        },
    }
}

/// The logs after the key `d` was pressed on the purchases of the log `log_id`: without
/// the selected purchase, and as they were where the cursor is on no purchase.
pub open spec fn after_delete(logs: Seq<LogView>, log_id: usize, cursor: Option<usize>) -> Seq<
    LogView,
> {
    match cursor {
        Some(row) => if row < purchases_of(logs, log_id as int).len() {
            without_purchase(logs, log_id as int, row as int)
        } else {
            logs
        },
        None => logs,
    }
}

/// The purchases of one log. The cursor moves over the purchases. The key `a` asks for
/// the form for a new purchase, the key `d` takes the selected purchase out of the log,
/// and `Cancel` asks to go back. The cursor is brought back into the list as it is after
/// the input.
pub open spec fn detail_step(
    log_id: usize,
    cursor: Option<usize>,
    logs: Seq<LogView>,
    input: UserInput,
) -> StepView {
    let logs_after = if input == UserInput::Char('d') {
        after_delete(logs, log_id, cursor)
    } else {
        logs
    };
    StepView {
        state: UIStateView::LogDetail {
            log_id,
            cursor: moved_cursor(cursor, purchases_of(logs_after, log_id as int).len(), input),
        },
        logs: logs_after,
        request: if input == UserInput::Char('a') {
            Some(UITransition::PushPurchaseForm(log_id))
        } else if input == UserInput::Cancel {
            Some(UITransition::PopScreen)
        } else {
            None
        },
    }
}

/// The logs after the form was submitted: with a purchase of the name in the first field
/// and of the cost that the second field stands for at the end of the log `log_id`. They
/// are as they were where that text is no cost or there is no such log.
pub open spec fn after_submit(logs: Seq<LogView>, log_id: usize, fields: Seq<InputDataView>) -> Seq<
    LogView,
> {
    match parsed_cost(fields[1].text) {
        Some(cost) => if log_id < logs.len() {
            with_purchase(
                logs,
                log_id as int,
                PurchaseView { name: fields[0].text, tag: None, cost: cost as int },
            )
        } else {
            logs
        },
        None => logs,
    }
}

/// The fields of a form after an input that edits the active field: `CursorNext` and
/// `CursorPrev` move its caret, a char is put in at the caret, and `Backspace` takes out
/// the char to the left of the caret. Any other input leaves the fields as they were.
pub open spec fn edited_fields(
    fields: Seq<InputDataView>,
    active_field_index: usize,
    input: UserInput,
) -> Seq<InputDataView> {
    let active = active_field_index as int;
    match input {
        UserInput::CursorNext => fields.update(active, fields[active].moved_right()),
        UserInput::CursorPrev => fields.update(active, fields[active].moved_left()),
        UserInput::Char(c) => fields.update(active, fields[active].with_char(c)),
        UserInput::Backspace => fields.update(active, fields[active].without_char()),
        _ => fields,
    }
}

/// The active field of a form after an input: `FocusNext` makes the next field active and
/// `FocusPrev` the previous one, and neither goes past the first or the last field.
pub open spec fn moved_focus(active_field_index: usize, input: UserInput) -> usize {
    match input {
        UserInput::FocusNext => if active_field_index < 2 {
            (active_field_index + 1) as usize
        } else {
            active_field_index
        },
        UserInput::FocusPrev => if active_field_index > 0 {
            (active_field_index - 1) as usize
        } else {
            active_field_index
        },
        _ => active_field_index,
    }
}

/// The form for a new purchase. `Submit` on the submit button adds the purchase, if the
/// text of the cost is one, and asks to go back in either case; on another field it does
/// nothing. `Cancel` asks to go back.
pub open spec fn form_step(
    log_id: usize,
    fields: Seq<InputDataView>,
    active_field_index: usize,
    logs: Seq<LogView>,
    input: UserInput,
) -> StepView {
    let submits = input == UserInput::Submit && active_field_index == 2;
    StepView {
        state: UIStateView::PurchaseForm {
            log_id,
            fields: edited_fields(fields, active_field_index, input),
            active_field_index: moved_focus(active_field_index, input),
        },
        logs: if submits {
            after_submit(logs, log_id, fields)
        } else {
            logs
        },
        request: if submits || input == UserInput::Cancel {
            Some(UITransition::PopScreen)
        } else {
            None
        },
    }
}

/// What the screen that is shown makes of one input. A program that has ended makes
/// nothing of it.
pub open spec fn step(state: UIStateView, logs: Seq<LogView>, input: UserInput) -> StepView {
    match state {
        UIStateView::Overview { cursor } => overview_step(cursor, logs, input),
        UIStateView::LogDetail { log_id, cursor } => detail_step(log_id, cursor, logs, input),
        UIStateView::PurchaseForm { log_id, fields, active_field_index } => form_step(
            log_id,
            fields,
            active_field_index,
            logs,
            input,
        ),
        UIStateView::Terminated => StepView { state, logs, request: None },
    }
}

/// What is drawn for a screen, and nothing once the program has ended.
pub open spec fn screen_layout(state: UIStateView, logs: Seq<LogView>) -> Option<LayoutView> {
    match state {
        UIStateView::Overview { cursor } => Some(overview_layout(logs, cursor)),
        UIStateView::LogDetail { log_id, cursor } => Some(
            detail_layout(purchases_of(logs, log_id as int), cursor),
        ),
        UIStateView::PurchaseForm { fields, active_field_index, .. } => Some(
            form_layout(fields, active_field_index),
        ),
        UIStateView::Terminated => None,
    }
}

/// The screen that follows when a screen asks something of the dispatcher. The list of
/// all logs may end the program or open a log; a log may go back to the list or open the
/// form; the form may go back to its log. The screen that follows is as it is when it
/// opens. Whatever else a screen asks for is ignored.
pub open spec fn next_screen(state: UIStateView, request: UITransition) -> UIStateView {
    match (state, request) {
        (UIStateView::Overview { .. }, UITransition::Terminate) => UIStateView::Terminated,
        (UIStateView::Overview { .. }, UITransition::PushLogDetail(log_id)) => UIStateView::LogDetail {
            log_id,
            cursor: None,
        },
        (UIStateView::LogDetail { .. }, UITransition::PopScreen) => UIStateView::Overview {
            cursor: None,
        },
        (UIStateView::LogDetail { .. }, UITransition::PushPurchaseForm(log_id)) => UIStateView::empty_form(
            log_id,
        ),
        (UIStateView::PurchaseForm { log_id, .. }, UITransition::PopScreen) => UIStateView::LogDetail {
            log_id,
            cursor: None,
        },
        _ => state,
    }
}

/// The screen after `pops` requests to go back, one after the other.
pub open spec fn popped(state: UIStateView, pops: nat) -> UIStateView
    decreases pops,
{
    if pops == 0 {
        state
    } else {
        next_screen(popped(state, (pops - 1) as nat), UITransition::PopScreen)
    }
}

/// Whether the cursor of a screen with a list selects nothing or a row of that list.
pub open spec fn screen_cursor_valid(state: UIStateView, logs: Seq<LogView>) -> bool {
    match state {
        UIStateView::Overview { cursor } => cursor_valid(cursor, logs.len()),
        UIStateView::LogDetail { log_id, cursor } => cursor_valid(
            cursor,
            purchases_of(logs, log_id as int).len(),
        ),
        _ => true,
    }
}

/// Turns a key into what it means.
pub fn process_input(key: Key) -> (input: UserInput)
    ensures
        input == normalized(key),
{
    match key {
        Key::Char(c) => UserInput::Char(c),
        Key::Enter => UserInput::Submit,
        Key::Left => UserInput::FocusPrev,
        Key::Right => UserInput::FocusNext,
        Key::Down => UserInput::CursorNext,
        Key::Up => UserInput::CursorPrev,
        Key::Esc => UserInput::Cancel,
        Key::Backspace => UserInput::Backspace,
        Key::Other => UserInput::Noop,
    }
}

/// The cursor of a list of `len` rows after an input.
pub fn move_cursor(cursor: Option<usize>, len: usize, input: &UserInput) -> (moved: Option<usize>)
    ensures
        moved == moved_cursor(cursor, len as nat, *input),
        cursor_valid(moved, len as nat),
        len == 0 ==> moved is None,
{
    if len == 0 {
        return None;
    }
    let last: usize = len - 1;
    match input {
        UserInput::CursorNext => {
            let row: usize = match cursor {
                Some(row) => row,
                None => 0,
            };
            if row >= last {
                Some(last)
            } else {
                Some(row + 1)
            }
        },
        UserInput::CursorPrev => {
            let row: usize = match cursor {
                Some(row) => row,
                None => 0,
            };
            let above: usize = row.saturating_sub(1);
            if above >= last {
                Some(last)
            } else {
                Some(above)
            }
        },
        _ => match cursor {
            Some(row) => if row >= last {
                Some(last)
            } else {
                Some(row)
            },
            None => None,
        },
    }
}

/// What a screen hands back for one input: what it asks of the dispatcher, if anything,
/// and what is to be drawn.
#[derive(Debug, PartialEq, Eq)]
pub struct Outcome {
    pub transition: Option<UITransition>,
    pub layout: Layout,
}

/// The screen that lists all logs takes one input and says what is to be drawn.
pub fn budgr_show(cursor: &mut Option<usize>, input: &UserInput, budgr: &Budgr) -> (out: Outcome)
    ensures
        ({
            let step = overview_step(*old(cursor), budgr@, *input);
            &&& (UIStateView::Overview { cursor: *final(cursor) }) == step.state
            &&& out.transition == step.request
            &&& Some(out.layout@) == screen_layout(step.state, step.logs)
        }),
        cursor_valid(*final(cursor), budgr@.len()),
{
    let transition = match input {
        UserInput::Submit => match *cursor {
            Some(row) => if row < budgr.logs.len() {
                Some(UITransition::PushLogDetail(row))
            } else {
                None
            },
            None => None,
        },
        UserInput::Cancel => Some(UITransition::Terminate),
        _ => None,
    };
    *cursor = move_cursor(*cursor, budgr.logs.len(), input);
    Outcome { transition, layout: Layout::overview(budgr, *cursor) }
}

/// The screen that lists the purchases of the log `log_id` takes one input and says what
/// is to be drawn.
pub fn log_show(log_id: usize, cursor: &mut Option<usize>, input: &UserInput, budgr: &mut Budgr) -> (out:
    Outcome)
    ensures
        ({
            let step = detail_step(log_id, *old(cursor), old(budgr)@, *input);
            &&& (UIStateView::LogDetail { log_id, cursor: *final(cursor) }) == step.state
            &&& final(budgr)@ == step.logs
            &&& out.transition == step.request
            &&& Some(out.layout@) == screen_layout(step.state, step.logs)
        }),
        cursor_valid(*final(cursor), purchases_of(final(budgr)@, log_id as int).len()),
{
    let mut transition: Option<UITransition> = None;
    match input {
        UserInput::Cancel => {
            transition = Some(UITransition::PopScreen);
        },
        UserInput::Char(c) => {
            if *c == 'a' {
                transition = Some(UITransition::PushPurchaseForm(log_id));
            } else if *c == 'd' {
                match *cursor {
                    Some(row) => {
                        // A cursor behind the list takes nothing out; it is brought back below.
                        let _ = budgr.remove_purchase(log_id, row);
                    },
                    None => {},
                }
            }
        },
        _ => {},
    }
    let purchases = match budgr.list_purchases(log_id) {
        Ok(purchases) => purchases,
        Err(_) => Vec::new(),
    };
    assert(purchase_views(purchases@) =~= purchases_of(budgr@, log_id as int));
    *cursor = move_cursor(*cursor, purchases.len(), input);
    Outcome { transition, layout: Layout::log_detail(purchases, *cursor) }
}

/// The form for a new purchase in the log `log_id` takes one input and says what is to be
/// drawn.
pub fn purchase_input(
    fields: &mut Vec<InputData>,
    input: &UserInput,
    active_field_index: &mut usize,
    log_id: usize,
    budgr: &mut Budgr,
) -> (out: Outcome)
    requires
        form_wf(field_views(old(fields)@), *old(active_field_index)),
    ensures
        ({
            let step = form_step(
                log_id,
                field_views(old(fields)@),
                *old(active_field_index),
                old(budgr)@,
                *input,
            );
            &&& (UIStateView::PurchaseForm {
                log_id,
                fields: field_views(final(fields)@),
                active_field_index: *final(active_field_index),
            }) == step.state
            &&& final(budgr)@ == step.logs
            &&& out.transition == step.request
            &&& Some(out.layout@) == screen_layout(step.state, step.logs)
        }),
        form_wf(field_views(final(fields)@), *final(active_field_index)),
{
    let mut transition: Option<UITransition> = None;
    let active: usize = *active_field_index;
    match input {
        UserInput::CursorNext => {
            fields[active].move_cursor_right();
        },
        UserInput::CursorPrev => {
            fields[active].move_cursor_left();
        },
        UserInput::FocusNext => {
            if active < 2 {
                *active_field_index = active + 1;
            }
        },
        UserInput::FocusPrev => {
            if active > 0 {
                *active_field_index = active - 1;
            }
        },
        UserInput::Char(c) => {
            fields[active].enter_char(*c);
        },
        UserInput::Backspace => {
            fields[active].delete_char();
        },
        UserInput::Cancel => {
            transition = Some(UITransition::PopScreen);
        },
        UserInput::Submit => {
            if active == 2 {
                match parse_cost(fields[1].input.as_str()) {
                    Ok(cost) => {
                        // Where the log is gone the purchase is dropped with the form.
                        let _ = budgr.add_purchase(log_id, fields[0].input.clone(), None, cost);
                    },
                    Err(_) => {},
                }
                transition = Some(UITransition::PopScreen);
            }
        },
        UserInput::Noop => {},
    }
    assert(field_views(fields@) =~= edited_fields(
        field_views(old(fields)@),
        *old(active_field_index),
        *input,
    ));
    Outcome { transition, layout: Layout::purchase_form(fields, *active_field_index) }
}

impl UIState {
    /// The screen takes one input: it may change what it remembers and the logs, and it
    /// hands back what it asks of the dispatcher and what is to be drawn. Once the
    /// program has ended nothing happens and nothing is handed back.
    pub fn render(&mut self, input: &UserInput, budgr: &mut Budgr) -> (out: Option<Outcome>)
        requires
            old(self)@.wf(),
        ensures
            ({
                let step = step(old(self)@, old(budgr)@, *input);
                &&& final(self)@ == step.state
                &&& final(budgr)@ == step.logs
                &&& out is None <==> old(self)@ is Terminated
                &&& out is Some ==> out->0.transition == step.request && Some(out->0.layout@)
                    == screen_layout(step.state, step.logs)
            }),
            final(self)@.wf(),
            screen_cursor_valid(final(self)@, final(budgr)@),
    {
        match self {
            UIState::Overview { cursor } => Some(budgr_show(cursor, input, budgr)),
            UIState::LogDetail { log_id, cursor } => Some(log_show(*log_id, cursor, input, budgr)),
            UIState::PurchaseForm { log_id, fields, active_field_index } => Some(
                purchase_input(fields, input, active_field_index, *log_id, budgr),
            ),
            UIState::Terminated => None,
        }
    }

    /// Goes to the screen that follows on a request, as that screen is when it opens.
    /// A request that the screen cannot make is ignored.
    pub fn transition(&mut self, request: UITransition)
        ensures
            final(self)@ == next_screen(old(self)@, request),
    {
        let next: Option<UIState> = match (&*self, request) {
            (UIState::Overview { .. }, UITransition::Terminate) => Some(UIState::Terminated),
            (UIState::Overview { .. }, UITransition::PushLogDetail(log_id)) => Some(
                UIState::LogDetail { log_id, cursor: None },
            ),
            (UIState::LogDetail { .. }, UITransition::PopScreen) => Some(
                UIState::Overview { cursor: None },
            ),
            (UIState::LogDetail { .. }, UITransition::PushPurchaseForm(log_id)) => {
                let mut fields: Vec<InputData> = Vec::new();
                fields.push(InputData::new());
                fields.push(InputData::new());
                fields.push(InputData::new());
                let form = UIState::PurchaseForm { log_id, fields, active_field_index: 0 };
                assert(form@->fields =~= UIStateView::empty_form(log_id)->fields);
                Some(form)
            },
            (UIState::PurchaseForm { log_id, .. }, UITransition::PopScreen) => Some(
                UIState::LogDetail { log_id: *log_id, cursor: None },
            ),
            _ => None,
        };
        match next {
            Some(state) => {
                *self = state;
            },
            None => {},
        }
    }
}

/// The dispatcher: the screen that is shown and the store that the screens work on.
/// Between two inputs a form has its three fields and one of them is active.
#[derive(Debug, PartialEq, Eq)]
pub struct UI {
    state: UIState,
    budgr: Budgr,
}

/// The dispatcher as a mathematical value.
pub struct UIView {
    pub state: UIStateView,
    pub logs: Seq<LogView>,
}

impl View for UI {
    type V = UIView;

    closed spec fn view(&self) -> UIView {
        UIView { state: self.state@, logs: self.budgr@ }
    }
}

impl UIView {
    /// The dispatcher after one input: the screen that is shown takes the input, and
    /// where it asks for another screen, that screen follows.
    pub open spec fn ticked(self, input: UserInput) -> UIView {
        let step = step(self.state, self.logs, input);
        UIView {
            state: match step.request {
                Some(request) => next_screen(step.state, request),
                None => step.state,
            },
            logs: step.logs,
        }
    }

    /// The dispatcher after a run of inputs, one after the other.
    pub open spec fn ran(self, inputs: Seq<UserInput>) -> UIView
        decreases inputs.len(),
    {
        if inputs.len() == 0 {
            self
        } else {
            self.ran(inputs.drop_last()).ticked(inputs.last())
        }
    }

    /// What holds of the dispatcher between two inputs: a form has its three fields and
    /// one of them active, and the cursor of a list selects nothing or a row of the list.
    pub open spec fn wf(self) -> bool {
        self.state.wf() && screen_cursor_valid(self.state, self.logs)
    }
}

impl UI {
    #[verifier::type_invariant]
    spec fn form_is_whole(self) -> bool {
        self.state@.wf()
    }

    /// The dispatcher at the start: the list of all logs of the store, no log selected.
    pub fn new(budgr: Budgr) -> (ui: Self)
        ensures
            ui@ == (UIView { state: UIStateView::Overview { cursor: None }, logs: budgr@ }),
    {
        UI { state: UIState::Overview { cursor: None }, budgr }
    }

    /// The screen that is shown.
    pub fn state(&self) -> (state: &UIState)
        ensures
            state@ == self@.state,
            state@.wf(),
    {
        proof {
            use_type_invariant(self);
        }
        &self.state
    }

    /// The store.
    pub fn budgr(&self) -> (budgr: &Budgr)
        ensures
            budgr@ == self@.logs,
    {
        &self.budgr
    }

    /// Gives up the dispatcher for its store.
    pub fn into_budgr(self) -> (budgr: Budgr)
        ensures
            budgr@ == self@.logs,
    {
        self.budgr
    }

    /// Whether the program goes on.
    pub fn is_running(&self) -> (running: bool)
        ensures
            running == !(self@.state is Terminated),
    {
        match self.state {
            UIState::Terminated => false,
            _ => true,
        }
    }

    /// Takes one input: the screen that is shown handles it, and where it asks for
    /// another screen, that screen follows. Hands back what the screen that handled the
    /// input wants drawn; once the program has ended, nothing happens and nothing is
    /// handed back.
    pub fn tick(&mut self, input: UserInput) -> (layout: Option<Layout>)
        ensures
            final(self)@ == old(self)@.ticked(input),
            final(self)@.wf(),
            layout is None <==> old(self)@.state is Terminated,
            layout is Some ==> ({
                let step = step(old(self)@.state, old(self)@.logs, input);
                Some(layout->0@) == screen_layout(step.state, step.logs)
            }),
    {
        proof {
            use_type_invariant(&*self);
        }
        // The screen and the store are taken out while the screen works on them, and put
        // back below.
        let mut state = UIState::Terminated;
        let mut budgr = Budgr::new();
        core::mem::swap(&mut state, &mut self.state);
        core::mem::swap(&mut budgr, &mut self.budgr);
        let layout = match state.render(&input, &mut budgr) {
            Some(out) => {
                match out.transition {
                    Some(request) => {
                        state.transition(request);
                    },
                    None => {},
                }
                Some(out.layout)
            },
            None => None,
        };
        self.state = state;
        self.budgr = budgr;
        layout
    }
}

/// Whether the input moves the cursor of a list.
pub open spec fn moves_cursor(input: UserInput) -> bool {
    input == UserInput::CursorNext || input == UserInput::CursorPrev
}

/// However the cursor of a list is moved, it stays in the list: after every run of inputs
/// it selects nothing or a row that the list has, and nothing where the list is empty.
/// Once `CursorNext` or `CursorPrev` was among the inputs, a row is selected wherever the
/// list has one.
pub proof fn lemma_cursor_stays_in_list(cursor: Option<usize>, len: nat, inputs: Seq<UserInput>)
    requires
        cursor_valid(cursor, len),
    ensures
        cursor_valid(cursor_after(cursor, len, inputs), len),
        len == 0 ==> cursor_after(cursor, len, inputs) is None,
        len > 0 && (exists|i: int| 0 <= i < inputs.len() && moves_cursor(#[trigger] inputs[i]))
            ==> cursor_after(cursor, len, inputs) is Some,
    decreases inputs.len(),
{
    if inputs.len() > 0 {
        let before = inputs.drop_last();
        lemma_cursor_stays_in_list(cursor, len, before);
        if len > 0 && !moves_cursor(inputs.last()) && exists|i: int|
            0 <= i < inputs.len() && moves_cursor(#[trigger] inputs[i]) {
            let i = choose|i: int| 0 <= i < inputs.len() && moves_cursor(#[trigger] inputs[i]);
            assert(moves_cursor(before[i]));
        }
    }
}

/// A screen that is reached by going back is as it is when it opens: where going back
/// from another screen, however often, ends on the list of all logs, no log is selected
/// there, whatever was selected before.
pub proof fn lemma_going_back_selects_nothing(state: UIStateView, pops: nat)
    requires
        !(state is Overview),
        popped(state, pops) is Overview,
    ensures
        popped(state, pops) == (UIStateView::Overview { cursor: None }),
    decreases pops,
{
    if pops > 0 {
        let before = popped(state, (pops - 1) as nat);
        if before is Overview {
            lemma_going_back_selects_nothing(state, (pops - 1) as nat);
        }
    }
}

/// Going back once from a log, and twice from the form, leads to the list of all logs; any
/// further request to go back changes nothing there.
pub proof fn lemma_going_back_reaches_overview(state: UIStateView, pops: nat)
    requires
        (state is LogDetail && pops >= 1) || (state is PurchaseForm && pops >= 2),
    ensures
        popped(state, pops) == (UIStateView::Overview { cursor: None }),
    decreases pops,
{
    reveal_with_fuel(popped, 3);
    if (state is LogDetail && pops > 1) || (state is PurchaseForm && pops > 2) {
        lemma_going_back_reaches_overview(state, (pops - 1) as nat);
    }
}

/// A request either leaves the screen as it is or opens a screen as it is when it opens:
/// nothing that the screen before remembered is carried along.
pub proof fn lemma_transition_opens_fresh_screen(state: UIStateView, request: UITransition)
    ensures
        next_screen(state, request) == state || next_screen(state, request).is_fresh(),
{
}

/// What holds of the dispatcher between two inputs holds after every input, whatever the
/// input is: the cursor of a list never leaves the list, and the active field of a form
/// is always one of its three.
pub proof fn lemma_tick_keeps_wf(ui: UIView, input: UserInput)
    requires
        ui.state.wf(),
    ensures
        ui.ticked(input).wf(),
{
}

/// What holds of the dispatcher between two inputs holds after every run of inputs.
pub proof fn lemma_run_keeps_wf(ui: UIView, inputs: Seq<UserInput>)
    requires
        ui.wf(),
    ensures
        ui.ran(inputs).wf(),
    decreases inputs.len(),
{
    if inputs.len() > 0 {
        lemma_run_keeps_wf(ui, inputs.drop_last());
        lemma_tick_keeps_wf(ui.ran(inputs.drop_last()), inputs.last());
    }
}

/// The logs are changed by two inputs only: the key `d` on the purchases of a log, and
/// `Submit` on the submit button of the form. After any other input they are as they were.
pub proof fn lemma_only_delete_and_submit_change_the_logs(ui: UIView, input: UserInput)
    requires
        !(ui.state is LogDetail && input == UserInput::Char('d')),
        !(ui.state is PurchaseForm && input == UserInput::Submit),
    ensures
        ui.ticked(input).logs == ui.logs,
{
}

} // verus!
