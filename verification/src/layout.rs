use crate::log::{
    purchase_views, summaries, summary_views, Budgr, LogSummary, LogSummaryView, LogView,
    Purchase, PurchaseView,
};
use crate::ui_data::{field_views, InputData, InputDataView};
use vstd::prelude::*;
use vstd::string::*;

verus! {

/// The background of a row of a table. Rows alternate between the two.
#[derive(Clone, Copy, Debug, PartialEq, Eq, Structural)]
pub enum Shade {
    Dark,
    Light,
}

/// The background of the row at `index`: dark for the rows at even positions, light for
/// those at odd ones.
pub open spec fn shade_of(index: int) -> Shade {
    if index % 2 == 0 {
        Shade::Dark
    } else {
        Shade::Light
    }
}

/// The background of the row at position `i`.
pub fn alternate_colour(i: usize) -> (shade: Shade)
    ensures
        shade == shade_of(i as int),
{
    if i % 2 == 0 {
        Shade::Dark
    } else {
        Shade::Light
    }
}

/// A row of the table of all logs.
#[derive(Debug, PartialEq, Eq)]
pub struct OverviewRow {
    pub log: LogSummary,
    pub shade: Shade,
}

/// A row of the table of all logs as a mathematical value.
pub struct OverviewRowView {
    pub log: LogSummaryView,
    pub shade: Shade,
}

impl View for OverviewRow {
    type V = OverviewRowView;

    open spec fn view(&self) -> OverviewRowView {
        OverviewRowView { log: self.log@, shade: self.shade }
    }
}

/// A row of the table of the purchases of a log.
#[derive(Debug, PartialEq, Eq)]
pub struct PurchaseRow {
    pub purchase: Purchase,
    pub shade: Shade,
}

/// A row of the table of the purchases of a log as a mathematical value.
pub struct PurchaseRowView {
    pub purchase: PurchaseView,
    pub shade: Shade,
}

impl View for PurchaseRow {
    type V = PurchaseRowView;

    open spec fn view(&self) -> PurchaseRowView {
        PurchaseRowView { purchase: self.purchase@, shade: self.shade }
    }
}

/// One of the three boxes of the form: the text in it, and whether it is the active one.
#[derive(Debug, PartialEq, Eq)]
pub struct InputBox {
    pub text: String,
    pub emphasized: bool,
}

/// A box of the form as a mathematical value.
pub struct InputBoxView {
    pub text: Seq<char>,
    pub emphasized: bool,
}

impl View for InputBox {
    type V = InputBoxView;

    open spec fn view(&self) -> InputBoxView {
        InputBoxView { text: self.text@, emphasized: self.emphasized }
    }
}

/// What is to be drawn: one of the two tables, with the selected row if one is selected,
/// or the three boxes of the form, from top to bottom.
#[derive(Debug, PartialEq, Eq)]
pub enum Layout {
    Overview { logs: Vec<OverviewRow>, selected: Option<usize> },
    LogDetail { purchases: Vec<PurchaseRow>, selected: Option<usize> },
    PurchaseForm { name: InputBox, cost: InputBox, submit: InputBox },
}

/// What is to be drawn, as a mathematical value.
pub enum LayoutView {
    Overview { logs: Seq<OverviewRowView>, selected: Option<usize> },
    LogDetail { purchases: Seq<PurchaseRowView>, selected: Option<usize> },
    PurchaseForm { name: InputBoxView, cost: InputBoxView, submit: InputBoxView },
}

impl View for Layout {
    type V = LayoutView;

    open spec fn view(&self) -> LayoutView {
        match self {
            Layout::Overview { logs, selected } => LayoutView::Overview {
                logs: logs@.map_values(|r: OverviewRow| r@),
                selected: *selected,
            },
            Layout::LogDetail { purchases, selected } => LayoutView::LogDetail {
                purchases: purchases@.map_values(|r: PurchaseRow| r@),
                selected: *selected,
            },
            Layout::PurchaseForm { name, cost, submit } => LayoutView::PurchaseForm {
                name: name@,
                cost: cost@,
                submit: submit@,
            },
        }
    }
}

/// The table of all logs: one row for each log, in the order of the logs, with the log's
/// name, the number of its purchases and what they cost together.
pub open spec fn overview_layout(logs: Seq<LogView>, cursor: Option<usize>) -> LayoutView {
    LayoutView::Overview {
        logs: Seq::new(
            logs.len(),
            |i: int| OverviewRowView { log: summaries(logs)[i], shade: shade_of(i) },
        ),
        selected: cursor,
    }
}

/// The table of the purchases of a log: one row for each purchase, in their order, with
/// its name, its cost and its category.
pub open spec fn detail_layout(purchases: Seq<PurchaseView>, cursor: Option<usize>) -> LayoutView {
    LayoutView::LogDetail {
        purchases: Seq::new(
            purchases.len(),
            |i: int| PurchaseRowView { purchase: purchases[i], shade: shade_of(i) },
        ),
        selected: cursor,
    }
}

/// The form: the box of the name, the box of the cost and the submit button, of which the
/// active one is emphasized.
pub open spec fn form_layout(fields: Seq<InputDataView>, active_field_index: usize) -> LayoutView {
    LayoutView::PurchaseForm {
        name: InputBoxView { text: fields[0].text, emphasized: active_field_index == 0 },
        cost: InputBoxView { text: fields[1].text, emphasized: active_field_index == 1 },
        submit: InputBoxView { text: "Submit"@, emphasized: active_field_index == 2 },
    }
}

impl Layout {
    /// The table of all logs of the store, with the selected row.
    pub fn overview(budgr: &Budgr, cursor: Option<usize>) -> (layout: Layout)
        ensures
            layout@ == overview_layout(budgr@, cursor),
    {
        let logs = budgr.list_logs();
        let ghost listed = logs@;
        let mut rows: Vec<OverviewRow> = Vec::new();
        for log in it: logs
            invariant
                it.seq() == listed,
                rows@.len() == it.index(),
                forall|j: int|
                    0 <= j < rows@.len() ==> (#[trigger] rows@[j])@ == (OverviewRowView {
                        log: listed[j]@,
                        shade: shade_of(j),
                    }),
        {
            let shade = alternate_colour(rows.len());
            rows.push(OverviewRow { log, shade });
        }
        let layout = Layout::Overview { logs: rows, selected: cursor };
        assert(layout@->logs =~= overview_layout(budgr@, cursor)->logs) by {
            assert(summary_views(listed).len() == listed.len());
        }
        layout
    }

    /// The table of the given purchases, with the selected row.
    pub fn log_detail(purchases: Vec<Purchase>, cursor: Option<usize>) -> (layout: Layout)
        ensures
            layout@ == detail_layout(purchase_views(purchases@), cursor),
    {
        let ghost listed = purchases@;
        let mut rows: Vec<PurchaseRow> = Vec::new();
        for purchase in it: purchases
            invariant
                it.seq() == listed,
                rows@.len() == it.index(),
                forall|j: int|
                    0 <= j < rows@.len() ==> (#[trigger] rows@[j])@ == (PurchaseRowView {
                        purchase: listed[j]@,
                        shade: shade_of(j),
                    }),
        {
            let shade = alternate_colour(rows.len());
            rows.push(PurchaseRow { purchase, shade });
        }
        let layout = Layout::LogDetail { purchases: rows, selected: cursor };
        assert(layout@->purchases =~= detail_layout(purchase_views(listed), cursor)->purchases);
        layout
    }

    /// The three boxes of a form, of which the active one is emphasized.
    pub fn purchase_form(fields: &Vec<InputData>, active_field_index: usize) -> (layout: Layout)
        requires
            fields@.len() == 3,
        ensures
            layout@ == form_layout(field_views(fields@), active_field_index),
    {
        Layout::PurchaseForm {
            name: InputBox { text: fields[0].input.clone(), emphasized: active_field_index == 0 },
            cost: InputBox { text: fields[1].input.clone(), emphasized: active_field_index == 1 },
            submit: InputBox { text: String::from_str("Submit"), emphasized: active_field_index == 2 },
        }
    }
}

} // verus!
