use crate::error::BudgrError;
use crate::text::{contains_char, decimal, decimal_text};
use vstd::prelude::*;
use vstd::string::*;

verus! {

/// The category that a purchase may be filed under.
#[derive(Clone, Copy, Debug, PartialEq, Eq, Structural)]
pub enum PurchaseType {
    Groceries,
    Leisure,
    Bill,
    School,
}

impl PurchaseType {
    /// The name of each category as it is shown.
    pub open spec fn label_text(self) -> Seq<char> {
        match self {
            PurchaseType::Groceries => "Groceries"@,
            PurchaseType::Leisure => "Leisure"@,
            PurchaseType::Bill => "Bill"@,
            PurchaseType::School => "School"@,
        }
    }

    /// The name of the category as it is shown.
    pub fn label(&self) -> (text: &'static str)
        ensures
            text@ == self.label_text(),
    {
        match self {
            PurchaseType::Groceries => "Groceries",
            PurchaseType::Leisure => "Leisure",
            PurchaseType::Bill => "Bill",
            PurchaseType::School => "School",
        }
    }
}

/// One expense: what was bought, under which category if any, and for how much.
#[derive(Debug, PartialEq, Eq)]
pub struct Purchase {
    pub name: String,
    pub tag: Option<PurchaseType>,
    pub cost: i64,
}

/// A purchase as a mathematical value.
pub struct PurchaseView {
    pub name: Seq<char>,
    pub tag: Option<PurchaseType>,
    pub cost: int,
}

impl View for Purchase {
    type V = PurchaseView;

    open spec fn view(&self) -> PurchaseView {
        PurchaseView { name: self.name@, tag: self.tag, cost: self.cost as int }
    }
}

impl Clone for Purchase {
    fn clone(&self) -> (copy: Self)
        ensures
            copy == *self,
    {
        Purchase { name: self.name.clone(), tag: self.tag, cost: self.cost }
    }
}

/// A named list of purchases, in the order in which they were added.
#[derive(Debug, PartialEq, Eq)]
pub struct Log {
    pub purchases: Vec<Purchase>,
    pub name: String,
}

/// A log as a mathematical value.
pub struct LogView {
    pub name: Seq<char>,
    pub purchases: Seq<PurchaseView>,
}

/// The purchases of a list, each as a mathematical value, in the same order.
pub open spec fn purchase_views(purchases: Seq<Purchase>) -> Seq<PurchaseView> {
    purchases.map_values(|p: Purchase| p@)
}

/// The logs of a list, each as a mathematical value, in the same order.
pub open spec fn log_views(logs: Seq<Log>) -> Seq<LogView> {
    logs.map_values(|l: Log| l@)
}

/// The sum of the costs of the purchases.
pub open spec fn total_cost(purchases: Seq<PurchaseView>) -> int
    decreases purchases.len(),
{
    if purchases.len() == 0 {
        0
    } else {
        total_cost(purchases.drop_last()) + purchases.last().cost
    }
}

impl LogView {
    /// A log of that name without purchases.
    pub open spec fn empty(name: Seq<char>) -> LogView {
        LogView { name, purchases: Seq::empty() }
    }

    /// The sum of the costs of the log's purchases.
    pub open spec fn total(self) -> int {
        total_cost(self.purchases)
    }

    /// The log with one more purchase at its end.
    pub open spec fn with_purchase(self, purchase: PurchaseView) -> LogView {
        LogView { name: self.name, purchases: self.purchases.push(purchase) }
    }

    /// The log without the purchase at `index`; those behind it move up by one.
    pub open spec fn without_purchase(self, index: int) -> LogView {
        LogView { name: self.name, purchases: self.purchases.remove(index) }
    }

    /// The name of the file that holds the log.
    pub open spec fn file_name(self) -> Seq<char> {
        self.name + ".json"@
    }
}

impl View for Log {
    type V = LogView;

    open spec fn view(&self) -> LogView {
        LogView { name: self.name@, purchases: purchase_views(self.purchases@) }
    }
}

impl Clone for Log {
    fn clone(&self) -> (copy: Self)
        ensures
            copy@ == self@,
    {
        let copy = Log { purchases: self.purchases.clone(), name: self.name.clone() };
        copy
    }
}

impl Default for Log {
    /// A log named `new-log` without purchases.
    fn default() -> (log: Log)
        ensures
            log@ == LogView::empty("new-log"@),
    {
        let log = Log { purchases: Vec::new(), name: String::from_str("new-log") };
        assert(log@.purchases =~= Seq::empty());
        log
    }
}

impl Log {
    /// The sum of the costs of all purchases of the log. No list that a `Vec` can hold has a
    /// sum outside `i128`.
    pub fn get_total(&self) -> (total: i128)
        ensures
            total == self@.total(),
    {
        let mut total: i128 = 0;
        let mut i: usize = 0;
        while i < self.purchases.len()
            invariant
                i <= self.purchases@.len(),
                total == total_cost(self@.purchases.take(i as int)),
                -(i as int) * 0x8000_0000_0000_0000 <= total <= (i as int) * 0x8000_0000_0000_0000,
            decreases self.purchases@.len() - i,
        {
            assert(self@.purchases.take(i + 1).drop_last() =~= self@.purchases.take(i as int));
            total = total + self.purchases[i].cost as i128;
            i += 1;
        }
        assert(self@.purchases.take(i as int) =~= self@.purchases);
        total
    }

    /// Adds a purchase at the end of the log.
    pub fn add_purchase(&mut self, name: String, tag: Option<PurchaseType>, cost: i64)
        ensures
            final(self)@ == old(self)@.with_purchase(
                PurchaseView { name: name@, tag, cost: cost as int },
            ),
    {
        self.purchases.push(Purchase { name, tag, cost });
        assert(final(self)@.purchases =~= old(self)@.purchases.push(
            PurchaseView { name: name@, tag, cost: cost as int },
        ));
    }

    /// The name of the file that holds the log: the log's name and `.json`.
    pub fn file_name(&self) -> (file: String)
        ensures
            file@ == self@.file_name(),
    {
        let mut file = self.name.clone();
        file.append(".json");
        file
    }
}

/// One row of the list of all logs: which log, its name, how many purchases it holds and
/// what they cost together.
#[derive(Debug, PartialEq, Eq)]
pub struct LogSummary {
    pub id: usize,
    pub name: String,
    pub purchase_count: usize,
    pub total_cost: i128,
}

/// A row of the list of all logs as a mathematical value.
pub struct LogSummaryView {
    pub id: int,
    pub name: Seq<char>,
    pub purchase_count: nat,
    pub total_cost: int,
}

impl View for LogSummary {
    type V = LogSummaryView;

    open spec fn view(&self) -> LogSummaryView {
        LogSummaryView {
            id: self.id as int,
            name: self.name@,
            purchase_count: self.purchase_count as nat,
            total_cost: self.total_cost as int,
        }
    }
}

/// The rows of a list, each as a mathematical value, in the same order.
pub open spec fn summary_views(rows: Seq<LogSummary>) -> Seq<LogSummaryView> {
    rows.map_values(|r: LogSummary| r@)
}

/// The row that stands for the log at `id`.
pub open spec fn summary_of(logs: Seq<LogView>, id: int) -> LogSummaryView {
    LogSummaryView {
        id,
        name: logs[id].name,
        purchase_count: logs[id].purchases.len(),
        total_cost: logs[id].total(),
    }
}

/// One row for each log, in the order of the logs.
pub open spec fn summaries(logs: Seq<LogView>) -> Seq<LogSummaryView> {
    Seq::new(logs.len(), |id: int| summary_of(logs, id))
}

/// Whether one of the logs has that name.
pub open spec fn name_taken(logs: Seq<LogView>, name: Seq<char>) -> bool {
    exists|i: int| 0 <= i < logs.len() && #[trigger] logs[i].name == name
}

/// The logs after a purchase was added at the end of the log at `log_index`.
pub open spec fn with_purchase(logs: Seq<LogView>, log_index: int, purchase: PurchaseView) -> Seq<
    LogView,
> {
    logs.update(log_index, logs[log_index].with_purchase(purchase))
}

/// The logs after the purchase at `index` was taken out of the log at `log_index`.
pub open spec fn without_purchase(logs: Seq<LogView>, log_index: int, index: int) -> Seq<LogView> {
    logs.update(log_index, logs[log_index].without_purchase(index))
}

/// The purchases of the log at `log_index`, and none where there is no such log.
pub open spec fn purchases_of(logs: Seq<LogView>, log_index: int) -> Seq<PurchaseView> {
    if 0 <= log_index < logs.len() {
        logs[log_index].purchases
    } else {
        Seq::empty()
    }
}

/// Tells whether `index` is a position in the list.
pub fn check_index<T>(list: &Vec<T>, index: usize) -> (r: Result<usize, BudgrError>)
    ensures
        index < list@.len() ==> r == Ok::<usize, BudgrError>(index),
        index >= list@.len() ==> r == Err::<usize, BudgrError>(BudgrError::IndexOutOfRange),
{
    if index < list.len() {
        Ok(index)
    } else {
        Err(BudgrError::IndexOutOfRange)
    }
}

/// The store: all logs, in the order in which they were made. A log is known by its
/// position in that order.
#[derive(Debug, PartialEq, Eq)]
pub struct Budgr {
    pub logs: Vec<Log>,
}

impl View for Budgr {
    type V = Seq<LogView>;

    open spec fn view(&self) -> Seq<LogView> {
        log_views(self.logs@)
    }
}

impl Budgr {
    /// A store without logs.
    pub fn new() -> (store: Self)
        ensures
            store@ == Seq::<LogView>::empty(),
    {
        let store = Budgr { logs: Vec::new() };
        store
    }

    /// Adds an empty log of the given name at the end, unless a log of that name exists or
    /// the name holds a space.
    pub fn new_log(&mut self, name: String) -> (r: Result<(), BudgrError>)
        ensures
            name_taken(old(self)@, name@) ==> r == Err::<(), BudgrError>(BudgrError::LogExists),
            !name_taken(old(self)@, name@) && name@.contains(' ') ==> r == Err::<(), BudgrError>(
                BudgrError::SpaceInName,
            ),
            !name_taken(old(self)@, name@) && !name@.contains(' ') ==> r is Ok,
            r is Ok ==> final(self)@ == old(self)@.push(LogView::empty(name@)),
            r is Err ==> final(self)@ == old(self)@,
    {
        let mut i: usize = 0;
        while i < self.logs.len()
            invariant
                i <= self.logs@.len(),
                *self == *old(self),
                forall|j: int| 0 <= j < i ==> (#[trigger] self@[j]).name != name@,
            decreases self.logs@.len() - i,
        {
            if self.logs[i].name == name {
                assert(self@[i as int].name == name@);
                return Err(BudgrError::LogExists);
            }
            i += 1;
        }
        if contains_char(name.as_str(), ' ') {
            return Err(BudgrError::SpaceInName);
        }
        let log = Log { purchases: Vec::new(), name };
        assert(log@.purchases =~= Seq::empty());
        self.logs.push(log);
        Ok(())
    }

    /// Takes the log at `log_index` out of the store and hands it back; the logs behind it
    /// move up by one.
    pub fn delete_log(&mut self, log_index: usize) -> (r: Result<Log, BudgrError>)
        ensures
            log_index < old(self)@.len() ==> r is Ok && r->Ok_0@ == old(self)@[log_index as int]
                && final(self)@ == old(self)@.remove(log_index as int),
            log_index >= old(self)@.len() ==> r == Err::<Log, BudgrError>(
                BudgrError::IndexOutOfRange,
            ) && final(self)@ == old(self)@,
    {
        match check_index(&self.logs, log_index) {
            Ok(at) => {
                let log = self.logs.remove(at);
                Ok(log)
            },
            Err(e) => Err(e),
        }
    }

    /// Adds a purchase at the end of the log at `log_index`.
    pub fn add_purchase(
        &mut self,
        log_index: usize,
        name: String,
        tag: Option<PurchaseType>,
        cost: i64,
    ) -> (r: Result<(), BudgrError>)
        ensures
            log_index < old(self)@.len() ==> r is Ok && final(self)@ == with_purchase(
                old(self)@,
                log_index as int,
                PurchaseView { name: name@, tag, cost: cost as int },
            ),
            log_index >= old(self)@.len() ==> r == Err::<(), BudgrError>(
                BudgrError::IndexOutOfRange,
            ) && final(self)@ == old(self)@,
    {
        match check_index(&self.logs, log_index) {
            Ok(at) => {
                self.logs[at].add_purchase(name, tag, cost);
                Ok(())
            },
            Err(e) => Err(e),
        }
    }

    /// Takes the purchase at `index` out of the log at `log_index`; the purchases behind it
    /// move up by one.
    pub fn remove_purchase(&mut self, log_index: usize, index: usize) -> (r: Result<
        (),
        BudgrError,
    >)
        ensures
            index < purchases_of(old(self)@, log_index as int).len() ==> r is Ok && final(self)@
                == without_purchase(old(self)@, log_index as int, index as int),
            index >= purchases_of(old(self)@, log_index as int).len() ==> r == Err::<
                (),
                BudgrError,
            >(BudgrError::IndexOutOfRange) && final(self)@ == old(self)@,
    {
        match check_index(&self.logs, log_index) {
            Ok(at) => {
                if index < self.logs[at].purchases.len() {
                    self.logs[at].purchases.remove(index);
                    assert(self@ =~= without_purchase(old(self)@, log_index as int, index as int)) by {
                        assert(self@[at as int].purchases =~= old(self)@[at as int].purchases.remove(
                            index as int,
                        ));
                    }
                    Ok(())
                } else {
                    Err(BudgrError::IndexOutOfRange)
                }
            },
            Err(e) => Err(e),
        }
    }

    /// The sum of the costs of all purchases of the log at `log_index`.
    pub fn get_total(&self, log_index: usize) -> (r: Result<i128, BudgrError>)
        ensures
            log_index < self@.len() ==> r is Ok && r->Ok_0 == self@[log_index as int].total(),
            log_index >= self@.len() ==> r == Err::<i128, BudgrError>(BudgrError::IndexOutOfRange),
    {
        match check_index(&self.logs, log_index) {
            Ok(at) => Ok(self.logs[at].get_total()),
            Err(e) => Err(e),
        }
    }

    /// What was spent in the log at `log_index`: the sum of the costs of all its purchases.
    pub fn get_expenses(&self, log_index: usize) -> (r: Result<i128, BudgrError>)
        ensures
            log_index < self@.len() ==> r is Ok && r->Ok_0 == self@[log_index as int].total(),
            log_index >= self@.len() ==> r == Err::<i128, BudgrError>(BudgrError::IndexOutOfRange),
    {
        self.get_total(log_index)
    }

    /// One row for each log, in the order of the logs.
    pub fn list_logs(&self) -> (rows: Vec<LogSummary>)
        ensures
            summary_views(rows@) == summaries(self@),
    {
        let mut rows: Vec<LogSummary> = Vec::new();
        let mut id: usize = 0;
        while id < self.logs.len()
            invariant
                id <= self.logs@.len(),
                rows@.len() == id,
                forall|j: int| 0 <= j < id ==> (#[trigger] rows@[j])@ == summary_of(self@, j),
            decreases self.logs@.len() - id,
        {
            let log = &self.logs[id];
            rows.push(
                LogSummary {
                    id,
                    name: log.name.clone(),
                    purchase_count: log.purchases.len(),
                    total_cost: log.get_total(),
                },
            );
            id += 1;
        }
        rows
    }

    /// The purchases of the log at `log_id`, in the order in which they were added.
    pub fn list_purchases(&self, log_id: usize) -> (r: Result<Vec<Purchase>, BudgrError>)
        ensures
            log_id < self@.len() ==> r is Ok && purchase_views(r->Ok_0@) == purchases_of(
                self@,
                log_id as int,
            ),
            log_id >= self@.len() ==> r == Err::<Vec<Purchase>, BudgrError>(
                BudgrError::IndexOutOfRange,
            ),
    {
        match check_index(&self.logs, log_id) {
            Ok(at) => {
                let purchases = self.logs[at].purchases.clone();
                Ok(purchases)
            },
            Err(e) => Err(e),
        }
    }
}

/// How the category of a purchase is shown: by its name, and as `none` where it has none.
pub open spec fn tag_text(tag: Option<PurchaseType>) -> Seq<char> {
    match tag {
        Some(tag) => tag.label_text(),
        None => "none"@,
    }
}

/// The line that shows a purchase.
pub open spec fn purchase_line(purchase: PurchaseView) -> Seq<char> {
    "purchase: name: "@ + purchase.name + ", tag: "@ + tag_text(purchase.tag) + ", purchase: "@
        + decimal_text(purchase.cost)
}

/// The lines that show the purchases, one after the other, each with its line break.
pub open spec fn purchase_lines(purchases: Seq<PurchaseView>) -> Seq<char>
    decreases purchases.len(),
{
    if purchases.len() == 0 {
        Seq::empty()
    } else {
        purchase_lines(purchases.drop_last()) + purchase_line(purchases.last()) + "\n"@
    }
}

/// The text that shows the log at `log_index`: a line with its name and its place, a line
/// for each of its purchases, and two empty lines.
pub open spec fn log_text(logs: Seq<LogView>, log_index: int) -> Seq<char> {
    "Log Print: "@ + logs[log_index].name + ", log index: "@ + decimal_text(log_index) + "\n"@
        + purchase_lines(logs[log_index].purchases) + "\n\n"@
}

/// The text that shows the first `count` logs, one after the other.
pub open spec fn logs_text(logs: Seq<LogView>, count: nat) -> Seq<char>
    decreases count,
{
    if count == 0 {
        Seq::empty()
    } else {
        logs_text(logs, (count - 1) as nat) + log_text(logs, count - 1)
    }
}

impl Budgr {
    /// The line that shows a purchase.
    pub fn print_purchase(purchase: &Purchase) -> (line: String)
        ensures
            line@ == purchase_line(purchase@),
    {
        let mut line = String::from_str("purchase: name: ");
        line.append(purchase.name.as_str());
        line.append(", tag: ");
        match purchase.tag {
            Some(tag) => line.append(tag.label()),
            None => line.append("none"),
        }
        line.append(", purchase: ");
        line.append(decimal(purchase.cost as i128).as_str());
        line
    }

    /// The text that shows the log at `log_index`.
    pub fn print_log(&self, log_index: usize) -> (r: Result<String, BudgrError>)
        ensures
            log_index < self@.len() ==> r is Ok && r->Ok_0@ == log_text(self@, log_index as int),
            log_index >= self@.len() ==> r == Err::<String, BudgrError>(
                BudgrError::IndexOutOfRange,
            ),
    {
        match check_index(&self.logs, log_index) {
            Ok(at) => {
                let log = &self.logs[at];
                let mut text = String::from_str("Log Print: ");
                text.append(log.name.as_str());
                text.append(", log index: ");
                text.append(decimal(log_index as i128).as_str());
                text.append("\n");
                let ghost head = text@;
                let mut i: usize = 0;
                while i < log.purchases.len()
                    invariant
                        i <= log.purchases@.len(),
                        text@ == head + purchase_lines(log@.purchases.take(i as int)),
                    decreases log.purchases@.len() - i,
                {
                    assert(log@.purchases.take(i + 1).drop_last() =~= log@.purchases.take(i as int));
                    text.append(Budgr::print_purchase(&log.purchases[i]).as_str());
                    text.append("\n");
                    i += 1;
                }
                assert(log@.purchases.take(i as int) =~= log@.purchases);
                text.append("\n\n");
                Ok(text)
            },
            Err(e) => Err(e),
        }
    }

    /// The text that shows all logs, one after the other.
    pub fn print_logs(&self) -> (text: String)
        ensures
            text@ == logs_text(self@, self@.len()),
    {
        let mut text = String::new();
        let mut i: usize = 0;
        while i < self.logs.len()
            invariant
                i <= self.logs@.len(),
                text@ == logs_text(self@, i as nat),
            decreases self.logs@.len() - i,
        {
            match self.print_log(i) {
                Ok(shown) => text.append(shown.as_str()),
                Err(_) => {},
            }
            i += 1;
        }
        text
    }
}

/// The purchase at place `j` of the sample log at place `i`.
pub open spec fn sample_purchase(i: int, j: int) -> PurchaseView {
    PurchaseView {
        name: "purchase:"@ + decimal_text(i * j),
        tag: Some(PurchaseType::Groceries),
        cost: i * j,
    }
}

/// The sample log at place `i`, of which the first `count` purchases are there.
pub open spec fn sample_log(i: int, count: nat) -> LogView {
    LogView {
        name: "test_log"@ + decimal_text(i),
        purchases: Seq::new(count, |j: int| sample_purchase(i, j)),
    }
}

/// A store to try things on: four logs, `test_log0` to `test_log3`, each with four
/// purchases, of which the one at place `j` of the log at place `i` costs `i * j`.
pub fn make_test_budgr() -> (budgr: Budgr)
    ensures
        budgr@ == Seq::new(4, |i: int| sample_log(i, 4)),
{
    let mut budgr = Budgr::new();
    let mut i: usize = 0;
    while i < 4
        invariant
            i <= 4,
            budgr@ == Seq::new(i as nat, |k: int| sample_log(k, 4)),
        decreases 4 - i,
    {
        let mut name = String::from_str("test_log");
        name.append(decimal(i as i128).as_str());
        proof {
            reveal_strlit("test_log");
            assert(!name_taken(budgr@, name@)) by {
                assert forall|k: int| 0 <= k < budgr@.len() implies (#[trigger] budgr@[k]).name
                    != name@ by {
                    assert(budgr@[k].name[8] != name@[8]);
                }
            }
        }
        let _ = budgr.new_log(name);
        let ghost before = budgr@;
        assert(before[i as int] == sample_log(i as int, 0)) by {
            assert(sample_log(i as int, 0).purchases =~= Seq::empty());
        }
        let mut j: usize = 0;
        while j < 4
            invariant
                i < 4,
                j <= 4,
                before.len() == i + 1,
                budgr@ == before.update(i as int, sample_log(i as int, j as nat)),
            decreases 4 - j,
        {
            assert(i * j <= 9) by (nonlinear_arith)
                requires
                    i < 4,
                    j < 4,
            ;
            let cost: usize = i * j;
            let mut purchase = String::from_str("purchase:");
            purchase.append(decimal(cost as i128).as_str());
            let _ = budgr.add_purchase(i, purchase, Some(PurchaseType::Groceries), cost as i64);
            assert(sample_log(i as int, j as nat).with_purchase(sample_purchase(i as int, j as int))
                =~= sample_log(i as int, (j + 1) as nat)) by {
                assert(sample_log(i as int, j as nat).purchases.push(
                    sample_purchase(i as int, j as int),
                ) =~= sample_log(i as int, (j + 1) as nat).purchases);
            }
            j += 1;
        }
        i += 1;
    }
    budgr
}

/// The places of the logs that could not be written, in their order, where
/// `written[i]` says whether the log at place `i` was written.
pub open spec fn failed_places(written: Seq<bool>) -> Seq<usize>
    decreases written.len(),
{
    if written.len() == 0 {
        Seq::empty()
    } else if written.last() {
        failed_places(written.drop_last())
    } else {
        failed_places(written.drop_last()).push((written.len() - 1) as usize)
    }
}

/// Some logs could not be written to their files: `failed` holds their places, in their
/// order.
#[derive(Debug, PartialEq, Eq)]
pub struct PersistenceFailure {
    pub failed: Vec<usize>,
}

/// What became of writing the logs to their files, one file for each log: all is well
/// where every log was written; else the failure names every log that was not, so that
/// one log that cannot be written does not hide what became of the others.
pub fn persist_outcome(written: &Vec<bool>) -> (r: Result<(), PersistenceFailure>)
    ensures
        failed_places(written@).len() == 0 ==> r is Ok,
        failed_places(written@).len() > 0 ==> r is Err && r->Err_0.failed@ == failed_places(
            written@,
        ),
{
    let mut failed: Vec<usize> = Vec::new();
    let mut i: usize = 0;
    while i < written.len()
        invariant
            i <= written@.len(),
            failed@ == failed_places(written@.take(i as int)),
        decreases written@.len() - i,
    {
        assert(written@.take(i + 1).drop_last() =~= written@.take(i as int));
        if !written[i] {
            failed.push(i);
        }
        i += 1;
    }
    assert(written@.take(i as int) =~= written@);
    if failed.len() == 0 {
        Ok(())
    } else {
        Err(PersistenceFailure { failed })
    }
}

/// Taking a purchase out of a log leaves every other purchase of the log in the list, in
/// the order that they had: those before it stay where they were, those behind it move up
/// by one. The other logs keep their purchases.
pub proof fn lemma_remove_keeps_the_others(logs: Seq<LogView>, log_id: int, index: int)
    requires
        0 <= log_id < logs.len(),
        0 <= index < logs[log_id].purchases.len(),
    ensures
        ({
            let before = purchases_of(logs, log_id);
            let after = purchases_of(without_purchase(logs, log_id, index), log_id);
            &&& after.len() == before.len() - 1
            &&& forall|j: int| 0 <= j < index ==> after[j] == before[j]
            &&& forall|j: int| index <= j < after.len() ==> after[j] == before[j + 1]
        }),
        forall|other: int|
            other != log_id ==> purchases_of(without_purchase(logs, log_id, index), other)
                == purchases_of(logs, other),
{
}

/// A purchase that was added to a log is the last of its list, behind those that were
/// there, which stay as they were.
pub proof fn lemma_added_purchase_is_listed_last(
    logs: Seq<LogView>,
    log_id: int,
    purchase: PurchaseView,
)
    requires
        0 <= log_id < logs.len(),
    ensures
        ({
            let before = purchases_of(logs, log_id);
            let after = purchases_of(with_purchase(logs, log_id, purchase), log_id);
            &&& after.len() == before.len() + 1
            &&& after.last() == purchase
            &&& forall|j: int| 0 <= j < before.len() ==> after[j] == before[j]
        }),
        forall|other: int|
            other != log_id ==> purchases_of(with_purchase(logs, log_id, purchase), other)
                == purchases_of(logs, other),
{
}

} // verus!
