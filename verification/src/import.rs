//! One import run: for each line of the fund/inventory list, find the
//! inventory in MS SQL Server, read its units from MS Access, number them,
//! make sure the inventory has a structure record, and insert the units not
//! yet recorded. The run is a state machine: the caller performs each action
//! (reading the next line, a query, a statement) and hands back what came of
//! it as the next event.

use vstd::prelude::*;

use crate::clock::{now_millis, sql_timestamp, sql_timestamp_text};
use crate::models::{unit_built_from, AccessUnit, TblUnit};
use crate::sql::{
    access_units_request, existing_units_request, insert_new_units_sql, is_access_units_request,
    is_existing_units_request, is_isn_inventory_request, is_max_isn_unit_request,
    is_structure_exists_request, isn_inventory_from_reply, lemma_non_existent_units_keep_order,
    numbers_increasing, isn_inventory_of, isn_inventory_request,
    lemma_non_existent_units, max_isn_unit_from_reply, max_isn_unit_of, max_isn_unit_request,
    non_existent_units, non_existent_units_of, structure_exists_from_reply,
    structure_exists_request, structure_insert_sql, structure_values, units_insert_text,
    creation_times_writable, param_value, ParamValue, SqlRequest, UnitKey, ACCESS_UNITS_SQL,
    EXISTING_UNITS_SQL, STRUCTURE_INSERT_HEAD,
};
use crate::text::{parse_list_line, tuple_text, words, LineError};

verus! {

/// Whether `units` are the records built from the MS Access units `rows`
/// for the inventory `isn_inventory`, numbered from `max_isn_unit + 1` on in
/// the order of the rows.
pub open spec fn units_built(units: Seq<TblUnit>, rows: Seq<AccessUnit>, isn_inventory: i64, max_isn_unit: i64) -> bool {
    &&& units.len() == rows.len()
    &&& forall|i: int| 0 <= i < units.len() ==> unit_built_from(
        #[trigger] units[i],
        rows[i],
        isn_inventory,
        (max_isn_unit + 1 + i) as i64,
    )
}

/// Builds the records of the MS Access units `rows` for the inventory
/// `isn_inventory`, numbering them `max_isn_unit + 1`, `max_isn_unit + 2`,
/// and so on; `None` where the last number would pass `i64::MAX`.
pub fn build_units(rows: &Vec<AccessUnit>, isn_inventory: i64, max_isn_unit: i64) -> (res: Option<Vec<TblUnit>>)
    ensures
        res is Some <==> max_isn_unit + rows@.len() <= i64::MAX,
        res is Some ==> units_built(res.unwrap()@, rows@, isn_inventory, max_isn_unit),
{
    let n = rows.len();
    let mut units: Vec<TblUnit> = Vec::new();
    let mut isn_unit: i64 = max_isn_unit;
    let mut i: usize = 0;
    while i < n
        invariant
            n == rows@.len(),
            i <= n,
            units@.len() == i,
            isn_unit == max_isn_unit + i,
            forall|j: int| 0 <= j < i ==> unit_built_from(
                #[trigger] units@[j],
                rows@[j],
                isn_inventory,
                (max_isn_unit + 1 + j) as i64,
            ),
        decreases n - i,
    {
        if isn_unit == i64::MAX {
            return None;
        }
        isn_unit = isn_unit + 1;
        units.push(TblUnit::new(&rows[i], isn_inventory, isn_unit));
        i = i + 1;
    }
    Some(units)
}

/// The units built for one inventory get numbers that are all above the
/// greatest number in use before and all different from each other,
/// increasing in the order of the rows.
pub proof fn lemma_unit_numbers_fresh(units: Seq<TblUnit>, rows: Seq<AccessUnit>, isn_inventory: i64, max_isn_unit: i64)
    requires
        units_built(units, rows, isn_inventory, max_isn_unit),
        max_isn_unit + rows.len() <= i64::MAX,
    ensures
        forall|i: int| 0 <= i < units.len() ==> (#[trigger] units[i]).isn_unit > max_isn_unit,
        forall|i: int, j: int| 0 <= i < j < units.len() ==> (#[trigger] units[i]).isn_unit < (#[trigger] units[j]).isn_unit,
        forall|i: int| 0 <= i < units.len() ==> (#[trigger] units[i]).isn_inventory == isn_inventory,
{
    assert forall|i: int| 0 <= i < units.len() implies (#[trigger] units[i]).isn_unit > max_isn_unit by {
        assert(unit_built_from(units[i], rows[i], isn_inventory, (max_isn_unit + 1 + i) as i64));
    }
    assert forall|i: int, j: int| 0 <= i < j < units.len() implies (#[trigger] units[i]).isn_unit < (#[trigger] units[j]).isn_unit by {
        assert(unit_built_from(units[i], rows[i], isn_inventory, (max_isn_unit + 1 + i) as i64));
        assert(unit_built_from(units[j], rows[j], isn_inventory, (max_isn_unit + 1 + j) as i64));
    }
    assert forall|i: int| 0 <= i < units.len() implies (#[trigger] units[i]).isn_inventory == isn_inventory by {
        assert(unit_built_from(units[i], rows[i], isn_inventory, (max_isn_unit + 1 + i) as i64));
    }
}


/// Where an import run stands: what it waits for, and what it carries
/// from one request to the next.
#[derive(Debug)]
pub enum Stage {
    /// Waits for the next line of the list (or its end).
    AwaitLine,
    /// Waits for the greatest unit number in use.
    AwaitMaxIsnUnit { fund: String, inventory: String },
    /// Waits for the number of the inventory.
    AwaitIsnInventory { fund: String, inventory: String, max_isn_unit: i64 },
    /// Waits for the inventory's units from MS Access.
    AwaitAccessUnits { isn_inventory: i64, max_isn_unit: i64 },
    /// Waits to learn whether the inventory has a structure record.
    AwaitStructureExists { isn_inventory: i64, max_isn_unit: i64, units: Vec<TblUnit> },
    /// Waits for the structure record to be inserted.
    AwaitStructureInserted { isn_inventory: i64, max_isn_unit: i64, units: Vec<TblUnit> },
    /// Waits for the unit numbers already recorded in the inventory.
    AwaitExistingUnits { max_isn_unit: i64, units: Vec<TblUnit> },
    /// Waits for the new units to be inserted.
    AwaitUnitsInserted,
    /// The list is done.
    Finished,
    /// The run has stopped on an error.
    Failed,
}

/// Why a run stopped.
#[derive(Debug, Clone, Copy, PartialEq, Eq, Structural)]
pub enum ImportError {
    /// A line of the list lacks a field.
    BadLine(LineError),
    /// A unit number would pass `i64::MAX`.
    UnitNumberOverflow,
    /// The count of units would pass `usize::MAX`.
    CountOverflow,
    /// The event does not answer the run's last action.
    UnexpectedEvent,
}

/// What the caller hands back after performing an action.
#[derive(Debug)]
pub enum Event {
    /// The next line of the list.
    Line(String),
    /// The list has no more lines.
    EndOfList,
    /// The first row of a one-column integer query: `None` where there is
    /// no row, `Some(None)` where its value is NULL.
    FirstRow(Option<Option<i64>>),
    /// The rows of the MS Access units query.
    AccessUnits(Vec<AccessUnit>),
    /// The number of rows of a query.
    RowCount(usize),
    /// A statement has been executed.
    Executed,
    /// The unit numbers already recorded in the inventory.
    ExistingUnits(Vec<UnitKey>),
}

/// What the caller is to do next, and which event answers it.
#[derive(Debug)]
pub enum Action {
    /// Read the next line of the list: answered by `Line` or `EndOfList`.
    ReadLine,
    /// Report that the inventory was not found, then read the next line.
    SkipInventory,
    /// Report that all units of the inventory are already recorded, then
    /// read the next line.
    AllUnitsPresent,
    /// Query the greatest unit number in use: answered by `FirstRow`.
    FetchMaxIsnUnit(SqlRequest),
    /// Query the number of the inventory `inventory` of the fund `fund`:
    /// answered by `FirstRow`.
    FetchIsnInventory { query: SqlRequest, fund: String, inventory: String },
    /// Query MS Access for the inventory's units: answered by `AccessUnits`.
    FetchAccessUnits(SqlRequest),
    /// Query the structure record: answered by `RowCount`.
    CheckStructure(SqlRequest),
    /// Execute the insert of the structure record: answered by `Executed`.
    InsertStructure(String),
    /// Query the recorded unit numbers: answered by `ExistingUnits`.
    FetchExistingUnits(SqlRequest),
    /// Execute the insert of `count` new units: answered by `Executed`.
    InsertUnits { sql: String, count: usize },
    /// The list is done: report the units found and the units inserted.
    Finish { total_units: usize, inserted_units: usize },
    /// Stop on an error.
    Fail(ImportError),
}

/// An import run: where it stands, and how many units it has found in MS
/// Access and inserted into MS SQL Server so far.
#[derive(Debug)]
pub struct ImportRun {
    pub stage: Stage,
    pub total_units: usize,
    pub inserted_units: usize,
}

/// Whether a list of units carries unit number suffixes throughout (as
/// units built by `TblUnit::new` do).
pub open spec fn suffixes_present(units: Seq<TblUnit>) -> bool {
    forall|i: int| 0 <= i < units.len() ==> (#[trigger] units[i]).unit_num_2 is Some
}

/// Whether every unit number of `units` is above `max_isn_unit`.
pub open spec fn numbers_above(units: Seq<TblUnit>, max_isn_unit: i64) -> bool {
    forall|i: int| 0 <= i < units.len() ==> (#[trigger] units[i]).isn_unit > max_isn_unit
}

impl ImportRun {
    /// The run's invariant: no more units inserted than found, counting the
    /// units of the inventory in hand as not yet inserted; the units in hand
    /// carry suffixes and creation times that can be written, and numbers
    /// above the greatest number in use before, strictly increasing.
    pub open spec fn wf(&self) -> bool {
        match self.stage {
            Stage::AwaitStructureExists { units, max_isn_unit, .. } => {
                &&& self.inserted_units + units.len() <= self.total_units
                &&& suffixes_present(units@)
                &&& creation_times_writable(units@)
                &&& numbers_above(units@, max_isn_unit)
                &&& numbers_increasing(units@)
            },
            Stage::AwaitStructureInserted { units, max_isn_unit, .. } => {
                &&& self.inserted_units + units.len() <= self.total_units
                &&& suffixes_present(units@)
                &&& creation_times_writable(units@)
                &&& numbers_above(units@, max_isn_unit)
                &&& numbers_increasing(units@)
            },
            Stage::AwaitExistingUnits { units, max_isn_unit } => {
                &&& self.inserted_units + units.len() <= self.total_units
                &&& suffixes_present(units@)
                &&& creation_times_writable(units@)
                &&& numbers_above(units@, max_isn_unit)
                &&& numbers_increasing(units@)
            },
            _ => self.inserted_units <= self.total_units,
        }
    }

    /// A new run, waiting for the first line of the list.
    pub fn new() -> (res: ImportRun)
        ensures
            res.wf(),
            res.stage is AwaitLine,
            res.total_units == 0,
            res.inserted_units == 0,
    {
        ImportRun { stage: Stage::AwaitLine, total_units: 0, inserted_units: 0 }
    }
}

/// The counts are unchanged.
pub open spec fn same_counts(s: ImportRun, t: ImportRun) -> bool {
    &&& t.total_units == s.total_units
    &&& t.inserted_units == s.inserted_units
}

/// The run stops with `err`, its counts unchanged.
pub open spec fn fails_with(s: ImportRun, t: ImportRun, a: Action, err: ImportError) -> bool {
    &&& t.stage is Failed
    &&& same_counts(s, t)
    &&& a == Action::Fail(err)
}

/// Whether `c` is the SQL timestamp of some instant.
pub open spec fn is_timestamp_text(c: Seq<char>) -> bool {
    exists|m: int| #[trigger] sql_timestamp_text(m) == Some(c)
}

/// The step from run `s` on event `e` to run `t` with action `a`.
///
/// A line is split into its fund and inventory numbers (a line short of
/// either stops the run); then come the greatest unit number in use and the
/// inventory's number, and an unknown inventory (number -1) is skipped. The
/// inventory's MS Access units are built into records numbered on from the
/// greatest number and counted as found. An inventory without a structure
/// record gets one, created at the clock's time (some instant that can be
/// written as an SQL timestamp). Of the units, those whose
/// number is not recorded yet are inserted and counted as inserted; when
/// there are none, the run goes on with the next line. The end of the list
/// finishes the run with its counts. An event that does not answer the last
/// action stops the run.
pub open spec fn transition(s: ImportRun, e: Event, t: ImportRun, a: Action) -> bool {
    match s.stage {
        Stage::AwaitLine => match e {
            Event::Line(line) => {
                let w = words(line@);
                if w.len() == 0 {
                    fails_with(s, t, a, ImportError::BadLine(LineError::MissingFund))
                } else if w.len() == 1 {
                    fails_with(s, t, a, ImportError::BadLine(LineError::MissingInventory))
                } else {
                    &&& same_counts(s, t)
                    &&& t.stage matches Stage::AwaitMaxIsnUnit { fund, inventory }
                    &&& fund@ == w[0]
                    &&& inventory@ == w[1]
                    &&& a matches Action::FetchMaxIsnUnit(q)
                    &&& is_max_isn_unit_request(q)
                }
            },
            Event::EndOfList => {
                &&& t.stage is Finished
                &&& same_counts(s, t)
                &&& a == Action::Finish { total_units: s.total_units, inserted_units: s.inserted_units }
            },
            _ => fails_with(s, t, a, ImportError::UnexpectedEvent),
        },
        Stage::AwaitMaxIsnUnit { fund, inventory } => match e {
            Event::FirstRow(row) => {
                &&& same_counts(s, t)
                &&& t.stage matches Stage::AwaitIsnInventory { fund: f, inventory: i, max_isn_unit }
                &&& f@ == fund@
                &&& i@ == inventory@
                &&& max_isn_unit == max_isn_unit_of(row)
                &&& a matches Action::FetchIsnInventory { query: q, fund: f2, inventory: i2 }
                &&& is_isn_inventory_request(q, fund@, inventory@)
                &&& f2@ == fund@
                &&& i2@ == inventory@
            },
            _ => fails_with(s, t, a, ImportError::UnexpectedEvent),
        },
        Stage::AwaitIsnInventory { fund, inventory, max_isn_unit } => match e {
            Event::FirstRow(row) => if isn_inventory_of(row) == -1 {
                &&& same_counts(s, t)
                &&& t.stage is AwaitLine
                &&& a is SkipInventory
            } else {
                &&& same_counts(s, t)
                &&& t.stage matches Stage::AwaitAccessUnits { isn_inventory, max_isn_unit: m }
                &&& isn_inventory == isn_inventory_of(row)
                &&& m == max_isn_unit
                &&& a matches Action::FetchAccessUnits(q)
                &&& is_access_units_request(q, fund@, inventory@)
            },
            _ => fails_with(s, t, a, ImportError::UnexpectedEvent),
        },
        Stage::AwaitAccessUnits { isn_inventory, max_isn_unit } => match e {
            Event::AccessUnits(rows) => if max_isn_unit + rows@.len() > i64::MAX {
                fails_with(s, t, a, ImportError::UnitNumberOverflow)
            } else if s.total_units + rows@.len() > usize::MAX {
                fails_with(s, t, a, ImportError::CountOverflow)
            } else {
                &&& t.total_units == s.total_units + rows@.len()
                &&& t.inserted_units == s.inserted_units
                &&& t.stage matches Stage::AwaitStructureExists { isn_inventory: i, max_isn_unit: m, units }
                &&& i == isn_inventory
                &&& m == max_isn_unit
                &&& units_built(units@, rows@, isn_inventory, max_isn_unit)
                &&& a matches Action::CheckStructure(q)
                &&& is_structure_exists_request(q, isn_inventory)
            },
            _ => fails_with(s, t, a, ImportError::UnexpectedEvent),
        },
        Stage::AwaitStructureExists { isn_inventory, max_isn_unit, units } => match e {
            Event::RowCount(n) => if n > 0 {
                &&& same_counts(s, t)
                &&& t.stage matches Stage::AwaitExistingUnits { max_isn_unit: m, units: u }
                &&& m == max_isn_unit
                &&& u@ == units@
                &&& a matches Action::FetchExistingUnits(q)
                &&& is_existing_units_request(q, isn_inventory)
            } else {
                &&& same_counts(s, t)
                &&& t.stage matches Stage::AwaitStructureInserted { isn_inventory: i, max_isn_unit: m, units: u }
                &&& i == isn_inventory
                &&& m == max_isn_unit
                &&& u@ == units@
                &&& a matches Action::InsertStructure(sql)
                &&& exists|c: Seq<char>| is_timestamp_text(c)
                    && sql@ == STRUCTURE_INSERT_HEAD@ + tuple_text(#[trigger] structure_values(isn_inventory, c))
            },
            _ => fails_with(s, t, a, ImportError::UnexpectedEvent),
        },
        Stage::AwaitStructureInserted { isn_inventory, max_isn_unit, units } => match e {
            Event::Executed => {
                &&& same_counts(s, t)
                &&& t.stage matches Stage::AwaitExistingUnits { max_isn_unit: m, units: u }
                &&& m == max_isn_unit
                &&& u@ == units@
                &&& a matches Action::FetchExistingUnits(q)
                &&& is_existing_units_request(q, isn_inventory)
            },
            _ => fails_with(s, t, a, ImportError::UnexpectedEvent),
        },
        Stage::AwaitExistingUnits { units, .. } => match e {
            Event::ExistingUnits(keys) => {
                let fresh = non_existent_units_of(units@, keys@);
                if fresh.len() == 0 {
                    &&& same_counts(s, t)
                    &&& t.stage is AwaitLine
                    &&& a is AllUnitsPresent
                } else {
                    &&& t.total_units == s.total_units
                    &&& t.inserted_units == s.inserted_units + fresh.len()
                    &&& t.stage is AwaitUnitsInserted
                    &&& a matches Action::InsertUnits { sql, count }
                    &&& sql@ == units_insert_text(fresh)
                    &&& count == fresh.len()
                }
            },
            _ => fails_with(s, t, a, ImportError::UnexpectedEvent),
        },
        Stage::AwaitUnitsInserted => match e {
            Event::Executed => {
                &&& same_counts(s, t)
                &&& t.stage is AwaitLine
                &&& a is ReadLine
            },
            _ => fails_with(s, t, a, ImportError::UnexpectedEvent),
        },
        Stage::Finished => fails_with(s, t, a, ImportError::UnexpectedEvent),
        Stage::Failed => fails_with(s, t, a, ImportError::UnexpectedEvent),
    }
}

impl ImportRun {
    fn fail(&mut self, err: ImportError) -> (a: Action)
        requires
            old(self).inserted_units <= old(self).total_units,
        ensures
            fails_with(*old(self), *final(self), a, err),
            final(self).wf(),
    {
        self.stage = Stage::Failed;
        Action::Fail(err)
    }

    /// Takes the run one step on the answer `event` to its last action and
    /// returns the next action (see `transition`).
    pub fn step(&mut self, event: Event) -> (a: Action)
        requires
            old(self).wf(),
        ensures
            final(self).wf(),
            transition(*old(self), event, *final(self), a),
    {
        let mut stage = Stage::Failed;
        std::mem::swap(&mut stage, &mut self.stage);
        match stage {
            Stage::AwaitLine => match event {
                Event::Line(line) => match parse_list_line(line.as_str()) {
                    Ok((fund, inventory)) => {
                        self.stage = Stage::AwaitMaxIsnUnit { fund, inventory };
                        Action::FetchMaxIsnUnit(max_isn_unit_request())
                    },
                    Err(e) => self.fail(ImportError::BadLine(e)),
                },
                Event::EndOfList => {
                    self.stage = Stage::Finished;
                    Action::Finish { total_units: self.total_units, inserted_units: self.inserted_units }
                },
                _ => self.fail(ImportError::UnexpectedEvent),
            },
            Stage::AwaitMaxIsnUnit { fund, inventory } => match event {
                Event::FirstRow(row) => {
                    let max_isn_unit = max_isn_unit_from_reply(row);
                    let q = isn_inventory_request(fund.as_str(), inventory.as_str());
                    let f2 = fund.clone();
                    let i2 = inventory.clone();
                    self.stage = Stage::AwaitIsnInventory { fund, inventory, max_isn_unit };
                    Action::FetchIsnInventory { query: q, fund: f2, inventory: i2 }
                },
                _ => self.fail(ImportError::UnexpectedEvent),
            },
            Stage::AwaitIsnInventory { fund, inventory, max_isn_unit } => match event {
                Event::FirstRow(row) => {
                    let isn_inventory = isn_inventory_from_reply(row);
                    if isn_inventory == -1 {
                        self.stage = Stage::AwaitLine;
                        Action::SkipInventory
                    } else {
                        let q = access_units_request(fund.as_str(), inventory.as_str());
                        self.stage = Stage::AwaitAccessUnits { isn_inventory, max_isn_unit };
                        Action::FetchAccessUnits(q)
                    }
                },
                _ => self.fail(ImportError::UnexpectedEvent),
            },
            Stage::AwaitAccessUnits { isn_inventory, max_isn_unit } => match event {
                Event::AccessUnits(rows) => match build_units(&rows, isn_inventory, max_isn_unit) {
                    None => self.fail(ImportError::UnitNumberOverflow),
                    Some(units) => {
                        let found = units.len();
                        if self.total_units > usize::MAX - found {
                            self.fail(ImportError::CountOverflow)
                        } else {
                            proof {
                                let us = units@;
                                assert forall|i: int| 0 <= i < us.len() implies (#[trigger] us[i]).unit_num_2 is Some
                                    && sql_timestamp_text(us[i].creation_date_time as int) is Some by {
                                    assert(unit_built_from(us[i], rows@[i], isn_inventory, (max_isn_unit + 1 + i) as i64));
                                }
                                lemma_unit_numbers_fresh(us, rows@, isn_inventory, max_isn_unit);
                            }
                            self.total_units = self.total_units + found;
                            self.stage = Stage::AwaitStructureExists { isn_inventory, max_isn_unit, units };
                            Action::CheckStructure(structure_exists_request(isn_inventory))
                        }
                    },
                },
                _ => self.fail(ImportError::UnexpectedEvent),
            },
            Stage::AwaitStructureExists { isn_inventory, max_isn_unit, units } => match event {
                Event::RowCount(n) => {
                    if structure_exists_from_reply(n) {
                        self.stage = Stage::AwaitExistingUnits { max_isn_unit, units };
                        Action::FetchExistingUnits(existing_units_request(isn_inventory))
                    } else {
                        let now = now_millis();
                        let created = sql_timestamp(now).unwrap();
                        let sql = structure_insert_sql(isn_inventory, created.as_str());
                        assert(sql_timestamp_text(now as int) == Some(created@));
                        assert(is_timestamp_text(created@));
                        self.stage = Stage::AwaitStructureInserted { isn_inventory, max_isn_unit, units };
                        Action::InsertStructure(sql)
                    }
                },
                _ => self.fail(ImportError::UnexpectedEvent),
            },
            Stage::AwaitStructureInserted { isn_inventory, max_isn_unit, units } => match event {
                Event::Executed => {
                    self.stage = Stage::AwaitExistingUnits { max_isn_unit, units };
                    Action::FetchExistingUnits(existing_units_request(isn_inventory))
                },
                _ => self.fail(ImportError::UnexpectedEvent),
            },
            Stage::AwaitExistingUnits { units, .. } => match event {
                Event::ExistingUnits(keys) => {
                    let ghost all = units@;
                    let fresh = non_existent_units(units, &keys);
                    proof {
                        lemma_non_existent_units(all, keys@);
                        let f = fresh@;
                        assert forall|i: int| 0 <= i < f.len() implies (#[trigger] f[i]).unit_num_2 is Some
                            && sql_timestamp_text(f[i].creation_date_time as int) is Some by {
                            assert(all.contains(f[i]));
                        }
                    }
                    if fresh.len() == 0 {
                        self.stage = Stage::AwaitLine;
                        Action::AllUnitsPresent
                    } else {
                        let sql = insert_new_units_sql(&fresh).unwrap();
                        let count = fresh.len();
                        self.inserted_units = self.inserted_units + count;
                        self.stage = Stage::AwaitUnitsInserted;
                        Action::InsertUnits { sql, count }
                    }
                },
                _ => self.fail(ImportError::UnexpectedEvent),
            },
            Stage::AwaitUnitsInserted => match event {
                Event::Executed => {
                    self.stage = Stage::AwaitLine;
                    Action::ReadLine
                },
                _ => self.fail(ImportError::UnexpectedEvent),
            },
            Stage::Finished => self.fail(ImportError::UnexpectedEvent),
            Stage::Failed => self.fail(ImportError::UnexpectedEvent),
        }
    }
}

/// Every step keeps the run's invariant: a run never counts more units
/// inserted than units found, and when it finishes it reports as inserted
/// no more units than it reports as found.
pub proof fn lemma_transition_keeps_invariant(s: ImportRun, e: Event, t: ImportRun, a: Action)
    requires
        s.wf(),
        transition(s, e, t, a),
    ensures
        t.wf(),
        t.inserted_units <= t.total_units,
        a matches Action::Finish { total_units, inserted_units } ==> inserted_units <= total_units,
{
    match s.stage {
        Stage::AwaitAccessUnits { isn_inventory, max_isn_unit } => {
            if let Event::AccessUnits(rows) = e {
                if max_isn_unit + rows@.len() <= i64::MAX && s.total_units + rows@.len() <= usize::MAX {
                    if let Stage::AwaitStructureExists { units, .. } = t.stage {
                        assert forall|i: int| 0 <= i < units@.len() implies (#[trigger] units@[i]).unit_num_2 is Some
                            && sql_timestamp_text(units@[i].creation_date_time as int) is Some by {
                            assert(unit_built_from(units@[i], rows@[i], isn_inventory, (max_isn_unit + 1 + i) as i64));
                        }
                        lemma_unit_numbers_fresh(units@, rows@, isn_inventory, max_isn_unit);
                    }
                }
            }
        },
        Stage::AwaitExistingUnits { units, .. } => {
            if let Event::ExistingUnits(keys) = e {
                lemma_non_existent_units(units@, keys@);
            }
        },
        _ => {},
    }
}

/// The units inserted for an inventory keep the unit numbers unique: every
/// number in the inserted batch is above the greatest number in use that the
/// line's first request read, and the numbers strictly increase along the
/// batch, so no two are equal. The insert statement holds exactly that
/// batch.
pub proof fn lemma_inserted_batch_fresh(s: ImportRun, e: Event, t: ImportRun, a: Action)
    requires
        s.wf(),
        transition(s, e, t, a),
        s.stage is AwaitExistingUnits,
        e is ExistingUnits,
    ensures
        ({
            let units = s.stage->AwaitExistingUnits_units@;
            let max_isn_unit = s.stage->AwaitExistingUnits_max_isn_unit;
            let fresh = non_existent_units_of(units, e->ExistingUnits_0@);
            &&& numbers_above(fresh, max_isn_unit)
            &&& numbers_increasing(fresh)
            &&& (a matches Action::InsertUnits { sql, count } ==> sql@ == units_insert_text(fresh) && count == fresh.len())
        }),
{
    let units = s.stage->AwaitExistingUnits_units@;
    let keys = e->ExistingUnits_0@;
    lemma_non_existent_units(units, keys);
    lemma_non_existent_units_keep_order(units, keys);
    let fresh = non_existent_units_of(units, keys);
    let max_isn_unit = s.stage->AwaitExistingUnits_max_isn_unit;
    assert forall|i: int| 0 <= i < fresh.len() implies (#[trigger] fresh[i]).isn_unit > max_isn_unit by {
        assert(units.contains(fresh[i]));
    }
}

/// MS Access is asked for the units of the inventory as the list names it:
/// after a line with at least two words, the greatest-number reply and an
/// inventory lookup reply that finds the inventory, the run's request binds
/// the line's first word (the fund) and its second word (the whole
/// inventory number, suffix included), verbatim and in that order.
pub proof fn lemma_access_request_binds_line_words(
    s0: ImportRun,
    line: String,
    s1: ImportRun,
    a1: Action,
    r1: Option<Option<i64>>,
    s2: ImportRun,
    a2: Action,
    r2: Option<Option<i64>>,
    s3: ImportRun,
    a3: Action,
)
    requires
        s0.stage is AwaitLine,
        words(line@).len() >= 2,
        transition(s0, Event::Line(line), s1, a1),
        transition(s1, Event::FirstRow(r1), s2, a2),
        transition(s2, Event::FirstRow(r2), s3, a3),
        isn_inventory_of(r2) != -1,
    ensures
        a3 is FetchAccessUnits,
        a3->FetchAccessUnits_0.sql@ == ACCESS_UNITS_SQL@,
        a3->FetchAccessUnits_0.params@.len() == 2,
        param_value(a3->FetchAccessUnits_0.params@[0]) == ParamValue::Text(words(line@)[0]),
        param_value(a3->FetchAccessUnits_0.params@[1]) == ParamValue::Text(words(line@)[1]),
{
    let q = a3->FetchAccessUnits_0;
    let pv = q.param_values();
    assert(pv.len() == q.params@.len());
    assert(pv[0] == param_value(q.params@[0]));
    assert(pv[1] == param_value(q.params@[1]));
}

/// The recorded unit numbers are asked for the inventory that the lookup
/// found: once the lookup reply names an inventory and its units have been
/// built, the run requests the unit numbers recorded under that same
/// inventory number, whether the structure record existed already or had
/// to be inserted first.
pub proof fn lemma_existing_units_request_binds_found_isn(
    s2: ImportRun,
    r2: Option<Option<i64>>,
    s3: ImportRun,
    a3: Action,
    rows: Vec<AccessUnit>,
    s4: ImportRun,
    a4: Action,
    n: usize,
    s5: ImportRun,
    a5: Action,
    s6: ImportRun,
    a6: Action,
)
    requires
        s2.stage is AwaitIsnInventory,
        isn_inventory_of(r2) != -1,
        transition(s2, Event::FirstRow(r2), s3, a3),
        transition(s3, Event::AccessUnits(rows), s4, a4),
        s4.stage is AwaitStructureExists,
        transition(s4, Event::RowCount(n), s5, a5),
        n == 0 ==> transition(s5, Event::Executed, s6, a6),
    ensures
        n > 0 ==> {
            &&& a5 is FetchExistingUnits
            &&& a5->FetchExistingUnits_0.sql@ == EXISTING_UNITS_SQL@
            &&& a5->FetchExistingUnits_0.params@.len() == 1
            &&& param_value(a5->FetchExistingUnits_0.params@[0]) == ParamValue::Int(isn_inventory_of(r2))
        },
        n == 0 ==> {
            &&& a5 is InsertStructure
            &&& a6 is FetchExistingUnits
            &&& a6->FetchExistingUnits_0.sql@ == EXISTING_UNITS_SQL@
            &&& a6->FetchExistingUnits_0.params@.len() == 1
            &&& param_value(a6->FetchExistingUnits_0.params@[0]) == ParamValue::Int(isn_inventory_of(r2))
        },
{
    let isn = isn_inventory_of(r2);
    assert(s3.stage is AwaitAccessUnits && s3.stage->AwaitAccessUnits_isn_inventory == isn);
    assert(s4.stage->AwaitStructureExists_isn_inventory == isn);
    if n > 0 {
        assert(a5 is FetchExistingUnits);
        let q = a5->FetchExistingUnits_0;
        assert(q.param_values().len() == q.params@.len());
        assert(q.param_values()[0] == param_value(q.params@[0]));
    } else {
        assert(s5.stage is AwaitStructureInserted && s5.stage->AwaitStructureInserted_isn_inventory == isn);
        assert(a6 is FetchExistingUnits);
        let q = a6->FetchExistingUnits_0;
        assert(q.param_values().len() == q.params@.len());
        assert(q.param_values()[0] == param_value(q.params@[0]));
    }
}

} // verus!
