//! The SQL requests of the import: their text and parameters, the reading
//! of their replies, and the text of the two insert statements.

use vstd::prelude::*;

use crate::clock::{sql_timestamp, sql_timestamp_text};
use crate::guid::{create_uuid, guid_from_halves, hyphenated, hyphenated_text};
use crate::models::{text_or_empty, TblUnit, OWNER_ID_TEXT};
use crate::numbering::{number_part, split_number, split_number_of, suffix_part};
use crate::text::{
    bool_text, i64_text, int_text, join, push_joined, push_tuple, quote, quoted, texts,
    tuple_text,
};

verus! {

/// A value bound to a `?` placeholder of an SQL statement.
#[derive(Debug, Clone, PartialEq, Eq)]
pub enum SqlParam {
    Text(String),
    Int(i64),
}

/// The value of a parameter, its text taken as a character sequence.
pub enum ParamValue {
    Text(Seq<char>),
    Int(i64),
}

/// The value of a parameter.
pub open spec fn param_value(p: SqlParam) -> ParamValue {
    match p {
        SqlParam::Text(t) => ParamValue::Text(t@),
        SqlParam::Int(i) => ParamValue::Int(i),
    }
}

/// An SQL statement and the values of its placeholders, in order.
#[derive(Debug, Clone)]
pub struct SqlRequest {
    pub sql: String,
    pub params: Vec<SqlParam>,
}

impl SqlRequest {
    /// The values of the placeholders.
    pub open spec fn param_values(&self) -> Seq<ParamValue> {
        self.params@.map_values(|p: SqlParam| param_value(p))
    }
}

/// The MS Access query for the units of one inventory of one fund.
pub const ACCESS_UNITS_SQL: &'static str = "SELECT\n    [Номер_Дела], [Наименование_дела], [Т_Дело].[Год_начала], [Т_Дело].[Год_конца], [Кол-во_листов], [Точная_дата], [Т_Описи].[Номер_Описи], [Т_Фонд].[Номер_фонда]\n    FROM\n    ([Т_Дело]\n    INNER JOIN [Т_Описи] ON [Т_Дело].[Код_Описи] = [Т_Описи].[Код_Описи])\n    INNER JOIN [Т_Фонд] ON [Т_Описи].[Код_фонда] = [Т_Фонд].[Код_фонда]\n    WHERE [Т_Фонд].[Номер_фонда] = ? AND [Т_Описи].[Номер_Описи] = ?\n    ";

/// Whether `r` asks MS Access for the units of the inventory `inventory` of
/// the fund `fund`.
pub open spec fn is_access_units_request(r: SqlRequest, fund: Seq<char>, inventory: Seq<char>) -> bool {
    &&& r.sql@ == ACCESS_UNITS_SQL@
    &&& r.param_values() == seq![ParamValue::Text(fund), ParamValue::Text(inventory)]
}

/// The request for the MS Access units of the inventory `inventory_num` of
/// the fund `fund_num`.
pub fn access_units_request(fund_num: &str, inventory_num: &str) -> (res: SqlRequest)
    ensures
        is_access_units_request(res, fund_num@, inventory_num@),
{
    let mut params: Vec<SqlParam> = Vec::new();
    params.push(SqlParam::Text(String::from_str(fund_num)));
    params.push(SqlParam::Text(String::from_str(inventory_num)));
    let res = SqlRequest { sql: String::from_str(ACCESS_UNITS_SQL), params };
    assert(res.param_values() =~= seq![ParamValue::Text(fund_num@), ParamValue::Text(inventory_num@)]);
    res
}

/// The MS SQL Server query for the number (`ISN_INVENTORY`) of an inventory,
/// found by its fund's full number and the digits of its own number.
pub const ISN_INVENTORY_SQL: &'static str = "\n        select tblINVENTORY.ISN_INVENTORY\n        from tblINVENTORY\n        inner join tblFUND on tblINVENTORY.ISN_FUND = tblFUND.ISN_FUND\n        where IsNull(NULLIF(tblFUND.FUND_NUM_1, '') + '-', '') + tblFUND.FUND_NUM_2 + IsNull(tblFUND.FUND_NUM_3, '') = ?\n        and tblINVENTORY.INVENTORY_NUM_1 = ?\n    ";

/// The condition added to `ISN_INVENTORY_SQL` when the inventory number has
/// a suffix after its digits.
pub const INVENTORY_NUM_2_CLAUSE: &'static str = " and tblINVENTORY.INVENTORY_NUM_2 = ?";

/// Whether an inventory number has a nonempty suffix after its digits.
pub open spec fn has_number_suffix(inventory: Seq<char>) -> bool {
    let suffix = split_number_of(inventory).1;
    suffix is Some && suffix.unwrap().len() > 0
}

/// Whether `r` asks MS SQL Server for the number of the inventory
/// `inventory` of the fund `fund`: the inventory's digits are always
/// compared, its suffix only when it is not empty.
pub open spec fn is_isn_inventory_request(r: SqlRequest, fund: Seq<char>, inventory: Seq<char>) -> bool {
    &&& r.sql@ == ISN_INVENTORY_SQL@ + (if has_number_suffix(inventory) {
        INVENTORY_NUM_2_CLAUSE@
    } else {
        Seq::empty()
    })
    &&& r.param_values() == seq![
        ParamValue::Text(fund),
        ParamValue::Text(split_number_of(inventory).0),
    ] + (if has_number_suffix(inventory) {
        seq![ParamValue::Text(split_number_of(inventory).1.unwrap())]
    } else {
        Seq::empty()
    })
}

/// The request for the number of the inventory `inventory_num` of the fund
/// `fund_num`. The inventory number is split into digits and suffix; the
/// digits are always compared, the suffix only when it is not empty.
pub fn isn_inventory_request(fund_num: &str, inventory_num: &str) -> (res: SqlRequest)
    ensures
        is_isn_inventory_request(res, fund_num@, inventory_num@),
{
    let (num_1, num_2) = split_number(inventory_num);
    let mut sql = String::from_str(ISN_INVENTORY_SQL);
    let mut params: Vec<SqlParam> = Vec::new();
    params.push(SqlParam::Text(String::from_str(fund_num)));
    params.push(SqlParam::Text(num_1));
    let ghost two = params@;
    match num_2 {
        Some(suffix) => {
            if !suffix.as_str().is_empty() {
                sql.append(INVENTORY_NUM_2_CLAUSE);
                params.push(SqlParam::Text(suffix));
            } else {
                assert(sql@ =~= ISN_INVENTORY_SQL@ + Seq::<char>::empty());
            }
        },
        None => {},
    }
    let res = SqlRequest { sql, params };
    assert(res.param_values() =~= seq![
        ParamValue::Text(fund_num@),
        ParamValue::Text(split_number_of(inventory_num@).0),
    ] + (if has_number_suffix(inventory_num@) {
        seq![ParamValue::Text(split_number_of(inventory_num@).1.unwrap())]
    } else {
        Seq::empty()
    }));
    res
}

/// The inventory number that the first row of the reply gives: its value,
/// zero where the value is NULL, and -1 where there is no row (the
/// inventory is unknown).
pub open spec fn isn_inventory_of(first_row: Option<Option<i64>>) -> i64 {
    match first_row {
        Some(Some(v)) => v,
        Some(None) => 0i64,
        None => -1i64,
    }
}

/// Reads the reply to the inventory number request from its first row.
pub fn isn_inventory_from_reply(first_row: Option<Option<i64>>) -> (res: i64)
    ensures
        res == isn_inventory_of(first_row),
{
    match first_row {
        Some(Some(v)) => v,
        Some(None) => 0i64,
        None => -1i64,
    }
}

/// The MS SQL Server query for the greatest unit number in use.
pub const MAX_ISN_UNIT_SQL: &'static str = "SELECT MAX(ISN_UNIT) from TblUnit";

/// Whether `r` asks for the greatest unit number in use.
pub open spec fn is_max_isn_unit_request(r: SqlRequest) -> bool {
    &&& r.sql@ == MAX_ISN_UNIT_SQL@
    &&& r.params@.len() == 0
}

/// The request for the greatest unit number in use.
pub fn max_isn_unit_request() -> (res: SqlRequest)
    ensures
        is_max_isn_unit_request(res),
{
    SqlRequest { sql: String::from_str(MAX_ISN_UNIT_SQL), params: Vec::new() }
}

/// The greatest unit number that the first row of the reply gives: its
/// value, and zero where it is NULL (an empty table) or there is no row.
pub open spec fn max_isn_unit_of(first_row: Option<Option<i64>>) -> i64 {
    match first_row {
        Some(Some(v)) => v,
        _ => 0i64,
    }
}

/// Reads the reply to the greatest unit number request from its first row.
pub fn max_isn_unit_from_reply(first_row: Option<Option<i64>>) -> (res: i64)
    ensures
        res == max_isn_unit_of(first_row),
{
    match first_row {
        Some(Some(v)) => v,
        _ => 0i64,
    }
}

/// The MS SQL Server query for the structure record of an inventory.
pub const STRUCTURE_EXISTS_SQL: &'static str = "SELECT ISN_INVENTORY_CLS from tblINVENTORY_STRUCTURE where ISN_INVENTORY_CLS = ?";

/// Whether `r` asks for the structure record of the inventory class `isn`.
pub open spec fn is_structure_exists_request(r: SqlRequest, isn: i64) -> bool {
    &&& r.sql@ == STRUCTURE_EXISTS_SQL@
    &&& r.param_values() == seq![ParamValue::Int(isn)]
}

/// The request for the structure record of the inventory class
/// `isn_inventory_cls`.
pub fn structure_exists_request(isn_inventory_cls: i64) -> (res: SqlRequest)
    ensures
        is_structure_exists_request(res, isn_inventory_cls),
{
    let mut params: Vec<SqlParam> = Vec::new();
    params.push(SqlParam::Int(isn_inventory_cls));
    let res = SqlRequest { sql: String::from_str(STRUCTURE_EXISTS_SQL), params };
    assert(res.param_values() =~= seq![ParamValue::Int(isn_inventory_cls)]);
    res
}

/// Reads the reply to the structure request: the structure exists when the
/// reply has at least one row.
pub fn structure_exists_from_reply(row_count: usize) -> (res: bool)
    ensures
        res == (row_count > 0),
{
    row_count > 0
}

/// The text of the insert statement of an inventory structure record, up to
/// its values.
pub const STRUCTURE_INSERT_HEAD: &'static str = "\n        insert into tblINVENTORY_STRUCTURE (ID, OwnerID, CreationDateTime, DocID, RowID, StatusID, Deleted, ISN_INVENTORY_CLS, ISN_INVENTORY, NAME, FOREST_ELEM, PROTECTED, WEIGHT)\n        values ";

/// The document identifier of new structure records: the nil identifier.
pub const NIL_DOC_ID_TEXT: &'static str = "00000000-0000-0000-0000-000000000000";

/// The status of new structure records.
pub const STRUCTURE_STATUS_ID_TEXT: &'static str = "A4366C7E-ACBA-4A71-B59A-15D51107DBFE";

/// The values of the structure record of the inventory class `isn`, created
/// at the SQL timestamp `created`: its identifier (built from 0 and `isn`),
/// owner, creation time, document, row 0, status, not deleted, `isn` as both
/// class and inventory, name `...`, a forest element, not protected, weight 0.
pub open spec fn structure_values(isn: i64, created: Seq<char>) -> Seq<Seq<char>> {
    seq![
        quoted(hyphenated_text(guid_from_halves(0, isn))),
        quoted(OWNER_ID_TEXT@),
        quoted(created),
        quoted(NIL_DOC_ID_TEXT@),
        int_text(0),
        quoted(STRUCTURE_STATUS_ID_TEXT@),
        quoted(bool_text(false)),
        int_text(isn as int),
        int_text(isn as int),
        quoted(seq!['.', '.', '.']),
        quoted(seq!['T']),
        quoted(seq!['N']),
        int_text(0),
    ]
}

/// The insert statement of the structure record of the inventory class
/// `isn_inventory_cls`, created at the SQL timestamp `created`.
pub fn structure_insert_sql(isn_inventory_cls: i64, created: &str) -> (res: String)
    ensures
        res@ == STRUCTURE_INSERT_HEAD@ + tuple_text(structure_values(isn_inventory_cls, created@)),
{
    let uuid = create_uuid(0, isn_inventory_cls);
    let mut values: Vec<String> = Vec::new();
    values.push(quote(hyphenated(&uuid).as_str()));
    values.push(quote(OWNER_ID_TEXT));
    values.push(quote(created));
    values.push(quote(NIL_DOC_ID_TEXT));
    values.push(i64_text(0));
    values.push(quote(STRUCTURE_STATUS_ID_TEXT));
    values.push(quote("false"));
    values.push(i64_text(isn_inventory_cls));
    values.push(i64_text(isn_inventory_cls));
    values.push(quote("..."));
    values.push(quote("T"));
    values.push(quote("N"));
    values.push(i64_text(0));
    proof {
        reveal_strlit("false");
        reveal_strlit("...");
        reveal_strlit("T");
        reveal_strlit("N");
        assert("false"@ =~= bool_text(false));
        assert("..."@ =~= seq!['.', '.', '.']);
        assert("T"@ =~= seq!['T']);
        assert("N"@ =~= seq!['N']);
    }
    assert(texts(values@) =~= structure_values(isn_inventory_cls, created@));
    let mut sql = String::from_str(STRUCTURE_INSERT_HEAD);
    push_tuple(&mut sql, &values);
    sql
}


/// The text of the insert statement of unit records, up to their values.
pub const UNITS_INSERT_HEAD: &'static str = "\n        insert into tblUNIT\n        (ID, OwnerID, CreationDateTime, StatusID, Deleted, ISN_UNIT, ISN_INVENTORY,\n        ISN_DOC_TYPE, ISN_SECURLEVEL, SECURITY_CHAR, ISN_INVENTORY_CLS,\n        UNIT_KIND, UNIT_NUM_1, UNIT_NUM_2, NAME, IS_IN_SEARCH, IS_LOST, HAS_SF, HAS_FP,\n        HAS_DEFECTS, CATALOGUED, WEIGHT, START_YEAR, START_YEAR_INEXACT, END_YEAR,\n        END_YEAR_INEXACT, MEDIUM_TYPE, HAS_TREASURES, IS_MUSEUM_ITEM, PAGE_COUNT,\n        CARDBOARDED, ALL_DATE)\n        values\n    ";

/// The values of a unit record in the insert statement, in column order:
/// identifiers, creation time, texts and the deleted flag quoted; numbers
/// and the digits of the unit number as they are. `created` is the SQL
/// timestamp of the creation time.
pub open spec fn unit_values(u: TblUnit, created: Seq<char>) -> Seq<Seq<char>> {
    seq![
        quoted(hyphenated_text(u.id@)),
        quoted(hyphenated_text(u.owner_id@)),
        quoted(created),
        quoted(hyphenated_text(u.status_id@)),
        quoted(bool_text(u.deleted)),
        int_text(u.isn_unit as int),
        int_text(u.isn_inventory as int),
        int_text(u.isn_doc_type as int),
        int_text(u.isn_securlevel as int),
        quoted(u.security_char@),
        int_text(u.isn_inventory_cls as int),
        int_text(u.unit_kind as int),
        u.unit_num_1@,
        quoted(u.unit_num_2.unwrap()@),
        quoted(u.name@),
        quoted(u.is_in_search@),
        quoted(u.is_lost@),
        quoted(u.has_sf@),
        quoted(u.has_fp@),
        quoted(u.has_defects@),
        quoted(u.catalogued@),
        int_text(u.weight as int),
        int_text(u.start_year as int),
        quoted(u.start_year_inexact@),
        int_text(u.end_year as int),
        quoted(u.end_year_inexact@),
        quoted(u.medium_type@),
        quoted(u.has_treasures@),
        quoted(u.is_museum_item@),
        int_text(u.page_count as int),
        quoted(u.cardboarded@),
        quoted(u.all_date@)
    ]
}

/// The SQL timestamp of a unit's creation time (where chrono can write it).
pub open spec fn unit_created_text(u: TblUnit) -> Seq<char> {
    sql_timestamp_text(u.creation_date_time as int).unwrap()
}

/// The value tuples of units, in order.
pub open spec fn unit_rows(units: Seq<TblUnit>) -> Seq<Seq<char>> {
    Seq::new(units.len(), |i: int| tuple_text(unit_values(units[i], unit_created_text(units[i]))))
}

/// Whether chrono can write the creation time of every unit.
pub open spec fn creation_times_writable(units: Seq<TblUnit>) -> bool {
    forall|i: int| 0 <= i < units.len() ==> (#[trigger] sql_timestamp_text(units[i].creation_date_time as int)) is Some
}

/// The insert statement of a list of unit records: the head, then one value
/// tuple per unit, separated by `, `.
pub open spec fn units_insert_text(units: Seq<TblUnit>) -> Seq<char> {
    UNITS_INSERT_HEAD@ + join(unit_rows(units), seq![',', ' '])
}

fn bool_string(b: bool) -> (res: String)
    ensures
        res@ == bool_text(b),
{
    let mut s = String::new();
    crate::text::push_bool(&mut s, b);
    assert(s@ =~= bool_text(b));
    s
}

/// The value tuple of one unit record created at the SQL timestamp
/// `created`.
fn unit_row(u: &TblUnit, created: &str) -> (res: String)
    requires
        u.unit_num_2 is Some,
    ensures
        res@ == tuple_text(unit_values(*u, created@)),
{
    let num_2 = match &u.unit_num_2 {
        Some(t) => t,
        None => {
            assert(false);
            &u.name
        },
    };
    let mut values: Vec<String> = Vec::new();
    values.push(quote(hyphenated(&u.id).as_str()));
    values.push(quote(hyphenated(&u.owner_id).as_str()));
    values.push(quote(created));
    values.push(quote(hyphenated(&u.status_id).as_str()));
    values.push(quote(bool_string(u.deleted).as_str()));
    values.push(i64_text(u.isn_unit));
    values.push(i64_text(u.isn_inventory));
    values.push(i64_text(u.isn_doc_type));
    values.push(i64_text(u.isn_securlevel));
    values.push(quote(u.security_char.as_str()));
    values.push(i64_text(u.isn_inventory_cls));
    values.push(i64_text(u.unit_kind as i64));
    values.push(String::from_str(u.unit_num_1.as_str()));
    values.push(quote(num_2.as_str()));
    values.push(quote(u.name.as_str()));
    values.push(quote(u.is_in_search.as_str()));
    values.push(quote(u.is_lost.as_str()));
    values.push(quote(u.has_sf.as_str()));
    values.push(quote(u.has_fp.as_str()));
    values.push(quote(u.has_defects.as_str()));
    values.push(quote(u.catalogued.as_str()));
    values.push(i64_text(u.weight as i64));
    values.push(i64_text(u.start_year as i64));
    values.push(quote(u.start_year_inexact.as_str()));
    values.push(i64_text(u.end_year as i64));
    values.push(quote(u.end_year_inexact.as_str()));
    values.push(quote(u.medium_type.as_str()));
    values.push(quote(u.has_treasures.as_str()));
    values.push(quote(u.is_museum_item.as_str()));
    values.push(i64_text(u.page_count as i64));
    values.push(quote(u.cardboarded.as_str()));
    values.push(quote(u.all_date.as_str()));
    assert(texts(values@) =~= unit_values(*u, created@));
    let mut row = String::new();
    push_tuple(&mut row, &values);
    assert(row@ =~= tuple_text(unit_values(*u, created@)));
    row
}

/// The insert statement of the unit records `units`, or `None` where chrono
/// cannot write the creation time of one of them. Every unit must carry a
/// unit number suffix (as every record that `TblUnit::new` builds does).
pub fn insert_new_units_sql(units: &Vec<TblUnit>) -> (res: Option<String>)
    requires
        forall|i: int| 0 <= i < units@.len() ==> (#[trigger] units@[i]).unit_num_2 is Some,
    ensures
        res is Some <==> creation_times_writable(units@),
        res is Some ==> res.unwrap()@ == units_insert_text(units@),
{
    let n = units.len();
    let mut rows: Vec<String> = Vec::new();
    let mut i: usize = 0;
    while i < n
        invariant
            n == units@.len(),
            i <= n,
            forall|j: int| 0 <= j < units@.len() ==> (#[trigger] units@[j]).unit_num_2 is Some,
            rows@.len() == i,
            forall|j: int| 0 <= j < i ==> (#[trigger] sql_timestamp_text(units@[j].creation_date_time as int)) is Some,
            forall|j: int| 0 <= j < i ==> (#[trigger] rows@[j])@ == unit_rows(units@)[j],
        decreases n - i,
    {
        let u = &units[i];
        match sql_timestamp(u.creation_date_time) {
            Some(created) => {
                let row = unit_row(u, created.as_str());
                rows.push(row);
            },
            None => {
                return None;
            },
        }
        i = i + 1;
    }
    assert(texts(rows@) =~= unit_rows(units@));
    let mut sql = String::from_str(UNITS_INSERT_HEAD);
    push_joined(&mut sql, &rows, ", ");
    proof {
        reveal_strlit(", ");
        assert(", "@ =~= seq![',', ' ']);
    }
    Some(sql)
}


/// The MS SQL Server query for the unit numbers already recorded in an
/// inventory.
pub const EXISTING_UNITS_SQL: &'static str = "SELECT UNIT_NUM_1, UNIT_NUM_2 from tblUNIT where ISN_INVENTORY = ?";

/// Whether `r` asks for the unit numbers recorded in the inventory `isn`.
pub open spec fn is_existing_units_request(r: SqlRequest, isn: i64) -> bool {
    &&& r.sql@ == EXISTING_UNITS_SQL@
    &&& r.param_values() == seq![ParamValue::Int(isn)]
}

/// The request for the unit numbers already recorded in the inventory
/// `isn_inventory`.
pub fn existing_units_request(isn_inventory: i64) -> (res: SqlRequest)
    ensures
        is_existing_units_request(res, isn_inventory),
{
    let mut params: Vec<SqlParam> = Vec::new();
    params.push(SqlParam::Int(isn_inventory));
    let res = SqlRequest { sql: String::from_str(EXISTING_UNITS_SQL), params };
    assert(res.param_values() =~= seq![ParamValue::Int(isn_inventory)]);
    res
}

/// A unit number as recorded: digits and suffix, a NULL suffix read as the
/// empty text.
#[derive(Debug, Clone, PartialEq, Eq)]
pub struct UnitKey {
    pub num_1: String,
    pub num_2: String,
}

impl UnitKey {
    /// Reads a row of the recorded-units query: the digits and the suffix
    /// of a recorded unit number, each NULL read as the empty text.
    pub fn from_columns(num_1: Option<String>, num_2: Option<String>) -> (res: UnitKey)
        ensures
            res.num_1@ == text_or_empty(num_1),
            res.num_2@ == text_or_empty(num_2),
    {
        let num_1 = match num_1 {
            Some(t) => t,
            None => String::new(),
        };
        let num_2 = match num_2 {
            Some(t) => t,
            None => String::new(),
        };
        UnitKey { num_1, num_2 }
    }
}

/// The number of a unit record: its digits and its suffix (empty where it
/// has none).
pub open spec fn unit_key(u: TblUnit) -> (Seq<char>, Seq<char>) {
    (u.unit_num_1@, text_or_empty(u.unit_num_2))
}

/// Whether a unit number is among the recorded ones.
pub open spec fn key_listed(key: (Seq<char>, Seq<char>), existing: Seq<UnitKey>) -> bool {
    exists|i: int| 0 <= i < existing.len() && (#[trigger] existing[i]).num_1@ == key.0 && existing[i].num_2@ == key.1
}

/// The units whose number is not among the recorded ones, in their order.
pub open spec fn non_existent_units_of(units: Seq<TblUnit>, existing: Seq<UnitKey>) -> Seq<TblUnit>
    decreases units.len(),
{
    if units.len() == 0 {
        Seq::empty()
    } else {
        let front = non_existent_units_of(units.drop_last(), existing);
        if key_listed(unit_key(units.last()), existing) {
            front
        } else {
            front.push(units.last())
        }
    }
}

fn is_listed(u: &TblUnit, existing: &Vec<UnitKey>) -> (res: bool)
    ensures
        res == key_listed(unit_key(*u), existing@),
{
    let n = existing.len();
    let mut i: usize = 0;
    while i < n
        invariant
            n == existing@.len(),
            i <= n,
            forall|j: int| 0 <= j < i ==> !((#[trigger] existing@[j]).num_1@ == unit_key(*u).0
                && existing@[j].num_2@ == unit_key(*u).1),
        decreases n - i,
    {
        let k = &existing[i];
        let same_2 = match &u.unit_num_2 {
            Some(t) => k.num_2 == *t,
            None => k.num_2.as_str().is_empty(),
        };
        proof {
            if same_2 {
                assert(k.num_2@ =~= unit_key(*u).1);
            }
        }
        if k.num_1 == u.unit_num_1 && same_2 {
            assert(existing@[i as int].num_1@ == unit_key(*u).0);
            assert(existing@[i as int].num_2@ =~= unit_key(*u).1);
            return true;
        }
        i = i + 1;
    }
    false
}

/// The units of `units` whose number (digits and suffix) is not yet
/// recorded in `existing`, in their order: the units still to be inserted.
pub fn non_existent_units(units: Vec<TblUnit>, existing: &Vec<UnitKey>) -> (res: Vec<TblUnit>)
    ensures
        res@ == non_existent_units_of(units@, existing@),
{
    let ghost all = units@;
    let mut res: Vec<TblUnit> = Vec::new();
    for u in it: units.into_iter()
        invariant
            it.seq() == all,
            res@ == non_existent_units_of(all.take(it.index() as int), existing@),
    {
        let ghost k = it.index();
        assert(all.take(k + 1).drop_last() =~= all.take(k as int));
        assert(all.take(k + 1).last() == u);
        if !is_listed(&u, existing) {
            res.push(u);
        }
    }
    assert(all.take(all.len() as int) =~= all);
    res
}

/// Of the units still to be inserted: each is one of the given units, none
/// has a recorded number, each given unit whose number is not recorded is
/// among them, and there are no more of them than units given.
pub proof fn lemma_non_existent_units(units: Seq<TblUnit>, existing: Seq<UnitKey>)
    ensures
        non_existent_units_of(units, existing).len() <= units.len(),
        forall|i: int| 0 <= i < non_existent_units_of(units, existing).len() ==> {
            &&& units.contains(#[trigger] non_existent_units_of(units, existing)[i])
            &&& !key_listed(unit_key(non_existent_units_of(units, existing)[i]), existing)
        },
        forall|i: int| 0 <= i < units.len() && !key_listed(unit_key(#[trigger] units[i]), existing)
            ==> non_existent_units_of(units, existing).contains(units[i]),
    decreases units.len(),
{
    if units.len() > 0 {
        let front = units.drop_last();
        lemma_non_existent_units(front, existing);
        let r = non_existent_units_of(units, existing);
        let rf = non_existent_units_of(front, existing);
        assert forall|i: int| 0 <= i < r.len() implies {
            &&& units.contains(#[trigger] r[i])
            &&& !key_listed(unit_key(r[i]), existing)
        } by {
            if i < rf.len() {
                assert(r[i] == rf[i]);
                let j = choose|j: int| 0 <= j < front.len() && front[j] == rf[i];
                assert(units[j] == front[j]);
            } else {
                assert(r[i] == units.last());
                assert(units[units.len() - 1] == units.last());
            }
        }
        assert forall|i: int| 0 <= i < units.len() && !key_listed(unit_key(#[trigger] units[i]), existing)
            implies r.contains(units[i]) by {
            if i < units.len() - 1 {
                assert(front[i] == units[i]);
                let j = choose|j: int| 0 <= j < rf.len() && rf[j] == front[i];
                assert(r[j] == rf[j]);
            } else {
                assert(r[r.len() - 1] == units.last());
            }
        }
    }
}

/// Whether the unit numbers of `units` strictly increase along the list
/// (so that no two are equal).
pub open spec fn numbers_increasing(units: Seq<TblUnit>) -> bool {
    forall|i: int, j: int| 0 <= i < j < units.len() ==> (#[trigger] units[i]).isn_unit < (#[trigger] units[j]).isn_unit
}

/// Choosing the units still to be inserted keeps their order: where the
/// unit numbers of the given units strictly increase, so do those of the
/// chosen ones.
pub proof fn lemma_non_existent_units_keep_order(units: Seq<TblUnit>, existing: Seq<UnitKey>)
    requires
        numbers_increasing(units),
    ensures
        numbers_increasing(non_existent_units_of(units, existing)),
    decreases units.len(),
{
    if units.len() > 0 {
        let front = units.drop_last();
        assert(numbers_increasing(front)) by {
            assert forall|i: int, j: int| 0 <= i < j < front.len() implies (#[trigger] front[i]).isn_unit < (#[trigger] front[j]).isn_unit by {
                assert(front[i] == units[i] && front[j] == units[j]);
            }
        }
        lemma_non_existent_units_keep_order(front, existing);
        lemma_non_existent_units(front, existing);
        let rf = non_existent_units_of(front, existing);
        let r = non_existent_units_of(units, existing);
        if !key_listed(unit_key(units.last()), existing) {
            assert forall|i: int, j: int| 0 <= i < j < r.len() implies (#[trigger] r[i]).isn_unit < (#[trigger] r[j]).isn_unit by {
                if j < rf.len() {
                    assert(r[i] == rf[i] && r[j] == rf[j]);
                } else {
                    assert(r[i] == rf[i]);
                    assert(r[j] == units.last());
                    let k = choose|k: int| 0 <= k < front.len() && front[k] == rf[i];
                    assert(units[k] == front[k]);
                    assert(units[units.len() - 1] == units.last());
                }
            }
        }
    }
}

/// The inventory lookup compares the inventory's suffix exactly when it has
/// one: for an inventory number with a nonempty suffix after its leading
/// digits, the request adds the suffix condition and binds the fund, the
/// digits and the suffix, in that order; otherwise it binds only the fund
/// and the digits.
pub proof fn lemma_isn_inventory_request_by_suffix(r: SqlRequest, fund: Seq<char>, inventory: Seq<char>)
    requires
        is_isn_inventory_request(r, fund, inventory),
    ensures
        suffix_part(inventory).len() > 0 ==> {
            &&& r.sql@ == ISN_INVENTORY_SQL@ + INVENTORY_NUM_2_CLAUSE@
            &&& r.params@.len() == 3
            &&& param_value(r.params@[0]) == ParamValue::Text(fund)
            &&& param_value(r.params@[1]) == ParamValue::Text(number_part(inventory))
            &&& param_value(r.params@[2]) == ParamValue::Text(suffix_part(inventory))
        },
        suffix_part(inventory).len() == 0 ==> {
            &&& r.sql@ == ISN_INVENTORY_SQL@
            &&& r.params@.len() == 2
            &&& param_value(r.params@[0]) == ParamValue::Text(fund)
            &&& param_value(r.params@[1]) == ParamValue::Text(number_part(inventory))
        },
{
    let pv = r.param_values();
    assert(pv.len() == r.params@.len());
    if r.params@.len() > 0 {
        assert(pv[0] == param_value(r.params@[0]));
    }
    if r.params@.len() > 1 {
        assert(pv[1] == param_value(r.params@[1]));
    }
    if r.params@.len() > 2 {
        assert(pv[2] == param_value(r.params@[2]));
    }
    if suffix_part(inventory).len() == 0 {
        assert(r.sql@ =~= ISN_INVENTORY_SQL@);
    }
}

/// A unit is left out of the units to insert only when a recorded number
/// equals its own exactly, digits and suffix both (a missing suffix counting
/// as the empty one): every unit without such a recorded number is kept,
/// and no kept unit has one.
pub proof fn lemma_non_existent_units_exact_keys(units: Seq<TblUnit>, existing: Seq<UnitKey>)
    ensures
        forall|i: int|
            0 <= i < units.len() && (forall|j: int| 0 <= j < existing.len() ==> !(
                (#[trigger] existing[j]).num_1@ == units[i].unit_num_1@
                && existing[j].num_2@ == text_or_empty(units[i].unit_num_2)))
            ==> non_existent_units_of(units, existing).contains(#[trigger] units[i]),
        forall|k: int, j: int|
            0 <= k < non_existent_units_of(units, existing).len() && 0 <= j < existing.len() ==> !(
                (#[trigger] existing[j]).num_1@ == (#[trigger] non_existent_units_of(units, existing)[k]).unit_num_1@
                && existing[j].num_2@ == text_or_empty(non_existent_units_of(units, existing)[k].unit_num_2)),
{
    lemma_non_existent_units(units, existing);
    let r = non_existent_units_of(units, existing);
    assert forall|i: int|
        0 <= i < units.len() && (forall|j: int| 0 <= j < existing.len() ==> !(
            (#[trigger] existing[j]).num_1@ == units[i].unit_num_1@
            && existing[j].num_2@ == text_or_empty(units[i].unit_num_2)))
        implies r.contains(#[trigger] units[i]) by {
        if key_listed(unit_key(units[i]), existing) {
            let j = choose|j: int| 0 <= j < existing.len() && (#[trigger] existing[j]).num_1@ == unit_key(units[i]).0
                && existing[j].num_2@ == unit_key(units[i]).1;
            assert(!(existing[j].num_1@ == units[i].unit_num_1@
                && existing[j].num_2@ == text_or_empty(units[i].unit_num_2)));
        }
    }
    assert forall|k: int, j: int|
        0 <= k < r.len() && 0 <= j < existing.len() implies !(
            (#[trigger] existing[j]).num_1@ == (#[trigger] r[k]).unit_num_1@
            && existing[j].num_2@ == text_or_empty(r[k].unit_num_2)) by {
        assert(!key_listed(unit_key(r[k]), existing));
    }
}

} // verus!
