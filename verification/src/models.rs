//! The records that the import reads from MS Access and writes to MS SQL
//! Server.

use vstd::prelude::*;

use crate::guid::{
    hyphenated_value, is_hyphen_position, is_hyphenated_form, is_random_guid, parse_guid,
    random_guid, Guid,
};
use crate::clock::{now_millis, sql_timestamp_text};
use crate::numbering::{opt_text, split_number, split_number_of};

verus! {

/// A case record ("unit") as the MS Access catalogue holds it.
#[derive(Debug, Clone)]
pub struct AccessUnit {
    pub unit_number: String,
    pub name: String,
    pub year_start: i32,
    pub year_end: i32,
    pub pages_count: i32,
    pub exact_date: String,
    pub inventory_number: String,
    pub fund_number: String,
}

/// One row of the MS Access query for the units of an inventory, with each
/// missing (NULL) column read as the empty text or zero.
#[derive(Debug, Clone)]
pub struct AccessData {
    nomer_dela: String,
    naimenovanie_dela: String,
    god_nachala: i32,
    god_kontsa: i32,
    kolichestvo_listov: i32,
    tochnaya_data: String,
    nomer_opisi: String,
    nomer_fonda: String,
}

/// A text column's value, NULL read as the empty text.
pub open spec fn text_or_empty(o: Option<String>) -> Seq<char> {
    match o {
        Some(t) => t@,
        None => Seq::empty(),
    }
}

/// An integer column's value, NULL read as zero.
pub open spec fn int_or_zero(o: Option<i32>) -> i32 {
    match o {
        Some(v) => v,
        None => 0,
    }
}

fn take_text(o: Option<String>) -> (res: String)
    ensures
        res@ == text_or_empty(o),
{
    match o {
        Some(t) => t,
        None => String::new(),
    }
}

fn take_int(o: Option<i32>) -> (res: i32)
    ensures
        res == int_or_zero(o),
{
    match o {
        Some(v) => v,
        None => 0,
    }
}

impl AccessData {
    /// Builds a row from the eight columns of the MS Access query, in query
    /// order; a NULL column becomes the empty text or zero.
    pub fn from_columns(
        unit_number: Option<String>,
        name: Option<String>,
        year_start: Option<i32>,
        year_end: Option<i32>,
        pages_count: Option<i32>,
        exact_date: Option<String>,
        inventory_number: Option<String>,
        fund_number: Option<String>,
    ) -> (res: AccessData)
        ensures
            res.to_unit_spec() == (AccessUnitText {
                unit_number: text_or_empty(unit_number),
                name: text_or_empty(name),
                year_start: int_or_zero(year_start),
                year_end: int_or_zero(year_end),
                pages_count: int_or_zero(pages_count),
                exact_date: text_or_empty(exact_date),
                inventory_number: text_or_empty(inventory_number),
                fund_number: text_or_empty(fund_number),
            }),
    {
        AccessData {
            nomer_dela: take_text(unit_number),
            naimenovanie_dela: take_text(name),
            god_nachala: take_int(year_start),
            god_kontsa: take_int(year_end),
            kolichestvo_listov: take_int(pages_count),
            tochnaya_data: take_text(exact_date),
            nomer_opisi: take_text(inventory_number),
            nomer_fonda: take_text(fund_number),
        }
    }

    /// The row's values, field by field.
    pub closed spec fn to_unit_spec(&self) -> AccessUnitText {
        AccessUnitText {
            unit_number: self.nomer_dela@,
            name: self.naimenovanie_dela@,
            year_start: self.god_nachala,
            year_end: self.god_kontsa,
            pages_count: self.kolichestvo_listov,
            exact_date: self.tochnaya_data@,
            inventory_number: self.nomer_opisi@,
            fund_number: self.nomer_fonda@,
        }
    }

    /// The unit that the row describes.
    pub fn into_unit(self) -> (res: AccessUnit)
        ensures
            res.text() == self.to_unit_spec(),
    {
        AccessUnit {
            unit_number: self.nomer_dela,
            name: self.naimenovanie_dela,
            year_start: self.god_nachala,
            year_end: self.god_kontsa,
            pages_count: self.kolichestvo_listov,
            exact_date: self.tochnaya_data,
            inventory_number: self.nomer_opisi,
            fund_number: self.nomer_fonda,
        }
    }
}

/// The values of an `AccessUnit`, its texts taken as character sequences.
pub struct AccessUnitText {
    pub unit_number: Seq<char>,
    pub name: Seq<char>,
    pub year_start: i32,
    pub year_end: i32,
    pub pages_count: i32,
    pub exact_date: Seq<char>,
    pub inventory_number: Seq<char>,
    pub fund_number: Seq<char>,
}

impl AccessUnit {
    /// The unit's values.
    pub open spec fn text(&self) -> AccessUnitText {
        AccessUnitText {
            unit_number: self.unit_number@,
            name: self.name@,
            year_start: self.year_start,
            year_end: self.year_end,
            pages_count: self.pages_count,
            exact_date: self.exact_date@,
            inventory_number: self.inventory_number@,
            fund_number: self.fund_number@,
        }
    }
}


/// The owner recorded on every new record.
pub const OWNER_ID_TEXT: &'static str = "12345678-9012-3456-7890-123456789012";

/// The status given to new units.
pub const UNIT_STATUS_ID_TEXT: &'static str = "DD6ABDFF-D922-4746-80B8-15BE426E3849";

/// The document type of new units.
pub const UNIT_DOC_TYPE: i64 = 1;

/// The security level of new units.
pub const UNIT_SECURITY_LEVEL: i64 = 1;

/// The kind code of new units.
pub const UNIT_KIND: i32 = 703;

/// A unit record of the MS SQL Server archive (table `tblUNIT`). The
/// creation time is held as milliseconds since the Unix epoch, UTC.
#[derive(Debug, Clone)]
pub struct TblUnit {
    pub id: Guid,
    pub owner_id: Guid,
    pub creation_date_time: i64,
    pub status_id: Guid,
    pub deleted: bool,
    pub isn_unit: i64,
    pub isn_inventory: i64,
    pub isn_doc_type: i64,
    pub isn_securlevel: i64,
    pub security_char: String,
    pub isn_inventory_cls: i64,
    pub unit_kind: i32,
    pub unit_num_1: String,
    pub unit_num_2: Option<String>,
    pub name: String,
    pub is_in_search: String,
    pub is_lost: String,
    pub has_sf: String,
    pub has_fp: String,
    pub has_defects: String,
    pub catalogued: String,
    pub weight: i32,
    pub start_year: i32,
    pub start_year_inexact: String,
    pub end_year: i32,
    pub end_year_inexact: String,
    pub medium_type: String,
    pub has_treasures: String,
    pub is_museum_item: String,
    pub page_count: i32,
    pub cardboarded: String,
    pub all_date: String,
}

/// The text `N` ("no") of the yes/no columns.
pub open spec fn no_text() -> Seq<char> {
    seq!['N']
}

/// Whether `u` is the unit record made from the MS Access unit `a` for the
/// inventory `isn_inventory` under the number `isn_unit`: a random
/// identifier, the fixed owner and status, the case number split into its
/// digits and suffix, the name, years, page count and dates taken over, and
/// the fixed values of every other column. Its creation time is the clock's,
/// one that can be written as an SQL timestamp.
pub open spec fn unit_built_from(u: TblUnit, a: AccessUnit, isn_inventory: i64, isn_unit: i64) -> bool {
    &&& is_random_guid(u.id@)
    &&& sql_timestamp_text(u.creation_date_time as int) is Some
    &&& u.owner_id@ == hyphenated_value(OWNER_ID_TEXT@)
    &&& u.status_id@ == hyphenated_value(UNIT_STATUS_ID_TEXT@)
    &&& !u.deleted
    &&& u.isn_unit == isn_unit
    &&& u.isn_inventory == isn_inventory
    &&& u.isn_doc_type == UNIT_DOC_TYPE
    &&& u.isn_securlevel == UNIT_SECURITY_LEVEL
    &&& u.security_char@ == seq!['o']
    &&& u.isn_inventory_cls == isn_inventory
    &&& u.unit_kind == UNIT_KIND
    &&& (u.unit_num_1@, opt_text(u.unit_num_2)) == split_number_of(a.unit_number@)
    &&& u.unit_num_2 is Some
    &&& u.name@ == a.name@
    &&& u.is_in_search@ == no_text()
    &&& u.is_lost@ == no_text()
    &&& u.has_sf@ == no_text()
    &&& u.has_fp@ == no_text()
    &&& u.has_defects@ == no_text()
    &&& u.catalogued@ == no_text()
    &&& u.weight == 0
    &&& u.start_year == a.year_start
    &&& u.start_year_inexact@ == no_text()
    &&& u.end_year == a.year_end
    &&& u.end_year_inexact@ == no_text()
    &&& u.medium_type@ == seq!['T']
    &&& u.has_treasures@ == no_text()
    &&& u.is_museum_item@ == no_text()
    &&& u.page_count == a.pages_count
    &&& u.cardboarded@ == no_text()
    &&& u.all_date@ == a.exact_date@
}

/// The owner identifier text is in hyphenated form.
pub proof fn lemma_owner_id_text_is_hyphenated()
    ensures
        is_hyphenated_form(OWNER_ID_TEXT@),
{
    reveal_strlit("12345678-9012-3456-7890-123456789012");
    assert forall|i: int| 0 <= i < 36 implies (if is_hyphen_position(i) {
        OWNER_ID_TEXT@[i] == '-'
    } else {
        crate::guid::is_hex_char(#[trigger] OWNER_ID_TEXT@[i])
    }) by {}
}

/// The unit status identifier text is in hyphenated form.
pub proof fn lemma_unit_status_id_text_is_hyphenated()
    ensures
        is_hyphenated_form(UNIT_STATUS_ID_TEXT@),
{
    reveal_strlit("DD6ABDFF-D922-4746-80B8-15BE426E3849");
    assert forall|i: int| 0 <= i < 36 implies (if is_hyphen_position(i) {
        UNIT_STATUS_ID_TEXT@[i] == '-'
    } else {
        crate::guid::is_hex_char(#[trigger] UNIT_STATUS_ID_TEXT@[i])
    }) by {}
}

fn no() -> (res: String)
    ensures
        res@ == no_text(),
{
    let s = String::from_str("N");
    proof { reveal_strlit("N"); }
    s
}

impl TblUnit {
    /// Builds the archive record of an MS Access unit for the inventory
    /// `isn_inventory` under the unit number `isn_unit`, with a fresh random
    /// identifier and the current time as its creation time.
    pub fn new(access_unit: &AccessUnit, isn_inventory: i64, isn_unit: i64) -> (res: TblUnit)
        ensures
            unit_built_from(res, *access_unit, isn_inventory, isn_unit),
    {
        let (unit_num_1, unit_num_2) = split_number(access_unit.unit_number.as_str());
        proof {
            lemma_owner_id_text_is_hyphenated();
            lemma_unit_status_id_text_is_hyphenated();
        }
        let owner_id = parse_guid(OWNER_ID_TEXT).unwrap();
        let status_id = parse_guid(UNIT_STATUS_ID_TEXT).unwrap();
        let security_char = String::from_str("o");
        let medium_type = String::from_str("T");
        proof {
            reveal_strlit("o");
            reveal_strlit("T");
        }
        assert(security_char@ =~= seq!['o']);
        assert(medium_type@ =~= seq!['T']);
        TblUnit {
            id: random_guid(),
            owner_id,
            creation_date_time: now_millis(),
            status_id,
            deleted: false,
            isn_unit,
            isn_inventory,
            isn_doc_type: UNIT_DOC_TYPE,
            isn_securlevel: UNIT_SECURITY_LEVEL,
            security_char,
            isn_inventory_cls: isn_inventory,
            unit_kind: UNIT_KIND,
            unit_num_1,
            unit_num_2,
            name: access_unit.name.clone(),
            is_in_search: no(),
            is_lost: no(),
            has_sf: no(),
            has_fp: no(),
            has_defects: no(),
            catalogued: no(),
            weight: 0,
            start_year: access_unit.year_start,
            start_year_inexact: no(),
            end_year: access_unit.year_end,
            end_year_inexact: no(),
            medium_type,
            has_treasures: no(),
            is_museum_item: no(),
            page_count: access_unit.pages_count,
            cardboarded: no(),
            all_date: access_unit.exact_date.clone(),
        }
    }
}

} // verus!
