//! The PROVISA management page: the selection-list versions and the states
//! of archive records, the search filter over the records, and the texts of
//! a record's details.

use vstd::prelude::*;
use crate::text::{
    contains_str, contains_text, lowercase_text, push_decimal_usize, push_signed_decimal, decimal,
    signed_decimal, str_eq, to_lower,
};

verus! {

/// A version of the PROVISA selection list.
#[derive(Clone, Copy, Debug, PartialEq, Eq, Structural)]
pub enum ProvisaVersion {
    Provisa2020,
    Provisa2014,
    Provisa2005,
}

impl ProvisaVersion {
    /// The year in which the version was issued.
    pub open spec fn year_value(self) -> i32 {
        match self {
            ProvisaVersion::Provisa2020 => 2020,
            ProvisaVersion::Provisa2014 => 2014,
            ProvisaVersion::Provisa2005 => 2005,
        }
    }

    /// The name of the version.
    pub open spec fn name_text(self) -> Seq<char> {
        match self {
            ProvisaVersion::Provisa2020 => "PROVISA 2020"@,
            ProvisaVersion::Provisa2014 => "PROVISA 2014"@,
            ProvisaVersion::Provisa2005 => "PROVISA 2005"@,
        }
    }

    /// The name of the version, such as "PROVISA 2020".
    pub fn name(&self) -> (r: &'static str)
        ensures
            r@ == self.name_text(),
    {
        match self {
            ProvisaVersion::Provisa2020 => "PROVISA 2020",
            ProvisaVersion::Provisa2014 => "PROVISA 2014",
            ProvisaVersion::Provisa2005 => "PROVISA 2005",
        }
    }

    /// The year in which the version was issued.
    pub fn year(&self) -> (r: i32)
        ensures
            r == self.year_value(),
    {
        match self {
            ProvisaVersion::Provisa2020 => 2020,
            ProvisaVersion::Provisa2014 => 2014,
            ProvisaVersion::Provisa2005 => 2005,
        }
    }
}

/// The state of an archive record.
#[derive(Clone, Copy, Debug, PartialEq, Eq, Structural)]
pub enum ProvisaStatus {
    Active,
    Retained,
    Transferred,
    Destroyed,
    ReviewRequired,
}

impl ProvisaStatus {
    /// The Dutch name of the state.
    pub open spec fn display_text(self) -> Seq<char> {
        match self {
            ProvisaStatus::Active => "Actief"@,
            ProvisaStatus::Retained => "Bewaard"@,
            ProvisaStatus::Transferred => "Overgebracht"@,
            ProvisaStatus::Destroyed => "Vernietigd"@,
            ProvisaStatus::ReviewRequired => "Review Vereist"@,
        }
    }

    /// The CSS class of the state.
    pub open spec fn class_text(self) -> Seq<char> {
        match self {
            ProvisaStatus::Active => "status-active"@,
            ProvisaStatus::Retained => "status-retained"@,
            ProvisaStatus::Transferred => "status-transferred"@,
            ProvisaStatus::Destroyed => "status-destroyed"@,
            ProvisaStatus::ReviewRequired => "status-warning"@,
        }
    }

    /// The Dutch name of the state.
    pub fn display(&self) -> (r: &'static str)
        ensures
            r@ == self.display_text(),
    {
        match self {
            ProvisaStatus::Active => "Actief",
            ProvisaStatus::Retained => "Bewaard",
            ProvisaStatus::Transferred => "Overgebracht",
            ProvisaStatus::Destroyed => "Vernietigd",
            ProvisaStatus::ReviewRequired => "Review Vereist",
        }
    }

    /// The CSS class of the state; a record under review is shown as a warning.
    pub fn class(&self) -> (r: &'static str)
        ensures
            r@ == self.class_text(),
    {
        match self {
            ProvisaStatus::Active => "status-active",
            ProvisaStatus::Retained => "status-retained",
            ProvisaStatus::Transferred => "status-transferred",
            ProvisaStatus::Destroyed => "status-destroyed",
            ProvisaStatus::ReviewRequired => "status-warning",
        }
    }
}

/// An archive record managed under PROVISA.
#[derive(Clone, Debug, PartialEq)]
pub struct ProvisaRecord {
    pub id: String,
    pub title: String,
    pub dossier_nr: String,
    pub source_domain: String,
    pub provisa_version: ProvisaVersion,
    /// Retention period in years, where one is set.
    pub retention_period: Option<i32>,
    pub retention_start: Option<String>,
    pub destruction_date: Option<String>,
    pub transfer_date: Option<String>,
    pub classification: String,
    pub tags: Vec<String>,
    pub status: ProvisaStatus,
}

/// The search filter over the records. The retention bounds are kept with
/// the filter but do not take part in the search.
#[derive(Clone, Debug, PartialEq)]
pub struct SearchFilter {
    pub query: String,
    pub domain: Option<String>,
    pub version: Option<ProvisaVersion>,
    pub status: Option<ProvisaStatus>,
    pub retention_from: Option<i32>,
    pub retention_to: Option<i32>,
}

/// Whether the query matches a record: the query is empty, or it occurs in
/// the record's title or dossier number, compared in lower case.
pub open spec fn query_matches(query: Seq<char>, record: ProvisaRecord) -> bool {
    ||| query.len() == 0
    ||| contains_text(lowercase_text(record.title@), lowercase_text(query))
    ||| contains_text(lowercase_text(record.dossier_nr@), lowercase_text(query))
}

/// Whether a record passes the filter: the query matches, the domain (where
/// one is chosen) occurs in the record's source domain in lower case, and
/// the version and state (where chosen) are the record's.
pub open spec fn record_matches(filter: SearchFilter, record: ProvisaRecord) -> bool {
    &&& query_matches(filter.query@, record)
    &&& match filter.domain {
        Some(d) => contains_text(lowercase_text(record.source_domain@), lowercase_text(d@)),
        None => true,
    }
    &&& match filter.version {
        Some(v) => record.provisa_version == v,
        None => true,
    }
    &&& match filter.status {
        Some(st) => record.status == st,
        None => true,
    }
}

impl SearchFilter {
    /// The empty filter, which every record passes.
    pub fn cleared() -> (f: SearchFilter)
        ensures
            f.query@.len() == 0,
            f.domain is None,
            f.version is None,
            f.status is None,
            f.retention_from is None,
            f.retention_to is None,
    {
        SearchFilter {
            query: String::new(),
            domain: None,
            version: None,
            status: None,
            retention_from: None,
            retention_to: None,
        }
    }

    /// Whether a record passes the filter.
    pub fn matches(&self, record: &ProvisaRecord) -> (r: bool)
        ensures
            r == record_matches(*self, *record),
    {
        let query_match = self.query.as_str().unicode_len() == 0 || {
            let q = to_lower(self.query.as_str());
            let title = to_lower(record.title.as_str());
            let dossier = to_lower(record.dossier_nr.as_str());
            contains_str(title.as_str(), q.as_str()) || contains_str(dossier.as_str(), q.as_str())
        };
        let domain_match = match &self.domain {
            Some(d) => {
                let wanted = to_lower(d.as_str());
                let domain = to_lower(record.source_domain.as_str());
                contains_str(domain.as_str(), wanted.as_str())
            },
            None => true,
        };
        let version_match = match self.version {
            Some(v) => record.provisa_version == v,
            None => true,
        };
        let status_match = match self.status {
            Some(st) => record.status == st,
            None => true,
        };
        query_match && domain_match && version_match && status_match
    }
}

/// The records of a sequence that pass the filter, in their order.
pub open spec fn kept_records(filter: SearchFilter, records: Seq<ProvisaRecord>) -> Seq<ProvisaRecord> {
    records.filter(|x: ProvisaRecord| record_matches(filter, x))
}

/// The records that pass the filter, in their order.
pub fn filter_records(records: Vec<ProvisaRecord>, filter: &SearchFilter) -> (r: Vec<ProvisaRecord>)
    ensures
        r@ == kept_records(*filter, records@),
{
    let ghost all = records@;
    let ghost pred = |x: ProvisaRecord| record_matches(*filter, x);
    let mut rest = records;
    let mut kept: Vec<ProvisaRecord> = Vec::new();
    let ghost mut i: int = 0;
    while rest.len() > 0
        invariant
            0 <= i <= all.len(),
            rest@ == all.skip(i),
            kept@ == all.take(i).filter(pred),
            pred == (|x: ProvisaRecord| record_matches(*filter, x)),
        decreases rest.len(),
    {
        let record = rest.remove(0);
        let keep = filter.matches(&record);
        proof {
            reveal(Seq::filter);
            let t = all.take(i + 1);
            assert(record == all[i]);
            assert(t.drop_last() =~= all.take(i));
            assert(t.last() == record);
            assert(pred(record) == keep);
            assert(t.filter(pred) == (if pred(t.last()) {
                t.drop_last().filter(pred).push(t.last())
            } else {
                t.drop_last().filter(pred)
            }));
        }
        if keep {
            kept.push(record);
        }
        proof {
            assert(rest@ =~= all.skip(i + 1));
            i = i + 1;
        }
    }
    assert(all.take(i) =~= all);
    kept
}

/// The version chosen in the version selector: "2020", "2014" or "2005";
/// anything else chooses none.
pub fn version_from_select(value: &str) -> (r: Option<ProvisaVersion>)
    ensures
        r == (if value@ == "2020"@ {
            Some(ProvisaVersion::Provisa2020)
        } else if value@ == "2014"@ {
            Some(ProvisaVersion::Provisa2014)
        } else if value@ == "2005"@ {
            Some(ProvisaVersion::Provisa2005)
        } else {
            None
        }),
{
    if str_eq(value, "2020") {
        Some(ProvisaVersion::Provisa2020)
    } else if str_eq(value, "2014") {
        Some(ProvisaVersion::Provisa2014)
    } else if str_eq(value, "2005") {
        Some(ProvisaVersion::Provisa2005)
    } else {
        None
    }
}

/// The state chosen in the state selector: "active", "retained",
/// "transferred", "destroyed" or "review"; anything else chooses none.
pub fn status_from_select(value: &str) -> (r: Option<ProvisaStatus>)
    ensures
        r == (if value@ == "active"@ {
            Some(ProvisaStatus::Active)
        } else if value@ == "retained"@ {
            Some(ProvisaStatus::Retained)
        } else if value@ == "transferred"@ {
            Some(ProvisaStatus::Transferred)
        } else if value@ == "destroyed"@ {
            Some(ProvisaStatus::Destroyed)
        } else if value@ == "review"@ {
            Some(ProvisaStatus::ReviewRequired)
        } else {
            None
        }),
{
    if str_eq(value, "active") {
        Some(ProvisaStatus::Active)
    } else if str_eq(value, "retained") {
        Some(ProvisaStatus::Retained)
    } else if str_eq(value, "transferred") {
        Some(ProvisaStatus::Transferred)
    } else if str_eq(value, "destroyed") {
        Some(ProvisaStatus::Destroyed)
    } else if str_eq(value, "review") {
        Some(ProvisaStatus::ReviewRequired)
    } else {
        None
    }
}

/// The domain chosen in the domain selector: none for the empty value.
pub fn domain_from_select(value: String) -> (r: Option<String>)
    ensures
        match r {
            Some(d) => value@.len() > 0 && d@ == value@,
            None => value@.len() == 0,
        },
{
    if value.as_str().unicode_len() == 0 {
        None
    } else {
        Some(value)
    }
}

/// The title of the results panel: the number of records, then " dossier(s)".
pub fn records_title(count: usize) -> (r: String)
    ensures
        r@ == decimal(count as nat) + " dossier(s)"@,
{
    let mut r = String::new();
    push_decimal_usize(&mut r, count);
    r.append(" dossier(s)");
    r
}

/// The text of a retention period: "{n} jaar", or "Niet ingesteld" when
/// none is set.
pub fn retention_period_text(period: Option<i32>) -> (r: String)
    ensures
        r@ == match period {
            Some(n) => signed_decimal(n as int) + " jaar"@,
            None => "Niet ingesteld"@,
        },
{
    match period {
        Some(n) => {
            let mut r = String::new();
            push_signed_decimal(&mut r, n);
            r.append(" jaar");
            r
        },
        None => String::from_str("Niet ingesteld"),
    }
}

/// A date of a record, or "N/A" when it has none.
pub fn date_or_na(date: &Option<String>) -> (r: String)
    ensures
        r@ == match date {
            Some(d) => d@,
            None => "N/A"@,
        },
{
    match date {
        Some(d) => String::from_str(d.as_str()),
        None => String::from_str("N/A"),
    }
}

/// How the retention period of a record compares between the versions of
/// the selection list.
pub fn version_retention_comparison(version: ProvisaVersion) -> (r: &'static str)
    ensures
        r@ == (if version == ProvisaVersion::Provisa2020 {
            "Bewaartermijn: 15 jaar (was 20 jaar)"@
        } else {
            "Bewaartermijn identiek"@
        }),
{
    match version {
        ProvisaVersion::Provisa2020 => "Bewaartermijn: 15 jaar (was 20 jaar)",
        _ => "Bewaartermijn identiek",
    }
}

/// How the category of a record compares between the versions of the
/// selection list.
pub fn version_category_comparison(version: ProvisaVersion) -> (r: &'static str)
    ensures
        r@ == (if version == ProvisaVersion::Provisa2020 {
            "Categorie: B (was A)"@
        } else {
            "Andere categorie"@
        }),
{
    match version {
        ProvisaVersion::Provisa2020 => "Categorie: B (was A)",
        _ => "Andere categorie",
    }
}

/// The empty filter lets every record through.
pub proof fn law_cleared_filter_keeps_all(filter: SearchFilter, records: Seq<ProvisaRecord>)
    requires
        filter.query@.len() == 0,
        filter.domain is None,
        filter.version is None,
        filter.status is None,
    ensures
        records.filter(|x: ProvisaRecord| record_matches(filter, x)) == records,
    decreases records.len(),
{
    reveal(Seq::filter);
    let pred = |x: ProvisaRecord| record_matches(filter, x);
    if records.len() > 0 {
        law_cleared_filter_keeps_all(filter, records.drop_last());
        assert(records.drop_last().filter(pred) == records.drop_last());
        assert(pred(records.last()));
        assert(records.filter(pred) == records.drop_last().filter(pred).push(records.last()));
        assert(records.drop_last().push(records.last()) =~= records);
    }
}

/// The version and state choices are exact: when the filter names a
/// version, every record it keeps has that version, and when it names a
/// state, every record it keeps is in that state; a record that passes the
/// filter matches both.
pub proof fn law_filter_version_and_state_are_exact(filter: SearchFilter, records: Seq<ProvisaRecord>)
    ensures
        forall|r: ProvisaRecord|
            #[trigger] record_matches(filter, r) ==> {
                &&& (filter.version matches Some(v) ==> r.provisa_version == v)
                &&& (filter.status matches Some(st) ==> r.status == st)
            },
        forall|i: int|
            0 <= i < kept_records(filter, records).len() ==> {
                &&& (filter.version matches Some(v) ==> #[trigger] kept_records(filter, records)[i].provisa_version == v)
                &&& (filter.status matches Some(st) ==> kept_records(filter, records)[i].status == st)
            },
{
    let pred = |x: ProvisaRecord| record_matches(filter, x);
    assert forall|i: int| 0 <= i < kept_records(filter, records).len() implies record_matches(
        filter,
        #[trigger] kept_records(filter, records)[i],
    ) by {
        records.lemma_filter_pred(pred, i);
        assert(pred(records.filter(pred)[i]));
    }
}

} // verus!
