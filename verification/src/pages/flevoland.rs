//! The retention assessment of Flevoland's published documents under the
//! PROVISA selection list: how long a document is kept, and how its archive
//! value is shown.

use vstd::prelude::*;
use crate::text::{decimal, push_decimal};
use crate::state::UserInfo;
use crate::orchestrator::external::new_random_id;

verus! {

/// The archive value that PROVISA assigns to a document: kept permanently
/// (and transferred to the archive) or kept for a limited time.
#[derive(Clone, Copy, Debug, PartialEq, Eq, Structural)]
pub enum Archiefwaarde {
    Permanent,
    Tijdelijk,
}

/// A published document with its PROVISA assessment.
pub struct ProvisaDocument {
    pub titel: &'static str,
    pub samenvatting: &'static str,
    pub datum: &'static str,
    pub soort: &'static str,
    pub bron_id: &'static str,
    pub url: &'static str,
    /// Retention period in years (`None`: kept permanently).
    pub bewaartermijn: Option<u32>,
    /// Archive value under PROVISA.
    pub archiefwaarde: Archiefwaarde,
    /// Date of destruction, where it applies.
    pub vernietigingsdatum: Option<&'static str>,
    /// Date of transfer to the archive, where it applies.
    pub overbrengingsdatum: Option<&'static str>,
}

/// The text of a retention period: "Permanent", or the number of years
/// followed by " jaar".
pub open spec fn bewaartermijn_text(bewaartermijn: Option<u32>) -> Seq<char> {
    match bewaartermijn {
        None => "Permanent"@,
        Some(jaren) => decimal(jaren as nat) + " jaar"@,
    }
}

impl ProvisaDocument {
    /// The text of the retention period: "Permanent" or "{n} jaar".
    pub fn bewaartermijn_tekst(&self) -> (r: String)
        ensures
            r@ == bewaartermijn_text(self.bewaartermijn),
    {
        match self.bewaartermijn {
            None => String::from_str("Permanent"),
            Some(jaren) => {
                let mut r = String::new();
                push_decimal(&mut r, jaren);
                r.append(" jaar");
                r
            },
        }
    }

    /// The CSS class of the archive value badge.
    pub fn archief_class(&self) -> (r: String)
        ensures
            r@ == (match self.archiefwaarde {
                Archiefwaarde::Permanent => "badge-success"@,
                Archiefwaarde::Tijdelijk => "badge-info"@,
            }),
    {
        match self.archiefwaarde {
            Archiefwaarde::Permanent => String::from_str("badge-success"),
            Archiefwaarde::Tijdelijk => String::from_str("badge-info"),
        }
    }

    /// Whether the document calls for action: it has a destruction or a
    /// transfer date.
    pub fn actie_vereist(&self) -> (r: bool)
        ensures
            r == (self.vernietigingsdatum is Some || self.overbrengingsdatum is Some),
    {
        self.vernietigingsdatum.is_some() || self.overbrengingsdatum.is_some()
    }

    /// The background colour of the document's icon.
    pub fn icon_kleur(&self) -> (r: String)
        ensures
            r@ == (match self.archiefwaarde {
                Archiefwaarde::Permanent => "#0066CC"@,
                Archiefwaarde::Tijdelijk => "#F59E0B"@,
            }),
    {
        match self.archiefwaarde {
            Archiefwaarde::Permanent => String::from_str("#0066CC"),
            Archiefwaarde::Tijdelijk => String::from_str("#F59E0B"),
        }
    }

    /// The CSS class of the archive value tag.
    pub fn archief_tag_class(&self) -> (r: String)
        ensures
            r@ == (match self.archiefwaarde {
                Archiefwaarde::Permanent => "tag success"@,
                Archiefwaarde::Tijdelijk => "tag warning"@,
            }),
    {
        match self.archiefwaarde {
            Archiefwaarde::Permanent => String::from_str("tag success"),
            Archiefwaarde::Tijdelijk => String::from_str("tag warning"),
        }
    }
}

/// Whether a document calls for action: it has a destruction or a transfer
/// date.
pub open spec fn needs_action(d: ProvisaDocument) -> bool {
    d.vernietigingsdatum is Some || d.overbrengingsdatum is Some
}

/// How many of the documents have the given archive value.
pub fn count_with_archiefwaarde(docs: &[ProvisaDocument], waarde: Archiefwaarde) -> (n: usize)
    ensures
        n == docs@.filter(|d: ProvisaDocument| d.archiefwaarde == waarde).len(),
{
    let ghost pred = |d: ProvisaDocument| d.archiefwaarde == waarde;
    let mut n: usize = 0;
    let mut i: usize = 0;
    while i < docs.len()
        invariant
            i <= docs@.len(),
            n == docs@.take(i as int).filter(pred).len(),
            n <= i,
            pred == (|d: ProvisaDocument| d.archiefwaarde == waarde),
        decreases docs@.len() - i,
    {
        proof {
            reveal(Seq::filter);
            let t = docs@.take(i + 1);
            assert(t.drop_last() =~= docs@.take(i as int));
            assert(t.last() == docs@[i as int]);
        }
        if docs[i].archiefwaarde == waarde {
            n = n + 1;
        }
        i = i + 1;
    }
    assert(docs@.take(docs@.len() as int) =~= docs@);
    n
}

/// How many of the documents call for action.
pub fn count_requiring_action(docs: &[ProvisaDocument]) -> (n: usize)
    ensures
        n == docs@.filter(|d: ProvisaDocument| needs_action(d)).len(),
{
    let ghost pred = |d: ProvisaDocument| needs_action(d);
    let mut n: usize = 0;
    let mut i: usize = 0;
    while i < docs.len()
        invariant
            i <= docs@.len(),
            n == docs@.take(i as int).filter(pred).len(),
            n <= i,
            pred == (|d: ProvisaDocument| needs_action(d)),
        decreases docs@.len() - i,
    {
        proof {
            reveal(Seq::filter);
            let t = docs@.take(i + 1);
            assert(t.drop_last() =~= docs@.take(i as int));
            assert(t.last() == docs@[i as int]);
        }
        if docs[i].actie_vereist() {
            n = n + 1;
        }
        i = i + 1;
    }
    assert(docs@.take(docs@.len() as int) =~= docs@);
    n
}

/// The Flevoland archive user, as the archive pages sign in.
pub trait FlevolandUserInfo: Sized {
    /// The archive employee of the province.
    fn flevoland() -> Self;
}

impl FlevolandUserInfo for UserInfo {
    /// The Flevoland archive employee, with a fresh identifier.
    fn flevoland() -> (u: Self)
        ensures
            u.describes(
                "Archiefmedewerker Flevoland"@,
                "archief@flevoland.nl"@,
                "AF"@,
                "Provincie Flevoland"@,
                "Archiefmedewerker"@,
            ),
    {
        UserInfo {
            id: new_random_id(),
            name: String::from_str("Archiefmedewerker Flevoland"),
            email: String::from_str("archief@flevoland.nl"),
            initials: String::from_str("AF"),
            organization: String::from_str("Provincie Flevoland"),
            role: String::from_str("Archiefmedewerker"),
        }
    }
}

} // verus!
