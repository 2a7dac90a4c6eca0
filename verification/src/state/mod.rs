//! Application state: the signed-in user, and the state of the map views.

pub mod density_heatmap;
pub mod url_params;
pub mod view_toggle;

pub use density_heatmap::DensityHeatmap;
pub use view_toggle::{ViewMode, ViewToggle};

use vstd::prelude::*;
use crate::orchestrator::external::new_random_id;

verus! {

/// Simplified user info.
#[derive(Clone, Debug)]
pub struct UserInfo {
    pub id: uuid::Uuid,
    pub name: String,
    pub email: String,
    pub initials: String,
    pub organization: String,
    pub role: String,
}

impl UserInfo {
    /// Whether the user has the given name, e-mail address, initials,
    /// organization and role.
    pub open spec fn describes(
        self,
        name: Seq<char>,
        email: Seq<char>,
        initials: Seq<char>,
        organization: Seq<char>,
        role: Seq<char>,
    ) -> bool {
        &&& self.name@ == name
        &&& self.email@ == email
        &&& self.initials@ == initials
        &&& self.organization@ == organization
        &&& self.role@ == role
    }

    /// The demo user: the Flevoland policy officer.
    pub fn demo() -> (u: Self)
        ensures
            u.describes(
                "Jan de Vries"@,
                "jan.devries@flevoland.nl"@,
                "JV"@,
                "Provincie Flevoland"@,
                "Beleidsmedewerker"@,
            ),
    {
        Self::flevoland()
    }

    /// The Flevoland policy officer, with a fresh identifier.
    pub fn flevoland() -> (u: Self)
        ensures
            u.describes(
                "Jan de Vries"@,
                "jan.devries@flevoland.nl"@,
                "JV"@,
                "Provincie Flevoland"@,
                "Beleidsmedewerker"@,
            ),
    {
        UserInfo {
            id: new_random_id(),
            name: String::from_str("Jan de Vries"),
            email: String::from_str("jan.devries@flevoland.nl"),
            initials: String::from_str("JV"),
            organization: String::from_str("Provincie Flevoland"),
            role: String::from_str("Beleidsmedewerker"),
        }
    }

    /// The Ministry of Finance senior policy adviser, with a fresh identifier.
    pub fn minfin() -> (u: Self)
        ensures
            u.describes(
                "Maria van den Berg"@,
                "m.vandenberg@minfin.nl"@,
                "MB"@,
                "Ministerie van Financi\u{00eb}n"@,
                "Senior Beleidsadviseur"@,
            ),
    {
        UserInfo {
            id: new_random_id(),
            name: String::from_str("Maria van den Berg"),
            email: String::from_str("m.vandenberg@minfin.nl"),
            initials: String::from_str("MB"),
            organization: String::from_str("Ministerie van Financi\u{00eb}n"),
            role: String::from_str("Senior Beleidsadviseur"),
        }
    }

    /// The Zuid-Holland mobility programme manager, with a fresh identifier.
    pub fn zuidholland() -> (u: Self)
        ensures
            u.describes(
                "Pieter Jansen"@,
                "p.jansen@pzh.nl"@,
                "PJ"@,
                "Provincie Zuid-Holland"@,
                "Programmamanager Mobiliteit"@,
            ),
    {
        UserInfo {
            id: new_random_id(),
            name: String::from_str("Pieter Jansen"),
            email: String::from_str("p.jansen@pzh.nl"),
            initials: String::from_str("PJ"),
            organization: String::from_str("Provincie Zuid-Holland"),
            role: String::from_str("Programmamanager Mobiliteit"),
        }
    }

    /// The platform account, with a fresh identifier.
    pub fn concept() -> (u: Self)
        ensures
            u.describes(
                "IOU Platform"@,
                "platform@iou-modern.nl"@,
                "IO"@,
                "IOU-Modern"@,
                "Platform"@,
            ),
    {
        UserInfo {
            id: new_random_id(),
            name: String::from_str("IOU Platform"),
            email: String::from_str("platform@iou-modern.nl"),
            initials: String::from_str("IO"),
            organization: String::from_str("IOU-Modern"),
            role: String::from_str("Platform"),
        }
    }
}

} // verus!
