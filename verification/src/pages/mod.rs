//! Display rules of the dashboard pages: the labels and style classes of
//! compliance periods and alerts, of PROVISA versions and record states, and
//! of the retention assessment of archive documents.

pub mod compliance_dashboard;
pub mod flevoland;
pub mod provisa_manager;
pub mod template_manager;
pub mod wizard;
