use iou_modern::pages::compliance_dashboard::{AlertSeverity, TimePeriod};
use iou_modern::pages::flevoland::{Archiefwaarde, FlevolandUserInfo, ProvisaDocument};
use iou_modern::pages::provisa_manager::{ProvisaStatus, ProvisaVersion};
use iou_modern::state::UserInfo;

fn document(bewaartermijn: Option<u32>, archiefwaarde: Archiefwaarde) -> ProvisaDocument {
    ProvisaDocument {
        titel: "Kennisgeving",
        samenvatting: "",
        datum: "5 feb 2026",
        soort: "Provinciaal blad",
        bron_id: "prb-2026-1953",
        url: "https://zoek.officielebekendmakingen.nl/prb-2026-1953.html",
        bewaartermijn,
        archiefwaarde,
        vernietigingsdatum: None,
        overbrengingsdatum: None,
    }
}

#[test]
fn time_period_names() {
    assert_eq!(TimePeriod::Week.display(), "Week");
    assert_eq!(TimePeriod::Month.display(), "Maand");
    assert_eq!(TimePeriod::Quarter.display(), "Kwartaal");
    assert_eq!(TimePeriod::Year.display(), "Jaar");
}

#[test]
fn alert_severity_classes_and_icons() {
    assert_eq!(AlertSeverity::Info.class(), "alert-info");
    assert_eq!(AlertSeverity::Warning.class(), "alert-warning");
    assert_eq!(AlertSeverity::Error.class(), "alert-error");
    assert_eq!(AlertSeverity::Critical.class(), "alert-critical");
    assert_eq!(AlertSeverity::Info.icon(), "ℹ");
    assert_eq!(AlertSeverity::Warning.icon(), "⚠");
    assert_eq!(AlertSeverity::Error.icon(), "✕");
    assert_eq!(AlertSeverity::Critical.icon(), "⛔");
}

#[test]
fn provisa_versions() {
    assert_eq!(ProvisaVersion::Provisa2020.name(), "PROVISA 2020");
    assert_eq!(ProvisaVersion::Provisa2014.name(), "PROVISA 2014");
    assert_eq!(ProvisaVersion::Provisa2005.name(), "PROVISA 2005");
    assert_eq!(ProvisaVersion::Provisa2020.year(), 2020);
    assert_eq!(ProvisaVersion::Provisa2014.year(), 2014);
    assert_eq!(ProvisaVersion::Provisa2005.year(), 2005);
}

#[test]
fn provisa_statuses() {
    assert_eq!(ProvisaStatus::Active.display(), "Actief");
    assert_eq!(ProvisaStatus::Retained.display(), "Bewaard");
    assert_eq!(ProvisaStatus::Transferred.display(), "Overgebracht");
    assert_eq!(ProvisaStatus::Destroyed.display(), "Vernietigd");
    assert_eq!(ProvisaStatus::ReviewRequired.display(), "Review Vereist");
    assert_eq!(ProvisaStatus::Active.class(), "status-active");
    assert_eq!(ProvisaStatus::ReviewRequired.class(), "status-warning");
}

#[test]
fn retention_text() {
    assert_eq!(document(None, Archiefwaarde::Permanent).bewaartermijn_tekst(), "Permanent");
    assert_eq!(document(Some(10), Archiefwaarde::Tijdelijk).bewaartermijn_tekst(), "10 jaar");
    assert_eq!(document(Some(0), Archiefwaarde::Tijdelijk).bewaartermijn_tekst(), "0 jaar");
}

#[test]
fn archive_value_styles() {
    let permanent = document(None, Archiefwaarde::Permanent);
    let tijdelijk = document(Some(5), Archiefwaarde::Tijdelijk);
    assert_eq!(permanent.archief_class(), "badge-success");
    assert_eq!(tijdelijk.archief_class(), "badge-info");
    assert_eq!(permanent.icon_kleur(), "#0066CC");
    assert_eq!(tijdelijk.icon_kleur(), "#F59E0B");
    assert_eq!(permanent.archief_tag_class(), "tag success");
    assert_eq!(tijdelijk.archief_tag_class(), "tag warning");
}

#[test]
fn action_required_with_a_date() {
    let mut d = document(Some(5), Archiefwaarde::Tijdelijk);
    assert!(!d.actie_vereist());
    d.vernietigingsdatum = Some("2031-01-01");
    assert!(d.actie_vereist());
    let mut p = document(None, Archiefwaarde::Permanent);
    p.overbrengingsdatum = Some("2046-01-01");
    assert!(p.actie_vereist());
}

#[test]
fn demo_users() {
    let demo = UserInfo::demo();
    assert_eq!(demo.name, "Jan de Vries");
    assert_eq!(demo.email, "jan.devries@flevoland.nl");
    assert_eq!(demo.initials, "JV");
    assert_eq!(demo.organization, "Provincie Flevoland");
    assert_eq!(demo.role, "Beleidsmedewerker");
    assert_eq!(UserInfo::minfin().organization, "Ministerie van Financiën");
    assert_eq!(UserInfo::zuidholland().initials, "PJ");
    assert_eq!(UserInfo::concept().role, "Platform");
    assert_ne!(UserInfo::flevoland().id, UserInfo::flevoland().id);
}

#[test]
fn flevoland_archive_user() {
    let user = <UserInfo as FlevolandUserInfo>::flevoland();
    assert_eq!(user.name, "Archiefmedewerker Flevoland");
    assert_eq!(user.email, "archief@flevoland.nl");
    assert_eq!(user.initials, "AF");
    assert_eq!(user.organization, "Provincie Flevoland");
    assert_eq!(user.role, "Archiefmedewerker");
}
