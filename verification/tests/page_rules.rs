use iou_modern::api::documents::Template;
use iou_modern::components::audit_viewer::{toggle_expanded, trail_class, trail_heading};
use iou_modern::components::document_card::{card_class, state_class};
use iou_modern::components::filter_panel_3d::{range_label, slider_max_update, slider_min_update};
use iou_modern::pages::compliance_dashboard::{bar_width, ratio_text, toggle_selected_alert};
use iou_modern::pages::flevoland::{
    count_requiring_action, count_with_archiefwaarde, Archiefwaarde, ProvisaDocument,
};
use iou_modern::pages::provisa_manager::{
    date_or_na, domain_from_select, filter_records, records_title, retention_period_text,
    status_from_select, version_category_comparison, version_from_select,
    version_retention_comparison, ProvisaRecord, ProvisaStatus, ProvisaVersion, SearchFilter,
};
use iou_modern::pages::template_manager::{
    create_request, edited_template, editor_title, is_new_template, join_list, load_template_error,
    load_templates_error, parse_list, save_message, save_template_error,
};

fn record(id: &str, title: &str, dossier: &str, domain: &str, version: ProvisaVersion, status: ProvisaStatus) -> ProvisaRecord {
    ProvisaRecord {
        id: id.to_string(),
        title: title.to_string(),
        dossier_nr: dossier.to_string(),
        source_domain: domain.to_string(),
        provisa_version: version,
        retention_period: Some(20),
        retention_start: None,
        destruction_date: None,
        transfer_date: None,
        classification: "B".to_string(),
        tags: vec![],
        status,
    }
}

fn sample_records() -> Vec<ProvisaRecord> {
    vec![
        record("1", "Vergunning Windpark Almere", "DOS-2024-001", "Windpark Almere", ProvisaVersion::Provisa2020, ProvisaStatus::Active),
        record("2", "Peilbesluit Flevopolder", "DOS-2019-114", "Waterstaat", ProvisaVersion::Provisa2014, ProvisaStatus::Retained),
        record("3", "Aanleg N23", "INF-2005-003", "Infrastructuur", ProvisaVersion::Provisa2005, ProvisaStatus::ReviewRequired),
    ]
}

fn ids(records: &[ProvisaRecord]) -> Vec<String> {
    records.iter().map(|r| r.id.clone()).collect()
}

#[test]
fn cleared_filter_keeps_every_record() {
    let kept = filter_records(sample_records(), &SearchFilter::cleared());
    assert_eq!(ids(&kept), vec!["1", "2", "3"]);
}

#[test]
fn query_matches_title_or_dossier_without_case() {
    let mut filter = SearchFilter::cleared();
    filter.query = "WINDPARK".to_string();
    assert_eq!(ids(&filter_records(sample_records(), &filter)), vec!["1"]);
    filter.query = "dos-20".to_string();
    assert_eq!(ids(&filter_records(sample_records(), &filter)), vec!["1", "2"]);
    filter.query = "geen treffer".to_string();
    assert!(filter_records(sample_records(), &filter).is_empty());
}

#[test]
fn domain_version_and_status_narrow_the_records() {
    let mut filter = SearchFilter::cleared();
    filter.domain = domain_from_select("waterstaat".to_string());
    assert_eq!(ids(&filter_records(sample_records(), &filter)), vec!["2"]);
    let mut filter = SearchFilter::cleared();
    filter.version = version_from_select("2005");
    assert_eq!(ids(&filter_records(sample_records(), &filter)), vec!["3"]);
    let mut filter = SearchFilter::cleared();
    filter.status = status_from_select("review");
    filter.query = "n23".to_string();
    assert_eq!(ids(&filter_records(sample_records(), &filter)), vec!["3"]);
    filter.status = status_from_select("active");
    assert!(filter_records(sample_records(), &filter).is_empty());
}

#[test]
fn selector_values() {
    assert_eq!(version_from_select("2020"), Some(ProvisaVersion::Provisa2020));
    assert_eq!(version_from_select("2014"), Some(ProvisaVersion::Provisa2014));
    assert_eq!(version_from_select(""), None);
    assert_eq!(status_from_select("transferred"), Some(ProvisaStatus::Transferred));
    assert_eq!(status_from_select("destroyed"), Some(ProvisaStatus::Destroyed));
    assert_eq!(status_from_select("retained"), Some(ProvisaStatus::Retained));
    assert_eq!(status_from_select("Active"), None);
    assert_eq!(domain_from_select(String::new()), None);
    assert_eq!(domain_from_select("Energie".to_string()), Some("Energie".to_string()));
}

#[test]
fn record_detail_texts() {
    assert_eq!(records_title(3), "3 dossier(s)");
    assert_eq!(records_title(0), "0 dossier(s)");
    assert_eq!(records_title(5_000_000_000), "5000000000 dossier(s)");
    assert_eq!(retention_period_text(Some(20)), "20 jaar");
    assert_eq!(retention_period_text(Some(-1)), "-1 jaar");
    assert_eq!(retention_period_text(Some(i32::MIN)), "-2147483648 jaar");
    assert_eq!(retention_period_text(None), "Niet ingesteld");
    assert_eq!(date_or_na(&Some("2030-01-01".to_string())), "2030-01-01");
    assert_eq!(date_or_na(&None), "N/A");
    assert_eq!(version_retention_comparison(ProvisaVersion::Provisa2020), "Bewaartermijn: 15 jaar (was 20 jaar)");
    assert_eq!(version_retention_comparison(ProvisaVersion::Provisa2005), "Bewaartermijn identiek");
    assert_eq!(version_category_comparison(ProvisaVersion::Provisa2020), "Categorie: B (was A)");
    assert_eq!(version_category_comparison(ProvisaVersion::Provisa2014), "Andere categorie");
}

#[test]
fn list_fields_split_trim_and_drop_empty_items() {
    assert_eq!(parse_list("naam, datum ,  adres"), vec!["naam", "datum", "adres"]);
    assert_eq!(parse_list(""), Vec::<String>::new());
    assert_eq!(parse_list(" , ,"), Vec::<String>::new());
    assert_eq!(parse_list("a,,b"), vec!["a", "b"]);
    assert_eq!(parse_list("\tx\u{00a0}, y\n"), vec!["x", "y"]);
    assert_eq!(parse_list("één, twee drie"), vec!["één", "twee drie"]);
}

#[test]
fn list_fields_join_with_comma_space() {
    assert_eq!(join_list(&vec![]), "");
    assert_eq!(join_list(&vec!["a".to_string()]), "a");
    assert_eq!(join_list(&vec!["a".to_string(), "b c".to_string(), "d".to_string()]), "a, b c, d");
}

#[test]
fn list_round_trip_through_editor() {
    let items = vec!["inleiding".to_string(), "besluit".to_string(), "bijlage 2".to_string()];
    assert_eq!(parse_list(&join_list(&items)), items);
}

#[test]
fn editor_builds_template_from_fields() {
    let mut base = Template::empty();
    base.id = "t-7".to_string();
    base.version = 3;
    base.created_at = "2026-01-01".to_string();
    let t = edited_template(
        &base,
        "Woo-besluit".to_string(),
        "flevoland".to_string(),
        "woo_besluit".to_string(),
        "Inhoud".to_string(),
        "verzoeker, datum",
        "",
    );
    assert_eq!(t.id, "t-7");
    assert_eq!(t.name, "Woo-besluit");
    assert_eq!(t.required_variables, vec!["verzoeker", "datum"]);
    assert!(t.optional_sections.is_empty());
    assert_eq!(t.version, 3);
    assert!(t.is_active);
    assert_eq!(t.created_at, "2026-01-01");
    assert_eq!(editor_title(&t), "Template Bewerken");
    assert_eq!(editor_title(&Template::empty()), "Nieuwe Template");
    assert!(!is_new_template(&Some(t.clone())));
    assert!(is_new_template(&Some(Template::empty())));
    assert!(is_new_template(&None));
    let request = create_request(t);
    assert_eq!(request.name, "Woo-besluit");
    assert_eq!(request.required_variables, vec!["verzoeker", "datum"]);
}

#[test]
fn template_messages() {
    assert_eq!(save_message("Memo", true), "Template 'Memo' aangemaakt");
    assert_eq!(save_message("Memo", false), "Template 'Memo' bijgewerkt");
    assert_eq!(load_templates_error("timeout"), "Failed to load templates: timeout");
    assert_eq!(load_template_error("404"), "Failed to load template: 404");
    assert_eq!(save_template_error("500"), "Failed to save template: 500");
}

#[test]
fn sliders_keep_lower_bound_below_upper_bound() {
    assert_eq!(slider_min_update("1950", 1900, 2024), 1950);
    assert_eq!(slider_min_update("2030", 1900, 2024), 2024);
    assert_eq!(slider_min_update("abc", 1900, 2024), 1900);
    assert_eq!(slider_max_update("1950", 1900, 2024), 1950);
    assert_eq!(slider_max_update("1800", 1900, 2024), 1900);
    assert_eq!(slider_max_update("", 1900, 2024), 2024);
    assert_eq!(range_label("Bouwjaar", 1900, 2024), "Bouwjaar: 1900 - 2024");
    assert_eq!(range_label("Verdiepingen", 1, 10), "Verdiepingen: 1 - 10");
}

#[test]
fn document_card_styles() {
    assert_eq!(state_class("draft"), "state-draft");
    assert_eq!(state_class("submitted"), "state-pending");
    assert_eq!(state_class("in_review"), "state-pending");
    assert_eq!(state_class("approved"), "state-approved");
    assert_eq!(state_class("published"), "state-published");
    assert_eq!(state_class("rejected"), "state-rejected");
    assert_eq!(state_class("Draft"), "state-unknown");
    assert_eq!(card_class(true), "document-card selected");
    assert_eq!(card_class(false), "document-card");
}

#[test]
fn audit_viewer_expansion() {
    assert_eq!(toggle_expanded(None, 2), Some(2));
    assert_eq!(toggle_expanded(Some(2), 2), None);
    assert_eq!(toggle_expanded(Some(1), 2), Some(2));
    assert_eq!(trail_class(true), "audit-trail compact");
    assert_eq!(trail_class(false), "audit-trail");
    assert_eq!(trail_heading(true), "Recente Activiteit");
    assert_eq!(trail_heading(false), "Audit Trail");
}

#[test]
fn compliance_bars_and_alert_selection() {
    assert_eq!(bar_width(45, 50), 90);
    assert_eq!(bar_width(2, 3), 66);
    assert_eq!(bar_width(7, 0), 700);
    assert_eq!(bar_width(0, -4), 0);
    assert_eq!(bar_width(-5, 3), -166);
    assert_eq!(ratio_text(45, 50), "45/50");
    assert_eq!(ratio_text(-1, 0), "-1/0");
    assert_eq!(toggle_selected_alert(None, "a1".to_string()), Some("a1".to_string()));
    assert_eq!(toggle_selected_alert(Some("a1".to_string()), "a1".to_string()), None);
    assert_eq!(toggle_selected_alert(Some("a1".to_string()), "a2".to_string()), Some("a2".to_string()));
}

fn doc(waarde: Archiefwaarde, vernietiging: Option<&'static str>, overbrenging: Option<&'static str>) -> ProvisaDocument {
    ProvisaDocument {
        titel: "t",
        samenvatting: "s",
        datum: "d",
        soort: "k",
        bron_id: "b",
        url: "u",
        bewaartermijn: None,
        archiefwaarde: waarde,
        vernietigingsdatum: vernietiging,
        overbrengingsdatum: overbrenging,
    }
}

#[test]
fn flevoland_document_counts() {
    let docs = vec![
        doc(Archiefwaarde::Permanent, None, Some("2046-01-01")),
        doc(Archiefwaarde::Tijdelijk, Some("2031-01-01"), None),
        doc(Archiefwaarde::Tijdelijk, None, None),
    ];
    assert_eq!(count_with_archiefwaarde(&docs, Archiefwaarde::Permanent), 1);
    assert_eq!(count_with_archiefwaarde(&docs, Archiefwaarde::Tijdelijk), 2);
    assert_eq!(count_requiring_action(&docs), 2);
    assert_eq!(count_requiring_action(&[]), 0);
}

#[test]
fn wizard_steps_are_highlighted_once_reached() {
    assert_eq!(iou_modern::pages::wizard::step_tag_class(3, 1), "tag woo");
    assert_eq!(iou_modern::pages::wizard::step_tag_class(3, 3), "tag woo");
    assert_eq!(iou_modern::pages::wizard::step_tag_class(3, 4), "tag");
}
