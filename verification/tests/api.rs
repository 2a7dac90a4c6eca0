use iou_modern::api::documents::{
    approve_document_url, audit_trail_url, create_document_url, document_status_url, template_url,
    templates_url, Template,
};
use iou_modern::api::{context_url, domains_url, encode, recommended_apps_url, search_url};
use iou_modern::uuid_text::uuid_to_text;

#[test]
fn encode_keeps_unreserved_characters() {
    assert_eq!(encode("abcXYZ019-_.~"), "abcXYZ019-_.~");
    assert_eq!(encode(""), "");
}

#[test]
fn encode_escapes_space_and_reserved_characters() {
    assert_eq!(encode("a b"), "a%20b");
    assert_eq!(encode("a&b=c/d?"), "a%26b%3Dc%2Fd%3F");
    assert_eq!(encode("%"), "%25");
    assert_eq!(encode("+"), "%2B");
}

#[test]
fn encode_escapes_utf8_bytes_in_upper_case_hex() {
    assert_eq!(encode("é"), "%C3%A9");
    assert_eq!(encode("Financiën"), "Financi%C3%ABn");
    assert_eq!(encode("€"), "%E2%82%AC");
    assert_eq!(encode("😀"), "%F0%9F%98%80");
}

#[test]
fn search_url_encodes_query() {
    assert_eq!(search_url("woo besluit"), "http://localhost:8000/search?q=woo%20besluit");
}

#[test]
fn api_urls() {
    assert_eq!(context_url("flevoland"), "http://localhost:8000/context/flevoland");
    assert_eq!(domains_url(), "http://localhost:8000/domains");
    assert_eq!(recommended_apps_url(), "http://localhost:8000/apps/recommended");
}

#[test]
fn uuid_text_matches_display() {
    for _ in 0..20 {
        let id = uuid::Uuid::new_v4();
        assert_eq!(uuid_to_text(&id), id.to_string());
    }
    let id = uuid::Uuid::parse_str("a1a2a3a4-b1b2-c1c2-d1d2-d3d4d5d6d7d8").unwrap();
    assert_eq!(uuid_to_text(&id), "a1a2a3a4-b1b2-c1c2-d1d2-d3d4d5d6d7d8");
    assert_eq!(uuid_to_text(&uuid::Uuid::nil()), "00000000-0000-0000-0000-000000000000");
}

#[test]
fn document_urls() {
    let id = uuid::Uuid::parse_str("67e55044-10b1-426f-9247-bb680e5fe0c8").unwrap();
    assert_eq!(create_document_url(), "http://localhost:8000/api/documents/create");
    assert_eq!(
        document_status_url(&id),
        "http://localhost:8000/api/documents/67e55044-10b1-426f-9247-bb680e5fe0c8/status"
    );
    assert_eq!(
        approve_document_url(&id),
        "http://localhost:8000/api/documents/67e55044-10b1-426f-9247-bb680e5fe0c8/approve"
    );
    assert_eq!(
        audit_trail_url(&id),
        "http://localhost:8000/api/documents/67e55044-10b1-426f-9247-bb680e5fe0c8/audit"
    );
}

#[test]
fn template_urls() {
    assert_eq!(templates_url(None), "http://localhost:8000/api/templates");
    assert_eq!(
        templates_url(Some("zuid-holland".to_string())),
        "http://localhost:8000/api/templates?domain_id=zuid-holland"
    );
    assert_eq!(template_url("t-1"), "http://localhost:8000/api/templates/t-1");
}

#[test]
fn empty_template_is_blank_active_version_one() {
    let t = Template::empty();
    assert_eq!(t.id, "");
    assert_eq!(t.name, "");
    assert_eq!(t.domain_id, "");
    assert_eq!(t.document_type, "");
    assert_eq!(t.content, "");
    assert!(t.required_variables.is_empty());
    assert!(t.optional_sections.is_empty());
    assert_eq!(t.version, 1);
    assert!(t.is_active);
    assert_eq!(t.created_at, "");
    assert_eq!(t.updated_at, "");
}
