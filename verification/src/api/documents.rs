//! The document API: the records of templates exchanged with it and the URLs
//! of its endpoints for documents and templates.

use vstd::prelude::*;
use crate::uuid_text::{uuid_text_of, uuid_to_text, uuid_value};

verus! {

/// The base URL of the document API.
pub const API_BASE: &'static str = "http://localhost:8000/api";

/// A document template.
#[derive(Clone, Debug, PartialEq)]
pub struct Template {
    pub id: String,
    pub name: String,
    pub domain_id: String,
    pub document_type: String,
    pub content: String,
    pub required_variables: Vec<String>,
    pub optional_sections: Vec<String>,
    pub version: i32,
    pub is_active: bool,
    pub created_at: String,
    pub updated_at: String,
}

impl Template {
    /// A blank template: every text and list empty, version 1, active.
    pub fn empty() -> (t: Self)
        ensures
            t.id@.len() == 0,
            t.name@.len() == 0,
            t.domain_id@.len() == 0,
            t.document_type@.len() == 0,
            t.content@.len() == 0,
            t.required_variables@.len() == 0,
            t.optional_sections@.len() == 0,
            t.version == 1,
            t.is_active,
            t.created_at@.len() == 0,
            t.updated_at@.len() == 0,
    {
        Template {
            id: String::new(),
            name: String::new(),
            domain_id: String::new(),
            document_type: String::new(),
            content: String::new(),
            required_variables: Vec::new(),
            optional_sections: Vec::new(),
            version: 1,
            is_active: true,
            created_at: String::new(),
            updated_at: String::new(),
        }
    }
}

/// Template list response.
#[derive(Clone, Debug)]
pub struct TemplateListResponse {
    pub templates: Vec<TemplateDto>,
}

/// Template summary in API responses.
#[derive(Clone, Debug)]
pub struct TemplateDto {
    pub id: String,
    pub name: String,
    pub domain_id: String,
    pub document_type: String,
    pub version: i32,
    pub is_active: bool,
    pub created_at: String,
    pub updated_at: String,
}

/// Request to create a template.
#[derive(Clone, Debug)]
pub struct CreateTemplateRequest {
    pub name: String,
    pub domain_id: String,
    pub document_type: String,
    pub content: String,
    pub required_variables: Vec<String>,
    pub optional_sections: Vec<String>,
}

/// Response to a created template.
#[derive(Clone, Debug)]
pub struct CreateTemplateResponse {
    pub template_id: String,
    pub version: i32,
}

/// The URL that creates a document: `{API_BASE}/documents/create`.
pub fn create_document_url() -> (r: String)
    ensures
        r@ == API_BASE@ + "/documents/create"@,
{
    let mut r = String::from_str(API_BASE);
    r.append("/documents/create");
    r
}

/// The URL `{API_BASE}/documents/{document_id}/{action}`.
fn document_action_url(document_id: &uuid::Uuid, action: &str) -> (r: String)
    ensures
        r@ == API_BASE@ + "/documents/"@ + uuid_text_of(uuid_value(*document_id)) + "/"@ + action@,
{
    let id = uuid_to_text(document_id);
    let mut r = String::from_str(API_BASE);
    r.append("/documents/");
    r.append(id.as_str());
    r.append("/");
    r.append(action);
    r
}

/// The URL of a document's status: `{API_BASE}/documents/{document_id}/status`.
pub fn document_status_url(document_id: &uuid::Uuid) -> (r: String)
    ensures
        r@ == API_BASE@ + "/documents/"@ + uuid_text_of(uuid_value(*document_id)) + "/status"@,
{
    let r = document_action_url(document_id, "status");
    proof {
        reveal_strlit("/");
        reveal_strlit("status");
        reveal_strlit("/status");
    }
    r
}

/// The URL that approves or rejects a document:
/// `{API_BASE}/documents/{document_id}/approve`.
pub fn approve_document_url(document_id: &uuid::Uuid) -> (r: String)
    ensures
        r@ == API_BASE@ + "/documents/"@ + uuid_text_of(uuid_value(*document_id)) + "/approve"@,
{
    let r = document_action_url(document_id, "approve");
    proof {
        reveal_strlit("/");
        reveal_strlit("approve");
        reveal_strlit("/approve");
    }
    r
}

/// The URL of a document's audit trail: `{API_BASE}/documents/{document_id}/audit`.
pub fn audit_trail_url(document_id: &uuid::Uuid) -> (r: String)
    ensures
        r@ == API_BASE@ + "/documents/"@ + uuid_text_of(uuid_value(*document_id)) + "/audit"@,
{
    let r = document_action_url(document_id, "audit");
    proof {
        reveal_strlit("/");
        reveal_strlit("audit");
        reveal_strlit("/audit");
    }
    r
}

/// The URL of the templates, of one domain where one is given:
/// `{API_BASE}/templates?domain_id={domain}` or `{API_BASE}/templates`.
pub fn templates_url(domain_id: Option<String>) -> (r: String)
    ensures
        r@ == match domain_id {
            Some(domain) => API_BASE@ + "/templates?domain_id="@ + domain@,
            None => API_BASE@ + "/templates"@,
        },
{
    let mut r = String::from_str(API_BASE);
    match domain_id {
        Some(domain) => {
            r.append("/templates?domain_id=");
            r.append(domain.as_str());
        },
        None => {
            r.append("/templates");
        },
    }
    r
}

/// The URL of one template: `{API_BASE}/templates/{template_id}`.
pub fn template_url(template_id: &str) -> (r: String)
    ensures
        r@ == API_BASE@ + "/templates/"@ + template_id@,
{
    let mut r = String::from_str(API_BASE);
    r.append("/templates/");
    r.append(template_id);
    r
}

} // verus!
