//! JavaScript that keeps the page URL in step with the map state: writing
//! the query parameters with `history.replaceState` and reading them back on
//! page load.

use vstd::prelude::*;

verus! {

/// The part of the URL update script before the query parameters.
pub const UPDATE_URL_SCRIPT_START: &'static str = r#"
        (function() {
            try {
                const params = '"#;

/// The part of the URL update script after the query parameters.
pub const UPDATE_URL_SCRIPT_END: &'static str = r#"';
                const url = new URL(window.location.href);
                url.search = params;

                // Update URL without adding history entry
                window.history.replaceState({state: 'urlStateUpdated'}, '', url);

                console.log('URL updated:', url.toString());
            } catch (e) {
                console.error('Failed to update URL:', e);
            }
        })();
        "#;

/// The script that stores the page's query parameters in `window['initialUrlParams']`.
pub const RESTORE_STATE_SCRIPT: &'static str = r#"
    (function() {
        try {
            const params = new URLSearchParams(window.location.search);
            const queryString = params.toString() || '';

            // Set global variable for Rust to read
            window['initialUrlParams'] = queryString;
            console.log('Restored URL params:', queryString);
        } catch (e) {
            console.error('Failed to restore URL state:', e);
            window['initialUrlParams'] = '';
        }
    })();
    "#;

/// The script that returns the page's query parameters.
pub const GET_URL_PARAMS_SCRIPT: &'static str = r#"
    (function() {
        try {
            const params = new URLSearchParams(window.location.search);
            return params.toString() || '';
        } catch (e) {
            console.error('Failed to get URL params:', e);
            return '';
        }
    })();
    "#;

/// The script that writes the given query parameters to the page URL in
/// place, without adding a history entry.
pub open spec fn update_url_script_text(params: Seq<char>) -> Seq<char> {
    UPDATE_URL_SCRIPT_START@ + params + UPDATE_URL_SCRIPT_END@
}

/// Builds JavaScript that writes the given query parameters to the page URL
/// with `history.replaceState`, logging the new URL and any error.
pub fn update_url_script(params: &str) -> (r: String)
    ensures
        r@ == update_url_script_text(params@),
{
    let mut r = String::from_str(UPDATE_URL_SCRIPT_START);
    r.append(params);
    r.append(UPDATE_URL_SCRIPT_END);
    r
}

/// Builds JavaScript that reads the page's query parameters on load and
/// stores them in `window['initialUrlParams']` (empty on error).
pub fn build_restore_state_script() -> (r: String)
    ensures
        r@ == RESTORE_STATE_SCRIPT@,
{
    String::from_str(RESTORE_STATE_SCRIPT)
}

/// Builds JavaScript that returns the page's current query parameters as a
/// string (empty on error).
pub fn build_get_url_params_script() -> (r: String)
    ensures
        r@ == GET_URL_PARAMS_SCRIPT@,
{
    String::from_str(GET_URL_PARAMS_SCRIPT)
}

} // verus!
