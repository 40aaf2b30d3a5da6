//! The hybrid fetch decision engine. The policy: always fetch statically
//! first; a static failure is final; a JavaScript-heavy static result is
//! improved by one browser-rendered fetch; a browser failure degrades back
//! to the static result rather than failing the request. Whatever branch
//! runs, the returned content carries both decision fields.

use vstd::prelude::*;
use vstd::string::*;
use crate::model::{BrowserOptions, ContentMetadata, FetchContentRequest, FetchMethod, HtmlContent};
use crate::errors::ContentFetcherError;
use crate::detector::{spec_has_significant_javascript, JavaScriptDetector};

verus! {

/// The user agent the browser path presents when a request names none.
pub open spec fn default_browser_user_agent() -> Seq<char> {
    "Mozilla/5.0 (X11; Linux x86_64) AppleWebKit/537.36 (KHTML, like Gecko) Chrome/120.0.0.0 Safari/537.36"@
}

/// The browser deadline derived from a request: the request's timeout in
/// milliseconds (saturating), or ten seconds when the request names none.
pub open spec fn spec_browser_timeout_ms(timeout_seconds: Option<u64>) -> int {
    match timeout_seconds {
        Option::Some(t) => {
            if t * 1000 <= u64::MAX {
                t * 1000
            } else {
                u64::MAX as int
            }
        },
        Option::None => 10000,
    }
}

/// The options one request hands to the browser path: wait for scripts to
/// settle, keep images off, no selector to wait for, the deadline from the
/// request's timeout, and the request's user agent or the fixed default.
pub fn browser_options_for(request: &FetchContentRequest) -> (o: BrowserOptions)
    ensures
        o.wait_for_js == true,
        o.disable_images == true,
        o.wait_for_selector is None,
        o.timeout_ms as int == spec_browser_timeout_ms(request.timeout_seconds),
        request.user_agent is Some ==> o.user_agent == request.user_agent,
        request.user_agent is None ==> (o.user_agent matches Some(ua) && ua@
            == default_browser_user_agent()),
{
    let timeout_ms: u64 = match &request.timeout_seconds {
        Some(t) => {
            if *t > u64::MAX / 1000 {
                u64::MAX
            } else {
                *t * 1000
            }
        },
        None => 10000,
    };
    let user_agent: Option<String> = match &request.user_agent {
        Some(ua) => Some(ua.clone()),
        None => Some(
            String::from_str(
                "Mozilla/5.0 (X11; Linux x86_64) AppleWebKit/537.36 (KHTML, like Gecko) Chrome/120.0.0.0 Safari/537.36",
            ),
        ),
    };
    BrowserOptions {
        wait_for_js: true,
        timeout_ms,
        wait_for_selector: None,
        disable_images: true,
        user_agent,
    }
}

/// A successful static result that needs no rendering: the content as
/// fetched, marked "no JavaScript detected, obtained statically".
pub open spec fn spec_finalize_static(c: HtmlContent) -> HtmlContent {
    HtmlContent {
        url: c.url,
        title: c.title,
        text_content: c.text_content,
        raw_html: c.raw_html,
        metadata: ContentMetadata {
            content_type: c.metadata.content_type,
            status_code: c.metadata.status_code,
            content_length: c.metadata.content_length,
            last_modified: c.metadata.last_modified,
            charset: c.metadata.charset,
            javascript_detected: Some(false),
            fetch_method: Some(FetchMethod::Static),
        },
    }
}

/// A successful browser result: the rendered content, marked "JavaScript
/// detected, obtained through the browser".
pub open spec fn spec_finalize_browser(c: HtmlContent) -> HtmlContent {
    HtmlContent {
        url: c.url,
        title: c.title,
        text_content: c.text_content,
        raw_html: c.raw_html,
        metadata: ContentMetadata {
            content_type: c.metadata.content_type,
            status_code: c.metadata.status_code,
            content_length: c.metadata.content_length,
            last_modified: c.metadata.last_modified,
            charset: c.metadata.charset,
            javascript_detected: Some(true),
            fetch_method: Some(FetchMethod::Browser),
        },
    }
}

/// The degraded result after a failed browser attempt: the original static
/// content, marked "JavaScript detected, obtained statically".
pub open spec fn spec_finalize_degraded(c: HtmlContent) -> HtmlContent {
    HtmlContent {
        url: c.url,
        title: c.title,
        text_content: c.text_content,
        raw_html: c.raw_html,
        metadata: ContentMetadata {
            content_type: c.metadata.content_type,
            status_code: c.metadata.status_code,
            content_length: c.metadata.content_length,
            last_modified: c.metadata.last_modified,
            charset: c.metadata.charset,
            javascript_detected: Some(true),
            fetch_method: Some(FetchMethod::Static),
        },
    }
}

/// What the orchestrator does once the static fetch has come back: give up,
/// finish, or try the browser.
pub enum FetchPlan {
    /// The static fetch failed; its error is the request's outcome, and the
    /// browser is not consulted.
    Fail(ContentFetcherError),
    /// The static result suffices; it is the request's outcome.
    Done(HtmlContent),
    /// The static result is JavaScript-heavy; one browser fetch should be
    /// attempted, with this static content kept as the fallback.
    NeedBrowser(HtmlContent),
}

/// Decides the next step after the static fetch. A failed static fetch
/// fails the request with the same error — the browser is never used to
/// rescue a failed static fetch. A successful one either is returned as-is
/// (marked not JavaScript-heavy, fetched statically) or, when the
/// significant-JavaScript classifier fires on its raw HTML, is kept as
/// fallback while the browser is consulted.
pub fn plan_after_static(result: Result<HtmlContent, ContentFetcherError>) -> (p: FetchPlan)
    ensures
        match result {
            Result::Err(e) => p == FetchPlan::Fail(e),
            Result::Ok(c) => {
                if spec_has_significant_javascript(c.raw_html@) {
                    p == FetchPlan::NeedBrowser(c)
                } else {
                    p == FetchPlan::Done(spec_finalize_static(c))
                }
            },
        },
{
    match result {
        Err(e) => FetchPlan::Fail(e),
        Ok(mut c) => {
            let ghost orig = c;
            if JavaScriptDetector::has_significant_javascript(c.raw_html.as_str()) {
                FetchPlan::NeedBrowser(c)
            } else {
                c.metadata.javascript_detected = Some(false);
                c.metadata.fetch_method = Some(FetchMethod::Static);
                assert(c == spec_finalize_static(orig));
                FetchPlan::Done(c)
            }
        },
    }
}

/// Resolves a JavaScript-heavy request once the browser attempt has come
/// back. A successful render wins: its content is returned marked as
/// browser-fetched. A failed render is absorbed, not surfaced: the original
/// static content is returned marked as degraded (JavaScript detected, but
/// fetched statically) — so a request whose static fetch succeeded always
/// ends in usable content.
pub fn resolve_browser_result(
    static_content: HtmlContent,
    browser_result: Result<HtmlContent, ContentFetcherError>,
) -> (r: (HtmlContent, FetchMethod))
    ensures
        match browser_result {
            Result::Ok(b) => r.0 == spec_finalize_browser(b) && r.1 == FetchMethod::Browser,
            Result::Err(_) => r.0 == spec_finalize_degraded(static_content) && r.1
                == FetchMethod::Static,
        },
{
    match browser_result {
        Ok(mut b) => {
            b.metadata.javascript_detected = Some(true);
            b.metadata.fetch_method = Some(FetchMethod::Browser);
            (b, FetchMethod::Browser)
        },
        Err(_) => {
            let mut s = static_content;
            s.metadata.javascript_detected = Some(true);
            s.metadata.fetch_method = Some(FetchMethod::Static);
            (s, FetchMethod::Static)
        },
    }
}

/// Whatever branch of the policy produced a result, its metadata carries
/// both decision fields: `javascript_detected` and `fetch_method` are never
/// left unset.
pub proof fn lemma_every_outcome_finalized(c: HtmlContent)
    ensures
        spec_finalize_static(c).metadata.finalized(),
        spec_finalize_browser(c).metadata.finalized(),
        spec_finalize_degraded(c).metadata.finalized(),
{
}

/// A degraded result preserves the static content: URL, title, text and
/// raw HTML are exactly those of the static fetch; only the two decision
/// fields change.
pub proof fn lemma_degraded_keeps_static_content(c: HtmlContent)
    ensures
        spec_finalize_degraded(c).url == c.url,
        spec_finalize_degraded(c).title == c.title,
        spec_finalize_degraded(c).text_content == c.text_content,
        spec_finalize_degraded(c).raw_html == c.raw_html,
        spec_finalize_degraded(c).metadata.javascript_detected == Some(true),
        spec_finalize_degraded(c).metadata.fetch_method == Some(FetchMethod::Static),
{
}

/// A browser result is returned as rendered: URL, title, text and raw HTML
/// are exactly those of the browser fetch, marked as browser-fetched with
/// JavaScript detected.
pub proof fn lemma_browser_keeps_rendered_content(b: HtmlContent)
    ensures
        spec_finalize_browser(b).url == b.url,
        spec_finalize_browser(b).title == b.title,
        spec_finalize_browser(b).text_content == b.text_content,
        spec_finalize_browser(b).raw_html == b.raw_html,
        spec_finalize_browser(b).metadata.javascript_detected == Some(true),
        spec_finalize_browser(b).metadata.fetch_method == Some(FetchMethod::Browser),
{
}

} // verus!
