//! The verified part of the browser fetch path: deriving launch inputs,
//! the deadline-checked selector poll, and assembling content out of
//! rendered HTML. The browser process itself lives outside the library;
//! these functions decide and describe, the surrounding program performs.

use vstd::prelude::*;
use vstd::string::*;
use vstd::arithmetic::mul::{lemma_mul_inequality, lemma_mul_is_distributive_add_other_way};
use crate::model::{ContentMetadata, FetchMethod, HtmlContent};
use crate::errors::ContentFetcherError;
use crate::text::{dec_str, push_decimal};
use crate::html::{spec_extract_title, spec_extract_text, extract_title, extract_text_content};

verus! {

/// The executable paths searched, in order, for a usable browser binary.
pub open spec fn spec_browser_executable_paths() -> Seq<Seq<char>> {
    seq![
        "/usr/bin/google-chrome-stable"@,
        "/usr/bin/google-chrome"@,
        "/usr/bin/chromium-browser"@,
        "/usr/bin/chromium"@,
        "/opt/google/chrome/chrome"@,
        "/snap/bin/chromium"@,
    ]
}

/// The fixed, ordered list of candidate browser executables: the first one
/// that exists on the machine is used.
pub fn browser_executable_paths() -> (r: Vec<&'static str>)
    ensures
        r.deep_view() == spec_browser_executable_paths(),
{
    let mut r: Vec<&'static str> = Vec::new();
    r.push("/usr/bin/google-chrome-stable");
    r.push("/usr/bin/google-chrome");
    r.push("/usr/bin/chromium-browser");
    r.push("/usr/bin/chromium");
    r.push("/opt/google/chrome/chrome");
    r.push("/snap/bin/chromium");
    assert(r.deep_view() =~= spec_browser_executable_paths());
    r
}

/// The name of the temporary browser profile directory for one launch,
/// derived from the process id and a launch timestamp so that concurrent
/// instances never collide.
pub open spec fn spec_profile_dir(pid: nat, launch_millis: nat) -> Seq<char> {
    "/tmp/html-mcp-reader-chrome-"@ + dec_str(pid) + "-"@ + dec_str(launch_millis)
}

/// Builds the per-launch profile directory name from the process id and the
/// launch timestamp in milliseconds.
pub fn profile_dir_name(pid: u64, launch_millis: u64) -> (r: String)
    ensures
        r@ == spec_profile_dir(pid as nat, launch_millis as nat),
{
    let mut r = String::from_str("/tmp/html-mcp-reader-chrome-");
    push_decimal(pid, &mut r);
    r.append("-");
    push_decimal(launch_millis, &mut r);
    r
}

/// What the selector poll does next.
#[derive(Debug, Clone, PartialEq, Eq, Structural)]
pub enum PollDecision {
    /// The selector is present: the wait is over, successfully.
    Found,
    /// The deadline has passed without the selector appearing.
    TimedOut,
    /// Neither: sleep one interval and look again.
    KeepWaiting,
}

/// One step of the poll: an elapsed deadline times the wait out; otherwise
/// a present selector ends it successfully; otherwise keep waiting.
pub open spec fn spec_poll_decision(elapsed_ms: u64, timeout_ms: u64, found: bool) -> PollDecision {
    if elapsed_ms >= timeout_ms {
        PollDecision::TimedOut
    } else if found {
        PollDecision::Found
    } else {
        PollDecision::KeepWaiting
    }
}

/// Decides one iteration of the selector poll from the elapsed time, the
/// deadline, and whether the selector was just seen. The deadline is
/// checked on every iteration, so the total wait never exceeds the timeout
/// by more than one polling interval.
pub fn poll_decision(elapsed_ms: u64, timeout_ms: u64, found: bool) -> (d: PollDecision)
    ensures
        d == spec_poll_decision(elapsed_ms, timeout_ms, found),
{
    if elapsed_ms >= timeout_ms {
        PollDecision::TimedOut
    } else if found {
        PollDecision::Found
    } else {
        PollDecision::KeepWaiting
    }
}

/// How a selector wait ended: with the selector present, or with the
/// deadline exceeded; either way at the given elapsed time.
#[derive(Debug, Clone, PartialEq, Eq, Structural)]
pub enum PollOutcome {
    Found { elapsed_ms: u64 },
    TimedOut { elapsed_ms: u64 },
}

/// Whether the probe at index `k` saw the selector; a missing probe means
/// the selector was absent.
pub open spec fn probe_at(probes: Seq<bool>, k: int) -> bool {
    0 <= k < probes.len() && probes[k]
}

/// Runs the selector poll against a recorded sequence of probe results,
/// probe `k` standing for the lookup at `k` polling intervals after the
/// wait began. The deadline is checked against the elapsed time on every
/// iteration, so a timeout is reported at the first whole interval at or
/// past the deadline — within one interval of it — and only when no probe
/// before the deadline saw the selector.
pub fn run_selector_poll(probes: &Vec<bool>, timeout_ms: u64, interval_ms: u64) -> (r: PollOutcome)
    requires
        interval_ms >= 1,
        timeout_ms + interval_ms <= u64::MAX,
    ensures
        match r {
            PollOutcome::Found { elapsed_ms } => {
                &&& elapsed_ms < timeout_ms
                &&& exists|k: int|
                    #![trigger probe_at(probes@, k)]
                    {
                        &&& k * interval_ms == elapsed_ms
                        &&& probe_at(probes@, k)
                        &&& forall|j: int| 0 <= j < k ==> !probe_at(probes@, j)
                    }
            },
            PollOutcome::TimedOut { elapsed_ms } => {
                &&& timeout_ms <= elapsed_ms < timeout_ms + interval_ms
                &&& forall|k: int|
                    k >= 0 && #[trigger] (k * interval_ms) < timeout_ms ==> !probe_at(probes@, k)
            },
        },
{
    let mut elapsed: u64 = 0;
    let mut k: u64 = 0;
    loop
        invariant
            interval_ms >= 1,
            timeout_ms + interval_ms <= u64::MAX,
            elapsed == k * interval_ms,
            k <= elapsed,
            elapsed < timeout_ms + interval_ms,
            forall|j: int| 0 <= j < k ==> !probe_at(probes@, j),
        decreases timeout_ms + interval_ms - elapsed,
    {
        let found: bool = if k < (probes.len() as u64) {
            probes[k as usize]
        } else {
            false
        };
        match poll_decision(elapsed, timeout_ms, found) {
            PollDecision::Found => {
                assert(probe_at(probes@, k as int));
                return PollOutcome::Found { elapsed_ms: elapsed };
            },
            PollDecision::TimedOut => {
                assert forall|j: int|
                    j >= 0 && #[trigger] (j * interval_ms) < timeout_ms implies !probe_at(
                    probes@,
                    j,
                ) by {
                    if j >= k {
                        lemma_mul_inequality(k as int, j, interval_ms as int);
                    }
                }
                return PollOutcome::TimedOut { elapsed_ms: elapsed };
            },
            PollDecision::KeepWaiting => {
                assert(!probe_at(probes@, k as int));
                proof {
                    lemma_mul_is_distributive_add_other_way(
                        interval_ms as int,
                        k as int,
                        1,
                    );
                }
                elapsed = elapsed + interval_ms;
                k = k + 1;
            },
        }
    }
}

/// Turns how a selector wait ended into the fetch's next step: a found
/// selector lets the fetch proceed, reporting when the selector appeared;
/// an exceeded deadline surfaces as a timeout carrying the deadline in
/// whole seconds — the request's own timeout, since the deadline was
/// derived from it in milliseconds.
pub fn selector_wait_outcome(outcome: PollOutcome, timeout_ms: u64) -> (r: Result<
    u64,
    ContentFetcherError,
>)
    ensures
        match outcome {
            PollOutcome::Found { elapsed_ms } => r == Result::<
                u64,
                ContentFetcherError,
            >::Ok(elapsed_ms),
            PollOutcome::TimedOut { .. } => r == Result::<u64, ContentFetcherError>::Err(
                ContentFetcherError::Timeout(timeout_ms / 1000),
            ),
        },
{
    match outcome {
        PollOutcome::Found { elapsed_ms } => Ok(elapsed_ms),
        PollOutcome::TimedOut { .. } => Err(ContentFetcherError::Timeout(timeout_ms / 1000)),
    }
}

/// The first candidate path that is present on the machine, or nothing when
/// none is, scanning in order. `present` records, for each candidate, what
/// the filesystem probe found; a candidate beyond its end counts as absent.
pub open spec fn spec_first_present(paths: Seq<Seq<char>>, present: Seq<bool>, i: int) -> Option<
    Seq<char>,
>
    decreases paths.len() - i,
{
    if i < 0 || i >= paths.len() {
        None
    } else if i < present.len() && present[i] {
        Some(paths[i])
    } else {
        spec_first_present(paths, present, i + 1)
    }
}

/// Chooses the browser executable: the first candidate path whose
/// filesystem probe reported it present, in list order.
pub fn first_present_path<'a>(paths: &Vec<&'a str>, present: &Vec<bool>) -> (r: Option<&'a str>)
    ensures
        r.deep_view() == spec_first_present(paths.deep_view(), present@, 0),
{
    let mut i: usize = 0;
    while i < paths.len()
        invariant
            i <= paths.len(),
            paths.deep_view().len() == paths.len(),
            forall|j: int| 0 <= j < paths.len() ==> paths.deep_view()[j] == paths@[j]@,
            spec_first_present(paths.deep_view(), present@, 0) == spec_first_present(
                paths.deep_view(),
                present@,
                i as int,
            ),
        decreases paths.len() - i,
    {
        if i < present.len() && present[i] {
            return Some(paths[i]);
        }
        i = i + 1;
    }
    None
}

/// Assembles fetched content out of browser-rendered HTML: title and text
/// through the shared extractors, with the browser path's synthetic
/// metadata — no real HTTP status is observable through the renderer, so
/// the status is reported as a synthetic 200, and the content is marked as
/// browser-fetched with JavaScript detected.
pub fn build_browser_content(url: String, raw_html: String, extract_text_only: bool) -> (c:
    HtmlContent)
    ensures
        c.url == url,
        c.title.deep_view() == spec_extract_title(raw_html@),
        extract_text_only ==> c.text_content@ == spec_extract_text(raw_html@),
        !extract_text_only ==> c.text_content@ == raw_html@,
        c.raw_html == raw_html,
        c.metadata.content_type@ == "text/html"@,
        c.metadata.status_code == 200u16,
        c.metadata.content_length == Some(vstd::utf8::encode_utf8(raw_html@).len() as usize),
        c.metadata.last_modified is None,
        c.metadata.charset matches Some(cs) && cs@ == "utf-8"@,
        c.metadata.javascript_detected == Some(true),
        c.metadata.fetch_method == Some(FetchMethod::Browser),
{
    let title = extract_title(raw_html.as_str());
    let text_content: String = if extract_text_only {
        extract_text_content(raw_html.as_str())
    } else {
        raw_html.clone()
    };
    let metadata = ContentMetadata {
        content_type: String::from_str("text/html"),
        status_code: 200,
        content_length: Some(raw_html.as_str().len()),
        last_modified: None,
        charset: Some(String::from_str("utf-8")),
        javascript_detected: Some(true),
        fetch_method: Some(FetchMethod::Browser),
    };
    HtmlContent { url, title, text_content, raw_html, metadata }
}

} // verus!
