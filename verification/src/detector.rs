//! The JavaScript classifier: a pure, deterministic scan of raw HTML for
//! framework markers and for indicators of significant scripting. The
//! significant-JavaScript count drives the hybrid fetch decision; the
//! framework scan is diagnostic only.
//!
//! All scans are case-insensitive over ASCII: the page text is ASCII case
//! folded once and compared against lower-case indicators. The indicators
//! themselves are pure ASCII, so only a marker spelled with non-ASCII
//! letterforms (which full Unicode lowering would fold) escapes the scan;
//! that narrowing is deliberate and keeps the folding a verified function.

use vstd::prelude::*;
use crate::text::{
    lower, lower_chars_of, chars_of, has_match, count_matches, find_match, count_occurrences,
    trimmed, trim_text,
};
use vstd::string::*;

verus! {

/// `n`, capped at three. The fetch decision only needs to know whether the
/// indicator count passes its threshold, so counting saturates early.
pub open spec fn cap3(n: nat) -> nat {
    if n > 3 {
        3
    } else {
        n
    }
}

/// How many times the significant-JavaScript indicators occur in the page,
/// summed over the whole indicator list, counted on the case-folded text.
pub open spec fn js_indicator_count(html: Seq<char>) -> nat {
    let l = lower(html);
    count_matches(l, "<script"@) + count_matches(l, "javascript:"@) + count_matches(
        l,
        "document.addeventlistener"@,
    ) + count_matches(l, "window.onload"@) + count_matches(l, "$(document)"@) + count_matches(
        l,
        "fetch("@,
    ) + count_matches(l, "xhr"@) + count_matches(l, "xmlhttprequest"@)
}

/// A page is JavaScript-heavy when more than two significant-JavaScript
/// indicators occur in it.
pub open spec fn spec_has_significant_javascript(html: Seq<char>) -> bool {
    js_indicator_count(html) > 2
}

/// Adds a count to a running total that saturates at three.
fn add_capped3(acc: usize, c: usize) -> (r: usize)
    requires
        acc <= 3,
    ensures
        r as nat == cap3(acc as nat + c as nat),
        r <= 3,
{
    if c >= 3 {
        3
    } else if acc + c >= 3 {
        3
    } else {
        acc + c
    }
}

proof fn lemma_cap3_add(a: nat, b: nat)
    ensures
        cap3(cap3(a) + b) == cap3(a + b),
{
}

/// React marker occurs in the case-folded page.
pub open spec fn react_detected(l: Seq<char>) -> bool {
    has_match(l, "data-reactroot"@) || has_match(l, "__react"@) || has_match(
        l,
        "react.production"@,
    ) || has_match(l, "react.development"@)
}

/// Vue marker occurs in the case-folded page.
pub open spec fn vue_detected(l: Seq<char>) -> bool {
    has_match(l, "v-app"@) || has_match(l, "__vue__"@) || has_match(l, "vue.js"@) || has_match(
        l,
        "vue.runtime"@,
    )
}

/// Angular marker occurs in the case-folded page.
pub open spec fn angular_detected(l: Seq<char>) -> bool {
    has_match(l, "ng-app"@) || has_match(l, "ng-version"@) || has_match(l, "_angular"@)
        || has_match(l, "angular.js"@)
}

/// Next.js marker occurs in the case-folded page.
pub open spec fn nextjs_detected(l: Seq<char>) -> bool {
    has_match(l, "__next_data__"@) || has_match(l, "_next/"@) || has_match(l, "next.js"@)
}

/// Nuxt marker occurs in the case-folded page.
pub open spec fn nuxt_detected(l: Seq<char>) -> bool {
    has_match(l, "__nuxt__"@) || has_match(l, "_nuxt/"@) || has_match(l, "nuxt.js"@)
}

/// Svelte marker occurs in the case-folded page.
pub open spec fn svelte_detected(l: Seq<char>) -> bool {
    has_match(l, "svelte"@) || has_match(l, "_svelte"@)
}

/// jQuery marker occurs in the case-folded page.
pub open spec fn jquery_detected(l: Seq<char>) -> bool {
    has_match(l, "jquery"@) || has_match(l, "$("@)
}

/// The names of the frameworks whose markers occur in the page, in the
/// fixed order React, Vue, Angular, Next.js, Nuxt, Svelte, jQuery.
pub open spec fn spec_detect_spa_frameworks(html: Seq<char>) -> Seq<Seq<char>> {
    let l = lower(html);
    (if react_detected(l) {
        seq!["React"@]
    } else {
        Seq::<Seq<char>>::empty()
    }) + (if vue_detected(l) {
        seq!["Vue"@]
    } else {
        Seq::<Seq<char>>::empty()
    }) + (if angular_detected(l) {
        seq!["Angular"@]
    } else {
        Seq::<Seq<char>>::empty()
    }) + (if nextjs_detected(l) {
        seq!["Next.js"@]
    } else {
        Seq::<Seq<char>>::empty()
    }) + (if nuxt_detected(l) {
        seq!["Nuxt"@]
    } else {
        Seq::<Seq<char>>::empty()
    }) + (if svelte_detected(l) {
        seq!["Svelte"@]
    } else {
        Seq::<Seq<char>>::empty()
    }) + (if jquery_detected(l) {
        seq!["jQuery"@]
    } else {
        Seq::<Seq<char>>::empty()
    })
}

/// The pure classifier over raw HTML text.
pub struct JavaScriptDetector;

impl JavaScriptDetector {
    /// Which single-page-application frameworks leave their marks in the
    /// page, by a case-insensitive scan against a fixed marker list.
    #[verifier::rlimit(50)]
    pub fn detect_spa_frameworks(html: &str) -> (r: Vec<String>)
        ensures
            r.deep_view() == spec_detect_spa_frameworks(html@),
    {
        let hay = lower_chars_of(html);
        let ghost l = lower(html@);
        let ghost e1: Seq<Seq<char>> = if react_detected(l) { seq!["React"@] } else { Seq::empty() };
        let ghost e2: Seq<Seq<char>> = if vue_detected(l) { seq!["Vue"@] } else { Seq::empty() };
        let ghost e3: Seq<Seq<char>> = if angular_detected(l) { seq!["Angular"@] } else { Seq::empty() };
        let ghost e4: Seq<Seq<char>> = if nextjs_detected(l) { seq!["Next.js"@] } else { Seq::empty() };
        let ghost e5: Seq<Seq<char>> = if nuxt_detected(l) { seq!["Nuxt"@] } else { Seq::empty() };
        let ghost e6: Seq<Seq<char>> = if svelte_detected(l) { seq!["Svelte"@] } else { Seq::empty() };
        let ghost e7: Seq<Seq<char>> = if jquery_detected(l) { seq!["jQuery"@] } else { Seq::empty() };
        let mut r: Vec<String> = Vec::new();

        let i1 = chars_of("data-reactroot");
        let i2 = chars_of("__react");
        let i3 = chars_of("react.production");
        let i4 = chars_of("react.development");
        if find_match(&hay, &i1) || find_match(&hay, &i2) || find_match(&hay, &i3) || find_match(
            &hay,
            &i4,
        ) {
            r.push(String::from_str("React"));
        }
        assert(r.deep_view() =~= e1);

        let i1 = chars_of("v-app");
        let i2 = chars_of("__vue__");
        let i3 = chars_of("vue.js");
        let i4 = chars_of("vue.runtime");
        if find_match(&hay, &i1) || find_match(&hay, &i2) || find_match(&hay, &i3) || find_match(
            &hay,
            &i4,
        ) {
            r.push(String::from_str("Vue"));
        }
        assert(r.deep_view() =~= e1 + e2);

        let i1 = chars_of("ng-app");
        let i2 = chars_of("ng-version");
        let i3 = chars_of("_angular");
        let i4 = chars_of("angular.js");
        if find_match(&hay, &i1) || find_match(&hay, &i2) || find_match(&hay, &i3) || find_match(
            &hay,
            &i4,
        ) {
            r.push(String::from_str("Angular"));
        }
        assert(r.deep_view() =~= e1 + e2 + e3);

        let i1 = chars_of("__next_data__");
        let i2 = chars_of("_next/");
        let i3 = chars_of("next.js");
        if find_match(&hay, &i1) || find_match(&hay, &i2) || find_match(&hay, &i3) {
            r.push(String::from_str("Next.js"));
        }
        assert(r.deep_view() =~= e1 + e2 + e3 + e4);

        let i1 = chars_of("__nuxt__");
        let i2 = chars_of("_nuxt/");
        let i3 = chars_of("nuxt.js");
        if find_match(&hay, &i1) || find_match(&hay, &i2) || find_match(&hay, &i3) {
            r.push(String::from_str("Nuxt"));
        }
        assert(r.deep_view() =~= e1 + e2 + e3 + e4 + e5);

        let i1 = chars_of("svelte");
        let i2 = chars_of("_svelte");
        if find_match(&hay, &i1) || find_match(&hay, &i2) {
            r.push(String::from_str("Svelte"));
        }
        assert(r.deep_view() =~= e1 + e2 + e3 + e4 + e5 + e6);

        let i1 = chars_of("jquery");
        let i2 = chars_of("$(");
        if find_match(&hay, &i1) || find_match(&hay, &i2) {
            r.push(String::from_str("jQuery"));
        }
        assert(r.deep_view() =~= e1 + e2 + e3 + e4 + e5 + e6 + e7);

        assert(r.deep_view() =~= spec_detect_spa_frameworks(html@));
        r
    }

    /// Whether the page is JavaScript-heavy: more than two occurrences of
    /// significant-JavaScript indicators, counted case-insensitively over
    /// the whole indicator list. This is the classification the hybrid
    /// fetch decision runs on.
    pub fn has_significant_javascript(html: &str) -> (r: bool)
        ensures
            r == spec_has_significant_javascript(html@),
    {
        let hay = lower_chars_of(html);
        let ghost l = lower(html@);
        let ghost total = js_indicator_count(html@);

        let n1 = chars_of("<script");
        let n2 = chars_of("javascript:");
        let n3 = chars_of("document.addeventlistener");
        let n4 = chars_of("window.onload");
        let n5 = chars_of("$(document)");
        let n6 = chars_of("fetch(");
        let n7 = chars_of("xhr");
        let n8 = chars_of("xmlhttprequest");
        proof {
            reveal_strlit("<script");
            reveal_strlit("javascript:");
            reveal_strlit("document.addeventlistener");
            reveal_strlit("window.onload");
            reveal_strlit("$(document)");
            reveal_strlit("fetch(");
            reveal_strlit("xhr");
            reveal_strlit("xmlhttprequest");
        }

        let c1 = count_occurrences(&hay, &n1);
        let c2 = count_occurrences(&hay, &n2);
        let c3 = count_occurrences(&hay, &n3);
        let c4 = count_occurrences(&hay, &n4);
        let c5 = count_occurrences(&hay, &n5);
        let c6 = count_occurrences(&hay, &n6);
        let c7 = count_occurrences(&hay, &n7);
        let c8 = count_occurrences(&hay, &n8);

        let mut acc: usize = 0;
        acc = add_capped3(acc, c1);
        acc = add_capped3(acc, c2);
        acc = add_capped3(acc, c3);
        acc = add_capped3(acc, c4);
        acc = add_capped3(acc, c5);
        acc = add_capped3(acc, c6);
        acc = add_capped3(acc, c7);
        acc = add_capped3(acc, c8);
        proof {
            lemma_cap3_add(c1 as nat, c2 as nat);
            lemma_cap3_add((c1 + c2) as nat, c3 as nat);
            lemma_cap3_add((c1 + c2 + c3) as nat, c4 as nat);
            lemma_cap3_add((c1 + c2 + c3 + c4) as nat, c5 as nat);
            lemma_cap3_add((c1 + c2 + c3 + c4 + c5) as nat, c6 as nat);
            lemma_cap3_add((c1 + c2 + c3 + c4 + c5 + c6) as nat, c7 as nat);
            lemma_cap3_add((c1 + c2 + c3 + c4 + c5 + c6 + c7) as nat, c8 as nat);
            assert(acc as nat == cap3(total));
        }
        acc >= 3
    }
}

/// What scraper's DOM walk returns for a given document: the inner HTML of
/// each `script` element, in document order. A function of the text alone.
pub uninterp spec fn script_texts_of(html: Seq<char>) -> Seq<Seq<char>>;

/// Relies on scraper's `Html::parse_document` and `select`: collects the
/// inner HTML of every `script` element, in document order.
#[verifier::external_body]
fn script_texts(html: &str) -> (r: Vec<String>)
    ensures
        r.deep_view() == script_texts_of(html@),
{
    let document = scraper::Html::parse_document(html);
    let selector = scraper::Selector::parse("script").unwrap();
    document.select(&selector).map(|e| e.inner_html()).collect()
}

/// A script text worth reporting as inline code: non-empty after trimming
/// and without a `src=` reference in its text.
pub open spec fn inline_script(t: Seq<char>) -> bool {
    trimmed(t).len() > 0 && !has_match(t, "src="@)
}

/// The subsequence of script texts, from `k` on, that are inline scripts.
pub open spec fn kept_scripts_from(ts: Seq<Seq<char>>, k: int) -> Seq<Seq<char>>
    decreases ts.len() - k,
{
    if k < 0 || k >= ts.len() {
        Seq::empty()
    } else {
        (if inline_script(ts[k]) {
            seq![ts[k]]
        } else {
            Seq::<Seq<char>>::empty()
        }) + kept_scripts_from(ts, k + 1)
    }
}

/// The inline scripts of a page: every `script` element's text that is
/// non-empty after trimming and carries no `src=` reference.
pub open spec fn spec_extract_script_content(html: Seq<char>) -> Seq<Seq<char>> {
    kept_scripts_from(script_texts_of(html), 0)
}

impl JavaScriptDetector {
    /// The texts of the page's inline scripts, in document order: scripts
    /// that are empty or mention a `src=` reference are dropped.
    pub fn extract_script_content(html: &str) -> (r: Vec<String>)
        ensures
            r.deep_view() == spec_extract_script_content(html@),
    {
        let ts = script_texts(html);
        let needle = chars_of("src=");
        let mut r: Vec<String> = Vec::new();
        let mut k: usize = 0;
        while k < ts.len()
            invariant
                needle@ == "src="@,
                k <= ts.len(),
                ts.deep_view().len() == ts.len(),
                forall|j: int| 0 <= j < ts.len() ==> ts.deep_view()[j] == ts@[j]@,
                r.deep_view() + kept_scripts_from(ts.deep_view(), k as int)
                    == spec_extract_script_content(html@),
            decreases ts.len() - k,
        {
            let ghost prev = r.deep_view();
            let t = &ts[k];
            let tr = trim_text(t.as_str());
            let tv = chars_of(t.as_str());
            if tr.as_str().unicode_len() != 0 && !find_match(&tv, &needle) {
                assert(inline_script(ts.deep_view()[k as int]));
                r.push(t.clone());
                assert(r.deep_view() =~= prev + seq![ts.deep_view()[k as int]]);
            } else {
                assert(!inline_script(ts.deep_view()[k as int]));
            }
            k = k + 1;
        }
        r
    }
}

/// A count of three or more significant-JavaScript indicators always
/// classifies the page as JavaScript-heavy.
pub proof fn lemma_three_indicators_js_heavy(html: Seq<char>)
    requires
        js_indicator_count(html) >= 3,
    ensures
        spec_has_significant_javascript(html),
{
}

/// Classification is deterministic: any two results of the classifier on
/// the same input are equal, so repeated calls agree.
pub proof fn lemma_classify_deterministic(html: Seq<char>, r1: bool, r2: bool)
    requires
        r1 == spec_has_significant_javascript(html),
        r2 == spec_has_significant_javascript(html),
    ensures
        r1 == r2,
{
}

} // verus!
