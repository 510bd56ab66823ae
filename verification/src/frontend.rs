//! The data behind each page, and the decisions the page templates take:
//! which alert style a message gets, which navigation link is active, what the
//! password form says, and how the server-rendered document embeds the page
//! data for hydration.

use vstd::prelude::*;
use crate::text::{contains_str, occurs_at, seq_contains, str_eq};

verus! {

/// The page to render, with the data it shows.
#[derive(Debug, Clone)]
pub enum PageData {
    Home,
    Login { messages: Vec<String> },
    Dashboard { username: String },
    Password { messages: Vec<String> },
    Newsletters { messages: Vec<String>, idempotency_key: String },
    SubscriptionPending,
    Confirmation,
}

// ---------------------------------------------------------------------------
// Alerts and navigation
// ---------------------------------------------------------------------------

/// A message is shown as a success when it speaks of something done
/// successfully, accepted or changed.
pub open spec fn is_success_message(m: Seq<char>) -> bool {
    seq_contains(m, "successfully"@) || seq_contains(m, "accepted"@) || seq_contains(m, "changed"@)
}

/// The CSS class of the alert that shows `message`.
pub fn alert_class(message: &str) -> (r: &'static str)
    ensures
        r@ == (if is_success_message(message@) {
            "alert alert-success"@
        } else {
            "alert alert-error"@
        }),
{
    let is_success = contains_str(message, "successfully") || contains_str(message, "accepted")
        || contains_str(message, "changed");
    if is_success {
        "alert alert-success"
    } else {
        "alert alert-error"
    }
}

/// The CSS class of the navigation link `item` while `active` is the current
/// section.
pub fn nav_class(active: &str, item: &str) -> (r: &'static str)
    ensures
        r@ == (if active@ == item@ {
            "admin-nav-link is-active"@
        } else {
            "admin-nav-link"@
        }),
{
    if str_eq(active, item) {
        "admin-nav-link is-active"
    } else {
        "admin-nav-link"
    }
}

// ---------------------------------------------------------------------------
// Password form
// ---------------------------------------------------------------------------

/// The confirmation is filled in and equals the new password.
pub open spec fn spec_passwords_match(password: Seq<char>, confirmation: Seq<char>) -> bool {
    confirmation.len() > 0 && password == confirmation
}

/// The new password and its confirmation agree exactly when the confirmation
/// is filled in and the two have the same length and the same character at
/// every position; a single differing character, even between entries of the
/// same length, is a mismatch.
pub proof fn lemma_passwords_match_character_by_character(password: Seq<char>, confirmation: Seq<char>)
    ensures
        spec_passwords_match(password, confirmation) <==> (confirmation.len() > 0
            && password.len() == confirmation.len()
            && forall|i: int| 0 <= i < confirmation.len() ==> password[i] == confirmation[i]),
        forall|i: int| 0 <= i < confirmation.len() && i < password.len() && password[i] != confirmation[i]
            ==> !spec_passwords_match(password, confirmation),
{
    if confirmation.len() > 0 && password.len() == confirmation.len()
        && forall|i: int| 0 <= i < confirmation.len() ==> password[i] == confirmation[i] {
        assert(password =~= confirmation);
    }
}

/// Whether the new password and its confirmation agree, as the form shows it.
pub fn passwords_match(password: &str, confirmation: &str) -> (r: bool)
    ensures
        r == spec_passwords_match(password@, confirmation@),
{
    confirmation.unicode_len() > 0 && str_eq(password, confirmation)
}

/// The hint under the confirmation field.
pub fn password_hint(password: &str, confirmation: &str) -> (r: &'static str)
    ensures
        r@ == (if confirmation@.len() == 0 {
            "Enter the new password once more."@
        } else if password@ == confirmation@ {
            "Passwords match."@
        } else {
            "Passwords do not match yet."@
        }),
{
    if confirmation.unicode_len() == 0 {
        "Enter the new password once more."
    } else if passwords_match(password, confirmation) {
        "Passwords match."
    } else {
        "Passwords do not match yet."
    }
}

/// The CSS class of the hint under the confirmation field.
pub fn password_hint_class(password: &str, confirmation: &str) -> (r: &'static str)
    ensures
        r@ == (if spec_passwords_match(password@, confirmation@) {
            "field-hint hint-success"@
        } else {
            "field-hint"@
        }),
{
    if passwords_match(password, confirmation) {
        "field-hint hint-success"
    } else {
        "field-hint"
    }
}

// ---------------------------------------------------------------------------
// Embedding page data in a <script> element
// ---------------------------------------------------------------------------

/// How one character of the page data is written inside the script element:
/// `<` and the two Unicode line separators become JSON escapes, so that the
/// text can neither close the element nor break the script.
pub open spec fn escape_char(c: char) -> Seq<char> {
    if c == '<' {
        "\\u003c"@
    } else if c == '\u{2028}' {
        "\\u2028"@
    } else if c == '\u{2029}' {
        "\\u2029"@
    } else {
        seq![c]
    }
}

/// The escaped form of a whole text, character by character.
pub open spec fn escape_script_text(s: Seq<char>) -> Seq<char>
    decreases s.len(),
{
    if s.len() == 0 {
        Seq::empty()
    } else {
        escape_script_text(s.drop_last()) + escape_char(s.last())
    }
}

/// A character that cannot stand raw inside the script element.
pub open spec fn is_unsafe_script_char(c: char) -> bool {
    c == '<' || c == '\u{2028}' || c == '\u{2029}'
}

proof fn lemma_escape_char_safe(c: char)
    ensures
        forall|i: int| 0 <= i < escape_char(c).len() ==> !is_unsafe_script_char(#[trigger] escape_char(c)[i]),
{
    reveal_strlit("\\u003c");
    reveal_strlit("\\u2028");
    reveal_strlit("\\u2029");
}

/// No escaped text holds `<` or a Unicode line separator.
pub proof fn lemma_escaped_text_is_safe(s: Seq<char>)
    ensures
        forall|i: int| 0 <= i < escape_script_text(s).len() ==> !is_unsafe_script_char(#[trigger] escape_script_text(s)[i]),
    decreases s.len(),
{
    if s.len() > 0 {
        lemma_escaped_text_is_safe(s.drop_last());
        lemma_escape_char_safe(s.last());
        let a = escape_script_text(s.drop_last());
        let b = escape_char(s.last());
        assert forall|i: int| 0 <= i < (a + b).len() implies !is_unsafe_script_char(#[trigger] (a + b)[i]) by {
            if i < a.len() {
                assert((a + b)[i] == a[i]);
            } else {
                assert((a + b)[i] == b[i - a.len()]);
            }
        }
    }
}

/// Text without `<` or a Unicode line separator is left as it is.
pub proof fn lemma_escape_keeps_safe_text(s: Seq<char>)
    requires
        forall|i: int| 0 <= i < s.len() ==> !is_unsafe_script_char(#[trigger] s[i]),
    ensures
        escape_script_text(s) == s,
    decreases s.len(),
{
    if s.len() > 0 {
        assert(!is_unsafe_script_char(s[s.len() - 1]));
        lemma_escape_keeps_safe_text(s.drop_last());
        assert(s.drop_last() + seq![s.last()] =~= s);
    }
}

proof fn lemma_escape_step(s: Seq<char>, i: int)
    requires
        0 <= i < s.len(),
    ensures
        escape_script_text(s.take(i + 1)) == escape_script_text(s.take(i)) + escape_char(s[i]),
{
    assert(s.take(i + 1).drop_last() =~= s.take(i));
}

/// Escapes page data for embedding inside a `<script>` element.
pub fn escape_script_json(json: &str) -> (r: String)
    ensures
        r@ == escape_script_text(json@),
        forall|i: int| 0 <= i < r@.len() ==> !is_unsafe_script_char(#[trigger] r@[i]),
{
    let n = json.unicode_len();
    let mut out = String::new();
    let mut i: usize = 0;
    while i < n
        invariant
            n == json@.len(),
            i <= n,
            out@ == escape_script_text(json@.take(i as int)),
        decreases n - i,
    {
        let c = json.get_char(i);
        proof {
            lemma_escape_step(json@, i as int);
        }
        if c == '<' {
            out.append("\\u003c");
        } else if c == '\u{2028}' {
            out.append("\\u2028");
        } else if c == '\u{2029}' {
            out.append("\\u2029");
        } else {
            let piece = json.substring_char(i, i + 1);
            assert(piece@ =~= seq![c]);
            out.append(piece);
        }
        i = i + 1;
    }
    assert(json@.take(n as int) =~= json@);
    proof {
        lemma_escaped_text_is_safe(json@);
    }
    out
}

// ---------------------------------------------------------------------------
// The server-rendered document
// ---------------------------------------------------------------------------

/// The document up to the opening of the element that carries the page data.
pub const DOCUMENT_HEAD: &'static str = "<!doctype html>
<html lang=\"en\">
<head>
  <meta charset=\"utf-8\">
  <meta name=\"viewport\" content=\"width=device-width, initial-scale=1\">
  <meta name=\"theme-color\" content=\"#f5f0e8\">
  <meta name=\"description\" content=\"The Dispatch — thoughtful notes on useful work.\">
  <title>The Dispatch</title>
  <link rel=\"icon\" href=\"/assets/favicon.svg\" type=\"image/svg+xml\">
  <link rel=\"preconnect\" href=\"https://fonts.googleapis.com\">
  <link rel=\"preconnect\" href=\"https://fonts.gstatic.com\" crossorigin>
  <link href=\"https://fonts.googleapis.com/css2?family=DM+Sans:wght@400;500;600&family=Newsreader:opsz,wght@6..72,400;6..72,500;6..72,600&display=swap\" rel=\"stylesheet\">
  <link rel=\"stylesheet\" href=\"/pkg/zero2prod.css\">
  <script id=\"page-data\" type=\"application/json\">";

/// From the end of the page data to the opening of the body: the module
/// script that loads the client bundle and hydrates the page.
pub const DOCUMENT_SCRIPTS: &'static str = "</script>
  <script type=\"module\">
    import init, { hydrate } from '/pkg/zero2prod.js';
    await init({ module_or_path: '/pkg/zero2prod.wasm' });
    hydrate();
  </script>
</head>
<body>";

/// The end of the document, after the rendered body.
pub const DOCUMENT_TAIL: &'static str = "</body>
</html>";

/// The complete document for a page whose data serialises to `page_json` and
/// whose rendered markup is `body`.
pub open spec fn document(page_json: Seq<char>, body: Seq<char>) -> Seq<char> {
    DOCUMENT_HEAD@ + escape_script_text(page_json) + DOCUMENT_SCRIPTS@ + body + DOCUMENT_TAIL@
}

/// Builds the server-rendered HTML document: the page data `page_json`
/// (escaped) in a JSON script element for hydration, and the rendered
/// `body`.
pub fn render_document(page_json: &str, body: &str) -> (r: String)
    ensures
        r@ == document(page_json@, body@),
{
    let mut out = DOCUMENT_HEAD.to_owned();
    let escaped = escape_script_json(page_json);
    out.append(escaped.as_str());
    out.append(DOCUMENT_SCRIPTS);
    out.append(body);
    out.append(DOCUMENT_TAIL);
    out
}


/// A needle found in the middle part of a concatenation is found in the whole
/// at the middle part's offset.
proof fn lemma_occurs_in_middle(a: Seq<char>, m: Seq<char>, c: Seq<char>, needle: Seq<char>, off: int)
    requires
        occurs_at(m, needle, off),
    ensures
        occurs_at(a + m + c, needle, a.len() + off),
{
    assert((a + m + c).subrange(a.len() + off, a.len() + off + needle.len()) =~= m.subrange(off, off + needle.len()));
}

/// Every rendered document starts as an HTML document, carries the escaped
/// page data right after its opening, closes the data element right after
/// the data, and, between the data and the body, runs a module script that
/// imports the client bundle, initialises it with its WebAssembly module, and
/// then calls `hydrate()`, in that order; the body follows unchanged.
pub proof fn lemma_document_hydrates_the_page(page_json: Seq<char>, body: Seq<char>)
    ensures
        ({
            let d = document(page_json, body);
            let data_start = DOCUMENT_HEAD@.len() as int;
            let data_end = data_start + escape_script_text(page_json).len();
            let body_start = data_end + DOCUMENT_SCRIPTS@.len();
            &&& occurs_at(d, "<!doctype html>"@, 0)
            &&& occurs_at(d, "<script id=\"page-data\" type=\"application/json\">"@, data_start - 47)
            &&& d.subrange(data_start, data_end) == escape_script_text(page_json)
            &&& occurs_at(d, "</script>"@, data_end)
            &&& exists|i0: int, i1: int, i2: int, i3: int|
                data_end < i0 && i0 < i1 && i1 < i2 && i2 < i3 && i3 + 10 <= body_start
                && occurs_at(d, "<script type=\"module\">"@, i0)
                && occurs_at(d, "import init, { hydrate } from '/pkg/zero2prod.js';"@, i1)
                && occurs_at(d, "await init({ module_or_path: '/pkg/zero2prod.wasm' });"@, i2)
                && occurs_at(d, "hydrate();"@, i3)
            &&& d.subrange(body_start, body_start + body.len()) == body
        }),
{
    reveal_strlit("<!doctype html>");
    reveal_strlit("<script id=\"page-data\" type=\"application/json\">");
    reveal_strlit("</script>");
    reveal_strlit("<script type=\"module\">");
    reveal_strlit("import init, { hydrate } from '/pkg/zero2prod.js';");
    reveal_strlit("await init({ module_or_path: '/pkg/zero2prod.wasm' });");
    reveal_strlit("hydrate();");
    reveal_strlit("<!doctype html>
<html lang=\"en\">
<head>
  <meta charset=\"utf-8\">
  <meta name=\"viewport\" content=\"width=device-width, initial-scale=1\">
  <meta name=\"theme-color\" content=\"#f5f0e8\">
  <meta name=\"description\" content=\"The Dispatch — thoughtful notes on useful work.\">
  <title>The Dispatch</title>
  <link rel=\"icon\" href=\"/assets/favicon.svg\" type=\"image/svg+xml\">
  <link rel=\"preconnect\" href=\"https://fonts.googleapis.com\">
  <link rel=\"preconnect\" href=\"https://fonts.gstatic.com\" crossorigin>
  <link href=\"https://fonts.googleapis.com/css2?family=DM+Sans:wght@400;500;600&family=Newsreader:opsz,wght@6..72,400;6..72,500;6..72,600&display=swap\" rel=\"stylesheet\">
  <link rel=\"stylesheet\" href=\"/pkg/zero2prod.css\">
  <script id=\"page-data\" type=\"application/json\">");
    reveal_strlit("</script>
  <script type=\"module\">
    import init, { hydrate } from '/pkg/zero2prod.js';
    await init({ module_or_path: '/pkg/zero2prod.wasm' });
    hydrate();
  </script>
</head>
<body>");
    let h = DOCUMENT_HEAD@;
    let e = escape_script_text(page_json);
    let m = DOCUMENT_SCRIPTS@;
    let t = DOCUMENT_TAIL@;
    let d = document(page_json, body);
    let he = h + e;
    let bt = body + t;
    assert(d =~= he + m + bt);
    assert(d =~= h + e + (m + bt));
    assert(d =~= Seq::<char>::empty() + h + (e + m + bt));

    assert(h.subrange(0, 15) =~= "<!doctype html>"@);
    lemma_occurs_in_middle(Seq::<char>::empty(), h, e + m + bt, "<!doctype html>"@, 0);
    assert(h.subrange(h.len() - 47, h.len() as int) =~= "<script id=\"page-data\" type=\"application/json\">"@);
    lemma_occurs_in_middle(Seq::<char>::empty(), h, e + m + bt, "<script id=\"page-data\" type=\"application/json\">"@, h.len() - 47);

    assert(d.subrange(h.len() as int, (h.len() + e.len()) as int) =~= e);

    assert(m.subrange(0, 9) =~= "</script>"@);
    lemma_occurs_in_middle(he, m, bt, "</script>"@, 0);
    assert(m.subrange(12, 34) =~= "<script type=\"module\">"@);
    lemma_occurs_in_middle(he, m, bt, "<script type=\"module\">"@, 12);
    assert(m.subrange(39, 89) =~= "import init, { hydrate } from '/pkg/zero2prod.js';"@);
    lemma_occurs_in_middle(he, m, bt, "import init, { hydrate } from '/pkg/zero2prod.js';"@, 39);
    assert(m.subrange(94, 148) =~= "await init({ module_or_path: '/pkg/zero2prod.wasm' });"@);
    lemma_occurs_in_middle(he, m, bt, "await init({ module_or_path: '/pkg/zero2prod.wasm' });"@, 94);
    assert(m.subrange(153, 163) =~= "hydrate();"@);
    lemma_occurs_in_middle(he, m, bt, "hydrate();"@, 153);
    let base = he.len() as int;
    assert(occurs_at(d, "<script type=\"module\">"@, base + 12));
    assert(occurs_at(d, "import init, { hydrate } from '/pkg/zero2prod.js';"@, base + 39));
    assert(occurs_at(d, "await init({ module_or_path: '/pkg/zero2prod.wasm' });"@, base + 94));
    assert(occurs_at(d, "hydrate();"@, base + 153));

    assert(d.subrange((he.len() + m.len()) as int, (he.len() + m.len() + body.len()) as int) =~= body);
}

} // verus!
