//! Rich mentions for remote-task links inside a task body.
//!
//! A body may cite remote tasks by URL; those URLs are found by a scanner
//! for the task-URL grammar, and each cited task that could be resolved is
//! replaced by an inline HTML mention anchor. The text inserted into HTML
//! attributes and content is escaped.

use vstd::prelude::*;

use crate::text::spec_i64_digits;
use crate::text::i64_to_string;
use crate::text::spec_assoc_lookup;
use crate::text::assoc_lookup;
use crate::protocol::spec_contains_id;

verus! {

/// The characters a task-URL host may hold: ASCII letters, digits,
/// underscore, dot and hyphen.
pub open spec fn spec_is_host_char(c: char) -> bool {
    ||| (0x61 <= (c as u32) && (c as u32) <= 0x7A)
    ||| (0x41 <= (c as u32) && (c as u32) <= 0x5A)
    ||| (0x30 <= (c as u32) && (c as u32) <= 0x39)
    ||| c == '_'
    ||| c == '.'
    ||| c == '-'
}

/// An ASCII decimal digit.
pub open spec fn spec_is_digit(c: char) -> bool {
    0x30 <= (c as u32) && (c as u32) <= 0x39
}

fn is_host_char(c: char) -> (r: bool)
    ensures
        r == spec_is_host_char(c),
{
    let u = c as u32;
    (0x61 <= u && u <= 0x7A) || (0x41 <= u && u <= 0x5A) || (0x30 <= u && u <= 0x39) || u == 0x5F
        || u == 0x2E || u == 0x2D
}

fn is_digit(c: char) -> (r: bool)
    ensures
        r == spec_is_digit(c),
{
    let u = c as u32;
    0x30 <= u && u <= 0x39
}

/// The end of the run of host characters starting at `i`.
pub open spec fn spec_host_run_end(s: Seq<char>, i: int) -> int
    decreases s.len() - i,
    when 0 <= i <= s.len()
{
    if i < s.len() && spec_is_host_char(s[i]) {
        spec_host_run_end(s, i + 1)
    } else {
        i
    }
}

/// The end of the run of digits starting at `i`.
pub open spec fn spec_digit_run_end(s: Seq<char>, i: int) -> int
    decreases s.len() - i,
    when 0 <= i <= s.len()
{
    if i < s.len() && spec_is_digit(s[i]) {
        spec_digit_run_end(s, i + 1)
    } else {
        i
    }
}

proof fn lemma_host_run_bounds(s: Seq<char>, i: int)
    requires
        0 <= i <= s.len(),
    ensures
        i <= spec_host_run_end(s, i) <= s.len(),
    decreases s.len() - i,
{
    if i < s.len() && spec_is_host_char(s[i]) {
        lemma_host_run_bounds(s, i + 1);
    }
}

proof fn lemma_digit_run_bounds(s: Seq<char>, i: int)
    requires
        0 <= i <= s.len(),
    ensures
        i <= spec_digit_run_end(s, i) <= s.len(),
    decreases s.len() - i,
{
    if i < s.len() && spec_is_digit(s[i]) {
        lemma_digit_run_bounds(s, i + 1);
    }
}

/// Whether the text carries the given literal at position `i`.
pub open spec fn spec_lit_at(s: Seq<char>, i: int, lit: Seq<char>) -> bool {
    0 <= i && i + lit.len() <= s.len() && s.subrange(i, i + lit.len()) == lit
}

fn lit_at(s: &str, i: usize, lit: &str) -> (r: bool)
    requires
        i <= s@.len(),
    ensures
        r == spec_lit_at(s@, i as int, lit@),
{
    let n = s.unicode_len();
    let m = lit.unicode_len();
    if m > n - i {
        proof {
            assert(!spec_lit_at(s@, i as int, lit@));
        }
        return false;
    }
    let mut k: usize = 0;
    while k < m
        invariant
            0 <= k <= m,
            i + m <= n,
            n == s@.len(),
            m == lit@.len(),
            forall|j: int| 0 <= j < k ==> s@[i + j] == lit@[j],
        decreases m - k,
    {
        if s.get_char(i + k) != lit.get_char(k) {
            proof {
                assert(s@.subrange(i as int, i as int + lit@.len())[k as int] != lit@[k as int]);
            }
            return false;
        }
        k = k + 1;
    }
    proof {
        assert(s@.subrange(i as int, i as int + lit@.len()) =~= lit@);
    }
    true
}

fn host_run_end(s: &str, i: usize) -> (r: usize)
    requires
        i <= s@.len(),
    ensures
        r == spec_host_run_end(s@, i as int),
        i <= r <= s@.len(),
{
    let n = s.unicode_len();
    let mut j: usize = i;
    while j < n && is_host_char(s.get_char(j))
        invariant
            i <= j <= n,
            n == s@.len(),
            spec_host_run_end(s@, i as int) == spec_host_run_end(s@, j as int),
        decreases n - j,
    {
        j = j + 1;
    }
    proof {
        assert(spec_host_run_end(s@, j as int) == j);
    }
    j
}

fn digit_run_end(s: &str, i: usize) -> (r: usize)
    requires
        i <= s@.len(),
    ensures
        r == spec_digit_run_end(s@, i as int),
        i <= r <= s@.len(),
{
    let n = s.unicode_len();
    let mut j: usize = i;
    while j < n && is_digit(s.get_char(j))
        invariant
            i <= j <= n,
            n == s@.len(),
            spec_digit_run_end(s@, i as int) == spec_digit_run_end(s@, j as int),
        decreases n - j,
    {
        j = j + 1;
    }
    proof {
        assert(spec_digit_run_end(s@, j as int) == j);
    }
    j
}

/// A task-URL match starting at position `i`: the scheme, a host of host
/// characters ending in the task system's domain, and either the project
/// post path or the task path, ending in the cited task's number. The
/// result is the end of the match and the task identifier it cites.
pub open spec fn spec_url_match_at(s: Seq<char>, i: int) -> Option<(int, Seq<char>)> {
    if !spec_lit_at(s, i, "https://"@) {
        None
    } else {
        let h0 = i + 8;
        let h1 = spec_host_run_end(s, h0);
        if h1 - 11 > h0 && spec_lit_at(s, h1 - 11, ".dooray.com"@) && h1 < s.len() && s[h1] == '/' {
            let p = h1 + 1;
            if spec_lit_at(s, p, "project/tasks/"@) {
                let d0 = p + 14;
                let d1 = spec_digit_run_end(s, d0);
                if d1 > d0 {
                    Some((d1, s.subrange(d0, d1)))
                } else {
                    None
                }
            } else if spec_lit_at(s, p, "task/"@) {
                let e0 = p + 5;
                let e1 = spec_digit_run_end(s, e0);
                if e1 > e0 && e1 < s.len() && s[e1] == '/' {
                    let d0 = e1 + 1;
                    let d1 = spec_digit_run_end(s, d0);
                    if d1 > d0 {
                        Some((d1, s.subrange(d0, d1)))
                    } else {
                        None
                    }
                } else {
                    None
                }
            } else {
                None
            }
        } else {
            None
        }
    }
}

proof fn lemma_url_match_bounds(s: Seq<char>, i: int)
    requires
        0 <= i <= s.len(),
    ensures
        spec_url_match_at(s, i) matches Some(m) ==> i < m.0 <= s.len(),
{
    reveal_strlit("https://");
    reveal_strlit(".dooray.com");
    reveal_strlit("project/tasks/");
    reveal_strlit("task/");
    if spec_lit_at(s, i, "https://"@) {
        lemma_host_run_bounds(s, i + 8);
        let h1 = spec_host_run_end(s, i + 8);
        if h1 < s.len() {
            let p = h1 + 1;
            if spec_lit_at(s, p, "project/tasks/"@) {
                lemma_digit_run_bounds(s, p + 14);
            } else if spec_lit_at(s, p, "task/"@) {
                lemma_digit_run_bounds(s, p + 5);
                let e1 = spec_digit_run_end(s, p + 5);
                if e1 < s.len() {
                    lemma_digit_run_bounds(s, e1 + 1);
                }
            }
        }
    }
}

fn url_match_at(s: &str, i: usize) -> (r: Option<(usize, String)>)
    requires
        i <= s@.len(),
    ensures
        match spec_url_match_at(s@, i as int) {
            Some(m) => r matches Some(x) && x.0 == m.0 && x.1@ == m.1,
            None => r is None,
        },
{
    let n = s.unicode_len();
    if !lit_at(s, i, "https://") {
        return None;
    }
    proof {
        reveal_strlit("https://");
    }
    let h0 = i + 8;
    let h1 = host_run_end(s, h0);
    proof {
        reveal_strlit(".dooray.com");
        reveal_strlit("project/tasks/");
        reveal_strlit("task/");
    }
    if !(h1 >= 11 && h1 - 11 > h0 && lit_at(s, h1 - 11, ".dooray.com") && h1 < n
        && s.get_char(h1) == '/') {
        return None;
    }
    let p = h1 + 1;
    if lit_at(s, p, "project/tasks/") {
        let d0 = p + 14;
        let d1 = digit_run_end(s, d0);
        if d1 > d0 {
            let id = s.substring_char(d0, d1);
            Some((d1, String::from_str(id)))
        } else {
            None
        }
    } else if lit_at(s, p, "task/") {
        let e0 = p + 5;
        let e1 = digit_run_end(s, e0);
        if e1 > e0 && e1 < n && s.get_char(e1) == '/' {
            let d0 = e1 + 1;
            let d1 = digit_run_end(s, d0);
            if d1 > d0 {
                let id = s.substring_char(d0, d1);
                Some((d1, String::from_str(id)))
            } else {
                None
            }
        } else {
            None
        }
    } else {
        None
    }
}

/// The first task-URL match starting at or after position `i`.
pub open spec fn spec_find_url_from(s: Seq<char>, i: int) -> Option<(int, int, Seq<char>)>
    decreases s.len() - i,
    when 0 <= i <= s.len()
{
    if i == s.len() {
        None
    } else {
        match spec_url_match_at(s, i) {
            Some(m) => Some((i, m.0, m.1)),
            None => spec_find_url_from(s, i + 1),
        }
    }
}

proof fn lemma_find_url_bounds(s: Seq<char>, i: int)
    requires
        0 <= i <= s.len(),
    ensures
        spec_find_url_from(s, i) matches Some(m) ==> i <= m.0 && m.0 < m.1 <= s.len(),
    decreases s.len() - i,
{
    if i < s.len() {
        lemma_url_match_bounds(s, i);
        if spec_url_match_at(s, i) is None {
            lemma_find_url_bounds(s, i + 1);
        }
    }
}

fn find_url_from(s: &str, from: usize) -> (r: Option<(usize, usize, String)>)
    requires
        from <= s@.len(),
    ensures
        match spec_find_url_from(s@, from as int) {
            Some(m) => r matches Some(x) && x.0 == m.0 && x.1 == m.1 && x.2@ == m.2,
            None => r is None,
        },
{
    let n = s.unicode_len();
    let mut p: usize = from;
    while p < n
        invariant
            from <= p <= n,
            n == s@.len(),
            spec_find_url_from(s@, from as int) == spec_find_url_from(s@, p as int),
        decreases n - p,
    {
        match url_match_at(s, p) {
            Some(m) => {
                return Some((p, m.0, m.1));
            },
            None => {},
        }
        p = p + 1;
    }
    None
}

/// All task-URL matches of the text, leftmost first, non-overlapping: each
/// next match is sought from the end of the previous one.
pub open spec fn spec_url_matches(s: Seq<char>, i: int) -> Seq<(int, int, Seq<char>)>
    decreases s.len() - i,
    when 0 <= i <= s.len()
{
    match spec_find_url_from(s, i) {
        None => Seq::empty(),
        Some(m) => if i < m.1 && m.1 <= s.len() {
            seq![m] + spec_url_matches(s, m.1)
        } else {
            seq![m]
        },
    }
}

/// The task identifiers the text cites, first citation first, each once.
pub open spec fn spec_cited_ids(ms: Seq<(int, int, Seq<char>)>) -> Seq<Seq<char>>
    decreases ms.len(),
{
    if ms.len() == 0 {
        Seq::empty()
    } else {
        let rest = spec_cited_ids(ms.drop_last());
        if spec_contains_id(rest, ms.last().2) {
            rest
        } else {
            rest.push(ms.last().2)
        }
    }
}

/// Finds the task identifiers cited by task URLs in a body, in order of
/// first citation, without repetition.
pub fn extract_task_ids(body: &str) -> (r: Vec<String>)
    ensures
        r.deep_view() == spec_cited_ids(spec_url_matches(body@, 0)),
{
    let n = body.unicode_len();
    let ghost all = spec_url_matches(body@, 0);
    let mut ids: Vec<String> = Vec::new();
    let mut pos: usize = 0;
    let mut done = false;
    let ghost mut processed: int = 0;
    proof {
        assert(all =~= all.take(0) + spec_url_matches(body@, 0));
        assert(ids.deep_view() =~= spec_cited_ids(all.take(0)));
    }
    while !done
        invariant
            0 <= pos <= n,
            n == body@.len(),
            0 <= processed <= all.len(),
            ids.deep_view() =~= spec_cited_ids(all.take(processed)),
            !done ==> all =~= all.take(processed) + spec_url_matches(body@, pos as int),
            done ==> processed == all.len(),
        decreases all.len() - processed + (if done {
            0int
        } else {
            1int
        }),
    {
        proof {
            lemma_find_url_bounds(body@, pos as int);
        }
        match find_url_from(body, pos) {
            Some(m) => {
                let ghost rest = spec_url_matches(body@, pos as int);
                proof {
                    assert(rest == seq![(m.0 as int, m.1 as int, m.2@)] + spec_url_matches(
                        body@,
                        m.1 as int,
                    ));
                    assert(all.take(processed + 1) =~= all.take(processed) + seq![
                        (m.0 as int, m.1 as int, m.2@),
                    ]);
                    assert(all.take(processed + 1).drop_last() =~= all.take(processed));
                    assert(all =~= all.take(processed + 1) + spec_url_matches(body@, m.1 as int));
                }
                let present = contains_text(&ids, &m.2);
                if !present {
                    ids.push(m.2);
                }
                proof {
                    processed = processed + 1;
                    assert(ids.deep_view() =~= spec_cited_ids(all.take(processed)));
                }
                pos = m.1;
            },
            None => {
                proof {
                    assert(spec_url_matches(body@, pos as int) =~= Seq::<(int, int, Seq<
                        char,
                    >)>::empty());
                    assert(all =~= all.take(processed));
                    processed = all.len() as int;
                    assert(all.take(processed) =~= all);
                }
                done = true;
            },
        }
    }
    proof {
        assert(all.take(all.len() as int) =~= all);
    }
    ids
}

fn contains_text(ids: &Vec<String>, id: &String) -> (r: bool)
    ensures
        r == spec_contains_id(ids.deep_view(), id@),
{
    let mut k: usize = 0;
    while k < ids.len()
        invariant
            0 <= k <= ids@.len(),
            forall|j: int| 0 <= j < k ==> ids.deep_view()[j] != id@,
        decreases ids@.len() - k,
    {
        proof {
            assert(ids.deep_view()[k as int] == ids@[k as int]@);
        }
        if ids[k].eq(id) {
            return true;
        }
        k = k + 1;
    }
    false
}

/// The body with every cited task URL replaced: a citation whose task
/// identifier has a rendered mention is replaced by it; one without keeps
/// its original URL text.
pub open spec fn spec_replace_urls(
    s: Seq<char>,
    i: int,
    mentions: Seq<(Seq<char>, Seq<char>)>,
) -> Seq<char>
    decreases s.len() - i,
    when 0 <= i <= s.len()
{
    match spec_find_url_from(s, i) {
        None => s.subrange(i, s.len() as int),
        Some(m) => {
            let repl = match spec_assoc_lookup(mentions, m.2) {
                Some(html) => html,
                None => s.subrange(m.0, m.1),
            };
            if i <= m.0 && i < m.1 && m.1 <= s.len() {
                s.subrange(i, m.0) + repl + spec_replace_urls(s, m.1, mentions)
            } else {
                repl
            }
        },
    }
}

/// Replaces cited task URLs by their rendered mentions, keeping everything
/// else, including citations that could not be resolved, as it was.
pub fn replace_task_urls(body: &str, mentions: &Vec<(String, String)>) -> (r: String)
    ensures
        r@ == spec_replace_urls(body@, 0, mentions.deep_view()),
{
    let n = body.unicode_len();
    let mut out = String::new();
    let mut pos: usize = 0;
    let mut done = false;
    let ghost total = spec_replace_urls(body@, 0, mentions.deep_view());
    while !done
        invariant
            0 <= pos <= n,
            n == body@.len(),
            !done ==> total =~= out@ + spec_replace_urls(
                body@,
                pos as int,
                mentions.deep_view(),
            ),
            done ==> total =~= out@,
        decreases n - pos + (if done {
            0int
        } else {
            1int
        }),
    {
        proof {
            lemma_find_url_bounds(body@, pos as int);
        }
        match find_url_from(body, pos) {
            Some(m) => {
                let before = body.substring_char(pos, m.0);
                out.append(before);
                match assoc_lookup(mentions, &m.2) {
                    Some(html) => {
                        out.append(html.as_str());
                    },
                    None => {
                        let original = body.substring_char(m.0, m.1);
                        out.append(original);
                    },
                }
                pos = m.1;
            },
            None => {
                let tail = body.substring_char(pos, n);
                out.append(tail);
                done = true;
            },
        }
    }
    out
}

/// What one character becomes inside escaped HTML text.
pub open spec fn spec_escape_char(c: char) -> Seq<char> {
    if c == '&' {
        "&amp;"@
    } else if c == '<' {
        "&lt;"@
    } else if c == '>' {
        "&gt;"@
    } else if c == '"' {
        "&quot;"@
    } else {
        seq![c]
    }
}

/// The text with ampersands, angle brackets and double quotes replaced by
/// their HTML entities.
pub open spec fn spec_html_escape(s: Seq<char>) -> Seq<char>
    decreases s.len(),
{
    if s.len() == 0 {
        Seq::empty()
    } else {
        spec_html_escape(s.drop_last()) + spec_escape_char(s.last())
    }
}

/// Escapes text for inclusion in HTML content or attribute values.
pub fn html_escape(s: &str) -> (r: String)
    ensures
        r@ == spec_html_escape(s@),
{
    let len = s.unicode_len();
    let mut out = String::new();
    let mut i: usize = 0;
    while i < len
        invariant
            0 <= i <= len,
            len == s@.len(),
            out@ == spec_html_escape(s@.take(i as int)),
        decreases len - i,
    {
        proof {
            assert(s@.take(i + 1).drop_last() =~= s@.take(i as int));
            assert(s@.take(i + 1).last() == s@[i as int]);
        }
        let c = s.get_char(i);
        if c == '&' {
            out.append("&amp;");
        } else if c == '<' {
            out.append("&lt;");
        } else if c == '>' {
            out.append("&gt;");
        } else if c == '"' {
            out.append("&quot;");
        } else {
            let piece = s.substring_char(i, i + 1);
            proof {
                assert(piece@ =~= seq![s@[i as int]]);
            }
            out.append(piece);
        }
        i = i + 1;
    }
    proof {
        assert(s@.take(len as int) =~= s@);
    }
    out
}

/// What is known of one cited remote task, enough to render its mention.
#[derive(Clone, Debug, PartialEq)]
pub struct TaskMentionInfo {
    pub task_id: String,
    pub number: i64,
    pub subject: String,
    pub workflow_class: String,
    pub project_id: String,
    pub project_code: String,
}

/// The inline HTML mention anchor for one cited task: class and title carry
/// the escaped workflow class, the links carry the raw identifiers, and the
/// label is the escaped project code, the ticket number and the escaped
/// subject.
pub open spec fn spec_mention_html(
    task_id: Seq<char>,
    number: int,
    subject: Seq<char>,
    workflow_class: Seq<char>,
    project_id: Seq<char>,
    project_code: Seq<char>,
) -> Seq<char> {
    "<a class=\"dooray-flavored-html-mention task-reference "@ + spec_html_escape(workflow_class)
        + "\" href=\"/project/posts/"@ + task_id + "\" title=\""@ + spec_html_escape(
        workflow_class,
    ) + "\" target=\"_blank\" rel=\"noopener noreferrer\" data-dooray-href=\"dooray://"@
        + project_id + "/tasks/"@ + task_id + "\" data-id=\""@ + task_id + "\">"@
        + spec_html_escape(project_code) + "/"@ + spec_i64_digits(number) + " | "@
        + spec_html_escape(subject) + "</a>"@
}

/// Renders the inline HTML mention anchor for one cited task.
pub fn build_mention_html(info: &TaskMentionInfo) -> (r: String)
    ensures
        r@ == spec_mention_html(
            info.task_id@,
            info.number as int,
            info.subject@,
            info.workflow_class@,
            info.project_id@,
            info.project_code@,
        ),
{
    let wf = html_escape(info.workflow_class.as_str());
    let mut r = String::from_str("<a class=\"dooray-flavored-html-mention task-reference ");
    r.append(wf.as_str());
    r.append("\" href=\"/project/posts/");
    r.append(info.task_id.as_str());
    r.append("\" title=\"");
    r.append(wf.as_str());
    r.append("\" target=\"_blank\" rel=\"noopener noreferrer\" data-dooray-href=\"dooray://");
    r.append(info.project_id.as_str());
    r.append("/tasks/");
    r.append(info.task_id.as_str());
    r.append("\" data-id=\"");
    r.append(info.task_id.as_str());
    r.append("\">");
    let code = html_escape(info.project_code.as_str());
    r.append(code.as_str());
    r.append("/");
    let num = i64_to_string(info.number);
    r.append(num.as_str());
    r.append(" | ");
    let subj = html_escape(info.subject.as_str());
    r.append(subj.as_str());
    r.append("</a>");
    r
}

} // verus!
