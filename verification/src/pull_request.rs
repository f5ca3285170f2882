//! The API requests that open a pull request, comment on it and list its commits.

use vstd::prelude::*;
use crate::github_event::GithubGetCommitResponseItem;
use crate::text::{append_i64, int_text};

verus! {

/// The URL that lists or opens pull requests.
pub fn pulls_url(repo_url: &str) -> (r: String)
    ensures
        r@ == repo_url@ + "/pulls"@,
{
    let mut res = String::from_str(repo_url);
    res.append("/pulls");
    res
}

/// The URL of one pull request.
pub fn pull_request_url(repo_url: &str, pr_number: i64) -> (r: String)
    ensures
        r@ == repo_url@ + "/pulls/"@ + int_text(pr_number as int),
{
    let mut res = String::from_str(repo_url);
    res.append("/pulls/");
    append_i64(&mut res, pr_number);
    res
}

/// The URL of the comments on a pull request.
pub fn comments_url(repo_url: &str, pr_number: i64) -> (r: String)
    ensures
        r@ == repo_url@ + "/issues/"@ + int_text(pr_number as int) + "/comments"@,
{
    let mut res = String::from_str(repo_url);
    res.append("/issues/");
    append_i64(&mut res, pr_number);
    res.append("/comments");
    res
}

/// The URL of the commits of a pull request.
pub fn commits_url(repo_url: &str, pr_number: i64) -> (r: String)
    ensures
        r@ == repo_url@ + "/pulls/"@ + int_text(pr_number as int) + "/commits"@,
{
    let mut res = String::from_str(repo_url);
    res.append("/pulls/");
    append_i64(&mut res, pr_number);
    res.append("/commits");
    res
}

/// The URL that lists the milestones of the repository.
pub fn milestones_url(repo_url: &str) -> (r: String)
    ensures
        r@ == repo_url@ + "/milestones"@,
{
    let mut res = String::from_str(repo_url);
    res.append("/milestones");
    res
}

/// The URL of an issue or pull request, to update it.
pub fn issue_url(repo_url: &str, number: i64) -> (r: String)
    ensures
        r@ == repo_url@ + "/issues/"@ + int_text(number as int),
{
    let mut res = String::from_str(repo_url);
    res.append("/issues/");
    append_i64(&mut res, number);
    res
}

/// The JSON body that puts an issue or pull request on a milestone.
pub fn milestone_body(milestone_id: i64) -> (r: String)
    ensures
        r@ == "{\"milestone\":"@ + int_text(milestone_id as int) + "}"@,
{
    let mut res = String::from_str("{\"milestone\":");
    append_i64(&mut res, milestone_id);
    res.append("}");
    res
}

/// The JSON body that opens a pull request from `head` onto `base`; `body`
/// is put in as it is, already JSON.
pub open spec fn spec_open_pull_request_body(
    head: Seq<char>,
    base: Seq<char>,
    title: Seq<char>,
    body: Seq<char>,
) -> Seq<char> {
    "{\"head\":\""@ + head + "\",\"base\":\""@ + base + "\",\"title\":\""@ + title
        + "\",\"body\":"@ + body + "}"@
}

/// `r` is the JSON object `{"head":"<head>","base":"<base>","title":"<title>","body":<body>}`,
/// told by where each field's text stands in it.
pub open spec fn body_fields_in_place(
    r: Seq<char>,
    head: Seq<char>,
    base: Seq<char>,
    title: Seq<char>,
    body: Seq<char>,
) -> bool {
    let k1: int = 9 + head.len() as int;
    let k2: int = k1 + 10;
    let k3: int = k2 + base.len();
    let k4: int = k3 + 11;
    let k5: int = k4 + title.len();
    let k6: int = k5 + 9;
    let k7: int = k6 + body.len();
    &&& r.len() == k7 + 1
    &&& r.subrange(0, 9) == seq!['{', '"', 'h', 'e', 'a', 'd', '"', ':', '"']
    &&& r.subrange(9, k1) == head
    &&& r.subrange(k1, k2) == seq!['"', ',', '"', 'b', 'a', 's', 'e', '"', ':', '"']
    &&& r.subrange(k2, k3) == base
    &&& r.subrange(k3, k4) == seq!['"', ',', '"', 't', 'i', 't', 'l', 'e', '"', ':', '"']
    &&& r.subrange(k4, k5) == title
    &&& r.subrange(k5, k6) == seq!['"', ',', '"', 'b', 'o', 'd', 'y', '"', ':']
    &&& r.subrange(k6, k7) == body
    &&& r[k7] == '}'
}

/// The body that opens a pull request carries head, base, title and
/// template body whole and unchanged, each in its own field.
pub proof fn law_open_body_carries_fields(
    head: Seq<char>,
    base: Seq<char>,
    title: Seq<char>,
    body: Seq<char>,
)
    ensures
        body_fields_in_place(spec_open_pull_request_body(head, base, title, body), head, base, title, body),
{
    reveal_strlit("{\"head\":\"");
    reveal_strlit("\",\"base\":\"");
    reveal_strlit("\",\"title\":\"");
    reveal_strlit("\",\"body\":");
    reveal_strlit("}");
    let r = spec_open_pull_request_body(head, base, title, body);
    let k1: int = 9 + head.len() as int;
    let k2: int = k1 + 10;
    let k3: int = k2 + base.len();
    let k4: int = k3 + 11;
    let k5: int = k4 + title.len();
    let k6: int = k5 + 9;
    let k7: int = k6 + body.len();
    assert(r.subrange(0, 9) =~= seq!['{', '"', 'h', 'e', 'a', 'd', '"', ':', '"']);
    assert(r.subrange(9, k1) =~= head);
    assert(r.subrange(k1, k2) =~= seq!['"', ',', '"', 'b', 'a', 's', 'e', '"', ':', '"']);
    assert(r.subrange(k2, k3) =~= base);
    assert(r.subrange(k3, k4) =~= seq!['"', ',', '"', 't', 'i', 't', 'l', 'e', '"', ':', '"']);
    assert(r.subrange(k4, k5) =~= title);
    assert(r.subrange(k5, k6) =~= seq!['"', ',', '"', 'b', 'o', 'd', 'y', '"', ':']);
    assert(r.subrange(k6, k7) =~= body);
}

/// The JSON body that opens a pull request. Head, base and title are put
/// between quotes as they are; `body` is put in as it is.
pub fn open_pull_request_body(head: &str, base: &str, title: &str, body: &str) -> (r: String)
    ensures
        r@ == spec_open_pull_request_body(head@, base@, title@, body@),
        body_fields_in_place(r@, head@, base@, title@, body@),
{
    proof {
        law_open_body_carries_fields(head@, base@, title@, body@);
    }
    let mut res = String::from_str("{\"head\":\"");
    res.append(head);
    res.append("\",\"base\":\"");
    res.append(base);
    res.append("\",\"title\":\"");
    res.append(title);
    res.append("\",\"body\":");
    res.append(body);
    res.append("}");
    res
}

/// The JSON body of a comment; the text is put between quotes as it is.
pub fn comment_body(comment: &str) -> (r: String)
    ensures
        r@ == "{\"body\":\""@ + comment@ + "\"}"@,
{
    let mut res = String::from_str("{\"body\":\"");
    res.append(comment);
    res.append("\"}");
    res
}

/// The hashes of the listed commits, in their order.
pub fn github_get_commits_in_pr(response: Vec<GithubGetCommitResponseItem>) -> (r: Vec<String>)
    ensures
        r.len() == response.len(),
        forall|i: int| 0 <= i < r.len() ==> #[trigger] r@[i] == response@[i].sha,
{
    let mut commits: Vec<String> = Vec::new();
    let n: usize = response.len();
    let mut i: usize = 0;
    while i < n
        invariant
            n == response.len(),
            i <= n,
            commits.len() == i,
            forall|j: int| 0 <= j < i ==> #[trigger] commits@[j] == response@[j].sha,
        decreases n - i,
    {
        commits.push(response[i].sha.clone());
        i = i + 1;
    }
    commits
}

/// The hexadecimal digit of `d` in lower case.
pub open spec fn hex_digit(d: int) -> char {
    if d < 10 {
        (d + 48) as char
    } else {
        (d + 87) as char
    }
}

/// How a JSON string writes one character: `"` and `\` and the control
/// characters below U+0020 escaped, with the short forms where JSON has
/// them, every other character as it is.
pub open spec fn json_escaped_char(c: char) -> Seq<char> {
    if c == '"' {
        seq!['\\', '"']
    } else if c == '\\' {
        seq!['\\', '\\']
    } else if c == '\u{8}' {
        seq!['\\', 'b']
    } else if c == '\t' {
        seq!['\\', 't']
    } else if c == '\n' {
        seq!['\\', 'n']
    } else if c == '\u{c}' {
        seq!['\\', 'f']
    } else if c == '\r' {
        seq!['\\', 'r']
    } else if (c as int) < 32 {
        seq!['\\', 'u', '0', '0', hex_digit(c as int / 16), hex_digit(c as int % 16)]
    } else {
        seq![c]
    }
}

/// The escaped characters of `s`, in order.
pub open spec fn json_escaped(s: Seq<char>) -> Seq<char>
    decreases s.len(),
{
    if s.len() == 0 {
        Seq::empty()
    } else {
        json_escaped(s.drop_last()) + json_escaped_char(s.last())
    }
}

/// `s` as a JSON string literal.
pub open spec fn json_string_literal(s: Seq<char>) -> Seq<char> {
    seq!['"'] + json_escaped(s) + seq!['"']
}

#[verifier::external_type_specification]
#[verifier::external_body]
pub struct ExJsonError(serde_json::Error);

/// `s` as a JSON string (serde_json's `to_string` on a `str`).
/// Claims what serde_json's source shows: writing a string into a `Vec`
/// cannot fail, and the string comes out between quotes, with `"`, `\` and
/// the characters below U+0020 escaped (the short forms `\b \t \n \f \r`
/// where they exist, `\u00xx` in lower-case hex otherwise).
#[verifier::external_body]
fn to_json_string(s: &str) -> (r: Result<String, serde_json::Error>)
    ensures
        r is Ok,
        r matches Ok(j) ==> j@ == json_string_literal(s@),
{
    serde_json::to_string(s)
}

/// The `body` of a new pull request: the repository's pull-request template
/// as a JSON string where there is one, empty where it could not be read.
pub fn get_pull_request_body(template: Option<String>) -> (r: String)
    ensures
        match template {
            Some(content) => r@ == json_string_literal(content@),
            None => r@ == Seq::<char>::empty(),
        },
{
    match template {
        Some(content) => match to_json_string(content.as_str()) {
            Ok(json) => json,
            Err(_) => String::new(),
        },
        None => String::new(),
    }
}


// ------ reading a JSON string back ------

/// The value of a hexadecimal digit (either case); `None` for other characters.
pub open spec fn hex_value(c: char) -> Option<int> {
    if '0' <= c && c <= '9' {
        Some(c as int - 48)
    } else if 'a' <= c && c <= 'f' {
        Some(c as int - 87)
    } else if 'A' <= c && c <= 'F' {
        Some(c as int - 55)
    } else {
        None
    }
}

/// The character that a `\uXXXX` escape names; `None` where a digit is not
/// hexadecimal or the code is a surrogate half (pairs are not read here).
pub open spec fn unicode_escape_char(a: char, b: char, c: char, d: char) -> Option<char> {
    match (hex_value(a), hex_value(b), hex_value(c), hex_value(d)) {
        (Some(x), Some(y), Some(z), Some(w)) => {
            let v = ((x * 16 + y) * 16 + z) * 16 + w;
            if 0xD800 <= v && v <= 0xDFFF {
                None
            } else {
                Some(v as char)
            }
        },
        _ => None,
    }
}

/// The characters that the inside of a JSON string literal stands for:
/// characters other than `"`, `\` and those below U+0020 stand for
/// themselves, and `\" \\ \/ \b \f \n \r \t \uXXXX` for the characters
/// that JSON gives them; `None` for anything else.
pub open spec fn json_unescaped(t: Seq<char>) -> Option<Seq<char>>
    decreases t.len(),
{
    if t.len() == 0 {
        Some(Seq::empty())
    } else if t[0] == '\\' {
        if t.len() < 2 {
            None
        } else {
            let e = t[1];
            let c: Option<char> = if e == '"' {
                Some('"')
            } else if e == '\\' {
                Some('\\')
            } else if e == '/' {
                Some('/')
            } else if e == 'b' {
                Some('\u{8}')
            } else if e == 'f' {
                Some('\u{c}')
            } else if e == 'n' {
                Some('\n')
            } else if e == 'r' {
                Some('\r')
            } else if e == 't' {
                Some('\t')
            } else {
                None
            };
            if e == 'u' {
                if t.len() < 6 {
                    None
                } else {
                    match (unicode_escape_char(t[2], t[3], t[4], t[5]), json_unescaped(t.skip(6))) {
                        (Some(c), Some(rest)) => Some(seq![c] + rest),
                        _ => None,
                    }
                }
            } else {
                match (c, json_unescaped(t.skip(2))) {
                    (Some(c), Some(rest)) => Some(seq![c] + rest),
                    _ => None,
                }
            }
        }
    } else if t[0] == '"' || (t[0] as int) < 32 {
        None
    } else {
        match json_unescaped(t.skip(1)) {
            Some(rest) => Some(seq![t[0]] + rest),
            None => None,
        }
    }
}

/// The string that a JSON string literal stands for; `None` where `lit` is
/// not one.
pub open spec fn json_string_value(lit: Seq<char>) -> Option<Seq<char>> {
    if lit.len() >= 2 && lit[0] == '"' && lit[lit.len() - 1] == '"' {
        json_unescaped(lit.subrange(1, lit.len() - 1))
    } else {
        None
    }
}

proof fn lemma_json_escaped_concat(a: Seq<char>, b: Seq<char>)
    ensures
        json_escaped(a + b) == json_escaped(a) + json_escaped(b),
    decreases b.len(),
{
    if b.len() == 0 {
        assert(a + b =~= a);
        assert(json_escaped(a) + json_escaped(b) =~= json_escaped(a));
    } else {
        assert((a + b).drop_last() =~= a + b.drop_last());
        assert((a + b).last() == b.last());
        lemma_json_escaped_concat(a, b.drop_last());
        assert(json_escaped(a) + json_escaped(b) =~= json_escaped(a) + json_escaped(b.drop_last())
            + json_escaped_char(b.last()));
    }
}

proof fn lemma_hex_digit_value(d: int)
    requires
        0 <= d < 16,
    ensures
        hex_value(hex_digit(d)) == Some(d),
{
    if d < 10 {
        assert(hex_digit(d) as int == d + 48);
    } else {
        assert(hex_digit(d) as int == d + 87);
    }
}

proof fn lemma_unescape_one(c: char, rest: Seq<char>)
    ensures
        json_unescaped(json_escaped_char(c) + rest) == match json_unescaped(rest) {
            Some(r) => Some(seq![c] + r),
            None => None::<Seq<char>>,
        },
{
    let t = json_escaped_char(c) + rest;
    let n = json_escaped_char(c).len();
    assert(t.skip(n as int) =~= rest);
    if c == '"' || c == '\\' || c == '\u{8}' || c == '\t' || c == '\n' || c == '\u{c}' || c
        == '\r' {
        assert(t[0] == '\\');
    } else if (c as int) < 32 {
        let v = c as int;
        lemma_hex_digit_value(v / 16);
        lemma_hex_digit_value(v % 16);
        assert(t[0] == '\\' && t[1] == 'u' && t[2] == '0' && t[3] == '0');
        assert(t[4] == hex_digit(v / 16) && t[5] == hex_digit(v % 16));
        assert(((0 * 16 + 0) * 16 + v / 16) * 16 + v % 16 == v);
        assert((v as char) == c);
    } else {
        assert(t[0] == c);
    }
}

proof fn lemma_unescape_escaped(s: Seq<char>)
    ensures
        json_unescaped(json_escaped(s)) == Some(s),
    decreases s.len(),
{
    if s.len() == 0 {
        assert(json_escaped(s) =~= Seq::<char>::empty());
    } else {
        let first = s[0];
        let rest = s.drop_first();
        assert(s =~= seq![first] + rest);
        lemma_json_escaped_concat(seq![first], rest);
        assert(seq![first].drop_last() =~= Seq::<char>::empty());
        assert(json_escaped(seq![first].drop_last()) =~= Seq::<char>::empty());
        assert(seq![first].last() == first);
        assert(json_escaped(seq![first]) =~= json_escaped_char(first));
        lemma_unescape_escaped(rest);
        lemma_unescape_one(first, json_escaped(rest));
        assert(seq![first] + rest =~= s);
    }
}

/// Reading the template body back as a JSON string gives the template: the
/// literal is between quotes and stands for exactly the template's text.
pub proof fn law_template_body_reads_back(template: Seq<char>)
    ensures
        json_string_literal(template).len() >= 2,
        json_string_literal(template)[0] == '"',
        json_string_literal(template)[json_string_literal(template).len() - 1] == '"',
        json_string_value(json_string_literal(template)) == Some(template),
{
    let lit = json_string_literal(template);
    assert(lit.subrange(1, lit.len() - 1) =~= json_escaped(template));
    lemma_unescape_escaped(template);
}

} // verus!
