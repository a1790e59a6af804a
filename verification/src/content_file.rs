//! A content file split into its front matter and its body.

use vstd::prelude::*;

use crate::answer::{
    is_machine_ai_visible, spec_machine_ai_visible, AiVisibility, AnswerFrontMatter,
    AnswerFrontMatterV,
};
use crate::answers::{
    ai_visibility_key, ai_visibility_name, audience_key, audience_name, intent_key, intent_name,
    llms_priority_key, llms_priority_name, token_budget_key, token_budget_name, visibility_key,
    visibility_name,
};
use crate::diagnostics::strs;
use crate::text::{
    ascii_lower, chars_of, eq, extend, extend_str, find, find_exec, is_ascii_alnum, slice_copy,
    starts_with, starts_with_exec, str_eq, string_of, to_ascii_lower, trim, trim_end_char,
    trim_end_char_exec, trim_exec,
};
use crate::llms::{path_slug, slugify_paths, SlugifyStrategy};

verus! {

/// The language of a front matter: TOML between `+++` lines, YAML between `---`.
#[derive(Clone, Copy, Debug, PartialEq, Eq, Structural)]
pub enum FrontMatterKind {
    Toml,
    Yaml,
}

/// ASCII whitespace (`[[:space:]]`).
pub open spec fn is_space(c: char) -> bool {
    c == ' ' || c == '\t' || c == '\n' || c == '\r' || c == '\x0B' || c == '\x0C'
}

/// The length of the leading run of ASCII whitespace of `s` from `i` on.
pub open spec fn space_run(s: Seq<char>, i: int) -> int
    decreases s.len() - i,
{
    if i < 0 || i >= s.len() || !is_space(s[i]) {
        0
    } else {
        1 + space_run(s, i + 1)
    }
}

/// The index of the last `\n` before `end`, if any.
pub open spec fn last_newline(s: Seq<char>, end: int) -> Option<int>
    decreases end,
{
    if end <= 0 || end > s.len() {
        None
    } else if s[end - 1] == '\n' {
        Some(end - 1)
    } else {
        last_newline(s, end - 1)
    }
}

pub open spec fn delimiter(k: FrontMatterKind) -> Seq<char> {
    match k {
        FrontMatterKind::Toml => "+++"@,
        FrontMatterKind::Yaml => "---"@,
    }
}

/// The body after a closing delimiter: nothing when only whitespace follows;
/// else what follows the last line break of the whitespace after it; no body
/// (the file is refused) when text follows on the delimiter's own line.
pub open spec fn body_after(rest: Seq<char>) -> Option<Seq<char>> {
    let n = space_run(rest, 0);
    if n == rest.len() {
        Some(Seq::empty())
    } else {
        match last_newline(rest, n) {
            Some(j) => Some(rest.skip(j + 1)),
            None => None,
        }
    }
}

/// A content file as (kind, front matter, body): after leading whitespace,
/// an opening `+++` or `---` followed by a line break; the front matter runs
/// (with that line break) up to the next occurrence of the same delimiter.
pub open spec fn spec_split(content: Seq<char>) -> Option<(FrontMatterKind, Seq<char>, Seq<char>)> {
    let t = content.skip(space_run(content, 0));
    let kind = if starts_with(t, "+++"@) {
        Some(FrontMatterKind::Toml)
    } else if starts_with(t, "---"@) {
        Some(FrontMatterKind::Yaml)
    } else {
        None
    };
    match kind {
        None => None,
        Some(k) => {
            let after = t.skip(3);
            if !(starts_with(after, "\n"@) || starts_with(after, "\r\n"@)) {
                None
            } else {
                match find(after, delimiter(k)) {
                    None => None,
                    Some(e) => match body_after(after.skip(e + 3)) {
                        Some(b) => Some((k, after.take(e), b)),
                        None => None,
                    },
                }
            }
        },
    }
}

fn space_run_exec(s: &[char], i: usize) -> (r: usize)
    requires
        i <= s@.len(),
    ensures
        r == space_run(s@, i as int),
        i + r <= s@.len(),
{
    let mut j = i;
    while j < s.len() && (s[j] == ' ' || s[j] == '\t' || s[j] == '\n' || s[j] == '\r' || s[j]
        == '\x0B' || s[j] == '\x0C')
        invariant
            i <= j <= s@.len(),
            forall|k: int| i <= k < j ==> is_space(#[trigger] s@[k]),
            space_run(s@, i as int) == (j - i) + space_run(s@, j as int),
        decreases s.len() - j,
    {
        j += 1;
    }
    j - i
}

fn last_newline_exec(s: &[char], end: usize) -> (r: Option<usize>)
    requires
        end <= s@.len(),
    ensures
        match r {
            Some(j) => last_newline(s@, end as int) == Some(j as int) && j < end,
            None => last_newline(s@, end as int) is None,
        },
{
    let mut e = end;
    while e > 0
        invariant
            e <= end <= s@.len(),
            last_newline(s@, end as int) == last_newline(s@, e as int),
        decreases e,
    {
        if s[e - 1] == '\n' {
            return Some(e - 1);
        }
        e -= 1;
    }
    None
}

/// Splits a content file into its front matter and body.
pub fn split_front_matter(content: &str) -> (r: Option<(FrontMatterKind, String, String)>)
    ensures
        match r {
            Some((k, f, b)) => spec_split(content@) == Some((k, f@, b@)),
            None => spec_split(content@) is None,
        },
{
    let c = chars_of(content);
    let lead = space_run_exec(&c, 0);
    let t = slice_copy(&c, lead, c.len());
    assert(t@ =~= c@.skip(lead as int));
    let kind = if starts_with_exec(&t, &chars_of("+++")) {
        FrontMatterKind::Toml
    } else if starts_with_exec(&t, &chars_of("---")) {
        FrontMatterKind::Yaml
    } else {
        return None;
    };
    proof {
        reveal_strlit("+++");
        reveal_strlit("---");
    }
    let after = slice_copy(&t, 3, t.len());
    assert(after@ =~= t@.skip(3));
    if !(starts_with_exec(&after, &chars_of("\n")) || starts_with_exec(&after, &chars_of("\r\n"))) {
        return None;
    }
    let delim = match kind {
        FrontMatterKind::Toml => chars_of("+++"),
        FrontMatterKind::Yaml => chars_of("---"),
    };
    let e = match find_exec(&after, &delim) {
        Some(e) => e,
        None => {
            return None;
        },
    };
    proof {
        crate::text::lemma_find(after@, delim@);
    }
    let rest = slice_copy(&after, e + 3, after.len());
    assert(rest@ =~= after@.skip(e + 3));
    let n = space_run_exec(&rest, 0);
    let body = if n == rest.len() {
        Vec::new()
    } else {
        match last_newline_exec(&rest, n) {
            Some(j) => {
                let b = slice_copy(&rest, j + 1, rest.len());
                assert(b@ =~= rest@.skip(j + 1));
                b
            },
            None => {
                return None;
            },
        }
    };
    assert(n == rest@.len() ==> body@ =~= Seq::<char>::empty());
    let front = slice_copy(&after, 0, e);
    assert(front@ =~= after@.take(e as int));
    Some((kind, string_of(&front), string_of(&body)))
}


// ---------------------------------------------------------------------------
// YAML scalars of the machine Markdown front matter
// ---------------------------------------------------------------------------

/// A character that may stand in a scalar written plain.
pub open spec fn plain_char(c: char) -> bool {
    is_ascii_alnum(c) || c == ' ' || c == '-' || c == '_' || c == '.' || c == '/' || c == ':'
}

pub open spec fn is_ascii_letter(c: char) -> bool {
    ('a' <= c && c <= 'z') || ('A' <= c && c <= 'Z')
}

/// The words YAML reads as a boolean or as null, in any case.
pub open spec fn yaml_reserved(s: Seq<char>) -> bool {
    let l = s.map_values(|c: char| ascii_lower(c));
    ||| l == "true"@
    ||| l == "false"@
    ||| l == "yes"@
    ||| l == "no"@
    ||| l == "on"@
    ||| l == "off"@
    ||| l == "null"@
    ||| l == "y"@
    ||| l == "n"@
}

/// A string that YAML reads back as the same string when it is written plain:
/// it starts with a letter, holds only letters, digits, spaces and `-_./:`,
/// has no `: ` and does not end in a space or `:`, and is no reserved word.
pub open spec fn plain_safe(s: Seq<char>) -> bool {
    &&& s.len() > 0
    &&& is_ascii_letter(s[0])
    &&& s.last() != ' ' && s.last() != ':'
    &&& forall|i: int| 0 <= i < s.len() ==> plain_char(#[trigger] s[i])
    &&& forall|i: int| 0 <= i < s.len() - 1 ==> !(#[trigger] s[i] == ':' && s[i + 1] == ' ')
    &&& !yaml_reserved(s)
}

/// A character that a double-quoted scalar writes as a `\u` escape.
pub open spec fn needs_unicode_escape(c: char) -> bool {
    ||| (c as u32) < 0x20
    ||| (0x7f <= (c as u32) && (c as u32) <= 0x9f)
    ||| c == '\u{2028}'
    ||| c == '\u{2029}'
    ||| c == '\u{feff}'
    ||| c == '\u{fffe}'
    ||| c == '\u{ffff}'
}

pub open spec fn hex_digit(n: nat) -> char {
    "0123456789abcdef"@[n as int]
}

/// Four hexadecimal digits of a code below `0x10000`.
pub open spec fn hex4(n: nat) -> Seq<char> {
    seq![hex_digit(n / 4096), hex_digit((n / 256) % 16), hex_digit((n / 16) % 16), hex_digit(n % 16)]
}

/// A character inside a double-quoted scalar.
pub open spec fn escape_char(c: char) -> Seq<char> {
    if c == '"' {
        seq!['\\', '"']
    } else if c == '\\' {
        seq!['\\', '\\']
    } else if c == '\n' {
        seq!['\\', 'n']
    } else if c == '\t' {
        seq!['\\', 't']
    } else if c == '\r' {
        seq!['\\', 'r']
    } else if needs_unicode_escape(c) {
        seq!['\\', 'u'] + hex4(c as nat)
    } else {
        seq![c]
    }
}

/// The characters of `s` inside a double-quoted scalar.
pub open spec fn escaped(s: Seq<char>) -> Seq<char>
    decreases s.len(),
{
    if s.len() == 0 {
        Seq::empty()
    } else {
        escaped(s.drop_last()) + escape_char(s.last())
    }
}

/// A string as a YAML scalar: plain when that reads back the same, else
/// double-quoted with escapes.
pub open spec fn yaml_scalar(s: Seq<char>) -> Seq<char> {
    if plain_safe(s) {
        s
    } else {
        seq!['"'] + escaped(s) + seq!['"']
    }
}

/// The items of a YAML block sequence, one `- ` line each.
pub open spec fn yaml_items(items: Seq<Seq<char>>) -> Seq<char>
    decreases items.len(),
{
    if items.len() == 0 {
        Seq::empty()
    } else {
        yaml_items(items.drop_last()) + "- "@ + yaml_scalar(items.last()) + "\n"@
    }
}

/// A key with a list of strings: `[]` when it is empty.
pub open spec fn yaml_list(key: Seq<char>, items: Seq<Seq<char>>) -> Seq<char> {
    if items.len() == 0 {
        key + ": []\n"@
    } else {
        key + ":\n"@ + yaml_items(items)
    }
}

fn is_reserved_word(s: &[char]) -> (r: bool)
    ensures
        r == yaml_reserved(s@),
{
    let mut l: Vec<char> = Vec::new();
    let mut i: usize = 0;
    while i < s.len()
        invariant
            i <= s@.len(),
            l@ == s@.take(i as int).map_values(|c: char| ascii_lower(c)),
        decreases s.len() - i,
    {
        l.push(to_ascii_lower(s[i]));
        i += 1;
        assert(l@ =~= s@.take(i as int).map_values(|c: char| ascii_lower(c)));
    }
    assert(s@.take(i as int) =~= s@);
    eq(&l, &chars_of("true")) || eq(&l, &chars_of("false")) || eq(&l, &chars_of("yes")) || eq(
        &l,
        &chars_of("no"),
    ) || eq(&l, &chars_of("on")) || eq(&l, &chars_of("off")) || eq(&l, &chars_of("null")) || eq(
        &l,
        &chars_of("y"),
    ) || eq(&l, &chars_of("n"))
}

fn is_plain_safe(s: &[char]) -> (r: bool)
    ensures
        r == plain_safe(s@),
{
    let n = s.len();
    if n == 0 {
        return false;
    }
    let first = s[0];
    if !(('a' <= first && first <= 'z') || ('A' <= first && first <= 'Z')) {
        return false;
    }
    let last = s[n - 1];
    if last == ' ' || last == ':' {
        return false;
    }
    let mut i: usize = 0;
    while i < n
        invariant
            n == s@.len(),
            i <= n,
            forall|j: int| 0 <= j < i ==> plain_char(#[trigger] s@[j]),
            forall|j: int| 0 <= j < i && j < n - 1 ==> !(#[trigger] s@[j] == ':' && s@[j + 1] == ' '),
        decreases n - i,
    {
        let c = s[i];
        let ok = ('0' <= c && c <= '9') || ('a' <= c && c <= 'z') || ('A' <= c && c <= 'Z') || c
            == ' ' || c == '-' || c == '_' || c == '.' || c == '/' || c == ':';
        if !ok {
            assert(!plain_char(s@[i as int]));
            return false;
        }
        if c == ':' && i + 1 < n && s[i + 1] == ' ' {
            return false;
        }
        i += 1;
    }
    !is_reserved_word(s)
}

fn hex_digit_exec(n: u32) -> (r: char)
    requires
        n < 16,
    ensures
        r == hex_digit(n as nat),
{
    let t = chars_of("0123456789abcdef");
    proof {
        reveal_strlit("0123456789abcdef");
    }
    t[n as usize]
}

fn push_escaped(out: &mut Vec<char>, c: char)
    ensures
        final(out)@ == old(out)@ + escape_char(c),
{
    if c == '"' {
        out.push('\\');
        out.push('"');
    } else if c == '\\' {
        out.push('\\');
        out.push('\\');
    } else if c == '\n' {
        out.push('\\');
        out.push('n');
    } else if c == '\t' {
        out.push('\\');
        out.push('t');
    } else if c == '\r' {
        out.push('\\');
        out.push('r');
    } else {
        let u = c as u32;
        if u < 0x20 || (0x7f <= u && u <= 0x9f) || c == '\u{2028}' || c == '\u{2029}' || c
            == '\u{feff}' || c == '\u{fffe}' || c == '\u{ffff}' {
            assert(u < 0x10000);
            out.push('\\');
            out.push('u');
            out.push(hex_digit_exec(u / 4096));
            out.push(hex_digit_exec((u / 256) % 16));
            out.push(hex_digit_exec((u / 16) % 16));
            out.push(hex_digit_exec(u % 16));
        } else {
            out.push(c);
        }
    }
    assert(final(out)@ =~= old(out)@ + escape_char(c));
}

fn push_scalar(out: &mut Vec<char>, s: &[char])
    ensures
        final(out)@ == old(out)@ + yaml_scalar(s@),
{
    if is_plain_safe(s) {
        extend(out, s);
        return;
    }
    let ghost start = out@;
    out.push('"');
    let mut i: usize = 0;
    while i < s.len()
        invariant
            i <= s@.len(),
            out@ == start + seq!['"'] + escaped(s@.take(i as int)),
        decreases s.len() - i,
    {
        assert(s@.take(i + 1).drop_last() =~= s@.take(i as int));
        push_escaped(out, s[i]);
        i += 1;
        assert(out@ =~= start + seq!['"'] + escaped(s@.take(i as int)));
    }
    assert(s@.take(i as int) =~= s@);
    out.push('"');
    assert(out@ =~= start + yaml_scalar(s@));
}

fn push_list(out: &mut Vec<char>, key: &str, items: &Vec<String>)
    ensures
        final(out)@ == old(out)@ + yaml_list(key@, strs(items@)),
{
    let ghost start = out@;
    extend_str(out, key);
    if items.len() == 0 {
        extend_str(out, ": []\n");
        assert(out@ =~= start + yaml_list(key@, strs(items@)));
        return;
    }
    extend_str(out, ":\n");
    let ghost head = out@;
    let mut i: usize = 0;
    while i < items.len()
        invariant
            i <= items@.len(),
            out@ == head + yaml_items(strs(items@).take(i as int)),
        decreases items.len() - i,
    {
        assert(strs(items@).take(i + 1).drop_last() =~= strs(items@).take(i as int));
        extend_str(out, "- ");
        let c = chars_of(items[i].as_str());
        push_scalar(out, &c);
        extend_str(out, "\n");
        i += 1;
        assert(out@ =~= head + yaml_items(strs(items@).take(i as int)));
    }
    assert(strs(items@).take(i as int) =~= strs(items@));
    assert(out@ =~= start + yaml_list(key@, strs(items@)));
}

/// The YAML front matter of an answer's machine Markdown.
pub open spec fn machine_front_matter(a: AnswerFrontMatterV, permalink: Seq<char>) -> Seq<char> {
    "---\n"@ + "id: "@ + yaml_scalar(a.id) + "\n"@ + "canonical_url: "@ + yaml_scalar(permalink)
        + "\n"@ + "visibility: "@ + visibility_name(a.visibility) + "\n"@ + "ai_visibility: "@
        + ai_visibility_name(a.ai_visibility) + "\n"@ + "intent: "@ + intent_name(a.intent) + "\n"@
        + "entity: "@ + yaml_scalar(a.entity) + "\n"@ + "audience: "@ + audience_name(a.audience)
        + "\n"@ + "llms_priority: "@ + llms_priority_name(a.llms_priority) + "\n"@
        + "token_budget: "@ + token_budget_name(a.token_budget) + "\n"@ + yaml_list(
        "canonical_questions"@,
        a.canonical_questions,
    ) + yaml_list("retrieval_aliases"@, a.aliases) + yaml_list("related"@, a.related) + "---\n"@
}

/// The machine Markdown of an answer page: none when the answer does not
/// reach machine outputs; else its YAML front matter, its title and summary,
/// then its body, or for a `summary_only` answer a pointer to the canonical
/// page in place of the body.
pub open spec fn spec_machine_markdown(
    a: AnswerFrontMatterV,
    title: Seq<char>,
    permalink: Seq<char>,
    body: Seq<char>,
) -> Option<Seq<char>> {
    if !spec_machine_ai_visible(a.visibility, a.ai_visibility) {
        None
    } else {
        let head = machine_front_matter(a, permalink) + "\n# "@ + title + "\n\n"@ + a.summary;
        if a.ai_visibility == AiVisibility::SummaryOnly {
            Some(head + "\n\nCanonical page: <"@ + permalink + ">\n"@)
        } else {
            Some(head + "\n\n"@ + body)
        }
    }
}

fn push_line(out: &mut Vec<char>, key: &str, value: &str)
    ensures
        final(out)@ == old(out)@ + key@ + value@ + "\n"@,
{
    extend_str(out, key);
    extend_str(out, value);
    extend_str(out, "\n");
    assert(final(out)@ =~= old(out)@ + key@ + value@ + "\n"@);
}

fn push_scalar_line(out: &mut Vec<char>, key: &str, value: &str)
    ensures
        final(out)@ == old(out)@ + key@ + yaml_scalar(value@) + "\n"@,
{
    extend_str(out, key);
    let c = chars_of(value);
    push_scalar(out, &c);
    extend_str(out, "\n");
    assert(final(out)@ =~= old(out)@ + key@ + yaml_scalar(value@) + "\n"@);
}

/// The machine Markdown of an answer page.
pub fn machine_markdown(answer: &AnswerFrontMatter, title: &str, permalink: &str, body: &str) -> (r:
    Option<String>)
    ensures
        match r {
            Some(m) => spec_machine_markdown(answer@, title@, permalink@, body@) == Some(m@),
            None => spec_machine_markdown(answer@, title@, permalink@, body@) is None,
        },
{
    if !is_machine_ai_visible(&answer.visibility, &answer.ai_visibility) {
        return None;
    }
    let a = answer;
    let mut m: Vec<char> = Vec::new();
    extend_str(&mut m, "---\n");
    push_scalar_line(&mut m, "id: ", a.id.as_str());
    push_scalar_line(&mut m, "canonical_url: ", permalink);
    push_line(&mut m, "visibility: ", visibility_key(&a.visibility));
    push_line(&mut m, "ai_visibility: ", ai_visibility_key(&a.ai_visibility));
    push_line(&mut m, "intent: ", intent_key(&a.intent));
    push_scalar_line(&mut m, "entity: ", a.entity.as_str());
    push_line(&mut m, "audience: ", audience_key(&a.audience));
    push_line(&mut m, "llms_priority: ", llms_priority_key(&a.llms_priority));
    push_line(&mut m, "token_budget: ", token_budget_key(&a.token_budget));
    push_list(&mut m, "canonical_questions", &a.canonical_questions);
    push_list(&mut m, "retrieval_aliases", &a.aliases);
    push_list(&mut m, "related", &a.related);
    extend_str(&mut m, "---\n");
    assert(m@ =~= machine_front_matter(answer@, permalink@));
    extend_str(&mut m, "\n# ");
    extend_str(&mut m, title);
    extend_str(&mut m, "\n\n");
    extend_str(&mut m, a.summary.as_str());
    if matches!(a.ai_visibility, AiVisibility::SummaryOnly) {
        extend_str(&mut m, "\n\nCanonical page: <");
        extend_str(&mut m, permalink);
        extend_str(&mut m, ">\n");
    } else {
        extend_str(&mut m, "\n\n");
        extend_str(&mut m, body);
    }
    Some(string_of(&m))
}

/// The title an answer page is listed under: its own title unless that is
/// missing or blank, else the answer's first canonical question (nothing when
/// it has none), else the blank title as given.
pub open spec fn spec_answer_title(title: Option<Seq<char>>, questions: Option<Seq<Seq<char>>>) -> Seq<
    char,
> {
    match (title, questions) {
        (Some(t), _) if trim(t).len() > 0 => t,
        (_, Some(q)) => if q.len() > 0 {
            q[0]
        } else {
            Seq::empty()
        },
        (Some(t), None) => t,
        (None, None) => Seq::empty(),
    }
}

/// The title an answer page is listed under.
pub fn answer_title(title: Option<&str>, answer: Option<&AnswerFrontMatter>) -> (r: String)
    ensures
        r@ == spec_answer_title(
            match title {
                Some(t) => Some(t@),
                None => None,
            },
            match answer {
                Some(a) => Some(strs(a.canonical_questions@)),
                None => None,
            },
        ),
{
    if let Some(t) = title {
        if trim_exec(&chars_of(t)).len() > 0 {
            return t.to_string();
        }
    }
    match answer {
        Some(a) => {
            if a.canonical_questions.len() > 0 {
                a.canonical_questions[0].clone()
            } else {
                String::new()
            }
        },
        None => match title {
            Some(t) => t.to_string(),
            None => String::new(),
        },
    }
}

/// `s` without its leading `c`s.
pub open spec fn trim_start_char(s: Seq<char>, c: char) -> Seq<char>
    decreases s.len(),
{
    if s.len() > 0 && s[0] == c {
        trim_start_char(s.drop_first(), c)
    } else {
        s
    }
}

fn trim_start_char_exec(s: &[char], c: char) -> (r: Vec<char>)
    ensures
        r@ == trim_start_char(s@, c),
{
    let mut i: usize = 0;
    assert(s@.skip(0) =~= s@);
    while i < s.len() && s[i] == c
        invariant
            i <= s@.len(),
            trim_start_char(s@, c) == trim_start_char(s@.skip(i as int), c),
        decreases s.len() - i,
    {
        assert(s@.skip(i as int).drop_first() =~= s@.skip(i + 1));
        i += 1;
    }
    let r = slice_copy(s, i, s.len());
    assert(r@ =~= s@.skip(i as int));
    r
}

/// The site path of a page: its `path` setting between slashes; else its
/// section's path, then its slug (or its file stem) made a path segment, then
/// a slash.
pub open spec fn spec_page_path(
    path: Option<Seq<char>>,
    slug: Option<Seq<char>>,
    stem: Seq<char>,
    section_path: Seq<char>,
    strategy: SlugifyStrategy,
) -> Seq<char> {
    match path {
        Some(p) => "/"@ + trim_end_char(trim_start_char(p, '/'), '/') + "/"@,
        None => section_path + path_slug(
            match slug {
                Some(s) => s,
                None => stem,
            },
            strategy,
        ) + "/"@,
    }
}

/// The site path of a page.
pub fn page_path(
    path: Option<&str>,
    slug: Option<&str>,
    stem: &str,
    section_path: &str,
    strategy: SlugifyStrategy,
) -> (r: String)
    ensures
        r@ == spec_page_path(
            match path {
                Some(p) => Some(p@),
                None => None,
            },
            match slug {
                Some(s) => Some(s@),
                None => None,
            },
            stem@,
            section_path@,
            strategy,
        ),
{
    proof {
        reveal_strlit("/");
    }
    let mut out: Vec<char> = Vec::new();
    match path {
        Some(p) => {
            let inner = trim_end_char_exec(&trim_start_char_exec(&chars_of(p), '/'), '/');
            out.push('/');
            extend(&mut out, &inner);
            out.push('/');
            assert(out@ =~= "/"@ + trim_end_char(trim_start_char(p@, '/'), '/') + "/"@);
        },
        None => {
            let segment = match slug {
                Some(s) => slugify_paths(s, strategy),
                None => slugify_paths(stem, strategy),
            };
            extend_str(&mut out, section_path);
            extend_str(&mut out, segment.as_str());
            out.push('/');
            assert(out@ =~= section_path@ + segment@ + "/"@);
        },
    }
    string_of(&out)
}

/// Whether a page lacks the key its section sorts by (`date` or `weight`), so
/// that the section leaves it out.
pub open spec fn spec_lacks_sort_key(sort_by: Option<Seq<char>>, has_date: bool, has_weight: bool) -> bool {
    match sort_by {
        Some(k) => (k == "date"@ && !has_date) || (k == "weight"@ && !has_weight),
        None => false,
    }
}

/// Whether a page lacks the key its section sorts by.
pub fn lacks_sort_key(sort_by: Option<&str>, has_date: bool, has_weight: bool) -> (r: bool)
    ensures
        r == spec_lacks_sort_key(
            match sort_by {
                Some(k) => Some(k@),
                None => None,
            },
            has_date,
            has_weight,
        ),
{
    match sort_by {
        Some(k) => (str_eq(k, "date") && !has_date) || (str_eq(k, "weight") && !has_weight),
        None => false,
    }
}

} // verus!
