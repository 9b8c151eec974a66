use crate::error::Fault;
use crate::extract::chars_of;
use crate::json::{json_str_at, json_string_at};
use crate::model::ExtractedMetaData;
use vstd::prelude::*;

verus! {

/// The system instruction sent with every completion request: it fixes the
/// shape of the reply that `parse_metadata_reply` reads.
pub const SYSTEM_INSTRUCTION: &'static str =
    "You extract structured metadata from documents. Reply with exactly these four lines and nothing else:\nGenre: <genre>\nTitle: <title>\nDifficulty: <Beginner, Intermediate or Advanced>\nSummary: <a short summary with its keywords>";

/// What precedes the document text in the user message.
pub const USER_PROMPT_HEAD: &'static str =
    "From the following text, extract the genre, the title, the difficulty level and a summary with its keywords.\n\nText:\n";

/// The user message for a document: the fixed request, then the text.
pub fn metadata_prompt(text: &str) -> (r: String)
    ensures
        r@ == USER_PROMPT_HEAD@ + text@,
{
    let mut r = USER_PROMPT_HEAD.to_owned();
    r.append(text);
    r
}

pub open spec fn is_space(c: char) -> bool {
    c == ' ' || c == '\t' || c == '\r'
}

pub open spec fn trim_start(s: Seq<char>) -> Seq<char>
    decreases s.len(),
{
    if s.len() > 0 && is_space(s[0]) {
        trim_start(s.drop_first())
    } else {
        s
    }
}

pub open spec fn trim_end(s: Seq<char>) -> Seq<char>
    decreases s.len(),
{
    if s.len() > 0 && is_space(s.last()) {
        trim_end(s.drop_last())
    } else {
        s
    }
}

/// `s` without the spaces, tabs and carriage returns at either end.
pub open spec fn trim(s: Seq<char>) -> Seq<char> {
    trim_end(trim_start(s))
}

/// The lines of `s`, split at each '\n'; there is always at least one.
pub open spec fn split_lines(s: Seq<char>) -> Seq<Seq<char>>
    decreases s.len(),
{
    if s.len() == 0 {
        seq![Seq::empty()]
    } else {
        let prev = split_lines(s.drop_last());
        if s.last() == '\n' {
            prev.push(Seq::empty())
        } else {
            prev.update(prev.len() - 1, prev.last().push(s.last()))
        }
    }
}

/// The value on a line of the form `<label>:<value>`, trimmed.
pub open spec fn labelled_value(line: Seq<char>, label: Seq<char>) -> Option<Seq<char>> {
    if line.len() > label.len() && line.subrange(0, label.len() as int) == label
        && line[label.len() as int] == ':' {
        Some(trim(line.subrange(label.len() + 1int, line.len() as int)))
    } else {
        None
    }
}

/// The value of the first line that carries the label.
pub open spec fn first_value(lines: Seq<Seq<char>>, label: Seq<char>) -> Option<Seq<char>>
    decreases lines.len(),
{
    if lines.len() == 0 {
        None
    } else {
        match first_value(lines.drop_last(), label) {
            Some(v) => Some(v),
            None => labelled_value(lines.last(), label),
        }
    }
}

/// The value given for a label in a reply.
pub open spec fn reply_field(reply: Seq<char>, label: Seq<char>) -> Option<Seq<char>> {
    first_value(split_lines(reply), label)
}

/// The reply gives a non-empty value for the label.
pub open spec fn field_present(reply: Seq<char>, label: Seq<char>) -> bool {
    reply_field(reply, label) matches Some(v) && v.len() > 0
}

pub open spec fn genre_label() -> Seq<char> {
    seq!['G', 'e', 'n', 'r', 'e']
}

pub open spec fn title_label() -> Seq<char> {
    seq!['T', 'i', 't', 'l', 'e']
}

pub open spec fn difficulty_label() -> Seq<char> {
    seq!['D', 'i', 'f', 'f', 'i', 'c', 'u', 'l', 't', 'y']
}

pub open spec fn summary_label() -> Seq<char> {
    seq!['S', 'u', 'm', 'm', 'a', 'r', 'y']
}

/// A reply is complete when it gives all four required fields, none empty.
pub open spec fn reply_complete(reply: Seq<char>) -> bool {
    &&& field_present(reply, genre_label())
    &&& field_present(reply, title_label())
    &&& field_present(reply, difficulty_label())
    &&& field_present(reply, summary_label())
}

pub open spec fn opt_view(o: Option<String>) -> Option<Seq<char>> {
    match o {
        Some(s) => Some(s@),
        None => None,
    }
}

proof fn lemma_split_lines_nonempty(s: Seq<char>)
    ensures
        split_lines(s).len() >= 1,
    decreases s.len(),
{
    if s.len() > 0 {
        lemma_split_lines_nonempty(s.drop_last());
    }
}

/// The bounds of `trim(cs[a..b])` within `cs`.
fn trimmed_range(cs: &Vec<char>, a: usize, b: usize) -> (r: (usize, usize))
    requires
        a <= b <= cs@.len(),
    ensures
        a <= r.0 <= r.1 <= b,
        cs@.subrange(r.0 as int, r.1 as int) == trim(cs@.subrange(a as int, b as int)),
{
    let mut lo = a;
    while lo < b && (cs[lo] == ' ' || cs[lo] == '\t' || cs[lo] == '\r')
        invariant
            a <= lo <= b <= cs@.len(),
            trim_start(cs@.subrange(a as int, b as int)) == trim_start(cs@.subrange(lo as int, b as int)),
        decreases b - lo,
    {
        assert(cs@.subrange(lo as int, b as int).drop_first() =~= cs@.subrange(lo + 1, b as int));
        lo = lo + 1;
    }
    assert(trim_start(cs@.subrange(lo as int, b as int)) == cs@.subrange(lo as int, b as int));
    let mut hi = b;
    while hi > lo && (cs[hi - 1] == ' ' || cs[hi - 1] == '\t' || cs[hi - 1] == '\r')
        invariant
            a <= lo <= hi <= b <= cs@.len(),
            trim_end(cs@.subrange(lo as int, b as int)) == trim_end(cs@.subrange(lo as int, hi as int)),
        decreases hi - lo,
    {
        assert(cs@.subrange(lo as int, hi as int).drop_last() =~= cs@.subrange(lo as int, hi - 1));
        hi = hi - 1;
    }
    assert(trim_end(cs@.subrange(lo as int, hi as int)) == cs@.subrange(lo as int, hi as int));
    (lo, hi)
}

/// The value of the line `cs[start..end]` when it carries the label.
fn line_value(text: &str, cs: &Vec<char>, start: usize, end: usize, label: &[char]) -> (r: Option<String>)
    requires
        cs@ == text@,
        start <= end <= cs@.len(),
    ensures
        opt_view(r) == labelled_value(cs@.subrange(start as int, end as int), label@),
{
    let ghost line = cs@.subrange(start as int, end as int);
    let k = label.len();
    if end - start <= k {
        return None;
    }
    let mut j: usize = 0;
    while j < k
        invariant
            k == label@.len(),
            start + k < end <= cs@.len(),
            line == cs@.subrange(start as int, end as int),
            j <= k,
            forall|i: int| 0 <= i < j ==> line[i] == label@[i],
        decreases k - j,
    {
        if cs[start + j] != label[j] {
            assert(line.subrange(0, k as int)[j as int] != label@[j as int]);
            return None;
        }
        j = j + 1;
    }
    assert(line.subrange(0, k as int) =~= label@);
    if cs[start + k] != ':' {
        return None;
    }
    let (lo, hi) = trimmed_range(cs, start + k + 1, end);
    assert(line.subrange(k + 1int, line.len() as int) =~= cs@.subrange(start + k + 1, end as int));
    Some(text.substring_char(lo, hi).to_owned())
}

/// Keeps a value already found; otherwise takes the one this line gives.
fn take_field(
    text: &str,
    cs: &Vec<char>,
    start: usize,
    end: usize,
    label: &[char],
    slot: &mut Option<String>,
)
    requires
        cs@ == text@,
        start <= end <= cs@.len(),
    ensures
        opt_view(*final(slot)) == match opt_view(*old(slot)) {
            Some(v) => Some(v),
            None => labelled_value(cs@.subrange(start as int, end as int), label@),
        },
{
    if slot.is_none() {
        *slot = line_value(text, cs, start, end, label);
    }
}

fn nonempty_field(o: Option<String>) -> (r: Option<String>)
    ensures
        r matches Some(v) ==> o == Some(v) && v@.len() > 0,
        r is None ==> !(opt_view(o) matches Some(v) && v.len() > 0),
{
    match o {
        Some(v) => if v.as_str().is_empty() {
            None
        } else {
            Some(v)
        },
        None => None,
    }
}

/// `r` is what reading `reply` must give: the record when the reply is
/// complete, with each field as the reply gives it, and otherwise
/// `MalformedMetadataResponse`.
pub open spec fn parsed_as(reply: Seq<char>, r: Result<ExtractedMetaData, Fault>) -> bool {
    &&& (r is Ok <==> reply_complete(reply))
    &&& (r matches Ok(m) ==> {
        &&& m.wf()
        &&& reply_field(reply, genre_label()) == Some(m.genre@)
        &&& reply_field(reply, title_label()) == Some(m.title@)
        &&& reply_field(reply, difficulty_label()) == Some(m.difficulty@)
        &&& reply_field(reply, summary_label()) == Some(m.summary@)
    })
    &&& (r matches Err(e) ==> e == Fault::MalformedMetadataResponse)
}

/// Reads the completion service's reply. Each required field is taken from
/// the first line of the form `<Label>: <value>`, its value trimmed. The
/// record is returned only when all four are there and none is empty;
/// otherwise the reply is malformed.
pub fn parse_metadata_reply(reply: &str) -> (r: Result<ExtractedMetaData, Fault>)
    ensures
        parsed_as(reply@, r),
{
    let cs = chars_of(reply);
    let n = cs.len();
    let genre_l: &[char] = &['G', 'e', 'n', 'r', 'e'];
    let title_l: &[char] = &['T', 'i', 't', 'l', 'e'];
    let difficulty_l: &[char] = &['D', 'i', 'f', 'f', 'i', 'c', 'u', 'l', 't', 'y'];
    let summary_l: &[char] = &['S', 'u', 'm', 'm', 'a', 'r', 'y'];
    let mut genre: Option<String> = None;
    let mut title: Option<String> = None;
    let mut difficulty: Option<String> = None;
    let mut summary: Option<String> = None;
    let mut start: usize = 0;
    let mut i: usize = 0;
    proof {
        assert(cs@.subrange(0, 0) =~= Seq::<char>::empty());
    }
    while i < n
        invariant
            n == cs@.len(),
            cs@ == reply@,
            genre_l@ == genre_label(),
            title_l@ == title_label(),
            difficulty_l@ == difficulty_label(),
            summary_l@ == summary_label(),
            start <= i <= n,
            split_lines(cs@.subrange(0, i as int)).len() >= 1,
            split_lines(cs@.subrange(0, i as int)).last() == cs@.subrange(start as int, i as int),
            opt_view(genre) == first_value(split_lines(cs@.subrange(0, i as int)).drop_last(), genre_label()),
            opt_view(title) == first_value(split_lines(cs@.subrange(0, i as int)).drop_last(), title_label()),
            opt_view(difficulty) == first_value(split_lines(cs@.subrange(0, i as int)).drop_last(), difficulty_label()),
            opt_view(summary) == first_value(split_lines(cs@.subrange(0, i as int)).drop_last(), summary_label()),
        decreases n - i,
    {
        let ghost prev = split_lines(cs@.subrange(0, i as int));
        assert(cs@.subrange(0, i + 1).drop_last() =~= cs@.subrange(0, i as int));
        assert(cs@.subrange(0, i + 1).last() == cs@[i as int]);
        if cs[i] == '\n' {
            take_field(reply, &cs, start, i, genre_l, &mut genre);
            take_field(reply, &cs, start, i, title_l, &mut title);
            take_field(reply, &cs, start, i, difficulty_l, &mut difficulty);
            take_field(reply, &cs, start, i, summary_l, &mut summary);
            assert(split_lines(cs@.subrange(0, i + 1)).drop_last() =~= prev);
            assert(cs@.subrange(i + 1, i + 1) =~= Seq::<char>::empty());
            start = i + 1;
        } else {
            assert(split_lines(cs@.subrange(0, i + 1)).drop_last() =~= prev.drop_last());
            assert(cs@.subrange(start as int, i as int).push(cs@[i as int]) =~= cs@.subrange(start as int, i + 1));
        }
        i = i + 1;
    }
    take_field(reply, &cs, start, n, genre_l, &mut genre);
    take_field(reply, &cs, start, n, title_l, &mut title);
    take_field(reply, &cs, start, n, difficulty_l, &mut difficulty);
    take_field(reply, &cs, start, n, summary_l, &mut summary);
    assert(cs@.subrange(0, n as int) =~= reply@);
    let genre = nonempty_field(genre);
    let title = nonempty_field(title);
    let difficulty = nonempty_field(difficulty);
    let summary = nonempty_field(summary);
    match (genre, title, difficulty, summary) {
        (Some(genre), Some(title), Some(difficulty), Some(summary)) => Ok(
            ExtractedMetaData { title, difficulty, genre, summary },
        ),
        _ => Err(Fault::MalformedMetadataResponse),
    }
}

/// Where a chat completion response holds the text of its first choice.
pub const REPLY_CONTENT_POINTER: &'static str = "/choices/0/message/content";

/// Reads the reply text found in a completion response: a response without
/// one is malformed.
pub fn metadata_from_content(found: Option<String>) -> (r: Result<ExtractedMetaData, Fault>)
    ensures
        match found {
            Some(c) => parsed_as(c@, r),
            None => r == Err::<ExtractedMetaData, Fault>(Fault::MalformedMetadataResponse),
        },
{
    match found {
        Some(c) => parse_metadata_reply(c.as_str()),
        None => Err(Fault::MalformedMetadataResponse),
    }
}

/// The metadata in a completion service's JSON response body.
pub fn metadata_from_response(body: &str) -> (r: Result<ExtractedMetaData, Fault>)
    ensures
        match json_str_at(body@, REPLY_CONTENT_POINTER@) {
            Some(c) => parsed_as(c, r),
            None => r == Err::<ExtractedMetaData, Fault>(Fault::MalformedMetadataResponse),
        },
{
    metadata_from_content(json_string_at(body, REPLY_CONTENT_POINTER))
}

} // verus!
