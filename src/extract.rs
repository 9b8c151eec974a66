use crate::error::Fault;
use unicode_normalization::UnicodeNormalization;
use vstd::prelude::*;
use vstd::utf8::{decode_utf8, valid_utf8};

verus! {

/// The document formats the engine reads.
#[derive(Debug, Clone, Copy, PartialEq, Eq, Structural)]
pub enum DocFormat {
    Txt,
    Md,
    Pdf,
    Docx,
}

/// `i` is the position of the last '.' in `name`.
pub open spec fn is_last_dot(name: Seq<char>, i: int) -> bool {
    &&& 0 <= i < name.len()
    &&& name[i] == '.'
    &&& forall|j: int| i < j < name.len() ==> name[j] != '.'
}

/// What follows the last '.' of a file name, if it has one.
pub open spec fn extension_of(name: Seq<char>) -> Option<Seq<char>> {
    if exists|i: int| is_last_dot(name, i) {
        let i = choose|i: int| is_last_dot(name, i);
        Some(name.subrange(i + 1, name.len() as int))
    } else {
        None
    }
}

/// `s` spells a word, ignoring ASCII case: at each position it holds the
/// lowercase letter or the matching uppercase one.
pub open spec fn eq_ignore_case(s: Seq<char>, lower: Seq<char>, upper: Seq<char>) -> bool {
    &&& s.len() == lower.len()
    &&& s.len() == upper.len()
    &&& forall|i: int| 0 <= i < s.len() ==> s[i] == lower[i] || s[i] == upper[i]
}

/// The format named by an extension, if it is one the engine reads.
pub open spec fn format_of_extension(e: Seq<char>) -> Option<DocFormat> {
    if eq_ignore_case(e, seq!['t', 'x', 't'], seq!['T', 'X', 'T']) {
        Some(DocFormat::Txt)
    } else if eq_ignore_case(e, seq!['m', 'd'], seq!['M', 'D']) {
        Some(DocFormat::Md)
    } else if eq_ignore_case(e, seq!['p', 'd', 'f'], seq!['P', 'D', 'F']) {
        Some(DocFormat::Pdf)
    } else if eq_ignore_case(e, seq!['d', 'o', 'c', 'x'], seq!['D', 'O', 'C', 'X']) {
        Some(DocFormat::Docx)
    } else {
        None
    }
}

/// The format of a file, from the extension of its name.
pub open spec fn format_of(name: Seq<char>) -> Option<DocFormat> {
    match extension_of(name) {
        Some(e) => format_of_extension(e),
        None => None,
    }
}

pub(crate) fn chars_of(s: &str) -> (r: Vec<char>)
    ensures
        r@ == s@,
{
    let n = s.unicode_len();
    let mut r: Vec<char> = Vec::new();
    let mut i: usize = 0;
    while i < n
        invariant
            n == s@.len(),
            i <= n,
            r@ == s@.subrange(0, i as int),
        decreases n - i,
    {
        r.push(s.get_char(i));
        i = i + 1;
    }
    assert(r@ =~= s@);
    r
}

fn tail_matches(cs: &Vec<char>, start: usize, lower: &[char], upper: &[char]) -> (r: bool)
    requires
        start <= cs@.len(),
    ensures
        r == eq_ignore_case(cs@.subrange(start as int, cs@.len() as int), lower@, upper@),
{
    let n = cs.len();
    if n - start != lower.len() || n - start != upper.len() {
        return false;
    }
    let mut i: usize = 0;
    while i < lower.len()
        invariant
            n == cs@.len(),
            start + lower@.len() == n,
            lower@.len() == upper@.len(),
            i <= lower@.len(),
            forall|k: int| 0 <= k < i ==> cs@[start + k] == lower@[k] || cs@[start + k] == upper@[k],
        decreases lower@.len() - i,
    {
        let c = cs[start + i];
        if c != lower[i] && c != upper[i] {
            assert(cs@.subrange(start as int, n as int)[i as int] == c);
            return false;
        }
        i = i + 1;
    }
    true
}

/// The format of a file from its name: the extension after the last '.',
/// compared without regard to ASCII case against txt, md, pdf and docx.
pub fn detect_format(file_name: &str) -> (r: Option<DocFormat>)
    ensures
        r == format_of(file_name@),
{
    let cs = chars_of(file_name);
    let mut i: usize = cs.len();
    while i > 0 && cs[i - 1] != '.'
        invariant
            i <= cs@.len(),
            forall|j: int| i <= j < cs@.len() ==> cs@[j] != '.',
        decreases i,
    {
        i = i - 1;
    }
    if i == 0 {
        assert(!exists|k: int| is_last_dot(cs@, k));
        return None;
    }
    let dot = i - 1;
    assert(is_last_dot(cs@, dot as int));
    proof {
        let k = choose|k: int| is_last_dot(cs@, k);
        assert(k == dot as int);
    }
    if tail_matches(&cs, i, &['t', 'x', 't'], &['T', 'X', 'T']) {
        Some(DocFormat::Txt)
    } else if tail_matches(&cs, i, &['m', 'd'], &['M', 'D']) {
        Some(DocFormat::Md)
    } else if tail_matches(&cs, i, &['p', 'd', 'f'], &['P', 'D', 'F']) {
        Some(DocFormat::Pdf)
    } else if tail_matches(&cs, i, &['d', 'o', 'c', 'x'], &['D', 'O', 'C', 'X']) {
        Some(DocFormat::Docx)
    } else {
        None
    }
}

/// The text in Unicode Normalization Form C.
pub uninterp spec fn nfc_of(s: Seq<char>) -> Seq<char>;

/// Relies on unicode_normalization's `UnicodeNormalization::nfc`: the text in
/// Normalization Form C, which depends on the text alone.
#[verifier::external_body]
fn normalize_nfc(s: &str) -> (r: String)
    ensures
        r@ == nfc_of(s@),
{
    s.nfc().collect()
}

/// The text a page gave; a page that gave none adds nothing.
pub open spec fn page_text(p: Option<Seq<char>>) -> Seq<char> {
    match p {
        Some(t) => t,
        None => Seq::empty(),
    }
}

/// The pages' texts joined in page order.
pub open spec fn join_pages(p: Seq<Option<Seq<char>>>) -> Seq<char>
    decreases p.len(),
{
    if p.len() == 0 {
        Seq::empty()
    } else {
        join_pages(p.drop_last()) + page_text(p.last())
    }
}

pub open spec fn page_view(p: Option<String>) -> Option<Seq<char>> {
    match p {
        Some(t) => Some(t@),
        None => None,
    }
}

/// The per-page results as values.
pub open spec fn pages_view(pages: Seq<Option<String>>) -> Seq<Option<Seq<char>>> {
    pages.map_values(|p: Option<String>| page_view(p))
}

/// The text of a PDF document from what each of its pages gave: joined in
/// page order and normalized; when no page gave any text, extraction failed.
pub open spec fn pdf_extraction(pages: Seq<Option<Seq<char>>>) -> Result<Seq<char>, Fault> {
    if join_pages(pages).len() > 0 {
        Ok(nfc_of(join_pages(pages)))
    } else {
        Err(Fault::ExtractionFailed)
    }
}

/// The text a document of the given format yields, or the fault that stops
/// it. `pages` is what reading the bytes as a PDF gave, page by page; it
/// counts only for PDF documents.
pub open spec fn extraction_of(bytes: Seq<u8>, format: DocFormat, pages: Seq<Option<Seq<char>>>) -> Result<Seq<char>, Fault> {
    match format {
        DocFormat::Txt | DocFormat::Md => if valid_utf8(bytes) {
            Ok(nfc_of(decode_utf8(bytes)))
        } else {
            Err(Fault::ExtractionFailed)
        },
        DocFormat::Pdf => pdf_extraction(pages),
        DocFormat::Docx => Err(Fault::ExtractionFailed),
    }
}

/// Relies on std::str::from_utf8: it accepts exactly the valid UTF-8
/// sequences and decodes them.
#[verifier::external_body]
fn decode_utf8_text(b: &[u8]) -> (r: Option<String>)
    ensures
        r is Some <==> valid_utf8(b@),
        r matches Some(s) ==> s@ == decode_utf8(b@),
{
    std::str::from_utf8(b).ok().map(|s| s.to_string())
}

/// Joins the pages' texts in page order; a page that gave no text adds nothing.
pub fn join_page_texts(pages: &Vec<Option<String>>) -> (r: String)
    ensures
        r@ == join_pages(pages_view(pages@)),
{
    let ghost texts = pages_view(pages@);
    let mut out = String::new();
    let mut i: usize = 0;
    while i < pages.len()
        invariant
            i <= pages@.len(),
            texts == pages_view(pages@),
            out@ == join_pages(texts.subrange(0, i as int)),
        decreases pages@.len() - i,
    {
        assert(texts.subrange(0, i + 1).drop_last() =~= texts.subrange(0, i as int));
        match &pages[i] {
            Some(t) => out.append(t.as_str()),
            None => {},
        }
        assert(out@ == join_pages(texts.subrange(0, i + 1)));
        i = i + 1;
    }
    assert(texts.subrange(0, i as int) =~= texts);
    out
}

/// The text of a PDF document from the text each page gave, in page order
/// (`None` for a page that could not be read). The pages are joined and
/// normalized; when no page gave any text the document fails with
/// `ExtractionFailed`, as does a document that could not be loaded and so
/// has no pages.
pub fn extract_text_from_pdf(pages: &Vec<Option<String>>) -> (r: Result<String, Fault>)
    ensures
        match r {
            Ok(t) => pdf_extraction(pages_view(pages@)) == Ok::<Seq<char>, Fault>(t@),
            Err(e) => pdf_extraction(pages_view(pages@)) == Err::<Seq<char>, Fault>(e),
        },
{
    let joined = join_page_texts(pages);
    if joined.as_str().is_empty() {
        Err(Fault::ExtractionFailed)
    } else {
        Ok(normalize_nfc(joined.as_str()))
    }
}

/// The text of a document of a known format, normalized. Plain text and
/// markdown are decoded as UTF-8; a PDF document's text comes from
/// `pdf_pages`, what each of its pages gave; no reader for Word documents is
/// linked, so they fail with `ExtractionFailed`.
pub fn extract_text(bytes: &[u8], format: DocFormat, pdf_pages: &Vec<Option<String>>) -> (r: Result<String, Fault>)
    ensures
        match r {
            Ok(t) => extraction_of(bytes@, format, pages_view(pdf_pages@)) == Ok::<Seq<char>, Fault>(t@),
            Err(e) => extraction_of(bytes@, format, pages_view(pdf_pages@)) == Err::<Seq<char>, Fault>(e),
        },
{
    match format {
        DocFormat::Txt | DocFormat::Md => match decode_utf8_text(bytes) {
            Some(t) => Ok(normalize_nfc(t.as_str())),
            None => Err(Fault::ExtractionFailed),
        },
        DocFormat::Pdf => extract_text_from_pdf(pdf_pages),
        DocFormat::Docx => Err(Fault::ExtractionFailed),
    }
}

/// The text of an uploaded file, its format read from its name. A name whose
/// extension is not one of txt, md, pdf or docx fails with
/// `UnsupportedFormat` before the bytes are looked at.
pub fn extract_document_text(file_name: &str, bytes: &[u8], pdf_pages: &Vec<Option<String>>) -> (r: Result<String, Fault>)
    ensures
        match format_of(file_name@) {
            None => r == Err::<String, Fault>(Fault::UnsupportedFormat),
            Some(f) => match r {
                Ok(t) => extraction_of(bytes@, f, pages_view(pdf_pages@)) == Ok::<Seq<char>, Fault>(t@),
                Err(e) => extraction_of(bytes@, f, pages_view(pdf_pages@)) == Err::<Seq<char>, Fault>(e),
            },
        },
{
    match detect_format(file_name) {
        None => Err(Fault::UnsupportedFormat),
        Some(f) => extract_text(bytes, f, pdf_pages),
    }
}

} // verus!
