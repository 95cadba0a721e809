//! Heading-anchored segmentation: an HTML document is split at its opening
//! heading tags, and fragments of five words or fewer are carried forward into
//! the fragment that follows them.

use vstd::prelude::*;
use vstd::string::*;
use vstd::utf8::{encode_utf8, encode_utf8_decode_utf8};
use crate::text::{byte_len, byte_length, byte_slice, count_words, on_char_boundary, slice_bytes, text_of, trim, trimmed,
    word_count,
};

verus! {

/// A chunk as contracts see it: the heading's text, then the chunk's HTML.
pub type ChunkView = (Seq<char>, Seq<char>);

/// The pattern of an opening heading tag of any level, in either case.
pub open spec fn heading_tag_pattern() -> Seq<char> {
    "(?i)<h[1-6].*?>"@
}

/// The selector of a heading element of any level.
pub open spec fn heading_selector() -> Seq<char> {
    "h1, h2, h3, h4, h5, h6"@
}

/// The byte spans (start, end) of the successive matches of the regular
/// expression `pattern` in `text`, from left to right; `None` where `pattern`
/// is not a regular expression.
pub uninterp spec fn regex_spans(pattern: Seq<char>, text: Seq<char>) -> Option<Seq<(int, int)>>;

/// The text content of `html` read as an HTML fragment, markup stripped.
pub uninterp spec fn html_text(html: Seq<char>) -> Seq<char>;

/// The text content of the first element that `selector` selects in the HTML
/// fragment `html`. First is meant in the order in which the parsed tree
/// holds its nodes, which is the order in which the parser made them. `None`
/// where there is no such element or `selector` is not a selector.
pub uninterp spec fn selected_text(html: Seq<char>, selector: Seq<char>) -> Option<Seq<char>>;

/// Spans as pairs of mathematical integers.
pub open spec fn span_offsets(spans: Seq<(usize, usize)>) -> Seq<(int, int)> {
    spans.map_values(|p: (usize, usize)| (p.0 as int, p.1 as int))
}

/// Spans that can cut `text`: each lies within it, from one character boundary
/// to another, and none begins before the one before it has ended.
pub open spec fn spans_fit(text: Seq<char>, spans: Seq<(int, int)>) -> bool {
    forall|i: int|
        0 <= i < spans.len() ==> {
            &&& 0 <= (#[trigger] spans[i]).0 <= spans[i].1 <= byte_len(text)
            &&& on_char_boundary(text, spans[i].0)
            &&& on_char_boundary(text, spans[i].1)
            &&& i > 0 ==> spans[i - 1].1 <= spans[i].0
        }
}

/// The views of a list of chunks.
pub open spec fn chunks_view(chunks: Seq<(String, String)>) -> Seq<ChunkView> {
    chunks.map_values(|c: (String, String)| (c.0@, c.1@))
}

/// Calls `regex::Regex::new` on `pattern` and `Regex::find_iter` on `text`,
/// and hands out each match's `start()` and `end()`. Trusted: the result is
/// `regex_spans`; as the crate documents, every offset is a character boundary
/// of `text`, a match's start is not after its end, and successive matches do
/// not overlap.
#[verifier::external_body]
fn match_spans(pattern: &str, text: &str) -> (r: Option<Vec<(usize, usize)>>)
    ensures
        match r {
            Some(v) => regex_spans(pattern@, text@) == Some(span_offsets(v@)) && spans_fit(
                text@,
                span_offsets(v@),
            ),
            None => regex_spans(pattern@, text@) is None,
        },
{
    match regex::Regex::new(pattern) {
        Ok(re) => Some(re.find_iter(text).map(|m| (m.start(), m.end())).collect()),
        Err(_) => None,
    }
}

/// Calls `scraper::Html::parse_fragment` and collects the text of the root
/// element. Trusted: the result is `html_text` of the input.
#[verifier::external_body]
fn fragment_text(html: &str) -> (r: String)
    ensures
        r@ == html_text(html@),
{
    scraper::Html::parse_fragment(html).root_element().text().collect::<String>()
}

/// Calls `scraper::Selector::parse`, `scraper::Html::parse_fragment` and
/// `Html::select`, and collects the text of the first element selected.
/// Trusted: the result is `selected_text` of the inputs.
#[verifier::external_body]
fn first_selected_text(html: &str, selector: &str) -> (r: Option<String>)
    ensures
        text_of(r) == selected_text(html@, selector@),
{
    match scraper::Selector::parse(selector) {
        Ok(sel) => scraper::Html::parse_fragment(html).select(&sel).next().map(
            |e| e.text().collect::<String>(),
        ),
        Err(_) => None,
    }
}

/// The spans of the opening heading tags of `html`.
pub open spec fn heading_spans(html: Seq<char>) -> Seq<(int, int)> {
    match regex_spans(heading_tag_pattern(), html) {
        Some(spans) => spans,
        None => Seq::empty(),
    }
}

/// The text of the first heading element that the parsed tree of `html`
/// holds, empty where it has none.
pub open spec fn first_heading_text(html: Seq<char>) -> Seq<char> {
    match selected_text(html, heading_selector()) {
        Some(t) => t,
        None => Seq::empty(),
    }
}

/// A fragment of at most five words of plain text is short.
pub open spec fn is_short(candidate: Seq<char>) -> bool {
    word_count(html_text(candidate)) <= 5
}

/// A trimmed fragment, behind the short fragment held back before it, if any,
/// and one space.
pub open spec fn joined(held: Option<Seq<char>>, fragment: Seq<char>) -> Seq<char> {
    match held {
        Some(h) => h + seq![' '] + trimmed(fragment),
        None => trimmed(fragment),
    }
}

/// A candidate with the heading it is filed under.
pub open spec fn chunk_of(candidate: Seq<char>) -> ChunkView {
    (first_heading_text(candidate), candidate)
}

/// The scanner's state between two heading tags.
pub struct Scan {
    /// The chunks emitted so far.
    pub chunks: Seq<ChunkView>,
    /// The heading tag that opens the fragment being read.
    pub current: Seq<char>,
    /// The byte offset up to which the input has been read.
    pub last_end: int,
    /// The short fragment held back, if any.
    pub held: Option<Seq<char>>,
}

/// A fragment that ends at a heading tag is settled: an empty one changes
/// nothing, a short one is held back (with what was held before it), any
/// other is emitted.
pub open spec fn settle(chunks: Seq<ChunkView>, held: Option<Seq<char>>, fragment: Seq<char>) -> (
    Seq<ChunkView>,
    Option<Seq<char>>,
) {
    if fragment.len() == 0 {
        (chunks, held)
    } else {
        let candidate = joined(held, fragment);
        if is_short(candidate) {
            (chunks, Some(candidate))
        } else {
            (chunks.push(chunk_of(candidate)), None)
        }
    }
}

/// The state after the first `n` heading tags of `html`.
pub open spec fn scan(html: Seq<char>, spans: Seq<(int, int)>, n: int) -> Scan
    decreases n,
{
    if n <= 0 {
        Scan { chunks: Seq::empty(), current: Seq::empty(), last_end: 0, held: None }
    } else {
        let before = scan(html, spans, n - 1);
        let span = spans[n - 1];
        let fragment = before.current + byte_slice(html, before.last_end, span.0);
        let settled = settle(before.chunks, before.held, fragment);
        Scan {
            chunks: settled.0,
            current: byte_slice(html, span.0, span.1),
            last_end: span.1,
            held: settled.1,
        }
    }
}

/// At the end of the input the tail is emitted, however short, with what was
/// held back; where there is no tail, what was held back is emitted as it is.
pub open spec fn flush(html: Seq<char>, state: Scan) -> Seq<ChunkView> {
    let tail = state.current + byte_slice(html, state.last_end, byte_len(html) as int);
    if tail.len() > 0 {
        state.chunks.push(chunk_of(joined(state.held, tail)))
    } else {
        match state.held {
            Some(h) => state.chunks.push(chunk_of(h)),
            None => state.chunks,
        }
    }
}

/// The chunks of `html` cut at `spans`.
pub open spec fn segmented(html: Seq<char>, spans: Seq<(int, int)>) -> Seq<ChunkView> {
    flush(html, scan(html, spans, spans.len() as int))
}

/// The chunks of `html`.
pub open spec fn chunks_of(html: Seq<char>) -> Seq<ChunkView> {
    segmented(html, heading_spans(html))
}

/// The text of the first heading element that the parsed tree of `html`
/// holds, empty where it has none.
pub fn extract_first_heading(html: &str) -> (r: String)
    ensures
        r@ == first_heading_text(html@),
{
    match first_selected_text(html, "h1, h2, h3, h4, h5, h6") {
        Some(t) => t,
        None => {
            let e = String::new();
            assert(e@ =~= Seq::<char>::empty());
            e
        },
    }
}

/// The number of words in the plain text of `html`.
pub fn plain_word_count(html: &str) -> (n: usize)
    ensures
        n == word_count(html_text(html@)),
{
    let t = fragment_text(html);
    count_words(t.as_str())
}

/// The byte spans of the opening heading tags of `html`, from left to right.
pub fn find_heading_tags(html: &str) -> (spans: Vec<(usize, usize)>)
    ensures
        span_offsets(spans@) == heading_spans(html@),
        spans_fit(html@, span_offsets(spans@)),
{
    match match_spans("(?i)<h[1-6].*?>", html) {
        Some(v) => v,
        None => {
            let v: Vec<(usize, usize)> = Vec::new();
            assert(span_offsets(v@) =~= Seq::<(int, int)>::empty());
            v
        },
    }
}

/// Trims `fragment` and puts it behind what was held back.
fn join_held(held: Option<String>, fragment: &str) -> (r: String)
    ensures
        r@ == joined(text_of(held), fragment@),
{
    let t = trim(fragment);
    match held {
        Some(h) => {
            proof {
                reveal_strlit(" ");
                assert(" "@ =~= seq![' ']);
            }
            h.concat(" ").concat(t.as_str())
        },
        None => t,
    }
}

/// Whether `spans` can cut `html`: decides `spans_fit`.
pub fn spans_valid(html: &str, spans: &Vec<(usize, usize)>) -> (ok: bool)
    ensures
        ok == spans_fit(html@, span_offsets(spans@)),
{
    let ghost offs = span_offsets(spans@);
    let len: usize = byte_length(html);
    let mut prev: usize = 0;
    let mut i: usize = 0;
    while i < spans.len()
        invariant
            offs == span_offsets(spans@),
            len == byte_len(html@),
            i <= spans.len(),
            i > 0 ==> prev == spans@[i - 1].1,
            i == 0 ==> prev == 0,
            spans_fit(html@, offs.take(i as int)),
        decreases spans.len() - i,
    {
        let (a, b) = spans[i];
        assert(offs[i as int] == (a as int, b as int));
        if !(prev <= a && a <= b && b <= len && html.is_char_boundary(a) && html.is_char_boundary(
            b,
        )) {
            assert(!spans_fit(html@, offs)) by {
                if spans_fit(html@, offs) {
                    assert(offs[i as int].0 <= offs[i as int].1);
                    if i > 0 {
                        assert(offs[i - 1] == (spans@[i - 1].0 as int, spans@[i - 1].1 as int));
                    }
                }
            }
            return false;
        }
        proof {
            let next = offs.take(i + 1);
            assert forall|k: int| 0 <= k < next.len() implies {
                &&& 0 <= (#[trigger] next[k]).0 <= next[k].1 <= byte_len(html@)
                &&& on_char_boundary(html@, next[k].0)
                &&& on_char_boundary(html@, next[k].1)
                &&& k > 0 ==> next[k - 1].1 <= next[k].0
            } by {
                if k < i {
                    assert(next[k] == offs.take(i as int)[k]);
                    if k > 0 {
                        assert(next[k - 1] == offs.take(i as int)[k - 1]);
                    }
                } else if k > 0 {
                    assert(next[k - 1] == (spans@[i - 1].0 as int, spans@[i - 1].1 as int));
                }
            }
        }
        prev = b;
        i += 1;
    }
    assert(offs.take(i as int) =~= offs);
    true
}

/// Cuts `html` at `spans`, which are the spans of its opening heading tags,
/// and gathers the chunks.
pub fn segment_at(html: &str, spans: &Vec<(usize, usize)>) -> (chunks: Vec<(String, String)>)
    requires
        spans_fit(html@, span_offsets(spans@)),
    ensures
        chunks_view(chunks@) == segmented(html@, span_offsets(spans@)),
{
    let ghost offs = span_offsets(spans@);
    let mut chunks: Vec<(String, String)> = Vec::new();
    let mut current = String::new();
    let mut last_end: usize = 0;
    let mut held: Option<String> = None;
    let mut i: usize = 0;
    proof {
        assert(chunks_view(chunks@) =~= Seq::<ChunkView>::empty());
        assert(current@ =~= Seq::<char>::empty());
        vstd::utf8::encode_utf8_valid_utf8(html@);
        vstd::utf8::is_char_boundary_start_end_of_seq(vstd::utf8::encode_utf8(html@));
    }
    while i < spans.len()
        invariant
            offs == span_offsets(spans@),
            spans_fit(html@, offs),
            i <= spans.len(),
            last_end <= byte_len(html@),
            on_char_boundary(html@, last_end as int),
            on_char_boundary(html@, byte_len(html@) as int),
            i > 0 ==> last_end == offs[i - 1].1,
            i == 0 ==> last_end == 0,
            scan(html@, offs, i as int) == (Scan {
                chunks: chunks_view(chunks@),
                current: current@,
                last_end: last_end as int,
                held: text_of(held),
            }),
        decreases spans.len() - i,
    {
        let (start, end) = spans[i];
        assert(offs[i as int] == (start as int, end as int));
        current.append(slice_bytes(html, last_end, start));
        if !current.as_str().is_empty() {
            let candidate = join_held(held, current.as_str());
            if plain_word_count(candidate.as_str()) > 5 {
                let heading = extract_first_heading(candidate.as_str());
                let ghost before = chunks@;
                chunks.push((heading, candidate));
                assert(chunks_view(chunks@) =~= chunks_view(before).push(
                    chunk_of(candidate@),
                ));
                held = None;
            } else {
                held = Some(candidate);
            }
        }
        current = slice_bytes(html, start, end).to_owned();
        last_end = end;
        i += 1;
    }
    current.append(slice_bytes(html, last_end, byte_length(html)));
    if !current.as_str().is_empty() {
        let candidate = join_held(held, current.as_str());
        let heading = extract_first_heading(candidate.as_str());
        let ghost before = chunks@;
        chunks.push((heading, candidate));
        assert(chunks_view(chunks@) =~= chunks_view(before).push(chunk_of(candidate@)));
    } else {
        match held {
            Some(h) => {
                let heading = extract_first_heading(h.as_str());
                let ghost before = chunks@;
                chunks.push((heading, h));
                assert(chunks_view(chunks@) =~= chunks_view(before).push(chunk_of(h@)));
            },
            None => {},
        }
    }
    chunks
}

/// Splits an HTML document into chunks, each with the text of its heading.
pub fn chunk_html(html: &str) -> (chunks: Vec<(String, String)>)
    ensures
        chunks_view(chunks@) == chunks_of(html@),
{
    let spans = find_heading_tags(html);
    segment_at(html, &spans)
}

/// Up to any heading tag, every chunk emitted is filed under the first
/// heading in it and has more than five words, and there are no more chunks
/// than heading tags passed.
pub proof fn lemma_scan_chunks(html: Seq<char>, spans: Seq<(int, int)>, n: int)
    ensures
        scan(html, spans, n).chunks.len() <= if n < 0 {
            0
        } else {
            n
        },
        forall|i: int|
            0 <= i < scan(html, spans, n).chunks.len() ==> {
                let c = #[trigger] scan(html, spans, n).chunks[i];
                c == chunk_of(c.1) && !is_short(c.1)
            },
    decreases n,
{
    if n > 0 {
        lemma_scan_chunks(html, spans, n - 1);
    }
}

/// Of the chunks of a document, each is filed under the first heading in it;
/// each but the last has more than five words; and there is at most one more
/// chunk than there are heading tags.
pub proof fn lemma_segmented_chunks(html: Seq<char>, spans: Seq<(int, int)>)
    ensures
        segmented(html, spans).len() <= spans.len() + 1,
        forall|i: int|
            0 <= i < segmented(html, spans).len() ==> (#[trigger] segmented(html, spans)[i]).0
                == first_heading_text(segmented(html, spans)[i].1),
        forall|i: int|
            0 <= i < segmented(html, spans).len() - 1 ==> !is_short(
                (#[trigger] segmented(html, spans)[i]).1,
            ),
{
    lemma_scan_chunks(html, spans, spans.len() as int);
}

/// A document without heading tags is one chunk, all of it, trimmed; an empty
/// document has no chunks.
pub proof fn lemma_no_heading_tags(html: Seq<char>)
    ensures
        segmented(html, Seq::empty()) == if html.len() > 0 {
            seq![chunk_of(trimmed(html))]
        } else {
            Seq::empty()
        },
{
    let bytes = encode_utf8(html);
    assert(bytes.subrange(0, bytes.len() as int) =~= bytes);
    encode_utf8_decode_utf8(html);
    let start = scan(html, Seq::empty(), 0);
    assert(start.current + byte_slice(html, 0, byte_len(html) as int) =~= html);
    assert(Seq::<ChunkView>::empty().push(chunk_of(trimmed(html))) =~= seq![
        chunk_of(trimmed(html)),
    ]);
}

} // verus!
