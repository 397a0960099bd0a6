use vstd::prelude::*;

verus! {

/// Whether `c` has the Unicode `White_Space` property, as `char::is_whitespace` decides it.
pub uninterp spec fn white_space(c: char) -> bool;

/// Relies on `char::is_whitespace`: the answer depends on the character alone.
#[verifier::external_body]
fn is_white_space(c: char) -> (r: bool)
    ensures
        r == white_space(c),
{
    c.is_whitespace()
}

/// Start of the `k`-th gap: the positions before span `k` (or after the last span
/// when `k == spans.len()`) that belong to no span.
pub open spec fn gap_start(spans: Seq<(usize, usize)>, k: int) -> int {
    if k == 0 {
        0
    } else {
        spans[k - 1].1 as int
    }
}

/// End (exclusive) of the `k`-th gap, in a sequence cut at `m`.
pub open spec fn gap_end(spans: Seq<(usize, usize)>, k: int, m: int) -> int {
    if k == spans.len() {
        m
    } else {
        spans[k].0 as int
    }
}

/// `spans` split the first `m` positions of `blank` (see `is_blank_split`).
pub open spec fn splits_prefix(blank: Seq<bool>, spans: Seq<(usize, usize)>, m: int) -> bool {
    &&& forall|k: int|
        0 <= k < spans.len() ==> (#[trigger] spans[k]).0 < spans[k].1 && spans[k].1 <= m
    &&& forall|k: int| 0 < k < spans.len() ==> spans[k - 1].1 < (#[trigger] spans[k]).0
    &&& forall|k: int, j: int|
        #![trigger spans[k], blank[j]]
        0 <= k < spans.len() && spans[k].0 <= j < spans[k].1 ==> !blank[j]
    &&& forall|k: int, j: int|
        #![trigger gap_start(spans, k), blank[j]]
        0 <= k <= spans.len() && gap_start(spans, k) <= j < gap_end(spans, k, m)
            ==> blank[j]
}

/// `spans` are the maximal runs of positions `j` with `!blank[j]`, given as half-open
/// ranges `[start, end)` in order. Every span is non-empty and holds no blank
/// position; every position outside the spans is blank.
pub open spec fn is_blank_split(blank: Seq<bool>, spans: Seq<(usize, usize)>) -> bool {
    splits_prefix(blank, spans, blank.len() as int)
}

/// Which characters of `text` are white space.
pub open spec fn blanks_of(text: Seq<char>) -> Seq<bool> {
    text.map_values(|c: char| white_space(c))
}

/// `spans` are the words of `text`: the maximal runs of characters that are not
/// white space, given as half-open character ranges `[start, end)` in text order.
/// Every span is non-empty and holds no white space; every character outside the
/// spans is white space, so the delimiters are dropped and nothing else is.
pub open spec fn is_word_split(text: Seq<char>, spans: Seq<(usize, usize)>) -> bool {
    is_blank_split(blanks_of(text), spans)
}

/// A blank position after a split prefix joins the trailing gap.
proof fn lemma_extend_gap(blank: Seq<bool>, spans: Seq<(usize, usize)>, m: int)
    requires
        splits_prefix(blank, spans, m),
        0 <= m < blank.len(),
        blank[m],
    ensures
        splits_prefix(blank, spans, m + 1),
{
    assert forall|k: int, j: int|
        #![trigger gap_start(spans, k), blank[j]]
        0 <= k <= spans.len() && gap_start(spans, k) <= j < gap_end(spans, k, m + 1) implies blank[j] by {
        if j < gap_end(spans, k, m) {
            assert(blank[j]);
        }
    }
}

/// A run of positions that are not blank, after a split prefix and its non-empty
/// gap, becomes the next span.
proof fn lemma_close_word(blank: Seq<bool>, spans: Seq<(usize, usize)>, s: usize, e: usize)
    requires
        splits_prefix(blank, spans, s as int),
        s < e <= blank.len(),
        spans.len() > 0 ==> spans.last().1 < s,
        forall|j: int| s <= j < e ==> !#[trigger] blank[j],
    ensures
        splits_prefix(blank, spans.push((s, e)), e as int),
{
    let sp = spans.push((s, e));
    assert forall|k: int, j: int|
        #![trigger sp[k], blank[j]]
        0 <= k < sp.len() && sp[k].0 <= j < sp[k].1 implies !blank[j] by {
        if k < spans.len() {
            assert(sp[k] == spans[k]);
        }
    }
    assert forall|k: int, j: int|
        #![trigger gap_start(sp, k), blank[j]]
        0 <= k <= sp.len() && gap_start(sp, k) <= j < gap_end(sp, k, e as int) implies blank[j] by {
        assert(k <= spans.len());
        if k < spans.len() {
            assert(sp[k] == spans[k]);
        }
        if k > 0 {
            assert(sp[k - 1] == spans[k - 1]);
        }
        assert(gap_start(spans, k) <= j < gap_end(spans, k, s as int));
    }
}

/// Two splits of one sequence of flags agree on their first `k` spans.
proof fn lemma_splits_agree_upto(
    blank: Seq<bool>,
    a: Seq<(usize, usize)>,
    b: Seq<(usize, usize)>,
    k: int,
)
    requires
        is_blank_split(blank, a),
        is_blank_split(blank, b),
        0 <= k <= a.len(),
        k <= b.len(),
    ensures
        forall|i: int| 0 <= i < k ==> a[i] == b[i],
    decreases k,
{
    if k > 0 {
        let i = k - 1;
        lemma_splits_agree_upto(blank, a, b, i);
        assert(gap_start(a, i) == gap_start(b, i));
        let (sa, ea) = (a[i].0 as int, a[i].1 as int);
        let (sb, eb) = (b[i].0 as int, b[i].1 as int);
        // Each span starts where its gap ends, at a position that is not blank.
        if sa < sb {
            assert(blank[sa] && gap_start(b, i) <= sa);
            assert(!blank[sa] && a[i].0 <= sa);
        }
        if sb < sa {
            assert(blank[sb] && gap_start(a, i) <= sb);
            assert(!blank[sb] && b[i].0 <= sb);
        }
        // Each span ends at a blank position or at the end.
        if ea < eb {
            assert(!blank[ea] && b[i].0 <= ea);
            assert(gap_start(a, i + 1) == ea && ea < gap_end(a, i + 1, blank.len() as int));
            assert(blank[ea]);
        }
        if eb < ea {
            assert(!blank[eb] && a[i].0 <= eb);
            assert(gap_start(b, i + 1) == eb && eb < gap_end(b, i + 1, blank.len() as int));
            assert(blank[eb]);
        }
    }
}

/// A sequence of flags has one split only: two splits of it are the same.
pub proof fn lemma_blank_split_unique(blank: Seq<bool>, a: Seq<(usize, usize)>, b: Seq<(usize, usize)>)
    requires
        is_blank_split(blank, a),
        is_blank_split(blank, b),
    ensures
        a == b,
{
    if a.len() < b.len() {
        let k = a.len() as int;
        lemma_splits_agree_upto(blank, a, b, k);
        assert(gap_start(a, k) == gap_start(b, k));
        let s = b[k].0 as int;
        assert(gap_start(b, k) <= s) by {
            if k > 0 {
                assert(b[k - 1].1 < b[k].0);
            }
        }
        assert(!blank[s] && b[k].0 <= s);
        assert(blank[s] && gap_start(a, k) <= s);
    } else if b.len() < a.len() {
        let k = b.len() as int;
        lemma_splits_agree_upto(blank, a, b, k);
        assert(gap_start(a, k) == gap_start(b, k));
        let s = a[k].0 as int;
        assert(gap_start(a, k) <= s) by {
            if k > 0 {
                assert(a[k - 1].1 < a[k].0);
            }
        }
        assert(!blank[s] && a[k].0 <= s);
        assert(blank[s] && gap_start(b, k) <= s);
    } else {
        lemma_splits_agree_upto(blank, a, b, a.len() as int);
        assert(a =~= b);
    }
}

/// The words of a text are determined by the text: two word splits of it are the
/// same, so pre-tokenizing a text twice gives the same spans.
pub proof fn lemma_word_split_unique(text: Seq<char>, a: Seq<(usize, usize)>, b: Seq<(usize, usize)>)
    requires
        is_word_split(text, a),
        is_word_split(text, b),
    ensures
        a == b,
{
    lemma_blank_split_unique(blanks_of(text), a, b);
}

/// The pre-tokenizer of the trainer's pipeline: it splits text on white space and
/// keeps no delimiter.
#[derive(Copy, Clone, Debug, PartialEq, Eq)]
pub struct BertPuncPreTokenizer;

/// The maximal runs of positions that are not blank, as ranges `[start, end)`.
pub fn word_spans(blank: &Vec<bool>) -> (spans: Vec<(usize, usize)>)
    ensures
        is_blank_split(blank@, spans@),
{
    let n = blank.len();
    let mut spans: Vec<(usize, usize)> = Vec::new();
    let mut in_word = false;
    let mut word_start: usize = 0;
    for i in 0..n
        invariant
            n == blank@.len(),
            in_word ==> word_start < i,
            forall|j: int| in_word && word_start <= j < i ==> !#[trigger] blank@[j],
            splits_prefix(blank@, spans@, if in_word { word_start as int } else { i as int }),
            spans@.len() > 0 ==> spans@.last().1 < (if in_word { word_start } else { i }),
    {
        if blank[i] {
            if in_word {
                proof {
                    lemma_close_word(blank@, spans@, word_start, i);
                }
                spans.push((word_start, i));
                in_word = false;
            }
            proof {
                lemma_extend_gap(blank@, spans@, i as int);
            }
        } else if !in_word {
            in_word = true;
            word_start = i;
        }
    }
    if in_word {
        proof {
            lemma_close_word(blank@, spans@, word_start, n);
        }
        spans.push((word_start, n));
    }
    spans
}

impl BertPuncPreTokenizer {
    /// The words of `text`, as character ranges `[start, end)`.
    pub fn pre_tokenize(&self, text: &str) -> (spans: Vec<(usize, usize)>)
        ensures
            is_word_split(text@, spans@),
    {
        let mut blank: Vec<bool> = Vec::new();
        for c in it: text.chars()
            invariant
                it.seq() == text@,
                blank@ == blanks_of(text@).take(it.index() as int),
        {
            proof {
                assert(c == text@[it.index() as int]);
            }
            blank.push(is_white_space(c));
            assert(blank@ == blanks_of(text@).take(it.index() + 1));
        }
        assert(blank@ == blanks_of(text@));
        word_spans(&blank)
    }
}

} // verus!
