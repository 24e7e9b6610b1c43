//! Low-level helpers for cleaning up and truncating text safely.
use unicode_segmentation::UnicodeSegmentation;
use vstd::prelude::*;
use vstd::seq_lib::lemma_flatten_concat;
use vstd::std_specs::iter::IteratorSpec;

verus! {

broadcast use vstd::string::axiom_spec_iter, vstd::string::next_postcondition;

/// The extended grapheme clusters (user-perceived characters) of a text, in order.
pub uninterp spec fn graphemes_of(s: Seq<char>) -> Seq<Seq<char>>;

/// The views of a sequence of strings.
pub open spec fn views_of(v: Seq<String>) -> Seq<Seq<char>> {
    v.map_values(|g: String| g@)
}

/// The text made of the first `n` clusters of `s` (all of them when `s` has fewer).
pub open spec fn first_clusters(s: Seq<char>, n: nat) -> Seq<char> {
    let gs = graphemes_of(s);
    if n >= gs.len() {
        gs.flatten()
    } else {
        gs.take(n as int).flatten()
    }
}

/// Relies on `UnicodeSegmentation::graphemes` (extended clusters): it walks the
/// text from start to end, each cluster a non-empty slice that starts where the
/// previous one ended, so the clusters joined give the text back.
#[verifier::external_body]
fn graphemes(s: &str) -> (r: Vec<String>)
    ensures
        views_of(r@) == graphemes_of(s@),
        views_of(r@).flatten() == s@,
        forall|i: int| 0 <= i < r@.len() ==> (#[trigger] r@[i])@.len() > 0,
{
    s.graphemes(true).map(String::from).collect()
}

proof fn lemma_flatten_take_step(gs: Seq<Seq<char>>, i: int)
    requires
        0 <= i < gs.len(),
    ensures
        gs.take(i + 1).flatten() == gs.take(i).flatten() + gs[i],
{
    assert(gs.take(i + 1) =~= gs.take(i).push(gs[i]));
    gs.take(i).lemma_flatten_push(gs[i]);
}

proof fn lemma_flatten_take_prefix(gs: Seq<Seq<char>>, n: int)
    requires
        0 <= n <= gs.len(),
    ensures
        gs.flatten() == gs.take(n).flatten() + gs.skip(n).flatten(),
{
    assert(gs =~= gs.take(n) + gs.skip(n));
    lemma_flatten_concat(gs.take(n), gs.skip(n));
}

/// Cuts `s` after the first `max_chars` of `clusters`, a segmentation of `s`
/// (its pieces joined give `s` back); with no more pieces than that, `s` comes
/// back whole.
pub fn cut_after_clusters<'a>(s: &'a str, clusters: &Vec<String>, max_chars: usize) -> (r: &'a str)
    requires
        views_of(clusters@).flatten() == s@,
    ensures
        r@ == (if max_chars >= clusters@.len() {
            s@
        } else {
            views_of(clusters@).take(max_chars as int).flatten()
        }),
        r@.is_prefix_of(s@),
        (forall|j: int| 0 <= j < clusters@.len() ==> (#[trigger] clusters@[j])@.len() > 0) && s@.len()
            > 0 && max_chars > 0 ==> r@.len() > 0,
{
    if max_chars >= clusters.len() {
        return s;
    }
    let total = s.unicode_len();
    let ghost gv = views_of(clusters@);
    let mut k: usize = 0;
    let mut i: usize = 0;
    while i < max_chars
        invariant
            max_chars < clusters@.len(),
            total == s@.len(),
            gv == views_of(clusters@),
            gv.flatten() == s@,
            0 <= i <= max_chars,
            k == gv.take(i as int).flatten().len(),
        decreases max_chars - i,
    {
        proof {
            lemma_flatten_take_step(gv, i as int);
            lemma_flatten_take_prefix(gv, i as int + 1);
            assert(gv[i as int] == clusters@[i as int]@);
        }
        let n = clusters[i].as_str().unicode_len();
        k = k + n;
        i = i + 1;
    }
    proof {
        lemma_flatten_take_prefix(gv, max_chars as int);
    }
    let r = s.substring_char(0, k);
    proof {
        assert(r@ =~= gv.take(max_chars as int).flatten());
        if max_chars > 0 {
            lemma_flatten_take_step(gv, 0);
            assert(gv.take(0) =~= Seq::<Seq<char>>::empty());
            assert(gv[0] == clusters@[0]@);
        }
    }
    r
}

/// Cuts `s` after its first `max_chars` grapheme clusters; a text with no more
/// clusters than that comes back whole.
pub fn truncate(s: &str, max_chars: usize) -> (r: &str)
    ensures
        graphemes_of(s@).flatten() == s@,
        r@ == first_clusters(s@, max_chars as nat),
        r@.is_prefix_of(s@),
        max_chars >= graphemes_of(s@).len() ==> r@ == s@,
        s@.len() > 0 && max_chars > 0 ==> r@.len() > 0,
{
    let gs = graphemes(s);
    cut_after_clusters(s, &gs, max_chars)
}

/// Whether `s` holds a NUL character.
pub fn has_nul(s: &str) -> (r: bool)
    ensures
        r == s@.contains('\0'),
{
    let n = s.unicode_len();
    let mut it = s.chars();
    let mut i: usize = 0;
    while i < n
        invariant
            n == s@.len(),
            0 <= i <= n,
            it.obeys_prophetic_iter_laws(),
            it.remaining() == s@.skip(i as int),
            forall|j: int| 0 <= j < i ==> s@[j] != '\0',
        decreases n - i,
    {
        let c = it.next();
        proof {
            assert(s@.skip(i as int)[0] == s@[i as int]);
        }
        if c == Some('\0') {
            return true;
        }
        i = i + 1;
        proof {
            assert(s@.skip(i - 1 as int).drop_first() =~= s@.skip(i as int));
        }
    }
    false
}

proof fn lemma_filter_keeps_all(v: Seq<char>)
    requires
        forall|j: int| 0 <= j < v.len() ==> v[j] != '\0',
    ensures
        v.filter(|c: char| c != '\0') == v,
    decreases v.len(),
{
    reveal(Seq::filter);
    if v.len() > 0 {
        lemma_filter_keeps_all(v.drop_last());
        assert(v.drop_last().push(v.last()) =~= v);
    }
}

proof fn lemma_filter_run(s: Seq<char>, start: int, i: int)
    requires
        0 <= start <= i <= s.len(),
        forall|j: int| start <= j < i ==> s[j] != '\0',
    ensures
        s.take(i).filter(|c: char| c != '\0') == s.take(start).filter(|c: char| c != '\0')
            + s.subrange(start, i),
{
    let run = s.subrange(start, i);
    assert(s.take(i) =~= s.take(start) + run);
    Seq::filter_distributes_over_add(s.take(start), run, |c: char| c != '\0');
    lemma_filter_keeps_all(run);
}

proof fn lemma_filter_drops_nul(s: Seq<char>, i: int)
    requires
        0 <= i < s.len(),
        s[i] == '\0',
    ensures
        s.take(i + 1).filter(|c: char| c != '\0') == s.take(i).filter(|c: char| c != '\0'),
{
    reveal(Seq::filter);
    assert(s.take(i + 1).drop_last() =~= s.take(i));
}

/// Removes every NUL character from `s` (some databases refuse them in text);
/// a text without one is handed back as it is.
pub fn remove_null_utf8(s: String) -> (r: String)
    ensures
        r@ == s@.filter(|c: char| c != '\0'),
        !s@.contains('\0') ==> r == s,
{
    if !has_nul(s.as_str()) {
        proof {
            lemma_filter_keeps_all(s@);
        }
        return s;
    }
    let n = s.as_str().unicode_len();
    let mut it = s.as_str().chars();
    let mut out = String::new();
    let mut start: usize = 0;
    let mut i: usize = 0;
    while i < n
        invariant
            n == s@.len(),
            0 <= start <= i <= n,
            it.obeys_prophetic_iter_laws(),
            it.remaining() == s@.skip(i as int),
            out@ == s@.take(start as int).filter(|c: char| c != '\0'),
            forall|j: int| start <= j < i ==> s@[j] != '\0',
        decreases n - i,
    {
        let c = it.next();
        proof {
            assert(s@.skip(i as int)[0] == s@[i as int]);
            assert(s@.skip(i as int).drop_first() =~= s@.skip(i as int + 1));
        }
        if c == Some('\0') {
            let run = s.as_str().substring_char(start, i);
            proof {
                lemma_filter_run(s@, start as int, i as int);
                lemma_filter_drops_nul(s@, i as int);
            }
            out.append(run);
            start = i + 1;
        }
        i = i + 1;
    }
    let run = s.as_str().substring_char(start, n);
    proof {
        lemma_filter_run(s@, start as int, n as int);
        assert(s@.take(n as int) =~= s@);
    }
    out.append(run);
    out
}

} // verus!
