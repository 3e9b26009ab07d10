//! Context-bias terms sent along with a transcription request.
use vstd::prelude::*;
use crate::text::{
    lemma_trim_end_shape, lemma_trim_start_shape, lemma_trimmed_at, lemma_trimmed_ends, trim_end,
    trim_start, trim_str, trimmed,
};

verus! {

/// The pieces of `s` between commas, as `str::split(',')` yields them
/// (there is always at least one, possibly empty).
pub open spec fn split_commas(s: Seq<char>) -> Seq<Seq<char>>
    decreases s.len(),
{
    if s.len() == 0 {
        seq![Seq::<char>::empty()]
    } else {
        let p = split_commas(s.drop_last());
        if s.last() == ',' {
            p.push(Seq::<char>::empty())
        } else {
            p.update(p.len() - 1, p.last().push(s.last()))
        }
    }
}

/// `t` with every space replaced by an underscore.
pub open spec fn spaces_to_underscores(t: Seq<char>) -> Seq<char> {
    t.map_values(|c: char| if c == ' ' { '_' } else { c })
}

/// The term that a piece contributes: trimmed, spaces made underscores.
pub open spec fn piece_term(p: Seq<char>) -> Seq<char> {
    spaces_to_underscores(trimmed(p))
}

/// Adds the term of one piece to `acc`, unless it is empty or already there.
pub open spec fn add_piece(acc: Seq<Seq<char>>, p: Seq<char>) -> Seq<Seq<char>> {
    if trimmed(p).len() == 0 || acc.contains(piece_term(p)) {
        acc
    } else {
        acc.push(piece_term(p))
    }
}

/// The terms of a list of pieces, first occurrence first.
pub open spec fn collect_terms(pieces: Seq<Seq<char>>) -> Seq<Seq<char>>
    decreases pieces.len(),
{
    if pieces.len() == 0 {
        Seq::<Seq<char>>::empty()
    } else {
        add_piece(collect_terms(pieces.drop_last()), pieces.last())
    }
}

/// The context-bias terms of a comma-separated list.
pub open spec fn context_bias_terms(s: Seq<char>) -> Seq<Seq<char>> {
    collect_terms(split_commas(s))
}

/// No piece of a comma split holds a comma, and there is at least one piece.
pub proof fn lemma_split_commas_pieces(s: Seq<char>)
    ensures
        split_commas(s).len() >= 1,
        forall|j: int|
            0 <= j < split_commas(s).len() ==> !(#[trigger] split_commas(s)[j]).contains(','),
    decreases s.len(),
{
    if s.len() > 0 {
        lemma_split_commas_pieces(s.drop_last());
        let p = split_commas(s.drop_last());
        if s.last() == ',' {
            let q = p.push(Seq::<char>::empty());
            assert forall|j: int| 0 <= j < q.len() implies !(#[trigger] q[j]).contains(',') by {
                if j < p.len() {
                    assert(q[j] == p[j]);
                }
            }
        } else {
            let last = p.last().push(s.last());
            let q = p.update(p.len() - 1, last);
            assert(!p[p.len() - 1].contains(','));
            assert(!last.contains(',')) by {
                if last.contains(',') {
                    let k = choose|k: int| 0 <= k < last.len() && last[k] == ',';
                    if k < p.last().len() {
                        assert(p.last()[k] == ',');
                    }
                }
            }
            assert forall|j: int| 0 <= j < q.len() implies !(#[trigger] q[j]).contains(',') by {
                if j < p.len() - 1 {
                    assert(q[j] == p[j]);
                }
            }
        }
    }
}

/// Every character of `trimmed(s)` is a character of `s`.
pub proof fn lemma_trimmed_chars(s: Seq<char>)
    ensures
        forall|c: char| trimmed(s).contains(c) ==> s.contains(c),
{
    lemma_trim_start_shape(s);
    let t = trim_start(s);
    lemma_trim_end_shape(t);
    let r = trimmed(s);
    assert forall|c: char| r.contains(c) implies s.contains(c) by {
        let k = choose|k: int| 0 <= k < r.len() && r[k] == c;
        assert(r[k] == t[k]);
        assert(t[k] == s[s.len() - t.len() + k]);
    }
}

/// The term of a piece without commas that is not blank is not empty and holds
/// neither a space nor a comma.
pub proof fn lemma_piece_term_clean(p: Seq<char>)
    requires
        !p.contains(','),
        trimmed(p).len() > 0,
    ensures
        piece_term(p).len() > 0,
        !piece_term(p).contains(' '),
        !piece_term(p).contains(','),
{
    lemma_trimmed_chars(p);
    let t = trimmed(p);
    let r = piece_term(p);
    assert(r.len() == t.len());
    assert forall|k: int| 0 <= k < r.len() implies #[trigger] r[k] != ' ' && r[k] != ',' by {
        assert(t.contains(t[k]));
    }
}

/// What `collect_terms` gives: no term twice, each term the term of some
/// non-blank piece, and the term of every non-blank piece present.
pub proof fn lemma_collect_terms(ps: Seq<Seq<char>>)
    ensures
        collect_terms(ps).no_duplicates(),
        forall|k: int|
            0 <= k < collect_terms(ps).len() ==> exists|j: int|
                0 <= j < ps.len() && trimmed(ps[j]).len() > 0 && #[trigger] collect_terms(ps)[k]
                    == piece_term(ps[j]),
        forall|j: int|
            0 <= j < ps.len() && trimmed(ps[j]).len() > 0 ==> collect_terms(ps).contains(
                piece_term(#[trigger] ps[j]),
            ),
    decreases ps.len(),
{
    if ps.len() > 0 {
        let rest = ps.drop_last();
        lemma_collect_terms(rest);
        let acc = collect_terms(rest);
        let p = ps.last();
        let r = collect_terms(ps);
        assert(r == add_piece(acc, p));
        assert forall|k: int| 0 <= k < r.len() implies exists|j: int|
            0 <= j < ps.len() && trimmed(ps[j]).len() > 0 && #[trigger] r[k] == piece_term(
                ps[j],
            ) by {
            if k < acc.len() {
                assert(r[k] == acc[k]);
                let j = choose|j: int|
                    0 <= j < rest.len() && trimmed(rest[j]).len() > 0 && acc[k] == piece_term(
                        rest[j],
                    );
                assert(rest[j] == ps[j]);
            } else {
                assert(r[k] == piece_term(ps[ps.len() - 1]));
            }
        }
        assert forall|j: int| 0 <= j < ps.len() && trimmed(ps[j]).len() > 0 implies r.contains(
            piece_term(#[trigger] ps[j]),
        ) by {
            if j < rest.len() {
                assert(rest[j] == ps[j]);
                assert(acc.contains(piece_term(rest[j])));
                let k = choose|k: int| 0 <= k < acc.len() && acc[k] == piece_term(rest[j]);
                assert(r[k] == acc[k]);
            } else {
                if !acc.contains(piece_term(p)) {
                    assert(r[acc.len() as int] == piece_term(p));
                }
            }
        }
        if !(trimmed(p).len() == 0 || acc.contains(piece_term(p))) {
            assert forall|a: int, b: int| 0 <= a < r.len() && 0 <= b < r.len() && a != b implies r[a]
                != r[b] by {
                if a < acc.len() && b < acc.len() {
                } else if a < acc.len() {
                    assert(r[a] == acc[a]);
                } else if b < acc.len() {
                    assert(r[b] == acc[b]);
                }
            }
        }
    }
}

/// No context-bias term appears twice.
pub proof fn law_context_bias_terms_distinct(s: Seq<char>)
    ensures
        context_bias_terms(s).no_duplicates(),
{
    lemma_collect_terms(split_commas(s));
}

/// Every context-bias term is non-empty and holds neither a space nor a comma.
pub proof fn law_context_bias_terms_clean(s: Seq<char>)
    ensures
        forall|k: int|
            0 <= k < context_bias_terms(s).len() ==> {
                let t = #[trigger] context_bias_terms(s)[k];
                t.len() > 0 && !t.contains(' ') && !t.contains(',')
            },
{
    let ps = split_commas(s);
    lemma_collect_terms(ps);
    lemma_split_commas_pieces(s);
    assert forall|k: int| 0 <= k < context_bias_terms(s).len() implies {
        let t = #[trigger] context_bias_terms(s)[k];
        t.len() > 0 && !t.contains(' ') && !t.contains(',')
    } by {
        let j = choose|j: int|
            0 <= j < ps.len() && trimmed(ps[j]).len() > 0 && collect_terms(ps)[k] == piece_term(
                ps[j],
            );
        lemma_piece_term_clean(ps[j]);
    }
}

/// The terms are exactly those of the non-blank comma-separated pieces.
pub proof fn law_context_bias_terms_cover(s: Seq<char>)
    ensures
        forall|j: int|
            0 <= j < split_commas(s).len() && trimmed(split_commas(s)[j]).len() > 0
                ==> context_bias_terms(s).contains(piece_term(#[trigger] split_commas(s)[j])),
        forall|k: int|
            0 <= k < context_bias_terms(s).len() ==> exists|j: int|
                0 <= j < split_commas(s).len() && trimmed(split_commas(s)[j]).len() > 0
                    && #[trigger] context_bias_terms(s)[k] == piece_term(split_commas(s)[j]),
{
    let ps = split_commas(s);
    lemma_collect_terms(ps);
    assert forall|k: int| 0 <= k < context_bias_terms(s).len() implies exists|j: int|
        0 <= j < ps.len() && trimmed(ps[j]).len() > 0 && #[trigger] context_bias_terms(s)[k]
            == piece_term(ps[j]) by {
        assert(context_bias_terms(s)[k] == collect_terms(ps)[k]);
    }
}

/// The terms joined by commas, as `[String]::join(",")` gives them.
pub open spec fn join_commas(ts: Seq<Seq<char>>) -> Seq<char>
    decreases ts.len(),
{
    if ts.len() == 0 {
        Seq::<char>::empty()
    } else if ts.len() == 1 {
        ts[0]
    } else {
        join_commas(ts.drop_last()).push(',') + ts.last()
    }
}

/// Appending text without commas to a list extends its last piece.
proof fn lemma_split_commas_extend(x: Seq<char>, y: Seq<char>)
    requires
        !y.contains(','),
    ensures
        split_commas(x + y) == split_commas(x).update(
            split_commas(x).len() - 1,
            split_commas(x).last() + y,
        ),
    decreases y.len(),
{
    lemma_split_commas_pieces(x);
    let p = split_commas(x);
    if y.len() == 0 {
        assert(x + y =~= x);
        assert(p.last() + y =~= p.last());
        assert(p.update(p.len() - 1, p.last()) =~= p);
    } else {
        let y0 = y.drop_last();
        assert(!y0.contains(',')) by {
            if y0.contains(',') {
                let k = choose|k: int| 0 <= k < y0.len() && y0[k] == ',';
                assert(y[k] == ',');
            }
        }
        lemma_split_commas_extend(x, y0);
        assert((x + y).drop_last() =~= x + y0);
        assert((x + y).last() == y.last());
        assert(y.last() != ',') by {
            assert(y[y.len() - 1] == y.last());
        }
        let q = split_commas(x + y0);
        assert(q.len() == p.len());
        assert(q.last() == p.last() + y0);
        assert((p.last() + y0).push(y.last()) =~= p.last() + y);
        assert(q.update(q.len() - 1, q.last().push(y.last())) =~= p.update(
            p.len() - 1,
            p.last() + y,
        ));
    }
}

/// Splitting terms joined by commas gives the terms back, when none of them
/// holds a comma.
proof fn lemma_split_join(ts: Seq<Seq<char>>)
    requires
        ts.len() >= 1,
        forall|k: int| 0 <= k < ts.len() ==> !(#[trigger] ts[k]).contains(','),
    ensures
        split_commas(join_commas(ts)) == ts,
    decreases ts.len(),
{
    let e = Seq::<char>::empty();
    if ts.len() == 1 {
        lemma_split_commas_extend(e, ts[0]);
        assert(e + ts[0] =~= ts[0]);
        assert(split_commas(e) == seq![e]);
        assert(seq![e].update(0, e + ts[0]) =~= ts);
    } else {
        let rest = ts.drop_last();
        assert forall|k: int| 0 <= k < rest.len() implies !(#[trigger] rest[k]).contains(',') by {
            assert(rest[k] == ts[k]);
        }
        lemma_split_join(rest);
        let x = join_commas(rest).push(',');
        assert(x.drop_last() =~= join_commas(rest));
        assert(split_commas(x) == rest.push(e));
        assert(!ts.last().contains(',')) by {
            assert(ts[ts.len() - 1] == ts.last());
        }
        lemma_split_commas_extend(x, ts.last());
        assert(e + ts.last() =~= ts.last());
        assert(rest.push(e).update(rest.len() as int, e + ts.last()) =~= ts);
    }
}

/// The term of a non-blank piece is its own term.
proof fn lemma_piece_term_fixed(p: Seq<char>)
    requires
        trimmed(p).len() > 0,
    ensures
        trimmed(piece_term(p)) == piece_term(p),
        piece_term(piece_term(p)) == piece_term(p),
        trimmed(piece_term(p)).len() > 0,
{
    let t = trimmed(p);
    let r = piece_term(p);
    lemma_trimmed_ends(p);
    assert(r.len() == t.len());
    assert(r[0] == t[0]);
    assert(r[r.len() - 1] == t[t.len() - 1]);
    lemma_trimmed_at(r, 0, r.len() as int);
    assert(r.subrange(0, r.len() as int) =~= r);
    assert(spaces_to_underscores(r) =~= r);
}

/// Collecting terms that are distinct, non-blank and their own terms gives
/// them back unchanged.
proof fn lemma_collect_fixed(ts: Seq<Seq<char>>)
    requires
        ts.no_duplicates(),
        forall|k: int|
            0 <= k < ts.len() ==> trimmed(#[trigger] ts[k]).len() > 0 && piece_term(ts[k])
                == ts[k],
    ensures
        collect_terms(ts) == ts,
    decreases ts.len(),
{
    if ts.len() > 0 {
        let rest = ts.drop_last();
        assert forall|k: int| 0 <= k < rest.len() implies trimmed(#[trigger] rest[k]).len() > 0
            && piece_term(rest[k]) == rest[k] by {
            assert(rest[k] == ts[k]);
        }
        assert(rest.no_duplicates()) by {
            assert forall|a: int, b: int| 0 <= a < rest.len() && 0 <= b < rest.len() && a != b
                implies rest[a] != rest[b] by {
                assert(rest[a] == ts[a] && rest[b] == ts[b]);
            }
        }
        lemma_collect_fixed(rest);
        let last = ts.last();
        assert(trimmed(ts[ts.len() - 1]).len() > 0);
        assert(!rest.contains(last)) by {
            if rest.contains(last) {
                let k = choose|k: int| 0 <= k < rest.len() && rest[k] == last;
                assert(ts[k] == ts[ts.len() - 1]);
            }
        }
        assert(rest.push(last) =~= ts);
    }
}

/// Parsing the terms again, joined by commas, gives the same terms.
pub proof fn law_context_bias_reparse(s: Seq<char>)
    ensures
        context_bias_terms(join_commas(context_bias_terms(s))) == context_bias_terms(s),
{
    let ts = context_bias_terms(s);
    let ps = split_commas(s);
    law_context_bias_terms_distinct(s);
    law_context_bias_terms_clean(s);
    law_context_bias_terms_cover(s);
    assert forall|k: int| 0 <= k < ts.len() implies trimmed(#[trigger] ts[k]).len() > 0
        && piece_term(ts[k]) == ts[k] by {
        assert(context_bias_terms(s)[k] == ts[k]);
        let j = choose|j: int|
            0 <= j < ps.len() && trimmed(ps[j]).len() > 0 && ts[k] == piece_term(ps[j]);
        lemma_piece_term_fixed(ps[j]);
    }
    if ts.len() == 0 {
        let e = Seq::<char>::empty();
        assert(join_commas(ts) == e);
        assert(split_commas(e) == seq![e]);
        assert(seq![e].drop_last() =~= Seq::<Seq<char>>::empty());
        assert(trim_start(e) == e);
        assert(trim_end(e) == e);
        assert(trimmed(seq![e].last()).len() == 0);
        assert(collect_terms(seq![e].drop_last()) == Seq::<Seq<char>>::empty());
        assert(collect_terms(seq![e]) == Seq::<Seq<char>>::empty());
        assert(ts =~= Seq::<Seq<char>>::empty());
    } else {
        assert forall|k: int| 0 <= k < ts.len() implies !(#[trigger] ts[k]).contains(',') by {
            assert(context_bias_terms(s)[k] == ts[k]);
        }
        lemma_split_join(ts);
        lemma_collect_fixed(ts);
    }
}

/// `t` with spaces replaced by underscores.
fn underscore_spaces(t: &str) -> (r: String)
    ensures
        r@ == spaces_to_underscores(t@),
{
    let n = t.unicode_len();
    let mut r = String::new();
    let mut j: usize = 0;
    while j < n
        invariant
            n == t@.len(),
            j <= n,
            r@ == spaces_to_underscores(t@.take(j as int)),
        decreases n - j,
    {
        let c = t.get_char(j);
        if c == ' ' {
            r.append("_");
            proof {
                reveal_strlit("_");
            }
        } else {
            r.append(t.substring_char(j, j + 1));
        }
        proof {
            assert(t@.take(j + 1) =~= t@.take(j as int).push(t@[j as int]));
            assert(r@ =~= spaces_to_underscores(t@.take(j + 1)));
        }
        j = j + 1;
    }
    proof {
        assert(t@.take(n as int) =~= t@);
    }
    r
}

/// Whether `terms` already holds `term`.
fn holds_term(terms: &Vec<String>, term: &String) -> (r: bool)
    ensures
        r == terms.deep_view().contains(term@),
{
    let mut k: usize = 0;
    while k < terms.len()
        invariant
            k <= terms.len(),
            forall|i: int| 0 <= i < k ==> terms.deep_view()[i] != term@,
        decreases terms.len() - k,
    {
        if terms[k] == *term {
            proof {
                assert(terms.deep_view()[k as int] == term@);
            }
            return true;
        }
        k = k + 1;
    }
    false
}

/// Adds the term of `piece` to `terms` as `add_piece` says.
fn add_piece_term(terms: &mut Vec<String>, piece: &str)
    ensures
        final(terms).deep_view() == add_piece(old(terms).deep_view(), piece@),
{
    let t = trim_str(piece);
    if t.as_str().unicode_len() == 0 {
        return;
    }
    let normalized = underscore_spaces(t.as_str());
    if !holds_term(terms, &normalized) {
        let ghost before = terms.deep_view();
        terms.push(normalized);
        proof {
            assert(terms.deep_view() =~= before.push(piece_term(piece@)));
        }
    }
}

/// Splits a comma-separated list of context-bias terms: each piece is trimmed,
/// empty pieces are skipped, spaces become underscores, and a term already
/// seen is not repeated.
pub fn parse_context_bias(context_bias: &str) -> (terms: Vec<String>)
    ensures
        terms.deep_view() == context_bias_terms(context_bias@),
{
    let s = context_bias;
    let n = s.unicode_len();
    let mut terms: Vec<String> = Vec::new();
    let mut start: usize = 0;
    let mut i: usize = 0;
    let ghost mut done: Seq<Seq<char>> = Seq::empty();
    proof {
        assert(s@.take(0) =~= Seq::<char>::empty());
        assert(s@.subrange(0, 0) =~= Seq::<char>::empty());
        assert(split_commas(s@.take(0)) =~= done.push(s@.subrange(0, 0)));
        assert(terms.deep_view() =~= collect_terms(done));
    }
    while i < n
        invariant
            n == s@.len(),
            start <= i <= n,
            split_commas(s@.take(i as int)) == done.push(s@.subrange(start as int, i as int)),
            terms.deep_view() == collect_terms(done),
        decreases n - i,
    {
        let c = s.get_char(i);
        proof {
            assert(s@.take(i + 1).drop_last() =~= s@.take(i as int));
            assert(s@.take(i + 1).last() == c);
        }
        if c == ',' {
            let piece = s.substring_char(start, i);
            add_piece_term(&mut terms, piece);
            proof {
                let old_done = done;
                done = done.push(piece@);
                assert(done.drop_last() =~= old_done);
                assert(s@.subrange(i + 1, i + 1) =~= Seq::<char>::empty());
            }
            start = i + 1;
        } else {
            proof {
                assert(s@.subrange(start as int, i + 1) =~= s@.subrange(
                    start as int,
                    i as int,
                ).push(c));
                assert(done.push(s@.subrange(start as int, i as int)).update(
                    done.len() as int,
                    s@.subrange(start as int, i + 1),
                ) =~= done.push(s@.subrange(start as int, i + 1)));
            }
        }
        i = i + 1;
    }
    let last_piece = s.substring_char(start, n);
    add_piece_term(&mut terms, last_piece);
    proof {
        let all = done.push(last_piece@);
        assert(s@.take(n as int) =~= s@);
        assert(all.drop_last() =~= done);
    }
    terms
}

} // verus!
