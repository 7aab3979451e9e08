//! Character-level string operations with their specifications.
use vstd::prelude::*;

verus! {

/// Appends one character to a string (`String::push`).
#[verifier::external_body]
fn push_char(s: &mut String, c: char)
    ensures
        final(s)@ == old(s)@.push(c),
{
    s.push(c);
}

/// The characters of `s`, in order.
pub fn chars_of(s: &str) -> (v: Vec<char>)
    ensures
        v@ == s@,
{
    let mut v: Vec<char> = Vec::new();
    for c in it: s.chars()
        invariant
            v@ == it.seq().take(it.index() as int),
            it.seq() == s@,
    {
        v.push(c);
    }
    v
}

/// The string made of the characters of `v`, in order.
pub fn string_of(v: &Vec<char>) -> (s: String)
    ensures
        s@ == v@,
{
    let mut s = String::new();
    let mut i: usize = 0;
    while i < v.len()
        invariant
            i <= v.len(),
            s@ == v@.take(i as int),
        decreases v.len() - i,
    {
        push_char(&mut s, v[i]);
        assert(v@.take(i + 1) == v@.take(i as int).push(v@[i as int]));
        i += 1;
    }
    assert(v@.take(v.len() as int) == v@);
    s
}


/// `pat` occurs in `s` at index `i`.
pub open spec fn occurs_at(s: Seq<char>, i: int, pat: Seq<char>) -> bool {
    0 <= i && i + pat.len() <= s.len() && s.subrange(i, i + pat.len()) == pat
}

/// `s` begins with `prefix`.
pub open spec fn starts_with(s: Seq<char>, prefix: Seq<char>) -> bool {
    occurs_at(s, 0, prefix)
}

/// `pat` occurs somewhere in `s`.
pub open spec fn contains(s: Seq<char>, pat: Seq<char>) -> bool {
    exists|i: int| occurs_at(s, i, pat)
}

/// Every non-overlapping occurrence of `pat` in `s`, taken from the left,
/// replaced by `rep` (as `str::replace` does for a non-empty pattern).
pub open spec fn replace_all(s: Seq<char>, pat: Seq<char>, rep: Seq<char>) -> Seq<char>
    recommends
        pat.len() > 0,
    decreases s.len(),
{
    if pat.len() == 0 || s.len() < pat.len() {
        s
    } else if s.take(pat.len() as int) == pat {
        rep + replace_all(s.skip(pat.len() as int), pat, rep)
    } else {
        seq![s[0]] + replace_all(s.skip(1), pat, rep)
    }
}

/// Whether `pat` occurs in `v` at index `i`.
pub fn matches_at(v: &Vec<char>, i: usize, pat: &Vec<char>) -> (r: bool)
    ensures
        r == occurs_at(v@, i as int, pat@),
{
    if i > v.len() || pat.len() > v.len() - i {
        return false;
    }
    let mut j: usize = 0;
    while j < pat.len()
        invariant
            i + pat.len() <= v.len(),
            j <= pat.len(),
            forall|k: int| 0 <= k < j ==> v@[i + k] == pat@[k],
        decreases pat.len() - j,
    {
        if v[i + j] != pat[j] {
            assert(v@.subrange(i as int, i + pat.len())[j as int] != pat@[j as int]);
            return false;
        }
        j += 1;
    }
    assert(v@.subrange(i as int, i + pat.len()) =~= pat@);
    true
}

/// Whether `s` begins with `prefix`.
pub fn starts_with_exec(s: &str, prefix: &str) -> (r: bool)
    ensures
        r == starts_with(s@, prefix@),
{
    let v = chars_of(s);
    let p = chars_of(prefix);
    matches_at(&v, 0, &p)
}

/// Whether `pat` occurs in `s`.
pub fn contains_exec(s: &str, pat: &str) -> (r: bool)
    ensures
        r == contains(s@, pat@),
{
    let v = chars_of(s);
    let p = chars_of(pat);
    let mut i: usize = 0;
    while i < v.len()
        invariant
            v@ == s@,
            p@ == pat@,
            i <= v.len(),
            forall|k: int| 0 <= k < i ==> !occurs_at(s@, k, pat@),
        decreases v.len() - i,
    {
        if matches_at(&v, i, &p) {
            return true;
        }
        i += 1;
    }
    matches_at(&v, i, &p)
}

proof fn lemma_replace_step(s: Seq<char>, i: int, pat: Seq<char>, rep: Seq<char>)
    requires
        pat.len() > 0,
        0 <= i,
        i + pat.len() <= s.len(),
    ensures
        occurs_at(s, i, pat) ==> replace_all(s.skip(i), pat, rep) == rep + replace_all(
            s.skip(i + pat.len()),
            pat,
            rep,
        ),
        !occurs_at(s, i, pat) ==> replace_all(s.skip(i), pat, rep) == seq![s[i]] + replace_all(
            s.skip(i + 1),
            pat,
            rep,
        ),
{
    let t = s.skip(i);
    assert(t.take(pat.len() as int) == s.subrange(i, i + pat.len()));
    assert(t.skip(pat.len() as int) == s.skip(i + pat.len()));
    assert(t.skip(1) == s.skip(i + 1));
}

/// Appends the characters of `w` to `out`.
pub fn push_chars(out: &mut Vec<char>, w: &Vec<char>)
    ensures
        final(out)@ == old(out)@ + w@,
{
    let mut k: usize = 0;
    while k < w.len()
        invariant
            k <= w.len(),
            out@ == old(out)@ + w@.take(k as int),
        decreases w.len() - k,
    {
        out.push(w[k]);
        assert(w@.take(k + 1) == w@.take(k as int).push(w@[k as int]));
        k += 1;
    }
    assert(w@.take(w.len() as int) == w@);
}

/// Appends the characters of `s` to `out`.
pub fn push_str(out: &mut Vec<char>, s: &str)
    ensures
        final(out)@ == old(out)@ + s@,
{
    let w = chars_of(s);
    push_chars(out, &w);
}

/// `v` with every occurrence of the non-empty `p` replaced by `q`.
pub fn replace_all_chars(v: &Vec<char>, p: &Vec<char>, q: &Vec<char>) -> (r: Vec<char>)
    requires
        p@.len() > 0,
    ensures
        r@ == replace_all(v@, p@, q@),
{
    let mut out: Vec<char> = Vec::new();
    let mut i: usize = 0;
    assert(v@.skip(0) == v@);
    while i < v.len() && p.len() <= v.len() - i
        invariant
            p@.len() > 0,
            i <= v.len(),
            replace_all(v@, p@, q@) == out@ + replace_all(v@.skip(i as int), p@, q@),
        decreases v.len() - i,
    {
        proof {
            lemma_replace_step(v@, i as int, p@, q@);
        }
        let ghost before = out@;
        if matches_at(v, i, p) {
            push_chars(&mut out, q);
            assert(out@ + replace_all(v@.skip(i + p.len()), p@, q@) == before + (q@
                + replace_all(v@.skip(i + p.len()), p@, q@)));
            i = i + p.len();
        } else {
            out.push(v[i]);
            assert(out@ + replace_all(v@.skip(i + 1), p@, q@) == before + (seq![v@[i as int]]
                + replace_all(v@.skip(i + 1), p@, q@)));
            i = i + 1;
        }
    }
    // what is left is shorter than the pattern, and stays as it is
    let ghost before = out@;
    let ghost rest_start = i;
    assert(replace_all(v@.skip(i as int), p@, q@) == v@.skip(i as int));
    while i < v.len()
        invariant
            rest_start <= i <= v.len(),
            out@ == before + v@.subrange(rest_start as int, i as int),
        decreases v.len() - i,
    {
        out.push(v[i]);
        assert(v@.subrange(rest_start as int, i + 1) == v@.subrange(rest_start as int, i as int).push(v@[i as int]));
        i += 1;
    }
    assert(v@.subrange(rest_start as int, v.len() as int) == v@.skip(rest_start as int));
    out
}

/// `s` with every occurrence of the non-empty `pat` replaced by `rep`.
pub fn replace_all_exec(s: &str, pat: &str, rep: &str) -> (r: String)
    requires
        pat@.len() > 0,
    ensures
        r@ == replace_all(s@, pat@, rep@),
{
    let v = chars_of(s);
    let p = chars_of(pat);
    let q = chars_of(rep);
    let out = replace_all_chars(&v, &p, &q);
    string_of(&out)
}

/// `s` with its first occurrence of `pat` replaced by `rep` (with an empty `pat`,
/// `rep` is put in front).
pub open spec fn replace_first(s: Seq<char>, pat: Seq<char>, rep: Seq<char>) -> Seq<char>
    decreases s.len(),
{
    if pat.len() <= s.len() && s.take(pat.len() as int) == pat {
        rep + s.skip(pat.len() as int)
    } else if s.len() == 0 {
        s
    } else {
        seq![s[0]] + replace_first(s.skip(1), pat, rep)
    }
}

proof fn lemma_replace_first_short(s: Seq<char>, pat: Seq<char>, rep: Seq<char>)
    requires
        s.len() < pat.len(),
    ensures
        replace_first(s, pat, rep) == s,
    decreases s.len(),
{
    if s.len() > 0 {
        lemma_replace_first_short(s.skip(1), pat, rep);
        assert(seq![s[0]] + s.skip(1) =~= s);
    }
}

/// `s` with its first occurrence of `pat` replaced by `rep`, as `str::replacen` with
/// a count of one does.
pub fn replace_first_exec(s: &str, pat: &str, rep: &str) -> (r: String)
    ensures
        r@ == replace_first(s@, pat@, rep@),
{
    let v = chars_of(s);
    let p = chars_of(pat);
    let q = chars_of(rep);
    let mut out: Vec<char> = Vec::new();
    let mut i: usize = 0;
    assert(v@.skip(0) == v@);
    while p.len() <= v.len() - i
        invariant
            i <= v.len(),
            v@ == s@,
            p@ == pat@,
            q@ == rep@,
            replace_first(v@, p@, q@) == out@ + replace_first(v@.skip(i as int), p@, q@),
        decreases v.len() - i,
    {
        let ghost t = v@.skip(i as int);
        assert(t.take(p@.len() as int) == v@.subrange(i as int, i + p@.len()));
        if matches_at(&v, i, &p) {
            assert(t.skip(p@.len() as int) == v@.skip(i + p@.len()));
            push_chars(&mut out, &q);
            let mut k: usize = i + p.len();
            let ghost mid = out@;
            assert(replace_first(v@, p@, q@) == mid + v@.skip(i + p@.len()));
            while k < v.len()
                invariant
                    i + p@.len() <= k <= v.len(),
                    out@ == mid + v@.subrange(i + p@.len(), k as int),
                    replace_first(v@, p@, q@) == mid + v@.skip(i + p@.len()),
                decreases v.len() - k,
            {
                out.push(v[k]);
                assert(v@.subrange(i + p@.len(), k + 1) == v@.subrange(i + p@.len(), k as int).push(
                    v@[k as int],
                ));
                k += 1;
            }
            assert(v@.subrange(i + p@.len(), v@.len() as int) == v@.skip(i + p@.len()));
            return string_of(&out);
        }
        let ghost before = out@;
        if p.len() == 0 {
            assert(v@.subrange(i as int, i as int) =~= p@);
        }
        assert(t.len() > 0);
        assert(t.skip(1) == v@.skip(i + 1));
        out.push(v[i]);
        assert(out@ + replace_first(v@.skip(i + 1), p@, q@) == before + (seq![v@[i as int]]
            + replace_first(v@.skip(i + 1), p@, q@)));
        i += 1;
    }
    let ghost before = out@;
    let ghost rest_start = i;
    proof {
        lemma_replace_first_short(v@.skip(i as int), p@, q@);
    }
    while i < v.len()
        invariant
            rest_start <= i <= v.len(),
            out@ == before + v@.subrange(rest_start as int, i as int),
        decreases v.len() - i,
    {
        out.push(v[i]);
        assert(v@.subrange(rest_start as int, i + 1) == v@.subrange(rest_start as int, i as int).push(v@[i as int]));
        i += 1;
    }
    assert(v@.subrange(rest_start as int, v.len() as int) == v@.skip(rest_start as int));
    string_of(&out)
}

/// `c`, or an apostrophe where `c` is a double quote.
pub open spec fn unquote(c: char) -> char {
    if c == '"' {
        '\''
    } else {
        c
    }
}

/// The first `n` characters of `s` (all of them where it is shorter), each double
/// quote turned into an apostrophe.
pub open spec fn unquoted_prefix(s: Seq<char>, n: nat) -> Seq<char> {
    let t = if s.len() <= n {
        s
    } else {
        s.take(n as int)
    };
    t.map_values(|c: char| unquote(c))
}

/// The first `n` characters of `s`, each double quote turned into an apostrophe.
pub fn unquoted_prefix_exec(s: &str, n: usize) -> (r: String)
    ensures
        r@ == unquoted_prefix(s@, n as nat),
{
    let v = chars_of(s);
    let end: usize = if v.len() <= n {
        v.len()
    } else {
        n
    };
    let mut out: Vec<char> = Vec::new();
    let mut i: usize = 0;
    while i < end
        invariant
            end <= v.len(),
            end == (if v@.len() <= n {
                v@.len()
            } else {
                n as nat
            }),
            i <= end,
            out@ == v@.take(i as int).map_values(|c: char| unquote(c)),
        decreases end - i,
    {
        let c = v[i];
        let d = if c == '"' {
            '\''
        } else {
            c
        };
        out.push(d);
        assert(v@.take(i + 1).map_values(|c: char| unquote(c)) == v@.take(i as int).map_values(
            |c: char| unquote(c),
        ).push(unquote(c)));
        i += 1;
    }
    assert(v@.take(end as int) == (if v@.len() <= n {
        v@
    } else {
        v@.take(n as int)
    }));
    string_of(&out)
}

/// `r` with `c` put in front of its first piece.
pub open spec fn prepend_first(c: Seq<char>, r: Seq<Seq<char>>) -> Seq<Seq<char>>
    recommends
        r.len() > 0,
{
    r.update(0, c + r[0])
}

/// The pieces of `s` between the non-overlapping occurrences of the non-empty
/// `sep`, taken from the left (as `str::split` does).
pub open spec fn split_by(s: Seq<char>, sep: Seq<char>) -> Seq<Seq<char>>
    decreases s.len(),
{
    if sep.len() == 0 || s.len() < sep.len() {
        seq![s]
    } else if s.take(sep.len() as int) == sep {
        seq![Seq::<char>::empty()] + split_by(s.skip(sep.len() as int), sep)
    } else {
        prepend_first(seq![s[0]], split_by(s.skip(1), sep))
    }
}

/// The pieces that `str::split` yields: for an empty separator, an empty piece,
/// each character, and another empty piece.
pub open spec fn split(s: Seq<char>, sep: Seq<char>) -> Seq<Seq<char>> {
    if sep.len() == 0 {
        seq![Seq::<char>::empty()] + s.map_values(|c: char| seq![c]) + seq![Seq::<char>::empty()]
    } else {
        split_by(s, sep)
    }
}

pub proof fn lemma_split_by_nonempty(s: Seq<char>, sep: Seq<char>)
    ensures
        split_by(s, sep).len() >= 1,
    decreases s.len(),
{
    if sep.len() == 0 || s.len() < sep.len() {
    } else if s.take(sep.len() as int) == sep {
        lemma_split_by_nonempty(s.skip(sep.len() as int), sep);
    } else {
        lemma_split_by_nonempty(s.skip(1), sep);
    }
}

/// The character sequences held by the vectors of `v`.
pub open spec fn seq_views(v: Seq<Vec<char>>) -> Seq<Seq<char>> {
    Seq::new(v.len(), |i: int| v[i]@)
}

/// The pieces of `s` split at `sep`, as `str::split` yields them.
pub fn split_exec(s: &str, sep: &str) -> (r: Vec<Vec<char>>)
    ensures
        seq_views(r@) == split(s@, sep@),
{
    let v = chars_of(s);
    let p = chars_of(sep);
    let mut done: Vec<Vec<char>> = Vec::new();
    if p.len() == 0 {
        done.push(Vec::new());
        let mut i: usize = 0;
        assert(seq_views(done@) =~= seq![Seq::<char>::empty()] + s@.take(0).map_values(
            |c: char| seq![c],
        ));
        while i < v.len()
            invariant
                v@ == s@,
                i <= v.len(),
                seq_views(done@) == seq![Seq::<char>::empty()] + s@.take(i as int).map_values(
                    |c: char| seq![c],
                ),
            decreases v.len() - i,
        {
            let mut one: Vec<char> = Vec::new();
            one.push(v[i]);
            let ghost before = seq_views(done@);
            done.push(one);
            assert(seq_views(done@) =~= before.push(seq![s@[i as int]]));
            assert(s@.take(i + 1).map_values(|c: char| seq![c]) =~= s@.take(i as int).map_values(
                |c: char| seq![c],
            ).push(seq![s@[i as int]]));
            i += 1;
        }
        let ghost before = seq_views(done@);
        done.push(Vec::new());
        assert(seq_views(done@) =~= before.push(Seq::<char>::empty()));
        assert(s@.take(v.len() as int) == s@);
        return done;
    }
    let mut cur: Vec<char> = Vec::new();
    let mut i: usize = 0;
    assert(s@.skip(0) == s@);
    proof {
        lemma_split_by_nonempty(s@, sep@);
        let r = split_by(s@, sep@);
        assert(prepend_first(cur@, r) =~= r) by {
            assert(cur@ + r[0] =~= r[0]);
        }
        assert(seq_views(done@) =~= Seq::<Seq<char>>::empty());
        assert(Seq::<Seq<char>>::empty() + r =~= r);
    }
    while i < v.len() && p.len() <= v.len() - i
        invariant
            v@ == s@,
            p@ == sep@,
            p@.len() > 0,
            i <= v.len(),
            split_by(s@.skip(i as int), sep@).len() >= 1,
            split(s@, sep@) == seq_views(done@) + prepend_first(
                cur@,
                split_by(s@.skip(i as int), sep@),
            ),
        decreases v.len() - i,
    {
        let ghost t = s@.skip(i as int);
        proof {
            assert(t.take(sep@.len() as int) == s@.subrange(i as int, i + sep@.len()));
            assert(t.skip(sep@.len() as int) == s@.skip(i + sep@.len()));
            assert(t.skip(1) == s@.skip(i + 1));
            assert(t[0] == s@[i as int]);
            lemma_split_by_nonempty(s@.skip(i + sep@.len()), sep@);
            lemma_split_by_nonempty(s@.skip(i + 1), sep@);
        }
        if matches_at(&v, i, &p) {
            let ghost r = split_by(s@.skip(i + sep@.len()), sep@);
            let ghost d = seq_views(done@);
            let ghost c = cur@;
            assert(prepend_first(c, seq![Seq::<char>::empty()] + r) =~= seq![c] + r) by {
                assert(c + Seq::<char>::empty() =~= c);
            }
            done.push(cur);
            cur = Vec::new();
            assert(seq_views(done@) =~= d.push(c));
            assert(prepend_first(cur@, r) =~= r) by {
                assert(cur@ + r[0] =~= r[0]);
            }
            assert(d + (seq![c] + r) =~= d.push(c) + r);
            i = i + p.len();
        } else {
            let ghost r = split_by(s@.skip(i + 1), sep@);
            let ghost old_cur = cur@;
            cur.push(v[i]);
            assert(prepend_first(old_cur, prepend_first(seq![s@[i as int]], r)) =~= prepend_first(
                cur@,
                r,
            )) by {
                assert(old_cur + (seq![s@[i as int]] + r[0]) =~= cur@ + r[0]);
            }
            i = i + 1;
        }
    }
    let ghost d = seq_views(done@);
    let ghost rest_start = i;
    let ghost start_cur = cur@;
    assert(split_by(s@.skip(i as int), sep@) == seq![s@.skip(i as int)]);
    while i < v.len()
        invariant
            v@ == s@,
            rest_start <= i <= v.len(),
            cur@ == start_cur + s@.subrange(rest_start as int, i as int),
        decreases v.len() - i,
    {
        cur.push(v[i]);
        assert(s@.subrange(rest_start as int, i + 1) == s@.subrange(rest_start as int, i as int).push(
            s@[i as int],
        ));
        i += 1;
    }
    assert(s@.subrange(rest_start as int, v.len() as int) == s@.skip(rest_start as int));
    let ghost fin = cur@;
    done.push(cur);
    assert(seq_views(done@) =~= d.push(fin));
    assert(prepend_first(start_cur, seq![s@.skip(rest_start as int)]) =~= seq![fin]);
    done
}

/// All the pieces of `p` joined, in order.
pub open spec fn concat_all(p: Seq<Seq<char>>) -> Seq<char>
    decreases p.len(),
{
    if p.len() == 0 {
        Seq::empty()
    } else {
        p[0] + concat_all(p.skip(1))
    }
}

/// The pieces of `p` from index `from` on, joined.
pub fn concat_from(p: &Vec<Vec<char>>, from: usize) -> (r: Vec<char>)
    requires
        from <= p.len(),
    ensures
        r@ == concat_all(seq_views(p@).skip(from as int)),
{
    let mut out: Vec<char> = Vec::new();
    let mut i: usize = from;
    while i < p.len()
        invariant
            from <= i <= p.len(),
            concat_all(seq_views(p@).skip(from as int)) == out@ + concat_all(
                seq_views(p@).skip(i as int),
            ),
        decreases p.len() - i,
    {
        let ghost rest = seq_views(p@).skip(i as int);
        assert(rest[0] == p[i as int]@);
        assert(rest.skip(1) =~= seq_views(p@).skip(i + 1));
        let ghost before = out@;
        let mut k: usize = 0;
        while k < p[i].len()
            invariant
                i < p.len(),
                k <= p[i as int]@.len(),
                out@ == before + p[i as int]@.take(k as int),
            decreases p[i as int]@.len() - k,
        {
            out.push(p[i][k]);
            assert(p[i as int]@.take(k + 1) == p[i as int]@.take(k as int).push(p[i as int]@[k as int]));
            k += 1;
        }
        assert(p[i as int]@.take(p[i as int]@.len() as int) == p[i as int]@);
        i += 1;
    }
    out
}

/// The index of the first line feed in `s`, or the length of `s` when it holds none.
pub open spec fn line_end(s: Seq<char>) -> int
    decreases s.len(),
{
    if s.len() == 0 {
        0
    } else if s[0] == '\n' {
        0
    } else {
        1 + line_end(s.skip(1))
    }
}

/// The first item that `str::lines` yields: `None` for an empty string; else the
/// text before the first line feed, without a carriage return that ends it.
pub open spec fn first_line(s: Seq<char>) -> Option<Seq<char>> {
    if s.len() == 0 {
        None
    } else if line_end(s) == s.len() {
        Some(s)
    } else {
        let l = s.take(line_end(s));
        if l.len() > 0 && l.last() == '\r' {
            Some(l.drop_last())
        } else {
            Some(l)
        }
    }
}

/// The first line of `s`, as `str::lines` yields it.
pub fn first_line_exec(s: &str) -> (r: Option<String>)
    ensures
        r.deep_view() == first_line(s@),
{
    let v = chars_of(s);
    if v.len() == 0 {
        return None;
    }
    let mut i: usize = 0;
    assert(s@.skip(0) == s@);
    while i < v.len() && v[i] != '\n'
        invariant
            v@ == s@,
            i <= v.len(),
            line_end(s@) == i + line_end(s@.skip(i as int)),
        decreases v.len() - i,
    {
        assert(s@.skip(i as int).skip(1) == s@.skip(i + 1));
        i += 1;
    }
    let mut line: Vec<char> = Vec::new();
    let mut k: usize = 0;
    while k < i
        invariant
            v@ == s@,
            i <= v.len(),
            k <= i,
            line@ == s@.take(k as int),
        decreases i - k,
    {
        line.push(v[k]);
        assert(s@.take(k + 1) == s@.take(k as int).push(s@[k as int]));
        k += 1;
    }
    if i == v.len() {
        assert(s@.take(i as int) == s@);
        return Some(string_of(&line));
    }
    if line.len() > 0 && line[line.len() - 1] == '\r' {
        line.pop();
    }
    Some(string_of(&line))
}

/// The characters that `char::is_whitespace` accepts (Unicode `White_Space`).
pub open spec fn is_whitespace(c: char) -> bool {
    let n = c as u32;
    (9 <= n <= 13) || n == 32 || n == 0x85 || n == 0xa0 || n == 0x1680 || (0x2000 <= n <= 0x200a)
        || n == 0x2028 || n == 0x2029 || n == 0x202f || n == 0x205f || n == 0x3000
}

/// Whether `c` is Unicode white space.
pub fn is_whitespace_exec(c: char) -> (r: bool)
    ensures
        r == is_whitespace(c),
{
    let n = c as u32;
    (9 <= n && n <= 13) || n == 32 || n == 0x85 || n == 0xa0 || n == 0x1680 || (0x2000 <= n && n
        <= 0x200a) || n == 0x2028 || n == 0x2029 || n == 0x202f || n == 0x205f || n == 0x3000
}

/// `s` without its leading white space.
pub open spec fn trim_start(s: Seq<char>) -> Seq<char>
    decreases s.len(),
{
    if s.len() > 0 && is_whitespace(s[0]) {
        trim_start(s.skip(1))
    } else {
        s
    }
}

/// `s` without its trailing white space.
pub open spec fn trim_end(s: Seq<char>) -> Seq<char>
    decreases s.len(),
{
    if s.len() > 0 && is_whitespace(s.last()) {
        trim_end(s.drop_last())
    } else {
        s
    }
}

/// `s` without leading and trailing white space (as `str::trim` gives it).
pub open spec fn trim(s: Seq<char>) -> Seq<char> {
    trim_end(trim_start(s))
}

/// `s` without leading and trailing white space.
pub fn trim_exec(s: &str) -> (r: String)
    ensures
        r@ == trim(s@),
{
    let v = chars_of(s);
    let mut i: usize = 0;
    assert(s@.skip(0) == s@);
    while i < v.len() && is_whitespace_exec(v[i])
        invariant
            v@ == s@,
            i <= v.len(),
            trim_start(s@) == trim_start(s@.skip(i as int)),
        decreases v.len() - i,
    {
        assert(s@.skip(i as int).skip(1) == s@.skip(i + 1));
        i += 1;
    }
    let mut j: usize = v.len();
    assert(s@.subrange(i as int, j as int) == s@.skip(i as int));
    while j > i && is_whitespace_exec(v[j - 1])
        invariant
            v@ == s@,
            i <= j <= v.len(),
            trim_start(s@) == s@.skip(i as int),
            trim(s@) == trim_end(s@.subrange(i as int, j as int)),
        decreases j,
    {
        assert(s@.subrange(i as int, j as int).drop_last() == s@.subrange(i as int, j - 1));
        j -= 1;
    }
    let mut out: Vec<char> = Vec::new();
    let mut k: usize = i;
    while k < j
        invariant
            v@ == s@,
            i <= k <= j,
            j <= v.len(),
            out@ == s@.subrange(i as int, k as int),
        decreases j - k,
    {
        out.push(v[k]);
        assert(s@.subrange(i as int, k + 1) == s@.subrange(i as int, k as int).push(s@[k as int]));
        k += 1;
    }
    string_of(&out)
}

/// `c` with an ASCII capital letter made small.
pub open spec fn ascii_lower(c: char) -> char {
    if 'A' <= c <= 'Z' {
        ((c as u32) + 32) as char
    } else {
        c
    }
}

/// `s` with its ASCII capital letters made small.
pub open spec fn ascii_lowercase(s: Seq<char>) -> Seq<char> {
    s.map_values(|c: char| ascii_lower(c))
}

/// Every character of `s` is ASCII.
pub open spec fn all_ascii(s: Seq<char>) -> bool {
    forall|i: int| 0 <= i < s.len() ==> (s[i] as u32) < 128
}

/// `v` with its ASCII capital letters made small.
pub fn ascii_lowercase_exec(v: &Vec<char>) -> (r: Vec<char>)
    ensures
        r@ == ascii_lowercase(v@),
{
    let mut out: Vec<char> = Vec::new();
    let mut i: usize = 0;
    while i < v.len()
        invariant
            i <= v.len(),
            out@ == ascii_lowercase(v@.take(i as int)),
        decreases v.len() - i,
    {
        let c = v[i];
        let d = if 'A' <= c && c <= 'Z' {
            ((c as u8) + 32) as char
        } else {
            c
        };
        out.push(d);
        assert(ascii_lowercase(v@.take(i + 1)) =~= ascii_lowercase(v@.take(i as int)).push(
            ascii_lower(v@[i as int]),
        ));
        i += 1;
    }
    assert(v@.take(v.len() as int) == v@);
    out
}

/// The number of bytes of the UTF-8 encoding of `s`, as `str::len` gives it.
pub open spec fn byte_len(s: Seq<char>) -> usize {
    vstd::utf8::encode_utf8(s).len() as usize
}

/// The lowercase hexadecimal digit of `n` (below 16).
pub open spec fn hex_digit(n: u8) -> char {
    if n < 10 {
        (48 + n) as char
    } else {
        (87 + n) as char
    }
}

/// The lowercase hexadecimal text of `b`: two digits per byte, high digit first.
pub open spec fn hex_lower(b: Seq<u8>) -> Seq<char>
    decreases b.len(),
{
    if b.len() == 0 {
        Seq::empty()
    } else {
        seq![hex_digit(b[0] / 16), hex_digit(b[0] % 16)] + hex_lower(b.skip(1))
    }
}

/// The hexadecimal text of `b` has two digits per byte.
pub proof fn lemma_hex_lower_len(b: Seq<u8>)
    ensures
        hex_lower(b).len() == 2 * b.len(),
    decreases b.len(),
{
    if b.len() > 0 {
        lemma_hex_lower_len(b.skip(1));
    }
}

fn hex_digit_exec(n: u8) -> (c: char)
    requires
        n < 16,
    ensures
        c == hex_digit(n),
{
    if n < 10 {
        (48 + n) as char
    } else {
        (87 + n) as char
    }
}

/// The lowercase hexadecimal text of `b`.
pub fn hex_lower_exec(b: &Vec<u8>) -> (r: String)
    ensures
        r@ == hex_lower(b@),
{
    let mut out: Vec<char> = Vec::new();
    let mut i: usize = 0;
    assert(b@.skip(0) == b@);
    while i < b.len()
        invariant
            i <= b.len(),
            hex_lower(b@) == out@ + hex_lower(b@.skip(i as int)),
        decreases b.len() - i,
    {
        let x = b[i];
        let ghost before = out@;
        out.push(hex_digit_exec(x / 16));
        out.push(hex_digit_exec(x % 16));
        assert(b@.skip(i as int).skip(1) == b@.skip(i + 1));
        assert(before + hex_lower(b@.skip(i as int)) == out@ + hex_lower(b@.skip(i + 1)));
        i += 1;
    }
    string_of(&out)
}

/// Whether one of the texts of `list` is `wanted`.
pub fn contains_text(list: &Vec<String>, wanted: &str) -> (r: bool)
    ensures
        r == list.deep_view().contains(wanted@),
{
    let ghost lv = list.deep_view();
    let w = String::from_str(wanted);
    let mut i: usize = 0;
    while i < list.len()
        invariant
            i <= list.len(),
            lv == list.deep_view(),
            w@ == wanted@,
            forall|k: int| 0 <= k < i ==> lv[k] != wanted@,
        decreases list.len() - i,
    {
        if list[i].eq(&w) {
            assert(lv[i as int] == wanted@);
            return true;
        }
        i += 1;
    }
    false
}

/// Whether `a` and `b` hold the same characters.
pub fn same_chars(a: &Vec<char>, b: &Vec<char>) -> (r: bool)
    ensures
        r == (a@ == b@),
{
    if a.len() != b.len() {
        return false;
    }
    let r = matches_at(a, 0, b);
    assert(a@.subrange(0, b@.len() as int) =~= a@);
    r
}

} // verus!
