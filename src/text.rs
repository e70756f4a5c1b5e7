//! Literal substitution in text, and decimal rendering of integers.
use vstd::prelude::*;

verus! {

/// `p` occurs in `s` starting at index `i`.
pub open spec fn occurs_at(s: Seq<char>, p: Seq<char>, i: int) -> bool {
    0 <= i && i + p.len() <= s.len() && s.subrange(i, i + p.len()) == p
}

/// Every occurrence of `p` in `s`, scanning left to right without overlap,
/// replaced by `r`.
pub open spec fn replace_all(s: Seq<char>, p: Seq<char>, r: Seq<char>) -> Seq<char>
    decreases s.len(),
{
    if p.len() == 0 || s.len() < p.len() {
        s
    } else if s.subrange(0, p.len() as int) == p {
        r + replace_all(s.subrange(p.len() as int, s.len() as int), p, r)
    } else {
        seq![s[0]] + replace_all(s.drop_first(), p, r)
    }
}

/// The first occurrence of `p` in `s` replaced by `r`; `s` itself where
/// there is none.
pub open spec fn replace_first(s: Seq<char>, p: Seq<char>, r: Seq<char>) -> Seq<char>
    decreases s.len(),
{
    if p.len() == 0 || s.len() < p.len() {
        s
    } else if s.subrange(0, p.len() as int) == p {
        r + s.subrange(p.len() as int, s.len() as int)
    } else {
        seq![s[0]] + replace_first(s.drop_first(), p, r)
    }
}

/// The decimal digit for `d`, below ten.
pub open spec fn digit(d: nat) -> Seq<char> {
    if d == 0 { "0"@ }
    else if d == 1 { "1"@ }
    else if d == 2 { "2"@ }
    else if d == 3 { "3"@ }
    else if d == 4 { "4"@ }
    else if d == 5 { "5"@ }
    else if d == 6 { "6"@ }
    else if d == 7 { "7"@ }
    else if d == 8 { "8"@ }
    else { "9"@ }
}

/// The decimal digits of `n`, most significant first, without leading zeros.
pub open spec fn decimal(n: nat) -> Seq<char>
    decreases n,
{
    if n < 10 {
        digit(n)
    } else {
        decimal(n / 10) + digit(n % 10)
    }
}

/// Relies on str::chars: it yields the characters of the string, in order.
#[verifier::external_body]
fn chars_of(s: &str) -> (r: Vec<char>)
    ensures
        r@ == s@,
{
    s.chars().collect()
}

fn digit_text(d: u32) -> (r: &'static str)
    requires
        d < 10,
    ensures
        r@ == digit(d as nat),
{
    match d {
        0 => "0",
        1 => "1",
        2 => "2",
        3 => "3",
        4 => "4",
        5 => "5",
        6 => "6",
        7 => "7",
        8 => "8",
        _ => "9",
    }
}

/// Appends the decimal digits of `n` to `out`.
pub fn push_decimal(out: &mut String, n: u64)
    ensures
        final(out)@ == old(out)@ + decimal(n as nat),
    decreases n,
{
    if n >= 10 {
        push_decimal(out, n / 10);
    }
    out.append(digit_text((n % 10) as u32));
    proof {
        if n >= 10 {
            assert(decimal(n as nat) == decimal((n / 10) as nat) + digit((n % 10) as nat));
        }
    }
}

/// Whether `p` occurs in `s` at index `i`.
fn matches_at(s: &Vec<char>, p: &Vec<char>, i: usize) -> (r: bool)
    requires
        i + p@.len() <= s@.len(),
    ensures
        r == (s@.subrange(i as int, i + p@.len()) == p@),
{
    let n = s.len();
    let mut j: usize = 0;
    while j < p.len()
        invariant
            n == s@.len(),
            i + p@.len() <= s@.len(),
            j <= p@.len(),
            forall|k: int| 0 <= k < j ==> s@[i + k] == p@[k],
        decreases p@.len() - j,
    {
        if s[i + j] != p[j] {
            proof {
                assert(s@.subrange(i as int, i + p@.len())[j as int] != p@[j as int]);
            }
            return false;
        }
        j = j + 1;
    }
    proof {
        assert(s@.subrange(i as int, i + p@.len()) =~= p@);
    }
    true
}

proof fn lemma_subrange_shift(s: Seq<char>, i: int, k: int)
    requires
        0 <= i <= s.len(),
        0 <= k <= s.len() - i,
    ensures
        s.subrange(i, s.len() as int).subrange(0, k) == s.subrange(i, i + k),
        s.subrange(i, s.len() as int).subrange(k, s.len() - i) == s.subrange(i + k, s.len() as int),
{
    assert(s.subrange(i, s.len() as int).subrange(0, k) =~= s.subrange(i, i + k));
    assert(s.subrange(i, s.len() as int).subrange(k, s.len() - i) =~= s.subrange(i + k, s.len() as int));
}

/// `s` with every occurrence of `p` replaced by `r`, left to right and
/// without overlap.
pub fn replace_all_text(s: &str, p: &str, r: &str) -> (out: String)
    requires
        p@.len() > 0,
    ensures
        out@ == replace_all(s@, p@, r@),
{
    let cs = chars_of(s);
    let ps = chars_of(p);
    let n = cs.len();
    let m = ps.len();
    let mut out = String::new();
    let mut last: usize = 0;
    let mut i: usize = 0;
    proof {
        assert(s@.subrange(0, n as int) =~= s@);
        assert(out@ + s@.subrange(0, 0) + replace_all(s@, p@, r@) =~= replace_all(s@, p@, r@));
    }
    while i < n && m <= n - i
        invariant
            cs@ == s@,
            ps@ == p@,
            n == s@.len(),
            m == p@.len(),
            m > 0,
            last <= i <= n,
            out@ + s@.subrange(last as int, i as int) + replace_all(s@.subrange(i as int, n as int), p@, r@)
                == replace_all(s@, p@, r@),
        decreases n - i,
    {
        let rest = Ghost(s@.subrange(i as int, n as int));
        proof {
            lemma_subrange_shift(s@, i as int, m as int);
        }
        if matches_at(&cs, &ps, i) {
            let ghost before = out@;
            let piece = s.substring_char(last, i);
            out.append(piece);
            out.append(r);
            proof {
                assert(replace_all(rest@, p@, r@) == r@ + replace_all(s@.subrange(i + m, n as int), p@, r@));
                assert(out@ + s@.subrange(i + m, i + m) + replace_all(s@.subrange(i + m, n as int), p@, r@)
                    =~= before + s@.subrange(last as int, i as int) + replace_all(rest@, p@, r@));
            }
            i = i + m;
            last = i;
        } else {
            proof {
                lemma_subrange_shift(s@, i as int, 1);
                assert(rest@.drop_first() =~= s@.subrange(i + 1, n as int));
                assert(replace_all(rest@, p@, r@) == seq![s@[i as int]] + replace_all(s@.subrange(i + 1, n as int), p@, r@));
                assert(s@.subrange(last as int, i + 1) =~= s@.subrange(last as int, i as int) + seq![s@[i as int]]);
            }
            i = i + 1;
        }
    }
    proof {
        assert(replace_all(s@.subrange(i as int, n as int), p@, r@) == s@.subrange(i as int, n as int));
        assert(s@.subrange(last as int, i as int) + s@.subrange(i as int, n as int) =~= s@.subrange(last as int, n as int));
    }
    let tail = s.substring_char(last, n);
    out.append(tail);
    out
}

/// `s` with its first occurrence of `p` replaced by `r`.
pub fn replace_first_text(s: &str, p: &str, r: &str) -> (out: String)
    requires
        p@.len() > 0,
    ensures
        out@ == replace_first(s@, p@, r@),
{
    let cs = chars_of(s);
    let ps = chars_of(p);
    let n = cs.len();
    let m = ps.len();
    let mut i: usize = 0;
    proof {
        assert(s@.subrange(0, n as int) =~= s@);
        assert(s@.subrange(0, 0) + replace_first(s@, p@, r@) =~= replace_first(s@, p@, r@));
    }
    while i < n && m <= n - i
        invariant
            cs@ == s@,
            ps@ == p@,
            n == s@.len(),
            m == p@.len(),
            m > 0,
            i <= n,
            s@.subrange(0, i as int) + replace_first(s@.subrange(i as int, n as int), p@, r@)
                == replace_first(s@, p@, r@),
        decreases n - i,
    {
        let rest = Ghost(s@.subrange(i as int, n as int));
        proof {
            lemma_subrange_shift(s@, i as int, m as int);
        }
        if matches_at(&cs, &ps, i) {
            let mut out = String::from_str(s.substring_char(0, i));
            out.append(r);
            out.append(s.substring_char(i + m, n));
            proof {
                assert(replace_first(rest@, p@, r@) == r@ + s@.subrange(i + m, n as int));
                assert(out@ =~= s@.subrange(0, i as int) + replace_first(rest@, p@, r@));
            }
            return out;
        }
        proof {
            lemma_subrange_shift(s@, i as int, 1);
            assert(rest@.drop_first() =~= s@.subrange(i + 1, n as int));
            assert(replace_first(rest@, p@, r@) == seq![s@[i as int]] + replace_first(s@.subrange(i + 1, n as int), p@, r@));
            assert(s@.subrange(0, i + 1) =~= s@.subrange(0, i as int) + seq![s@[i as int]]);
        }
        i = i + 1;
    }
    proof {
        assert(replace_first(s@.subrange(i as int, n as int), p@, r@) == s@.subrange(i as int, n as int));
        assert(s@.subrange(0, i as int) + s@.subrange(i as int, n as int) =~= s@);
    }
    String::from_str(s)
}

/// `p` occurs nowhere in `s`.
pub open spec fn free_of(s: Seq<char>, p: Seq<char>) -> bool {
    forall|i: int| !#[trigger] occurs_at(s, p, i)
}

/// `r` cannot form `q` together with the text around it: `r` holds no `q`,
/// no proper end of `r` starts `q`, no proper start of `r` ends `q`, and
/// `r` does not stand inside `q`.
pub open spec fn interlock_free(q: Seq<char>, r: Seq<char>) -> bool {
    &&& free_of(r, q)
    &&& forall|k: int|
        0 < k < q.len() && k <= r.len() ==> #[trigger] r.subrange(r.len() - k, r.len() as int)
            != q.subrange(0, k)
    &&& forall|k: int|
        0 < k < q.len() && k <= r.len() ==> #[trigger] r.subrange(0, k) != q.subrange(
            q.len() - k,
            q.len() as int,
        )
    &&& forall|j: int|
        0 <= j && j + r.len() <= q.len() ==> #[trigger] q.subrange(j, j + r.len()) != r
}

/// Where the result of a substitution starts with `q`, either the text
/// did, or some end of `q` is where a replacement begins.
proof fn lemma_replace_all_start(t: Seq<char>, p: Seq<char>, r: Seq<char>, q: Seq<char>) -> (j: int)
    requires
        p.len() > 0,
        replace_all(t, p, r).len() >= q.len(),
        replace_all(t, p, r).subrange(0, q.len() as int) == q,
    ensures
        (t.len() >= q.len() && t.subrange(0, q.len() as int) == q) || (0 <= j < q.len() && ((q.len()
            - j <= r.len() && r.subrange(0, q.len() - j) == q.subrange(j, q.len() as int)) || (q.len()
            - j > r.len() && q.subrange(j, j + r.len()) == r))),
    decreases t.len(),
{
    let res = replace_all(t, p, r);
    if t.len() < p.len() {
    } else if t.subrange(0, p.len() as int) == p {
        let rest = replace_all(t.subrange(p.len() as int, t.len() as int), p, r);
        assert(res == r + rest);
        if q.len() == 0 {
            assert(t.subrange(0, 0) =~= q);
        } else if q.len() <= r.len() {
            assert(r.subrange(0, q.len() - 0) =~= res.subrange(0, q.len() as int));
            assert(q.subrange(0, q.len() as int) =~= q);
        } else {
            assert(q.subrange(0, 0 + r.len() as int) =~= r);
        }
    } else {
        let t1 = t.drop_first();
        let rest = replace_all(t1, p, r);
        assert(res == seq![t[0]] + rest);
        if q.len() == 0 {
            assert(t.subrange(0, 0) =~= q);
        } else {
            let q1 = q.drop_first();
            assert(rest.subrange(0, q1.len() as int) =~= q1) by {
                assert forall|i: int| 0 <= i < q1.len() implies rest[i] == q1[i] by {
                    assert(res[i + 1] == rest[i]);
                    assert(res.subrange(0, q.len() as int)[i + 1] == q[i + 1]);
                }
            }
            let j1 = lemma_replace_all_start(t1, p, r, q1);
            if t1.len() >= q1.len() && t1.subrange(0, q1.len() as int) == q1 {
                assert(res.subrange(0, q.len() as int)[0] == q[0]);
                assert(t.subrange(0, q.len() as int) =~= seq![t[0]] + t1.subrange(0, q1.len() as int));
                assert(t.subrange(0, q.len() as int) =~= q);
                return 0;
            } else {
                let j = j1 + 1;
                assert(q1.subrange(j1, q1.len() as int) =~= q.subrange(j, q.len() as int));
                if q1.len() - j1 > r.len() {
                    assert(q1.subrange(j1, j1 + r.len()) =~= q.subrange(j, j + r.len()));
                }
                return j;
            }
        }
    }
    0
}

/// Replacing `p` by `r` leaves no `q` behind, where `r` does not interlock
/// with `q` and `q` is either `p` itself or absent from the text before.
pub proof fn lemma_replace_all_leaves_none(t: Seq<char>, p: Seq<char>, r: Seq<char>, q: Seq<char>)
    requires
        p.len() > 0,
        q.len() > 0,
        interlock_free(q, r),
        q == p || free_of(t, q),
    ensures
        free_of(replace_all(t, p, r), q),
    decreases t.len(),
{
    let res = replace_all(t, p, r);
    let m = q.len() as int;
    if t.len() < p.len() {
        assert forall|i: int| !#[trigger] occurs_at(res, q, i) by {
            if q != p {
                assert(!occurs_at(t, q, i));
            }
        }
    } else if t.subrange(0, p.len() as int) == p {
        let t2 = t.subrange(p.len() as int, t.len() as int);
        let rest = replace_all(t2, p, r);
        assert(res == r + rest);
        if q != p {
            assert forall|i: int| !#[trigger] occurs_at(t2, q, i) by {
                if occurs_at(t2, q, i) {
                    assert(t.subrange(i + p.len(), i + p.len() + m) =~= t2.subrange(i, i + m));
                    assert(occurs_at(t, q, i + p.len()));
                }
            }
        }
        lemma_replace_all_leaves_none(t2, p, r, q);
        assert forall|i: int| !#[trigger] occurs_at(res, q, i) by {
            if occurs_at(res, q, i) {
                if i >= r.len() {
                    assert(rest.subrange(i - r.len(), i - r.len() + m) =~= res.subrange(i, i + m));
                    assert(occurs_at(rest, q, i - r.len()));
                } else if i + m <= r.len() {
                    assert(r.subrange(i, i + m) =~= res.subrange(i, i + m));
                    assert(occurs_at(r, q, i));
                } else if i == 0 {
                    assert(q.subrange(0, 0 + r.len() as int) =~= res.subrange(0, r.len() as int));
                    assert(res.subrange(0, r.len() as int) =~= r);
                } else {
                    let k = r.len() - i;
                    assert(r.subrange(r.len() - k, r.len() as int) =~= res.subrange(i, i + k));
                    assert(q.subrange(0, k) =~= res.subrange(i, i + m).subrange(0, k));
                    assert(res.subrange(i, i + m).subrange(0, k) =~= res.subrange(i, i + k));
                }
            }
        }
    } else {
        let t1 = t.drop_first();
        let rest = replace_all(t1, p, r);
        assert(res == seq![t[0]] + rest);
        if q != p {
            assert forall|i: int| !#[trigger] occurs_at(t1, q, i) by {
                if occurs_at(t1, q, i) {
                    assert(t.subrange(i + 1, i + 1 + m) =~= t1.subrange(i, i + m));
                    assert(occurs_at(t, q, i + 1));
                }
            }
        }
        lemma_replace_all_leaves_none(t1, p, r, q);
        assert forall|i: int| !#[trigger] occurs_at(res, q, i) by {
            if occurs_at(res, q, i) {
                if i >= 1 {
                    assert(rest.subrange(i - 1, i - 1 + m) =~= res.subrange(i, i + m));
                    assert(occurs_at(rest, q, i - 1));
                } else {
                    let q1 = q.drop_first();
                    assert(rest.subrange(0, q1.len() as int) =~= q1) by {
                        assert forall|x: int| 0 <= x < q1.len() implies rest[x] == q1[x] by {
                            assert(res[x + 1] == rest[x]);
                            assert(res.subrange(0, m)[x + 1] == q[x + 1]);
                        }
                    }
                    let j1 = lemma_replace_all_start(t1, p, r, q1);
                    if t1.len() >= q1.len() && t1.subrange(0, q1.len() as int) == q1 {
                        assert(res.subrange(0, m)[0] == q[0]);
                        assert(res[0] == t[0]);
                        assert(t.subrange(0, m) =~= seq![t[0]] + t1.subrange(0, q1.len() as int));
                        assert(t.subrange(0, m) =~= q);
                        if q != p {
                            assert(occurs_at(t, q, 0));
                        }
                    } else {
                        let j = j1 + 1;
                        assert(q1.subrange(j1, q1.len() as int) =~= q.subrange(j, m));
                        if q1.len() - j1 > r.len() {
                            assert(q1.subrange(j1, j1 + r.len()) =~= q.subrange(j, j + r.len()));
                        }
                        let k = m - j;
                        if k <= r.len() {
                            assert(r.subrange(0, k) == q.subrange(q.len() - k, q.len() as int));
                        }
                    }
                }
            }
        }
    }
}

/// Where the result of a single substitution starts with `q`, either the
/// text did, or some end of `q` is where the replacement begins.
proof fn lemma_replace_first_start(t: Seq<char>, p: Seq<char>, r: Seq<char>, q: Seq<char>) -> (j: int)
    requires
        p.len() > 0,
        replace_first(t, p, r).len() >= q.len(),
        replace_first(t, p, r).subrange(0, q.len() as int) == q,
    ensures
        (t.len() >= q.len() && t.subrange(0, q.len() as int) == q) || (0 <= j < q.len() && ((q.len()
            - j <= r.len() && r.subrange(0, q.len() - j) == q.subrange(j, q.len() as int)) || (q.len()
            - j > r.len() && q.subrange(j, j + r.len()) == r))),
    decreases t.len(),
{
    let res = replace_first(t, p, r);
    if t.len() < p.len() {
    } else if t.subrange(0, p.len() as int) == p {
        let rest = t.subrange(p.len() as int, t.len() as int);
        assert(res == r + rest);
        if q.len() == 0 {
            assert(t.subrange(0, 0) =~= q);
        } else if q.len() <= r.len() {
            assert(r.subrange(0, q.len() - 0) =~= res.subrange(0, q.len() as int));
            assert(q.subrange(0, q.len() as int) =~= q);
        } else {
            assert(q.subrange(0, 0 + r.len() as int) =~= r);
        }
    } else {
        let t1 = t.drop_first();
        let rest = replace_first(t1, p, r);
        assert(res == seq![t[0]] + rest);
        if q.len() == 0 {
            assert(t.subrange(0, 0) =~= q);
        } else {
            let q1 = q.drop_first();
            assert(rest.subrange(0, q1.len() as int) =~= q1) by {
                assert forall|i: int| 0 <= i < q1.len() implies rest[i] == q1[i] by {
                    assert(res[i + 1] == rest[i]);
                    assert(res.subrange(0, q.len() as int)[i + 1] == q[i + 1]);
                }
            }
            let j1 = lemma_replace_first_start(t1, p, r, q1);
            if t1.len() >= q1.len() && t1.subrange(0, q1.len() as int) == q1 {
                assert(res.subrange(0, q.len() as int)[0] == q[0]);
                assert(t.subrange(0, q.len() as int) =~= seq![t[0]] + t1.subrange(0, q1.len() as int));
                assert(t.subrange(0, q.len() as int) =~= q);
                return 0;
            } else {
                let j = j1 + 1;
                assert(q1.subrange(j1, q1.len() as int) =~= q.subrange(j, q.len() as int));
                if q1.len() - j1 > r.len() {
                    assert(q1.subrange(j1, j1 + r.len()) =~= q.subrange(j, j + r.len()));
                }
                return j;
            }
        }
    }
    0
}

/// Replacing the first `p` by `r` brings in no `q`, where `r` does not
/// interlock with `q` and the text holds no `q` before.
pub proof fn lemma_replace_first_leaves_none(t: Seq<char>, p: Seq<char>, r: Seq<char>, q: Seq<char>)
    requires
        p.len() > 0,
        q.len() > 0,
        interlock_free(q, r),
        free_of(t, q),
    ensures
        free_of(replace_first(t, p, r), q),
    decreases t.len(),
{
    let res = replace_first(t, p, r);
    let m = q.len() as int;
    if t.len() < p.len() {
        assert forall|i: int| !#[trigger] occurs_at(res, q, i) by {
            assert(!occurs_at(t, q, i));
        }
    } else if t.subrange(0, p.len() as int) == p {
        let t2 = t.subrange(p.len() as int, t.len() as int);
        let rest = t2;
        assert(res == r + rest);
        assert forall|i: int| !#[trigger] occurs_at(t2, q, i) by {
            if occurs_at(t2, q, i) {
                assert(t.subrange(i + p.len(), i + p.len() + m) =~= t2.subrange(i, i + m));
                assert(occurs_at(t, q, i + p.len()));
            }
        }
        assert forall|i: int| !#[trigger] occurs_at(res, q, i) by {
            if occurs_at(res, q, i) {
                if i >= r.len() {
                    assert(rest.subrange(i - r.len(), i - r.len() + m) =~= res.subrange(i, i + m));
                    assert(occurs_at(rest, q, i - r.len()));
                } else if i + m <= r.len() {
                    assert(r.subrange(i, i + m) =~= res.subrange(i, i + m));
                    assert(occurs_at(r, q, i));
                } else if i == 0 {
                    assert(q.subrange(0, 0 + r.len() as int) =~= res.subrange(0, r.len() as int));
                    assert(res.subrange(0, r.len() as int) =~= r);
                } else {
                    let k = r.len() - i;
                    assert(r.subrange(r.len() - k, r.len() as int) =~= res.subrange(i, i + k));
                    assert(q.subrange(0, k) =~= res.subrange(i, i + m).subrange(0, k));
                    assert(res.subrange(i, i + m).subrange(0, k) =~= res.subrange(i, i + k));
                }
            }
        }
    } else {
        let t1 = t.drop_first();
        let rest = replace_first(t1, p, r);
        assert(res == seq![t[0]] + rest);
        assert forall|i: int| !#[trigger] occurs_at(t1, q, i) by {
            if occurs_at(t1, q, i) {
                assert(t.subrange(i + 1, i + 1 + m) =~= t1.subrange(i, i + m));
                assert(occurs_at(t, q, i + 1));
            }
        }
        lemma_replace_first_leaves_none(t1, p, r, q);
        assert forall|i: int| !#[trigger] occurs_at(res, q, i) by {
            if occurs_at(res, q, i) {
                if i >= 1 {
                    assert(rest.subrange(i - 1, i - 1 + m) =~= res.subrange(i, i + m));
                    assert(occurs_at(rest, q, i - 1));
                } else {
                    let q1 = q.drop_first();
                    assert(rest.subrange(0, q1.len() as int) =~= q1) by {
                        assert forall|x: int| 0 <= x < q1.len() implies rest[x] == q1[x] by {
                            assert(res[x + 1] == rest[x]);
                            assert(res.subrange(0, m)[x + 1] == q[x + 1]);
                        }
                    }
                    let j1 = lemma_replace_first_start(t1, p, r, q1);
                    if t1.len() >= q1.len() && t1.subrange(0, q1.len() as int) == q1 {
                        assert(res.subrange(0, m)[0] == q[0]);
                        assert(res[0] == t[0]);
                        assert(t.subrange(0, m) =~= seq![t[0]] + t1.subrange(0, q1.len() as int));
                        assert(t.subrange(0, m) =~= q);
                        assert(occurs_at(t, q, 0));
                    } else {
                        let j = j1 + 1;
                        assert(q1.subrange(j1, q1.len() as int) =~= q.subrange(j, m));
                        if q1.len() - j1 > r.len() {
                            assert(q1.subrange(j1, j1 + r.len()) =~= q.subrange(j, j + r.len()));
                        }
                        let k = m - j;
                        if k <= r.len() {
                            assert(r.subrange(0, k) == q.subrange(q.len() - k, q.len() as int));
                        }
                    }
                }
            }
        }
    }
}

} // verus!
