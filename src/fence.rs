use vstd::prelude::*;

verus! {

/// Whether `c` is white space by Unicode's `White_Space` property, as
/// `char::is_whitespace` decides it.
pub open spec fn is_space(c: char) -> bool {
    let u = c as u32;
    (0x9 <= u && u <= 0xd) || u == 0x20 || u == 0x85 || u == 0xa0 || u == 0x1680 || (0x2000 <= u
        && u <= 0x200a) || u == 0x2028 || u == 0x2029 || u == 0x202f || u == 0x205f || u == 0x3000
}

/// `s` without its leading white space.
pub open spec fn trim_front(s: Seq<char>) -> Seq<char>
    decreases s.len(),
{
    if s.len() > 0 && is_space(s[0]) {
        trim_front(s.drop_first())
    } else {
        s
    }
}

/// `s` without its trailing white space.
pub open spec fn trim_back(s: Seq<char>) -> Seq<char>
    decreases s.len(),
{
    if s.len() > 0 && is_space(s.last()) {
        trim_back(s.drop_last())
    } else {
        s
    }
}

/// `s` without white space at either end.
pub open spec fn trimmed(s: Seq<char>) -> Seq<char> {
    trim_back(trim_front(s))
}

/// `s` with every leading repetition of the non-empty `p` removed.
pub open spec fn strip_front(s: Seq<char>, p: Seq<char>) -> Seq<char>
    decreases s.len(),
{
    if 0 < p.len() <= s.len() && s.subrange(0, p.len() as int) == p {
        strip_front(s.subrange(p.len() as int, s.len() as int), p)
    } else {
        s
    }
}

/// `s` with every trailing repetition of the non-empty `p` removed.
pub open spec fn strip_back(s: Seq<char>, p: Seq<char>) -> Seq<char>
    decreases s.len(),
{
    if 0 < p.len() <= s.len() && s.subrange(s.len() - p.len(), s.len() as int) == p {
        strip_back(s.subrange(0, s.len() - p.len()), p)
    } else {
        s
    }
}

/// A reply with any code-fence wrapper taken off: trimmed, rid of leading
/// "```json" and "```" markers and of trailing "```" markers, and trimmed
/// again.
pub open spec fn unfenced(s: Seq<char>, json_mark: Seq<char>, mark: Seq<char>) -> Seq<char> {
    trimmed(strip_back(strip_front(strip_front(trimmed(s), json_mark), mark), mark))
}

fn is_space_char(c: char) -> (r: bool)
    ensures
        r == is_space(c),
{
    let u = c as u32;
    (0x9 <= u && u <= 0xd) || u == 0x20 || u == 0x85 || u == 0xa0 || u == 0x1680 || (0x2000 <= u
        && u <= 0x200a) || u == 0x2028 || u == 0x2029 || u == 0x202f || u == 0x205f || u == 0x3000
}

fn chars_of(s: &str) -> (r: Vec<char>)
    ensures
        r@ == s@,
{
    let n = s.unicode_len();
    let mut r: Vec<char> = Vec::new();
    let mut i: usize = 0;
    while i < n
        invariant
            n == s@.len(),
            i <= n,
            r@ == s@.subrange(0, i as int),
        decreases n - i,
    {
        r.push(s.get_char(i));
        i += 1;
        assert(r@ =~= s@.subrange(0, i as int));
    }
    assert(r@ =~= s@);
    r
}

fn skip_space_front(v: &Vec<char>, lo: usize, hi: usize) -> (r: usize)
    requires
        lo <= hi <= v@.len(),
    ensures
        lo <= r <= hi,
        v@.subrange(r as int, hi as int) == trim_front(v@.subrange(lo as int, hi as int)),
{
    let mut i = lo;
    while i < hi && is_space_char(v[i])
        invariant
            lo <= i <= hi <= v@.len(),
            trim_front(v@.subrange(i as int, hi as int)) == trim_front(
                v@.subrange(lo as int, hi as int),
            ),
        decreases hi - i,
    {
        assert(v@.subrange(i as int, hi as int).drop_first() =~= v@.subrange(i + 1, hi as int));
        i += 1;
    }
    i
}

fn skip_space_back(v: &Vec<char>, lo: usize, hi: usize) -> (r: usize)
    requires
        lo <= hi <= v@.len(),
    ensures
        lo <= r <= hi,
        v@.subrange(lo as int, r as int) == trim_back(v@.subrange(lo as int, hi as int)),
{
    let mut j = hi;
    while j > lo && is_space_char(v[j - 1])
        invariant
            lo <= j <= hi <= v@.len(),
            trim_back(v@.subrange(lo as int, j as int)) == trim_back(
                v@.subrange(lo as int, hi as int),
            ),
        decreases j - lo,
    {
        assert(v@.subrange(lo as int, j as int).drop_last() =~= v@.subrange(lo as int, j - 1));
        j -= 1;
    }
    j
}

/// Whether `p` occurs in `v` at `at`.
fn occurs_at(v: &Vec<char>, at: usize, p: &Vec<char>) -> (r: bool)
    requires
        at <= v@.len(),
    ensures
        r == (p@.len() <= v@.len() - at && v@.subrange(at as int, at + p@.len()) == p@),
{
    if p.len() > v.len() - at {
        return false;
    }
    let vl = v.len();
    let mut k: usize = 0;
    while k < p.len()
        invariant
            vl == v@.len(),
            at <= v@.len(),
            p@.len() <= v@.len() - at,
            k <= p@.len(),
            forall|m: int| 0 <= m < k ==> v@[at + m] == p@[m],
        decreases p@.len() - k,
    {
        if v[at + k] != p[k] {
            assert(v@.subrange(at as int, at + p@.len())[k as int] != p@[k as int]);
            return false;
        }
        k += 1;
    }
    assert(v@.subrange(at as int, at + p@.len()) =~= p@);
    true
}

fn skip_marks_front(v: &Vec<char>, lo: usize, hi: usize, p: &Vec<char>) -> (r: usize)
    requires
        lo <= hi <= v@.len(),
        p@.len() > 0,
    ensures
        lo <= r <= hi,
        v@.subrange(r as int, hi as int) == strip_front(v@.subrange(lo as int, hi as int), p@),
{
    let mut i = lo;
    while i < hi && p.len() <= hi - i && occurs_at(v, i, p)
        invariant
            lo <= i <= hi <= v@.len(),
            p@.len() > 0,
            strip_front(v@.subrange(i as int, hi as int), p@) == strip_front(
                v@.subrange(lo as int, hi as int),
                p@,
            ),
        decreases hi - i,
    {
        let ghost w = v@.subrange(i as int, hi as int);
        assert(w.subrange(0, p@.len() as int) =~= v@.subrange(i as int, i + p@.len()));
        assert(w.subrange(p@.len() as int, w.len() as int) =~= v@.subrange(
            i + p@.len(),
            hi as int,
        ));
        i += p.len();
    }
    proof {
        let w = v@.subrange(i as int, hi as int);
        if 0 < p@.len() <= w.len() {
            assert(w.subrange(0, p@.len() as int) =~= v@.subrange(i as int, i + p@.len()));
        }
    }
    i
}

fn skip_marks_back(v: &Vec<char>, lo: usize, hi: usize, p: &Vec<char>) -> (r: usize)
    requires
        lo <= hi <= v@.len(),
        p@.len() > 0,
    ensures
        lo <= r <= hi,
        v@.subrange(lo as int, r as int) == strip_back(v@.subrange(lo as int, hi as int), p@),
{
    let mut j = hi;
    while j > lo && p.len() <= j - lo && occurs_at(v, j - p.len(), p)
        invariant
            lo <= j <= hi <= v@.len(),
            p@.len() > 0,
            strip_back(v@.subrange(lo as int, j as int), p@) == strip_back(
                v@.subrange(lo as int, hi as int),
                p@,
            ),
        decreases j - lo,
    {
        let ghost w = v@.subrange(lo as int, j as int);
        assert(w.subrange(w.len() - p@.len(), w.len() as int) =~= v@.subrange(
            j - p@.len(),
            j as int,
        ));
        assert(w.subrange(0, w.len() - p@.len()) =~= v@.subrange(lo as int, j - p@.len()));
        j -= p.len();
    }
    proof {
        let w = v@.subrange(lo as int, j as int);
        if 0 < p@.len() <= w.len() {
            assert(w.subrange(w.len() - p@.len(), w.len() as int) =~= v@.subrange(
                j - p@.len(),
                j as int,
            ));
        }
    }
    j
}

/// The reply `text` with any code-fence wrapper taken off, ready to be
/// decoded a second time.
pub fn strip_code_fence(text: &str) -> (r: String)
    ensures
        r@ == unfenced(text@, "```json"@, "```"@),
{
    let v = chars_of(text);
    let json_mark = chars_of("```json");
    let mark = chars_of("```");
    proof {
        reveal_strlit("```json");
        reveal_strlit("```");
    }
    let n = v.len();
    assert(v@.subrange(0, n as int) =~= v@);
    let lo = skip_space_front(&v, 0, n);
    let hi = skip_space_back(&v, lo, n);
    let lo = skip_marks_front(&v, lo, hi, &json_mark);
    let lo = skip_marks_front(&v, lo, hi, &mark);
    let hi = skip_marks_back(&v, lo, hi, &mark);
    let lo2 = skip_space_front(&v, lo, hi);
    let hi2 = skip_space_back(&v, lo2, hi);
    String::from_str(text.substring_char(lo2, hi2))
}

} // verus!
