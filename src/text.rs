use vstd::prelude::*;

verus! {

/// Index of the first `"::"` that starts at or after `i`, or `s.len()` when there is none.
pub open spec fn sep_index(s: Seq<char>, i: int) -> int
    decreases s.len() - i,
{
    if i < 0 || i + 1 >= s.len() {
        s.len() as int
    } else if s[i] == ':' && s[i + 1] == ':' {
        i
    } else {
        sep_index(s, i + 1)
    }
}

/// The pieces of `s` from `start` on, cut at each `"::"`, read left to right.
pub open spec fn split_from(s: Seq<char>, start: int) -> Seq<Seq<char>>
    decreases s.len() - start,
{
    let j = sep_index(s, start);
    if start < 0 || start > s.len() || j + 1 >= s.len() || j < start {
        seq![s.subrange(start, s.len() as int)]
    } else {
        seq![s.subrange(start, j)] + split_from(s, j + 2)
    }
}

/// The pieces of `s` cut at each `"::"`; never empty.
pub open spec fn split_path(s: Seq<char>) -> Seq<Seq<char>> {
    split_from(s, 0)
}

/// Each segment followed by `sep`.
pub open spec fn terminated(segs: Seq<Seq<char>>, sep: Seq<char>) -> Seq<char>
    decreases segs.len(),
{
    if segs.len() == 0 {
        Seq::empty()
    } else {
        terminated(segs.drop_last(), sep) + segs.last() + sep
    }
}

/// The segments with `sep` between each two of them.
pub open spec fn joined(segs: Seq<Seq<char>>, sep: Seq<char>) -> Seq<char> {
    if segs.len() == 0 {
        Seq::empty()
    } else {
        terminated(segs.drop_last(), sep) + segs.last()
    }
}

pub open spec fn has_double_underscore(s: Seq<char>) -> bool {
    exists|i: int| 0 <= i && i + 1 < s.len() && #[trigger] s[i] == '_' && s[i + 1] == '_'
}

pub open spec fn has_prefix(s: Seq<char>, p: Seq<char>) -> bool {
    p.len() <= s.len() && s.subrange(0, p.len() as int) == p
}

pub open spec fn digit_char(d: nat) -> char {
    if d == 0 {
        '0'
    } else if d == 1 {
        '1'
    } else if d == 2 {
        '2'
    } else if d == 3 {
        '3'
    } else if d == 4 {
        '4'
    } else if d == 5 {
        '5'
    } else if d == 6 {
        '6'
    } else if d == 7 {
        '7'
    } else if d == 8 {
        '8'
    } else {
        '9'
    }
}

/// The decimal digits of `n`, most significant first.
pub open spec fn decimal(n: nat) -> Seq<char>
    decreases n,
{
    if n < 10 {
        seq![digit_char(n)]
    } else {
        decimal(n / 10).push(digit_char(n % 10))
    }
}

/// Whether two strings hold the same characters.
pub fn str_eq(a: &str, b: &str) -> (r: bool)
    ensures
        r == (a@ == b@),
{
    let n = a.unicode_len();
    let m = b.unicode_len();
    if n != m {
        return false;
    }
    let mut i: usize = 0;
    while i < n
        invariant
            n == a@.len(),
            m == b@.len(),
            n == m,
            i <= n,
            a@.subrange(0, i as int) == b@.subrange(0, i as int),
        decreases n - i,
    {
        if a.get_char(i) != b.get_char(i) {
            return false;
        }
        assert(a@.subrange(0, i + 1) == a@.subrange(0, i as int).push(a@[i as int]));
        assert(b@.subrange(0, i + 1) == b@.subrange(0, i as int).push(b@[i as int]));
        i = i + 1;
    }
    assert(a@ == a@.subrange(0, n as int));
    assert(b@ == b@.subrange(0, n as int));
    true
}

/// A new `String` with the characters of `s`.
pub fn owned(s: &str) -> (r: String)
    ensures
        r@ == s@,
{
    String::from_str(s)
}

/// Whether `s` holds two underscores in a row.
pub fn contains_double_underscore(s: &str) -> (r: bool)
    ensures
        r == has_double_underscore(s@),
{
    let n = s.unicode_len();
    let mut i: usize = 0;
    while n > 0 && i < n - 1
        invariant
            n == s@.len(),
            forall|k: int| 0 <= k < i && k + 1 < n ==> !(#[trigger] s@[k] == '_' && s@[k + 1] == '_'),
        decreases n - i,
    {
        if s.get_char(i) == '_' && s.get_char(i + 1) == '_' {
            return true;
        }
        i = i + 1;
    }
    false
}

/// Whether `s` begins with `p`.
pub fn starts_with(s: &str, p: &str) -> (r: bool)
    ensures
        r == has_prefix(s@, p@),
{
    let n = s.unicode_len();
    let m = p.unicode_len();
    if m > n {
        return false;
    }
    let mut i: usize = 0;
    while i < m
        invariant
            n == s@.len(),
            m == p@.len(),
            m <= n,
            i <= m,
            s@.subrange(0, i as int) == p@.subrange(0, i as int),
        decreases m - i,
    {
        if s.get_char(i) != p.get_char(i) {
            assert(s@.subrange(0, m as int)[i as int] != p@[i as int]);
            return false;
        }
        assert(s@.subrange(0, i + 1) == s@.subrange(0, i as int).push(s@[i as int]));
        assert(p@.subrange(0, i + 1) == p@.subrange(0, i as int).push(p@[i as int]));
        i = i + 1;
    }
    assert(p@ == p@.subrange(0, m as int));
    true
}

proof fn lemma_sep_index_bounds(s: Seq<char>, i: int)
    requires
        0 <= i,
    ensures
        i <= sep_index(s, i) <= s.len() || sep_index(s, i) == s.len(),
        sep_index(s, i) < s.len() ==> sep_index(s, i) + 1 < s.len() && s[sep_index(s, i)] == ':'
            && s[sep_index(s, i) + 1] == ':',
    decreases s.len() - i,
{
    if i + 1 < s.len() && !(s[i] == ':' && s[i + 1] == ':') {
        lemma_sep_index_bounds(s, i + 1);
    }
}

/// Cuts `s` at each `"::"`.
pub fn split_segments(s: &str) -> (r: Vec<String>)
    ensures
        r@.map_values(|x: String| x@) == split_path(s@),
{
    let n = s.unicode_len();
    let mut out: Vec<String> = Vec::new();
    let mut start: usize = 0;
    let mut i: usize = 0;
    while i < n
        invariant
            n == s@.len(),
            start <= i <= n,
            sep_index(s@, start as int) == sep_index(s@, i as int),
            out@.map_values(|x: String| x@) + split_from(s@, start as int) == split_path(s@),
        decreases n - i,
    {
        if i + 1 < n && s.get_char(i) == ':' && s.get_char(i + 1) == ':' {
            let piece = s.substring_char(start, i);
            let ghost before = out@.map_values(|x: String| x@);
            proof {
                lemma_sep_index_bounds(s@, start as int);
                assert(split_from(s@, start as int) == seq![s@.subrange(start as int, i as int)]
                    + split_from(s@, i + 2));
            }
            out.push(owned(piece));
            assert(out@.map_values(|x: String| x@) == before.push(piece@));
            start = i + 2;
            i = i + 2;
        } else {
            proof {
                assert(sep_index(s@, i as int) == sep_index(s@, i + 1)) by {
                    reveal_with_fuel(sep_index, 2);
                }
            }
            i = i + 1;
        }
    }
    let ghost before = out@.map_values(|x: String| x@);
    proof {
        lemma_sep_index_bounds(s@, start as int);
        assert(split_from(s@, start as int) == seq![s@.subrange(start as int, n as int)]);
    }
    let last = s.substring_char(start, n);
    out.push(owned(last));
    assert(out@.map_values(|x: String| x@) == before.push(last@));
    assert(before.push(last@) == before + seq![last@]);
    out
}

/// The segments of `segs`, each followed by `sep`, appended to `out`.
pub fn push_terminated(out: &mut String, segs: &Vec<String>, sep: &str)
    ensures
        final(out)@ == old(out)@ + terminated(segs@.map_values(|x: String| x@), sep@),
{
    let ghost v = segs@.map_values(|x: String| x@);
    let mut i: usize = 0;
    while i < segs.len()
        invariant
            v == segs@.map_values(|x: String| x@),
            i <= segs.len(),
            out@ == old(out)@ + terminated(v.subrange(0, i as int), sep@),
        decreases segs.len() - i,
    {
        out.append(segs[i].as_str());
        out.append(sep);
        proof {
            let p = v.subrange(0, i + 1);
            assert(p.drop_last() == v.subrange(0, i as int));
            assert(p.last() == segs[i as int]@);
        }
        i = i + 1;
    }
    assert(v.subrange(0, segs.len() as int) == v);
}

/// The segments of `segs` with `sep` between each two of them.
pub fn join(segs: &Vec<String>, sep: &str) -> (r: String)
    ensures
        r@ == joined(segs@.map_values(|x: String| x@), sep@),
{
    let ghost v = segs@.map_values(|x: String| x@);
    let mut out = String::new();
    let n = segs.len();
    if n == 0 {
        return out;
    }
    let mut i: usize = 0;
    while i + 1 < n
        invariant
            v == segs@.map_values(|x: String| x@),
            n == segs.len(),
            n >= 1,
            i + 1 <= n,
            out@ == terminated(v.subrange(0, i as int), sep@),
        decreases n - i,
    {
        out.append(segs[i].as_str());
        out.append(sep);
        proof {
            let p = v.subrange(0, i + 1);
            assert(p.drop_last() == v.subrange(0, i as int));
        }
        i = i + 1;
    }
    out.append(segs[n - 1].as_str());
    assert(v.drop_last() == v.subrange(0, n - 1));
    out
}

/// The decimal digits of `n`.
pub fn decimal_string(n: usize) -> (r: String)
    ensures
        r@ == decimal(n as nat),
    decreases n,
{
    let d = n % 10;
    let c: &str = if d == 0 {
        "0"
    } else if d == 1 {
        "1"
    } else if d == 2 {
        "2"
    } else if d == 3 {
        "3"
    } else if d == 4 {
        "4"
    } else if d == 5 {
        "5"
    } else if d == 6 {
        "6"
    } else if d == 7 {
        "7"
    } else if d == 8 {
        "8"
    } else {
        "9"
    };
    proof {
        reveal_strlit("0");
        reveal_strlit("1");
        reveal_strlit("2");
        reveal_strlit("3");
        reveal_strlit("4");
        reveal_strlit("5");
        reveal_strlit("6");
        reveal_strlit("7");
        reveal_strlit("8");
        reveal_strlit("9");
    }
    assert(c@ == seq![digit_char(d as nat)]);
    if n < 10 {
        owned(c)
    } else {
        let mut r = decimal_string(n / 10);
        r.append(c);
        assert(seq![digit_char(d as nat)] == Seq::<char>::empty().push(digit_char(d as nat)));
        r
    }
}

} // verus!
