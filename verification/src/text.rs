use vstd::prelude::*;
use vstd::string::StrSliceExecFns;

verus! {

/// Index of the first `=` at or after `i`, if any.
pub open spec fn first_eq_from(s: Seq<char>, i: int) -> Option<int>
    decreases s.len() - i,
{
    if i < 0 || i >= s.len() {
        None
    } else if s[i] == '=' {
        Some(i)
    } else {
        first_eq_from(s, i + 1)
    }
}

/// Smallest index in `[i, end]` whose character is not a space (`end` when
/// all of them are).
pub open spec fn skip_spaces_spec(s: Seq<char>, i: int, end: int) -> int
    decreases end - i,
{
    if i < 0 || i >= end {
        end
    } else if s[i] == ' ' {
        skip_spaces_spec(s, i + 1, end)
    } else {
        i
    }
}

/// Largest index in `[start, j]` such that the character before it is not a
/// space (`start` when all of them are).
pub open spec fn trim_end_spec(s: Seq<char>, start: int, j: int) -> int
    decreases j - start,
{
    if j <= start {
        start
    } else if s[j - 1] == ' ' {
        trim_end_spec(s, start, j - 1)
    } else {
        j
    }
}

/// The declared type's text inside a `Type = ...` payload: everything after
/// the first `=`, with leading and trailing spaces removed; empty when the
/// payload has no `=`.
pub open spec fn declared_type_of(p: Seq<char>) -> Seq<char> {
    match first_eq_from(p, 0) {
        None => Seq::<char>::empty(),
        Some(e) => {
            let a = skip_spaces_spec(p, e + 1, p.len() as int);
            let b = trim_end_spec(p, a, p.len() as int);
            p.subrange(a, b)
        },
    }
}

/// Finds the first `=` in the text, as `first_eq_from` says.
fn find_first_eq(s: &str, n: usize) -> (r: Option<usize>)
    requires
        n == s@.len(),
    ensures
        match r {
            Some(i) => i < s@.len() && first_eq_from(s@, 0) == Some(i as int),
            None => first_eq_from(s@, 0) is None,
        },
{
    let mut i: usize = 0;
    while i < n
        invariant
            i <= n,
            n == s@.len(),
            first_eq_from(s@, 0) == first_eq_from(s@, i as int),
        decreases n - i,
    {
        if s.get_char(i) == '=' {
            assert(first_eq_from(s@, i as int) == Some(i as int));
            return Some(i);
        }
        assert(first_eq_from(s@, i as int) == first_eq_from(s@, i as int + 1));
        i = i + 1;
    }
    None
}

/// Index of the first non-space at or after `from`, as `skip_spaces_spec` says.
fn skip_spaces(s: &str, from: usize, n: usize) -> (r: usize)
    requires
        from <= n,
        n == s@.len(),
    ensures
        from <= r <= n,
        r as int == skip_spaces_spec(s@, from as int, n as int),
{
    let mut a: usize = from;
    while a < n
        invariant
            from <= a <= n,
            n == s@.len(),
            skip_spaces_spec(s@, from as int, n as int) == skip_spaces_spec(
                s@,
                a as int,
                n as int,
            ),
        decreases n - a,
    {
        if s.get_char(a) != ' ' {
            assert(skip_spaces_spec(s@, a as int, n as int) == a as int);
            return a;
        }
        assert(skip_spaces_spec(s@, a as int, n as int) == skip_spaces_spec(
            s@,
            a as int + 1,
            n as int,
        ));
        a = a + 1;
    }
    a
}

/// End of the text in `[start, j)` once trailing spaces are dropped, as
/// `trim_end_spec` says.
fn trim_end(s: &str, start: usize, j: usize) -> (r: usize)
    requires
        start <= j,
        j <= s@.len(),
    ensures
        start <= r <= j,
        r as int == trim_end_spec(s@, start as int, j as int),
{
    let mut b: usize = j;
    while b > start
        invariant
            start <= b <= j,
            j <= s@.len(),
            trim_end_spec(s@, start as int, j as int) == trim_end_spec(
                s@,
                start as int,
                b as int,
            ),
        decreases b,
    {
        if s.get_char(b - 1) != ' ' {
            assert(trim_end_spec(s@, start as int, b as int) == b as int);
            return b;
        }
        assert(trim_end_spec(s@, start as int, b as int) == trim_end_spec(
            s@,
            start as int,
            b as int - 1,
        ));
        b = b - 1;
    }
    b
}

/// The declared type's text inside a `Type = ...` payload, sliced out of the
/// payload itself so the author's own spelling is kept.
pub fn declared_type_text(payload: &str) -> (r: String)
    ensures
        r@ == declared_type_of(payload@),
{
    let n: usize = payload.unicode_len();
    let e: usize = match find_first_eq(payload, n) {
        Some(i) => i,
        None => {
            let empty = String::new();
            proof {
                assert(empty@ =~= declared_type_of(payload@));
            }
            return empty;
        },
    };
    let a: usize = skip_spaces(payload, e + 1, n);
    let b: usize = trim_end(payload, a, n);
    let piece = payload.substring_char(a, b);
    proof {
        assert(piece@ =~= declared_type_of(payload@));
    }
    piece.to_owned()
}

} // verus!
