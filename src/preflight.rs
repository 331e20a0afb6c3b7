use vstd::prelude::*;
use crate::request::PreflightResponse;

verus! {

/// The header name whose consent the probe asks for, in lower case.
pub open spec fn authorization_name() -> Seq<char> {
    seq!['a', 'u', 't', 'h', 'o', 'r', 'i', 'z', 'a', 't', 'i', 'o', 'n']
}

/// The same name in upper case.
pub open spec fn authorization_upper() -> Seq<char> {
    seq!['A', 'U', 'T', 'H', 'O', 'R', 'I', 'Z', 'A', 'T', 'I', 'O', 'N']
}

/// `s` holds the header name, in any letter case, at position `i`.
pub open spec fn name_at(s: Seq<char>, i: int) -> bool {
    &&& 0 <= i
    &&& i + authorization_name().len() <= s.len()
    &&& forall|k: int|
        0 <= k < authorization_name().len() ==> (#[trigger] s[i + k] == authorization_name()[k]
            || s[i + k] == authorization_upper()[k])
}

/// Positions `a` up to `b` of `s` hold spaces only.
pub open spec fn all_spaces(s: Seq<char>, a: int, b: int) -> bool {
    forall|k: int| a <= k < b ==> #[trigger] s[k] == ' '
}

/// Only spaces stand between the start of `s`, or a comma, and position `i`.
pub open spec fn opens_entry(s: Seq<char>, i: int) -> bool {
    exists|p: int| 0 <= p <= i && (p == 0 || s[p - 1] == ',') && #[trigger] all_spaces(s, p, i)
}

/// Only spaces stand between position `j` and a comma, or the end of `s`.
pub open spec fn closes_entry(s: Seq<char>, j: int) -> bool {
    exists|q: int| j <= q <= s.len() && (q == s.len() || s[q] == ',') && #[trigger] all_spaces(s, j, q)
}

/// The comma-separated list `s` names the Authorization header as one of its
/// entries, ignoring letter case and spaces around the entry.
pub open spec fn lists_authorization(s: Seq<char>) -> bool {
    exists|i: int| name_at(s, i) && opens_entry(s, i) && closes_entry(s, i + authorization_name().len())
}

fn chars_of(s: &str) -> (r: Vec<char>)
    ensures
        r@ == s@,
{
    let n = s.unicode_len();
    let mut v: Vec<char> = Vec::new();
    let mut i: usize = 0;
    while i < n
        invariant
            n == s@.len(),
            i <= n,
            v@ == s@.subrange(0, i as int),
        decreases n - i,
    {
        v.push(s.get_char(i));
        i = i + 1;
    }
    assert(v@ =~= s@);
    v
}

fn name_at_exec(s: &Vec<char>, i: usize) -> (r: bool)
    requires
        i + 13 <= s.len(),
    ensures
        r == name_at(s@, i as int),
{
    let name: [char; 13] = ['a', 'u', 't', 'h', 'o', 'r', 'i', 'z', 'a', 't', 'i', 'o', 'n'];
    let upper: [char; 13] = ['A', 'U', 'T', 'H', 'O', 'R', 'I', 'Z', 'A', 'T', 'I', 'O', 'N'];
    assert(name@ =~= authorization_name());
    assert(upper@ =~= authorization_upper());
    let mut k: usize = 0;
    while k < 13
        invariant
            i + 13 <= s.len(),
            k <= 13,
            name@ == authorization_name(),
            upper@ == authorization_upper(),
            forall|m: int|
                0 <= m < k ==> (#[trigger] s@[i + m] == authorization_name()[m] || s@[i + m]
                    == authorization_upper()[m]),
        decreases 13 - k,
    {
        let c = s[i + k];
        if c != name[k] && c != upper[k] {
            return false;
        }
        k = k + 1;
    }
    true
}

fn opens_entry_exec(s: &Vec<char>, i: usize) -> (r: bool)
    requires
        i <= s@.len(),
    ensures
        r == opens_entry(s@, i as int),
{
    let mut p: usize = i;
    while p > 0 && s[p - 1] == ' '
        invariant
            p <= i <= s@.len(),
            forall|k: int| p <= k < i ==> #[trigger] s@[k] == ' ',
        decreases p,
    {
        p = p - 1;
    }
    let r = p == 0 || s[p - 1] == ',';
    if r {
        assert(all_spaces(s@, p as int, i as int));
    } else {
        assert forall|p2: int|
            0 <= p2 <= i && (p2 == 0 || s@[p2 - 1] == ',') implies !all_spaces(s@, p2, i as int) by {
            if p2 < p {
                assert(s@[p - 1] != ' ');
            } else {
                assert(s@[p2 - 1] == ' ');
            }
        }
    }
    r
}

fn closes_entry_exec(s: &Vec<char>, j: usize) -> (r: bool)
    requires
        j <= s@.len(),
    ensures
        r == closes_entry(s@, j as int),
{
    let mut q: usize = j;
    while q < s.len() && s[q] == ' '
        invariant
            j <= q <= s@.len(),
            forall|k: int| j <= k < q ==> #[trigger] s@[k] == ' ',
        decreases s@.len() - q,
    {
        q = q + 1;
    }
    let r = q == s.len() || s[q] == ',';
    if r {
        assert(all_spaces(s@, j as int, q as int));
    } else {
        assert forall|q2: int|
            j <= q2 <= s@.len() && (q2 == s@.len() || s@[q2] == ',') implies !all_spaces(s@, j as int, q2) by {
            if q2 > q {
                assert(s@[q as int] != ' ');
            } else {
                assert(s@[q2] == ' ');
            }
        }
    }
    r
}

/// Whether a preflight response's `Access-Control-Allow-Headers` value
/// grants the Authorization header.
pub fn allows_authorization(allow_headers: &str) -> (r: bool)
    ensures
        r == lists_authorization(allow_headers@),
{
    let s = chars_of(allow_headers);
    if s.len() < 13 {
        assert forall|i: int| !name_at(s@, i) by {}
        return false;
    }
    let last = s.len() - 13;
    let mut i: usize = 0;
    while i <= last
        invariant
            last + 13 == s.len(),
            i <= last + 1,
            s@ == allow_headers@,
            forall|m: int|
                0 <= m < i ==> !(#[trigger] name_at(s@, m) && opens_entry(s@, m) && closes_entry(s@, m + 13)),
        decreases last + 1 - i,
    {
        if name_at_exec(&s, i) && opens_entry_exec(&s, i) && closes_entry_exec(&s, i + 13) {
            return true;
        }
        i = i + 1;
    }
    assert forall|m: int| !(#[trigger] name_at(s@, m) && opens_entry(s@, m) && closes_entry(s@, m + 13)) by {
        if m > last {
            assert(!name_at(s@, m));
        }
    }
    false
}

/// The verdict of a successful probe: the real request targets `location`
/// (the already resolved URL the probe ended at), and may carry the
/// Authorization header exactly when the probe's allow-list names it.
pub fn interpret_preflight(location: String, allow_headers: Option<&str>) -> (r: PreflightResponse)
    ensures
        r.location@ == location@,
        r.allow_authorization_header == match allow_headers {
            Some(h) => lists_authorization(h@),
            None => false,
        },
{
    let allow = match allow_headers {
        Some(h) => allows_authorization(h),
        None => false,
    };
    PreflightResponse { allow_authorization_header: allow, location }
}

} // verus!
