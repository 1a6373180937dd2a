//! Byte-string helpers shared by the protocol modules.
use vstd::prelude::*;
use vstd::slice::*;
use vstd::string::*;

verus! {

/// The bytes of a text made of ASCII characters only.
pub open spec fn ascii(s: Seq<char>) -> Seq<u8> {
    Seq::new(s.len(), |i: int| s[i] as u8)
}

/// The view of an optional byte string.
pub open spec fn opt_view(o: Option<Vec<u8>>) -> Option<Seq<u8>> {
    match o {
        Some(v) => Some(v@),
        None => None,
    }
}

/// The view of an optional byte slice.
pub open spec fn opt_slice_view(o: Option<&[u8]>) -> Option<Seq<u8>> {
    match o {
        Some(s) => Some(s@),
        None => None,
    }
}

/// Borrows an optional byte string as an optional slice.
pub fn as_opt_slice(o: &Option<Vec<u8>>) -> (r: Option<&[u8]>)
    ensures
        opt_slice_view(r) == opt_view(*o),
{
    match o {
        Some(v) => Some(v.as_slice()),
        None => None,
    }
}

/// Copies an ASCII string literal into a byte vector.
pub fn literal(s: &str) -> (r: Vec<u8>)
    requires
        is_ascii(s),
    ensures
        r@ == ascii(s@),
{
    proof {
        is_ascii_spec_bytes(s);
    }
    let r = slice_to_vec(s.as_bytes());
    assert(r@ =~= ascii(s@));
    r
}

/// Byte-for-byte equality.
pub fn bytes_eq(a: &[u8], b: &[u8]) -> (r: bool)
    ensures
        r == (a@ == b@),
{
    if a.len() != b.len() {
        return false;
    }
    let mut i: usize = 0;
    while i < a.len()
        invariant
            a.len() == b.len(),
            i <= a.len(),
            forall|k: int| 0 <= k < i ==> a@[k] == b@[k],
        decreases a.len() - i,
    {
        if a[i] != b[i] {
            return false;
        }
        i = i + 1;
    }
    assert(a@ =~= b@);
    true
}

/// Copies a byte slice.
pub fn to_vec(a: &[u8]) -> (r: Vec<u8>)
    ensures
        r@ == a@,
{
    slice_to_vec(a)
}

/// Copies `a[from..to]`.
pub fn copy_range(a: &[u8], from: usize, to: usize) -> (r: Vec<u8>)
    requires
        from <= to <= a.len(),
    ensures
        r@ == a@.subrange(from as int, to as int),
{
    slice_to_vec(slice_subrange(a, from, to))
}

/// The decimal digits of `n`, most significant first, as ASCII.
pub open spec fn decimal(n: nat) -> Seq<u8>
    decreases n,
{
    if n < 10 {
        seq![(48 + n) as u8]
    } else {
        decimal(n / 10).push((48 + n % 10) as u8)
    }
}

/// Renders `n` in decimal, as `u64::to_string` does.
pub fn u64_to_decimal(n: u64) -> (r: Vec<u8>)
    ensures
        r@ == decimal(n as nat),
{
    // Digits come out least significant first; they are reversed at the end.
    let mut rev: Vec<u8> = Vec::new();
    let mut m: u64 = n;
    while m >= 10
        invariant
            decimal(n as nat) == decimal(m as nat) + rev@.reverse(),
        decreases m,
    {
        let d: u8 = (m % 10) as u8;
        proof {
            let old_rev = rev@;
            assert(decimal(m as nat) == decimal((m / 10) as nat).push((48 + m % 10) as u8));
            assert(old_rev.push((48 + d) as u8).reverse() =~= seq![(48 + d) as u8] + old_rev.reverse());
            assert(decimal((m / 10) as nat).push((48 + d) as u8) + old_rev.reverse()
                =~= decimal((m / 10) as nat) + (seq![(48 + d) as u8] + old_rev.reverse()));
        }
        rev.push(48 + d);
        m = m / 10;
    }
    let mut out: Vec<u8> = Vec::new();
    out.push(48 + (m as u8));
    let mut i: usize = rev.len();
    while i > 0
        invariant
            i <= rev.len(),
            m < 10,
            out@ == decimal(m as nat) + rev@.reverse().subrange(0, rev.len() - i),
        decreases i,
    {
        i = i - 1;
        proof {
            let r = rev@.reverse();
            let k = rev.len() - i - 1;
            assert(r[k] == rev@[i as int]);
            assert(r.subrange(0, k + 1) =~= r.subrange(0, k).push(r[k]));
            assert((decimal(m as nat) + r.subrange(0, k)).push(r[k])
                =~= decimal(m as nat) + r.subrange(0, k + 1));
        }
        out.push(rev[i]);
    }
    proof {
        let r = rev@.reverse();
        assert(r.subrange(0, rev.len() as int) =~= r);
    }
    out
}

} // verus!
