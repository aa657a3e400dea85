//! Small verified text and search utilities: the final segment of a
//! reference name, hexadecimal prefixes of an id, the repository marker
//! path of a directory, and the first marked position of a scan.

use vstd::prelude::*;

verus! {

/// The text after the last '/' of `s`; all of `s` when it holds no '/'.
pub open spec fn last_part_view(s: Seq<char>) -> Seq<char>
    decreases s.len(),
{
    if s.len() == 0 {
        s
    } else if s.last() == '/' {
        Seq::empty()
    } else {
        last_part_view(s.drop_last()).push(s.last())
    }
}

proof fn lemma_last_part(s: Seq<char>, i: int)
    requires
        0 <= i <= s.len(),
        forall|j: int| i <= j < s.len() ==> s[j] != '/',
        i > 0 ==> s[i - 1] == '/',
    ensures
        last_part_view(s) == s.subrange(i, s.len() as int),
    decreases s.len(),
{
    if s.len() == 0 {
        assert(last_part_view(s) =~= s.subrange(i, s.len() as int));
    } else if i == s.len() {
        assert(s.last() == '/');
        assert(last_part_view(s) =~= s.subrange(i, s.len() as int));
    } else {
        assert(s.last() != '/');
        lemma_last_part(s.drop_last(), i);
        assert(s.drop_last().subrange(i, s.len() - 1) =~= s.subrange(i, s.len() - 1));
        assert(s.subrange(i, s.len() - 1).push(s.last()) =~= s.subrange(i, s.len() as int));
    }
}

/// The final path segment of a reference name: everything after the last
/// '/', or the whole name when it holds none.
pub fn last_part(s: &str) -> (r: &str)
    ensures
        r@ == last_part_view(s@),
{
    let n = s.unicode_len();
    let mut i = n;
    while i > 0 && s.get_char(i - 1) != '/'
        invariant
            i <= n,
            n == s@.len(),
            forall|j: int| i <= j < n ==> s@[j] != '/',
        decreases i,
    {
        i = i - 1;
    }
    proof {
        lemma_last_part(s@, i as int);
    }
    s.substring_char(i, n)
}

/// The hexadecimal digit of a value below 16.
pub open spec fn hex_char(n: int) -> char {
    "0123456789abcdef"@[n]
}

/// The lower-case hexadecimal rendering of a byte string, two digits per
/// byte, most significant digit first.
pub open spec fn hex_view(bytes: Seq<u8>) -> Seq<char>
    decreases bytes.len(),
{
    if bytes.len() == 0 {
        Seq::empty()
    } else {
        hex_view(bytes.drop_last()) + seq![
            hex_char((bytes.last() / 16) as int),
            hex_char((bytes.last() % 16) as int),
        ]
    }
}

fn hex_digit_str(n: u8) -> (r: &'static str)
    requires
        n < 16,
    ensures
        r@ == seq![hex_char(n as int)],
{
    let table = "0123456789abcdef";
    proof {
        reveal_strlit("0123456789abcdef");
    }
    let i = n as usize;
    let r = table.substring_char(i, i + 1);
    assert(r@ =~= seq![hex_char(n as int)]);
    r
}

/// The hexadecimal rendering of the first `k` bytes, `2 * k` digits.
pub fn hex_prefix(bytes: &Vec<u8>, k: usize) -> (r: String)
    requires
        k <= bytes@.len(),
    ensures
        r@ == hex_view(bytes@.take(k as int)),
{
    let mut out = String::new();
    let mut i: usize = 0;
    while i < k
        invariant
            i <= k <= bytes@.len(),
            out@ == hex_view(bytes@.take(i as int)),
        decreases k - i,
    {
        let b = bytes[i];
        out.append(hex_digit_str(b / 16));
        out.append(hex_digit_str(b % 16));
        proof {
            assert(bytes@.take(i + 1).drop_last() =~= bytes@.take(i as int));
            assert(bytes@.take(i + 1).last() == b);
        }
        i = i + 1;
    }
    out
}

/// The repository marker path of a directory: the directory with ".git"
/// joined as one more path segment.
pub open spec fn marker_path_view(d: Seq<char>) -> Seq<char> {
    if d.len() == 0 {
        ".git"@
    } else if d.last() == '/' {
        d + ".git"@
    } else {
        d + "/.git"@
    }
}

/// Joins ".git" onto a directory path, adding a separator only where the
/// directory does not already end with one.
pub fn marker_path(dir: &str) -> (r: String)
    ensures
        r@ == marker_path_view(dir@),
{
    let n = dir.unicode_len();
    if n == 0 {
        String::from_str(".git")
    } else if dir.get_char(n - 1) == '/' {
        String::from_str(dir).concat(".git")
    } else {
        String::from_str(dir).concat("/.git")
    }
}

/// The position of the first set flag: the scan's most specific hit. The
/// result is that first position whatever its depth, and is absent exactly
/// when no flag is set.
pub fn first_marked(markers: &Vec<bool>) -> (r: Option<usize>)
    ensures
        r matches Some(i) ==> i < markers@.len() && markers@[i as int] && (forall|j: int|
            0 <= j < i ==> !markers@[j]),
        r is None ==> forall|j: int| 0 <= j < markers@.len() ==> !markers@[j],
{
    let mut i: usize = 0;
    while i < markers.len()
        invariant
            i <= markers@.len(),
            forall|j: int| 0 <= j < i ==> !markers@[j],
        decreases markers@.len() - i,
    {
        if markers[i] {
            return Some(i);
        }
        i = i + 1;
    }
    None
}

} // verus!
