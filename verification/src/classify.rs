//! The classification rule for barcode scans: a pure, total decision function
//! standing in for a future external validation service.

use vstd::prelude::*;

verus! {

/// Characters the trimming rule treats as whitespace.
pub open spec fn is_space_char(c: char) -> bool {
    c == ' ' || c == '\t' || c == '\n' || c == '\r'
}

/// `s` with leading whitespace removed.
pub open spec fn trim_front(s: Seq<char>) -> Seq<char>
    decreases s.len(),
{
    if s.len() > 0 && is_space_char(s[0]) {
        trim_front(s.drop_first())
    } else {
        s
    }
}

/// `s` with trailing whitespace removed.
pub open spec fn trim_back(s: Seq<char>) -> Seq<char>
    decreases s.len(),
{
    if s.len() > 0 && is_space_char(s.last()) {
        trim_back(s.drop_last())
    } else {
        s
    }
}

/// `s` with both leading and trailing whitespace removed.
pub open spec fn trimmed(s: Seq<char>) -> Seq<char> {
    trim_back(trim_front(s))
}

/// The classification rule: a scan of `s` succeeds exactly when the trimmed
/// barcode is non-empty, has even character length, and does not end in '9'.
pub open spec fn classify(s: Seq<char>) -> bool {
    let t = trimmed(s);
    t.len() > 0 && t.len() % 2 == 0 && t.last() != '9'
}

/// The characters of `s`, as a vector.
pub fn chars_of(s: &str) -> (r: Vec<char>)
    ensures
        r@ == s@,
{
    broadcast use vstd::string::axiom_spec_iter;

    let mut r: Vec<char> = Vec::new();
    for c in it: s.chars()
        invariant
            it.seq() == s@,
            r@ == it.seq().subrange(0, it.index() as int),
    {
        r.push(c);
    }
    proof {
        assert(r@ =~= s@);
    }
    r
}

/// Removing leading whitespace skips exactly the longest whitespace prefix.
proof fn lemma_trim_front_indexed(s: Seq<char>, k: int)
    requires
        0 <= k <= s.len(),
        forall|i: int| 0 <= i < k ==> is_space_char(s[i]),
        k == s.len() || !is_space_char(s[k]),
    ensures
        trim_front(s) == s.subrange(k, s.len() as int),
    decreases k,
{
    if k == 0 {
        assert(s.subrange(0, s.len() as int) =~= s);
    } else {
        lemma_trim_front_indexed(s.drop_first(), k - 1);
        assert(s.drop_first().subrange(k - 1, s.drop_first().len() as int) =~= s.subrange(
            k,
            s.len() as int,
        ));
    }
}

/// Removing trailing whitespace drops exactly the longest whitespace suffix.
proof fn lemma_trim_back_indexed(s: Seq<char>, k: int)
    requires
        0 <= k <= s.len(),
        forall|i: int| k <= i < s.len() ==> is_space_char(s[i]),
        k == 0 || !is_space_char(s[k - 1]),
    ensures
        trim_back(s) == s.subrange(0, k),
    decreases s.len() - k,
{
    if k == s.len() {
        assert(s.subrange(0, k) =~= s);
    } else {
        assert(is_space_char(s.last()));
        lemma_trim_back_indexed(s.drop_last(), k);
        assert(s.drop_last().subrange(0, k) =~= s.subrange(0, k));
    }
}

/// The classification outcome is a function of the barcode's characters alone:
/// it is false whenever the trimmed barcode is empty or of odd length, and true
/// exactly when the trimmed barcode is non-empty, of even length, and does not
/// end in '9'.
pub proof fn lemma_classify_characterization(s: Seq<char>)
    ensures
        classify(s) <==> (trimmed(s).len() > 0 && trimmed(s).len() % 2 == 0 && trimmed(s).last()
            != '9'),
        trimmed(s).len() % 2 == 1 ==> !classify(s),
        trimmed(s).len() == 0 ==> !classify(s),
{
}

/// Finds the range of `v` left over once leading and trailing whitespace is
/// trimmed.
fn trim_range(v: &Vec<char>) -> (r: (usize, usize))
    ensures
        r.0 <= r.1 <= v@.len(),
        trimmed(v@) == v@.subrange(r.0 as int, r.1 as int),
{
    let n = v.len();
    let mut start: usize = 0;
    while start < n && (v[start] == ' ' || v[start] == '\t' || v[start] == '\n' || v[start]
        == '\r')
        invariant
            0 <= start <= n,
            n == v.len(),
            forall|i: int| 0 <= i < start ==> is_space_char(v@[i]),
        decreases n - start,
    {
        start = start + 1;
    }
    let mut end: usize = n;
    while end > start && (v[end - 1] == ' ' || v[end - 1] == '\t' || v[end - 1] == '\n' || v[end
        - 1] == '\r')
        invariant
            start <= end <= n,
            n == v.len(),
            forall|i: int| end <= i < n ==> is_space_char(v@[i]),
        decreases end,
    {
        end = end - 1;
    }
    proof {
        lemma_trim_front_indexed(v@, start as int);
        let t1 = v@.subrange(start as int, n as int);
        lemma_trim_back_indexed(t1, end - start);
        assert(t1.subrange(0, end - start) =~= v@.subrange(start as int, end as int));
        assert(trimmed(v@) == v@.subrange(start as int, end as int));
    }
    (start, end)
}

/// Decides whether the barcode is empty once trimmed.
pub fn trimmed_is_empty(s: &str) -> (r: bool)
    ensures
        r == (trimmed(s@).len() == 0),
{
    let v = chars_of(s);
    let (start, end) = trim_range(&v);
    end == start
}

/// Decides whether a scan of `barcode` counts as a success. The result depends
/// only on the barcode's characters, so identical inputs always yield identical
/// outcomes.
pub fn mock_external_service(barcode: &str) -> (r: bool)
    ensures
        r == classify(barcode@),
{
    let v = chars_of(barcode);
    let (start, end) = trim_range(&v);
    if end == start {
        false
    } else {
        proof {
            assert(trimmed(barcode@).last() == v@[end - 1]);
        }
        (end - start) % 2 == 0 && v[end - 1] != '9'
    }
}

} // verus!
