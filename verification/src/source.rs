//! Classification of the configured source id: a numeric string names a
//! local device index, anything else a file or path source.
//!
//! The id is taken as raw bytes; surrounding ASCII whitespace is ignored,
//! as a configuration file usually ends in a newline.

use vstd::prelude::*;

verus! {

/// What the configured source id names.
#[derive(Clone, Copy, Debug, PartialEq, Eq, Structural)]
pub enum SourceKind {
    /// A local capture device, by index.
    DeviceIndex { index: i32 },
    /// A file or path source.
    FilePath,
}

/// ASCII whitespace: space, tab, line feed, carriage return.
pub open spec fn is_space(b: u8) -> bool {
    b == 32 || b == 9 || b == 10 || b == 13
}

/// An ASCII decimal digit.
pub open spec fn is_digit(b: u8) -> bool {
    48 <= b <= 57
}

/// `s` without its leading ASCII whitespace.
pub open spec fn trim_front(s: Seq<u8>) -> Seq<u8>
    decreases s.len(),
{
    if s.len() > 0 && is_space(s[0]) {
        trim_front(s.subrange(1, s.len() as int))
    } else {
        s
    }
}

/// `s` without its trailing ASCII whitespace.
pub open spec fn trim_back(s: Seq<u8>) -> Seq<u8>
    decreases s.len(),
{
    if s.len() > 0 && is_space(s[s.len() - 1]) {
        trim_back(s.drop_last())
    } else {
        s
    }
}

/// `s` without surrounding ASCII whitespace.
pub open spec fn trimmed(s: Seq<u8>) -> Seq<u8> {
    trim_back(trim_front(s))
}

/// Every byte of `s` is a decimal digit.
pub open spec fn all_digits(s: Seq<u8>) -> bool {
    forall|i: int| 0 <= i < s.len() ==> is_digit(s[i])
}

/// The number the decimal digit string `s` denotes.
pub open spec fn digits_value(s: Seq<u8>) -> int
    decreases s.len(),
{
    if s.len() == 0 {
        0
    } else {
        digits_value(s.drop_last()) * 10 + s.last() - 48
    }
}

/// A source id is numeric when, after trimming, it is a non-empty digit
/// string whose value fits a device index.
pub open spec fn is_numeric_source(s: Seq<u8>) -> bool {
    let t = trimmed(s);
    t.len() > 0 && all_digits(t) && digits_value(t) <= i32::MAX as int
}

/// A digit string denotes a non-negative number.
pub proof fn lemma_digits_value_nonneg(s: Seq<u8>)
    requires
        all_digits(s),
    ensures
        digits_value(s) >= 0,
    decreases s.len(),
{
    if s.len() > 0 {
        assert(all_digits(s.drop_last())) by {
            assert(forall|i: int| 0 <= i < s.len() - 1 ==> s.drop_last()[i] == s[i]);
        }
        lemma_digits_value_nonneg(s.drop_last());
    }
}

/// A prefix of a digit string denotes no more than the whole string.
pub proof fn lemma_digits_value_take_le(s: Seq<u8>, k: int)
    requires
        all_digits(s),
        0 <= k <= s.len(),
    ensures
        digits_value(s.take(k)) <= digits_value(s),
    decreases s.len() - k,
{
    if k == s.len() {
        assert(s.take(k) =~= s);
    } else {
        lemma_digits_value_take_le(s, k + 1);
        assert(s.take(k + 1).drop_last() =~= s.take(k));
        assert(s.take(k + 1).last() == s[k]);
        assert(all_digits(s.take(k))) by {
            assert(forall|i: int| 0 <= i < k ==> s.take(k)[i] == s[i]);
        }
        lemma_digits_value_nonneg(s.take(k));
        assert(digits_value(s.take(k + 1)) == digits_value(s.take(k)) * 10 + s[k] - 48);
        assert(digits_value(s.take(k)) <= digits_value(s.take(k + 1)));
    }
}

/// Classify the configured source id: a trimmed non-empty digit string
/// whose value fits an index names a local device; everything else is
/// taken as a file or path source.
pub fn classify_source(id: &Vec<u8>) -> (k: SourceKind)
    ensures
        is_numeric_source(id@) ==> k == (SourceKind::DeviceIndex {
            index: digits_value(trimmed(id@)) as i32,
        }),
        !is_numeric_source(id@) ==> k is FilePath,
{
    let len = id.len();
    proof {
        assert(id@.subrange(0, len as int) =~= id@);
    }
    let mut lo: usize = 0;
    while lo < len && (id[lo] == 32 || id[lo] == 9 || id[lo] == 10 || id[lo] == 13)
        invariant
            len == id@.len(),
            0 <= lo <= len,
            trim_front(id@) == trim_front(id@.subrange(lo as int, len as int)),
        decreases len - lo,
    {
        proof {
            let cur = id@.subrange(lo as int, len as int);
            assert(cur[0] == id@[lo as int]);
            assert(cur.subrange(1, cur.len() as int) =~= id@.subrange(
                lo as int + 1,
                len as int,
            ));
        }
        lo = lo + 1;
    }
    proof {
        let cur = id@.subrange(lo as int, len as int);
        if lo < len {
            assert(cur[0] == id@[lo as int]);
            assert(!is_space(cur[0]));
        }
        assert(trim_front(id@) == cur);
    }
    let mut hi: usize = len;
    while hi > lo && (id[hi - 1] == 32 || id[hi - 1] == 9 || id[hi - 1] == 10 || id[hi - 1] == 13)
        invariant
            len == id@.len(),
            0 <= lo <= hi <= len,
            trim_front(id@) == id@.subrange(lo as int, len as int),
            trimmed(id@) == trim_back(id@.subrange(lo as int, hi as int)),
        decreases hi,
    {
        proof {
            let cur = id@.subrange(lo as int, hi as int);
            assert(cur.last() == id@[hi - 1]);
            assert(cur.drop_last() =~= id@.subrange(lo as int, hi as int - 1));
        }
        hi = hi - 1;
    }
    proof {
        let t = id@.subrange(lo as int, hi as int);
        if hi > lo {
            assert(t.last() == id@[hi - 1]);
            assert(!is_space(t.last()));
        }
        assert(trimmed(id@) == t);
    }
    if lo == hi {
        proof {
            assert(trimmed(id@).len() == 0);
        }
        return SourceKind::FilePath;
    }
    let ghost t = id@.subrange(lo as int, hi as int);
    let mut acc: u64 = 0;
    let mut i: usize = lo;
    while i < hi
        invariant
            len == id@.len(),
            0 <= lo <= i <= hi <= len,
            t == id@.subrange(lo as int, hi as int),
            trimmed(id@) == t,
            all_digits(t.take(i - lo)),
            acc as int == digits_value(t.take(i - lo)),
            acc <= i32::MAX as u64,
        decreases hi - i,
    {
        let b = id[i];
        proof {
            assert(t[i - lo] == id@[i as int]);
        }
        if b < 48 || b > 57 {
            proof {
                assert(!is_digit(t[i - lo]));
                assert(!all_digits(t));
            }
            return SourceKind::FilePath;
        }
        proof {
            assert(t.take(i - lo + 1).drop_last() =~= t.take(i - lo));
            assert(t.take(i - lo + 1).last() == t[i - lo]);
            assert(all_digits(t.take(i - lo + 1))) by {
                assert(forall|m: int|
                    0 <= m < i - lo ==> #[trigger] t.take(i - lo + 1)[m] == t.take(i - lo)[m]);
            }
        }
        let next = acc * 10 + ((b - 48) as u64);
        if next > 2147483647u64 {
            proof {
                if all_digits(t) {
                    lemma_digits_value_take_le(t, i - lo + 1);
                    assert(digits_value(t) > i32::MAX as int);
                }
                assert(!is_numeric_source(id@));
            }
            return SourceKind::FilePath;
        }
        acc = next;
        i = i + 1;
    }
    proof {
        assert(t.take(hi - lo) =~= t);
        assert(all_digits(t));
        assert(acc as int == digits_value(t));
    }
    SourceKind::DeviceIndex { index: acc as i32 }
}

} // verus!
