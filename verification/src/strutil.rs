//! Character-level string utilities shared by the input-name mappings and
//! the window-list parser: ASCII lowercasing and case-insensitive matching
//! against fixed lowercase names.

use vstd::prelude::*;

verus! {

/// ASCII lowercasing of one character; everything outside `A..=Z` is kept.
pub open spec fn lower_char(c: char) -> char {
    if 'A' <= c && c <= 'Z' {
        ((c as u32) + 32) as char
    } else {
        c
    }
}

/// ASCII lowercasing of a character sequence.
pub open spec fn lower(s: Seq<char>) -> Seq<char> {
    s.map_values(|c: char| lower_char(c))
}

/// Whether `s` equals the (already lowercase) name `t`, ignoring ASCII case.
pub fn eq_lower(s: &str, t: &str) -> (r: bool)
    ensures
        r == (lower(s@) == t@),
{
    let n = s.unicode_len();
    let m = t.unicode_len();
    if n != m {
        proof {
            assert(lower(s@).len() == s@.len());
            assert(lower(s@) != t@);
        }
        return false;
    }
    let mut i: usize = 0;
    while i < n
        invariant
            i <= n,
            n == s@.len(),
            n == t@.len(),
            forall|j: int| 0 <= j < i ==> lower(s@)[j] == t@[j],
        decreases n - i,
    {
        let c = s.get_char(i);
        let d = t.get_char(i);
        let cu = c as u32;
        let du = d as u32;
        let same = if cu >= 65 && cu <= 90 {
            cu + 32 == du
        } else {
            cu == du
        };
        if !same {
            proof {
                assert(lower(s@)[i as int] == lower_char(s@[i as int]));
                assert(lower(s@)[i as int] != t@[i as int]);
            }
            return false;
        }
        i += 1;
    }
    proof {
        assert(lower(s@) =~= t@);
    }
    true
}

} // verus!
