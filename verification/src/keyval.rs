//! Parsing one `key=value` argument into a trimmed key and value pair.

use vstd::prelude::*;
use vstd::string::StrSliceExecFns;
use crate::text::trim_spec;
use crate::text::trim_str;

verus! {

/// The index of the first `'='` in `s` at or after `i`, or `s.len()` if
/// there is none.
pub open spec fn first_eq_from(s: Seq<char>, i: int) -> int
    decreases s.len() - i when 0 <= i <= s.len()
{
    if i >= s.len() {
        i
    } else if s[i] == '=' {
        i
    } else {
        first_eq_from(s, i + 1)
    }
}

proof fn lemma_first_eq_from(s: Seq<char>, b: int, k: int)
    requires
        0 <= b <= k <= s.len(),
        forall|j: int| b <= j < k ==> s[j] != '=',
        k == s.len() || s[k] == '=',
    ensures
        first_eq_from(s, b) == k,
    decreases k - b,
{
    if b < k {
        lemma_first_eq_from(s, b + 1, k);
    }
}

/// Split one `key=value` argument at its first `'='`: the key is what
/// stands before it and the value what stands between it and the next
/// `'='` or the end, both trimmed of surrounding whitespace. An argument
/// without `'='` is rejected.
pub fn parse_key_val(s: &str) -> (r: Result<(String, String), &'static str>)
    ensures
        ({
            let cut = first_eq_from(s@, 0);
            match r {
                Ok(kv) => cut < s@.len() && kv.0@ == trim_spec(s@.subrange(0, cut))
                    && kv.1@ == trim_spec(s@.subrange(cut + 1, first_eq_from(s@, cut + 1))),
                Err(msg) => cut == s@.len() && msg@ == "Missing Value"@,
            }
        }),
{
    let n = s.unicode_len();
    let mut i: usize = 0;
    loop
        invariant
            n == s@.len(),
            0 <= i <= n,
            forall|j: int| 0 <= j < i ==> s@[j] != '=',
        ensures
            0 <= i <= n,
            forall|j: int| 0 <= j < i ==> s@[j] != '=',
            i == n || s@[i as int] == '=',
        decreases n - i,
    {
        if i >= n {
            break;
        }
        if s.get_char(i) == '=' {
            break;
        }
        i = i + 1;
    }
    proof {
        lemma_first_eq_from(s@, 0, i as int);
    }
    if i >= n {
        return Err("Missing Value");
    }
    let mut k: usize = i + 1;
    loop
        invariant
            n == s@.len(),
            i + 1 <= k <= n,
            forall|j: int| i + 1 <= j < k ==> s@[j] != '=',
        ensures
            i + 1 <= k <= n,
            forall|j: int| i + 1 <= j < k ==> s@[j] != '=',
            k == n || s@[k as int] == '=',
        decreases n - k,
    {
        if k >= n {
            break;
        }
        if s.get_char(k) == '=' {
            break;
        }
        k = k + 1;
    }
    proof {
        lemma_first_eq_from(s@, i + 1, k as int);
    }
    let key = trim_str(s.substring_char(0, i));
    let val = trim_str(s.substring_char(i + 1, k));
    Ok((key, val))
}

} // verus!
