use vstd::prelude::*;
use vstd::string::StrSliceExecFns;

verus! {

/// Returns the first word of `s`: the longest prefix that holds no space.
/// If `s` holds no space at all, the whole string is the first word.
pub fn first_word(s: &String) -> (r: &str)
    ensures
        r@.len() <= s@.len(),
        r@ == s@.subrange(0, r@.len() as int),
        forall|j: int| 0 <= j < r@.len() ==> s@[j] != ' ',
        r@.len() < s@.len() ==> s@[r@.len() as int] == ' ',
{
    let st: &str = s.as_str();
    let len: usize = st.unicode_len();
    let mut i: usize = 0;
    while i < len
        invariant
            i <= len,
            len == st@.len(),
            st@ == s@,
            forall|j: int| 0 <= j < i ==> s@[j] != ' ',
        decreases len - i,
    {
        if st.get_char(i) == ' ' {
            let r = st.substring_char(0, i);
            assert(r@ =~= s@.subrange(0, r@.len() as int));
            return r;
        }
        i += 1;
    }
    assert(st@ =~= s@.subrange(0, st@.len() as int));
    st
}

} // verus!
