//! Text helpers for the identity strings a device reports.
use vstd::prelude::*;

verus! {

/// `s` without its trailing NUL characters.
pub open spec fn trim_nuls_end(s: Seq<char>) -> Seq<char>
    decreases s.len(),
{
    if s.len() > 0 && s.last() == '\0' {
        trim_nuls_end(s.drop_last())
    } else {
        s
    }
}

/// Removes the NUL padding at the end of a fixed-width text field.
pub fn trim_trailing_nuls(s: &str) -> (r: String)
    ensures
        r@ == trim_nuls_end(s@),
{
    let n = s.unicode_len();
    let mut end: usize = n;
    assert(s@.subrange(0, n as int) =~= s@);
    while end > 0 && s.get_char(end - 1) == '\0'
        invariant
            end <= n,
            n == s@.len(),
            trim_nuls_end(s@) == trim_nuls_end(s@.subrange(0, end as int)),
        decreases end,
    {
        assert(s@.subrange(0, end as int).drop_last() =~= s@.subrange(0, end - 1));
        end = end - 1;
    }
    String::from_str(s.substring_char(0, end))
}

} // verus!
