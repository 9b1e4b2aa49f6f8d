use vstd::prelude::*;

verus! {

/// The letter naming a 1-based column; indices outside `1..=26` fall back to `'Z'`.
pub open spec fn letter(n: int) -> char {
    if 1 <= n <= 26 {
        ((64 + n) as u32) as char
    } else {
        'Z'
    }
}

/// Column label of a 1-based column index: one upper-case letter for
/// `1..=26`, and `"Z"` for every other index.
pub fn get_alpabet_from_num(num: usize) -> (r: String)
    ensures
        r@ == seq![letter(num as int)],
        (num == 0 || num > 26) ==> r@ == seq!['Z'],
{
    proof {
        reveal_strlit("ABCDEFGHIJKLMNOPQRSTUVWXYZ");
    }
    let i: usize = if 1 <= num && num <= 26 { num - 1 } else { 25 };
    let s = "ABCDEFGHIJKLMNOPQRSTUVWXYZ".substring_char(i, i + 1);
    let r = String::from_str(s);
    assert(r@ =~= seq![letter(num as int)]);
    r
}

/// Distinct columns in `1..=26` get distinct labels.
pub proof fn lemma_letter_injective(a: int, b: int)
    requires
        1 <= a <= 26,
        1 <= b <= 26,
        a != b,
    ensures
        letter(a) != letter(b),
{
}

} // verus!
