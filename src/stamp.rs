use vstd::prelude::*;

use chrono::{Datelike, Timelike};

use crate::text::{dec, decimal};

verus! {

/// A wall-clock time as calendar fields.
#[derive(Debug, Clone, Copy, PartialEq, Eq, Structural)]
pub struct Stamp {
    pub year: i32,
    pub month: u32,
    pub day: u32,
    pub hour: u32,
    pub minute: u32,
    pub second: u32,
}

impl Stamp {
    /// Fields within the calendar's ranges; the year within what chrono
    /// can represent.
    pub open spec fn wf(&self) -> bool {
        &&& -262_143 <= self.year <= 262_142
        &&& 1 <= self.month <= 12
        &&& 1 <= self.day <= 31
        &&& self.hour < 24
        &&& self.minute < 60
        &&& self.second < 60
    }
}

/// The decimal notation of `n`, with leading zeros up to `width` digits.
pub open spec fn pad(n: nat, width: nat) -> Seq<char> {
    let len = dec(n).len();
    if len < width {
        Seq::new((width - len) as nat, |_i: int| '0') + dec(n)
    } else {
        dec(n)
    }
}

/// A year in four digits; outside `0..=9999` signed and at least four digits.
pub open spec fn year_text(y: int) -> Seq<char> {
    if 0 <= y <= 9999 {
        pad(y as nat, 4)
    } else if y > 9999 {
        seq!['+'] + pad(y as nat, 4)
    } else {
        seq!['-'] + pad((-y) as nat, 4)
    }
}

/// The time written `YYYYMMDDHHMMSS`.
pub open spec fn stamp_text(t: Stamp) -> Seq<char> {
    year_text(t.year as int) + pad(t.month as nat, 2) + pad(t.day as nat, 2) + pad(t.hour as nat, 2)
        + pad(t.minute as nat, 2) + pad(t.second as nat, 2)
}

proof fn lemma_dec_short(n: nat)
    ensures
        n < 10 ==> dec(n).len() == 1,
        n < 100 ==> dec(n).len() <= 2,
        n < 1000 ==> dec(n).len() <= 3,
        n < 10000 ==> dec(n).len() <= 4,
        dec(n).len() >= 1,
    decreases n,
{
    if n >= 10 {
        lemma_dec_short(n / 10);
    }
}

fn padded(n: usize, width: usize) -> (r: String)
    ensures
        r@ == pad(n as nat, width as nat),
{
    proof {
        reveal_strlit("0");
    }
    let d = decimal(n);
    let len = d.as_str().unicode_len();
    let mut r = String::new();
    let mut k: usize = len;
    while k < width
        invariant
            len == dec(n as nat).len(),
            len <= k,
            k <= width || k == len,
            r@ == Seq::new((k - len) as nat, |_i: int| '0'),
        decreases width - k,
    {
        proof {
            reveal_strlit("0");
        }
        r.append("0");
        k = k + 1;
        assert(r@ =~= Seq::new((k - len) as nat, |_i: int| '0'));
    }
    r.append(d.as_str());
    proof {
        if len >= width {
            assert(r@ =~= dec(n as nat));
        } else {
            assert(r@ =~= pad(n as nat, width as nat));
        }
    }
    r
}

/// The time `t` written `YYYYMMDDHHMMSS`: fourteen digits for the years
/// `0..=9999`.
pub fn stamp_text_of(t: &Stamp) -> (r: String)
    requires
        t.wf(),
    ensures
        r@ == stamp_text(*t),
        0 <= t.year <= 9999 ==> r@.len() == 14,
{
    let mut r = if t.year >= 0 && t.year <= 9999 {
        padded(t.year as usize, 4)
    } else if t.year > 9999 {
        let mut s = String::from_str("+");
        s.append(padded(t.year as usize, 4).as_str());
        s
    } else {
        let mut s = String::from_str("-");
        s.append(padded((0 - t.year) as usize, 4).as_str());
        s
    };
    proof {
        reveal_strlit("+");
        reveal_strlit("-");
    }
    r.append(padded(t.month as usize, 2).as_str());
    r.append(padded(t.day as usize, 2).as_str());
    r.append(padded(t.hour as usize, 2).as_str());
    r.append(padded(t.minute as usize, 2).as_str());
    r.append(padded(t.second as usize, 2).as_str());
    proof {
        lemma_dec_short(t.year as nat);
        lemma_dec_short(t.month as nat);
        lemma_dec_short(t.day as nat);
        lemma_dec_short(t.hour as nat);
        lemma_dec_short(t.minute as nat);
        lemma_dec_short(t.second as nat);
    }
    assert(r@ =~= stamp_text(*t));
    r
}

/// Relies on chrono: `FixedOffset::east_opt(offset_secs)`, which accepts
/// only offsets strictly within one day; `DateTime::from_timestamp` on the
/// system clock's time since 1970; and `NaiveDateTime::checked_add_offset`,
/// whose calendar fields chrono keeps within their ranges. Each of these
/// returns `None` rather than panicking; so does a clock set before 1970.
/// The time itself depends on the clock.
#[verifier::external_body]
pub(crate) fn now_at_offset(offset_secs: i32) -> (r: Option<Stamp>)
    ensures
        r is Some ==> -86_400 < offset_secs < 86_400,
        r matches Some(t) ==> t.wf(),
{
    let off = chrono::FixedOffset::east_opt(offset_secs)?;
    let since = std::time::SystemTime::now().duration_since(std::time::UNIX_EPOCH).ok()?;
    let secs = i64::try_from(since.as_secs()).ok()?;
    let utc = chrono::DateTime::from_timestamp(secs, since.subsec_nanos())?;
    let t = utc.naive_utc().checked_add_offset(off)?;
    Some(Stamp { year: t.year(), month: t.month(), day: t.day(), hour: t.hour(), minute: t.minute(), second: t.second() })
}

} // verus!
