//! What the painted widgets show: the chart of a span of days, the bar of shares and the pills.
use vstd::prelude::*;

use crate::dates::{self, Date};
use crate::text;

verus! {

/// Up to this many days each has a bar of its own; longer spans are drawn as a line.
pub const MAX_BARS: usize = 31;

/// How the days of a span are drawn.
#[derive(Clone, Copy, Debug)]
pub enum Chart {
    /// There is no day to draw.
    Empty,
    /// A bar for each day; `peak` is what the tallest one stands for.
    Bars { peak: i64 },
    /// A line; the days at these places are named below it.
    Line { peak: i64, labels: [usize; 3] },
}

/// No day has more than `peak` tallies, and `peak` is that of a day, or 1 where no day has more.
pub open spec fn is_peak(days: Seq<(Date, i64)>, peak: i64) -> bool {
    &&& peak >= 1
    &&& forall|i: int| 0 <= i < days.len() ==> (#[trigger] days[i]).1 <= peak
    &&& peak == 1 || exists|i: int| 0 <= i < days.len() && (#[trigger] days[i]).1 == peak
}

fn peak_of(days: &Vec<(Date, i64)>) -> (r: i64)
    ensures
        is_peak(days@, r),
{
    let mut peak: i64 = 1;
    for i in 0..days.len()
        invariant
            is_peak(days@.take(i as int), peak),
    {
        let ghost before = days@.take(i as int);
        let ghost earlier_peak = peak;
        if days[i].1 > peak {
            peak = days[i].1;
        }
        assert(is_peak(days@.take(i + 1), peak)) by {
            let now = days@.take(i + 1);
            assert forall|k: int| 0 <= k < now.len() implies (#[trigger] now[k]).1 <= peak by {
                if k < i {
                    assert(before[k].1 <= earlier_peak);
                }
            }
            if peak != 1 {
                if peak == earlier_peak {
                    let k = choose|k: int| 0 <= k < before.len() && (#[trigger] before[k]).1 == peak;
                    assert(now[k].1 == peak);
                } else {
                    assert(now[i as int].1 == peak);
                }
            }
        }
    }
    assert(days@.take(days@.len() as int) =~= days@);
    peak
}

/// Whether `r` is how the days of a span are drawn.
pub open spec fn draws(days: Seq<(Date, i64)>, r: Chart) -> bool {
    match r {
        Chart::Empty => days.len() == 0,
        Chart::Bars { peak } => 0 < days.len() <= MAX_BARS && is_peak(days, peak),
        Chart::Line { peak, labels } => {
            &&& days.len() > MAX_BARS
            &&& is_peak(days, peak)
            &&& labels@ == seq![0usize, (days.len() / 2) as usize, (days.len() - 1) as usize]
        },
    }
}

/// How the days of a span are drawn: bars for up to a month's days, a line with its first,
/// middle and last day named for more.
pub fn chart(days: &Vec<(Date, i64)>) -> (r: Chart)
    ensures
        draws(days@, r),
        match r {
            Chart::Empty => days@.len() == 0,
            Chart::Bars { peak } => 0 < days@.len() <= MAX_BARS && is_peak(days@, peak),
            Chart::Line { peak, labels } => {
                &&& days@.len() > MAX_BARS
                &&& is_peak(days@, peak)
                &&& labels@ == seq![0usize, (days@.len() / 2) as usize, (days@.len() - 1) as usize]
            },
        },
{
    let n: usize = days.len();
    if n == 0 {
        Chart::Empty
    } else if n <= MAX_BARS {
        Chart::Bars { peak: peak_of(days) }
    } else {
        Chart::Line { peak: peak_of(days), labels: [0, n / 2, n - 1] }
    }
}

/// What is shown over a day of the chart: `17 Aug — 5`.
pub fn day_tip(date: Date, count: i64) -> (r: String)
    requires
        date.valid(),
    ensures
        r@ == dates::day_month_text(date) + " \u{2014} "@ + text::decimal(count as int),
{
    let mut s = dates::day_month(date);
    text::push_text(&mut s, " \u{2014} ");
    text::push_decimal(&mut s, count);
    assert(s@ =~= dates::day_month_text(date) + " \u{2014} "@ + text::decimal(count as int));
    s
}

/// The sum of the shares.
pub open spec fn share_sum(shares: Seq<i64>) -> int
    decreases shares.len(),
{
    if shares.len() == 0 {
        0
    } else {
        share_sum(shares.drop_last()) + shares.last()
    }
}

/// How many of the shares are drawn: those above zero.
pub open spec fn drawn_shares(shares: Seq<i64>) -> int
    decreases shares.len(),
{
    if shares.len() == 0 {
        0
    } else {
        drawn_shares(shares.drop_last()) + (if shares.last() > 0 {
            1int
        } else {
            0int
        })
    }
}

/// The shares can be added up, one by one, without leaving the range of the numbers.
pub open spec fn shares_fit(shares: Seq<i64>) -> bool {
    forall|n: int|
        0 <= n <= shares.len() ==> i64::MIN <= #[trigger] share_sum(shares.take(n)) <= i64::MAX
}

/// What the bar of shares is drawn from.
#[derive(Clone, Copy, Debug, PartialEq, Eq, Structural)]
pub struct RatioBar {
    /// What the whole bar stands for.
    pub total: i64,
    /// How many segments there are, with a gap between any two.
    pub segments: usize,
}

/// What the bar of shares is drawn from, or `None` where there is nothing to draw.
pub fn ratio_bar(shares: &Vec<i64>) -> (r: Option<RatioBar>)
    requires
        shares_fit(shares@),
    ensures
        match r {
            Some(b) => share_sum(shares@) > 0 && b.total == share_sum(shares@) && b.segments
                == drawn_shares(shares@),
            None => share_sum(shares@) <= 0,
        },
{
    let mut total: i64 = 0;
    let mut segments: usize = 0;
    for i in 0..shares.len()
        invariant
            shares_fit(shares@),
            total == share_sum(shares@.take(i as int)),
            segments == drawn_shares(shares@.take(i as int)),
            segments <= i,
    {
        assert(shares@.take(i + 1).drop_last() =~= shares@.take(i as int));
        assert(i64::MIN <= share_sum(shares@.take(i + 1)) <= i64::MAX);
        total = total + shares[i];
        if shares[i] > 0 {
            segments = segments + 1;
        }
    }
    assert(shares@.take(shares@.len() as int) =~= shares@);
    if total <= 0 {
        None
    } else {
        Some(RatioBar { total, segments })
    }
}

/// Whether the shares can be added up.
pub fn check_shares(shares: &Vec<i64>) -> (r: bool)
    ensures
        r == shares_fit(shares@),
{
    let mut total: i64 = 0;
    for i in 0..shares.len()
        invariant
            total == share_sum(shares@.take(i as int)),
            forall|n: int|
                0 <= n <= i ==> i64::MIN <= #[trigger] share_sum(shares@.take(n)) <= i64::MAX,
    {
        assert(shares@.take(i + 1).drop_last() =~= shares@.take(i as int));
        match total.checked_add(shares[i]) {
            Some(t) => {
                total = t;
            },
            None => {
                assert(!(i64::MIN <= share_sum(shares@.take(i + 1)) <= i64::MAX));
                return false;
            },
        }
    }
    true
}

/// The count on a pill: an em dash stands for none.
pub fn pill_count(count: i64) -> (r: String)
    ensures
        r@ == (if count == 0 {
            "\u{2014}"@
        } else {
            text::decimal(count as int)
        }),
{
    let mut s = String::new();
    if count == 0 {
        text::push_text(&mut s, "\u{2014}");
        assert(s@ =~= "\u{2014}"@);
    } else {
        text::push_decimal(&mut s, count);
        assert(s@ =~= text::decimal(count as int));
    }
    s
}

/// The pill that unfolds the categories without one of their own: `more (4)`.
pub fn more_label(hidden: usize) -> (r: String)
    ensures
        r@ == "more ("@ + text::decimal(hidden as int) + ")"@,
{
    let mut s = "more (".to_owned();
    text::push_digits(&mut s, hidden as u64);
    text::push_text(&mut s, ")");
    assert(s@ =~= "more ("@ + text::decimal(hidden as int) + ")"@);
    s
}

/// How many rows are selected: `3 selected`.
pub fn selected_label(count: usize) -> (r: String)
    ensures
        r@ == text::decimal(count as int) + " selected"@,
{
    let mut s = String::new();
    text::push_digits(&mut s, count as u64);
    text::push_text(&mut s, " selected");
    assert(s@ =~= text::decimal(count as int) + " selected"@);
    s
}

// --- laws ---

/// The peak is at least one, no day is above it, and it is reached where it is above one.
pub proof fn law_peak_is_the_highest_day(days: Seq<(Date, i64)>, peak: i64, i: int)
    requires
        is_peak(days, peak),
    ensures
        peak >= 1,
        0 <= i < days.len() ==> days[i].1 <= peak,
        peak > 1 ==> exists|k: int| 0 <= k < days.len() && (#[trigger] days[k]).1 == peak,
{
}

/// Up to 31 days are drawn as bars and more as a line, which names its first, its middle and its
/// last day.
pub proof fn law_a_month_is_drawn_as_bars(days: Seq<(Date, i64)>, r: Chart)
    requires
        draws(days, r),
        days.len() <= usize::MAX,
    ensures
        r is Empty <==> days.len() == 0,
        r is Bars <==> 1 <= days.len() <= 31,
        r is Line <==> days.len() >= 32,
        r matches Chart::Bars { peak } ==> is_peak(days, peak),
        r matches Chart::Line { peak, labels } ==> is_peak(days, peak) && labels@[0] == 0
            && labels@[1] == days.len() / 2 && labels@[2] == days.len() - 1 && labels@.len() == 3,
{
}

/// Every share adds to the bar, and each one above zero is a segment of it.
pub proof fn law_every_share_is_added(shares: Seq<i64>, share: i64)
    ensures
        share_sum(Seq::empty()) == 0,
        drawn_shares(Seq::empty()) == 0,
        share_sum(shares.push(share)) == share_sum(shares) + share,
        share >= 1 ==> drawn_shares(shares.push(share)) == drawn_shares(shares) + 1,
        share <= 0 ==> drawn_shares(shares.push(share)) == drawn_shares(shares),
{
    assert(shares.push(share).drop_last() =~= shares);
}

/// The shares fit where every sum on the way to the whole is a 64-bit number.
pub proof fn law_shares_fit_one_by_one(rows: Seq<i64>, r: i64)
    ensures
        shares_fit(Seq::empty()),
        shares_fit(rows.push(r)) <==> shares_fit(rows) && -9223372036854775808 <= share_sum(
            rows.push(r),
        ) <= 9223372036854775807,
{
    let all = rows.push(r);
    let whole = share_sum(all.take(all.len() as int));
    assert(all.take(all.len() as int) =~= all);
    assert forall|n: int| 0 <= n <= rows.len() implies #[trigger] rows.take(n) == all.take(n) by {
        assert(rows.take(n) =~= all.take(n));
    }
    if shares_fit(all) {
        assert forall|n: int| 0 <= n <= rows.len() implies i64::MIN <= #[trigger] share_sum(
            rows.take(n),
        ) <= i64::MAX by {
            assert(rows.take(n) == all.take(n));
            let same = share_sum(all.take(n));
        }
    }
    if shares_fit(rows) && i64::MIN <= whole <= i64::MAX {
        assert forall|n: int| 0 <= n <= all.len() implies i64::MIN <= #[trigger] share_sum(
            all.take(n),
        ) <= i64::MAX by {
            if n <= rows.len() {
                assert(rows.take(n) == all.take(n));
                let same = share_sum(rows.take(n));
            }
        }
    }
    assert(shares_fit(Seq::<i64>::empty())) by {
        assert forall|n: int| 0 <= n <= 0 implies i64::MIN <= #[trigger] share_sum(
            Seq::<i64>::empty().take(n),
        ) <= i64::MAX by {
            assert(Seq::<i64>::empty().take(n) =~= Seq::<i64>::empty());
        }
    }
}

} // verus!
