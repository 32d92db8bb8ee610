//! Modeled water usage: how long a valve was open, and at which flow rate.
use crate::json::Scalar;
use vstd::prelude::*;

verus! {

/// Time that a valve was open while one flow rate applied to it.
#[derive(Clone, Copy, Debug, PartialEq, Eq, Structural)]
pub struct MeteredTime {
    /// Liters per minute.
    pub flow: Scalar,
    pub open_millis: u128,
}

/// The open time of one valve since the exporter started.
///
/// The modeled volume is the sum, over `metered`, of the open time in minutes times the flow
/// rate in liters per minute.
#[derive(Debug)]
pub struct ValveUsageState {
    /// Open time of all intervals that have ended.
    pub total_open_millis: u128,
    /// Open time of the ended intervals for which a flow rate was known, by flow rate.
    pub metered: Vec<MeteredTime>,
    /// When the present interval began, in milliseconds since the Unix epoch.
    pub open_since_timestamp: Option<i64>,
    pub estimated_flow_liters_per_minute: Option<Scalar>,
    pub currently_open: bool,
}

/// What a [`ValveUsageState`] says.
#[verifier::ext_equal]
pub ghost struct UsageView {
    pub total_open_millis: u128,
    pub metered: Seq<MeteredTime>,
    pub open_since_timestamp: Option<i64>,
    pub estimated_flow_liters_per_minute: Option<Scalar>,
    pub currently_open: bool,
}

/// Open time and flow rates of one valve at one moment.
#[derive(Debug)]
pub struct ValveUsageTotals {
    pub open_millis: u128,
    pub metered: Vec<MeteredTime>,
    pub flow_liters_per_minute: Option<Scalar>,
    pub current_flow_liters_per_minute: Option<Scalar>,
}

/// What a [`ValveUsageTotals`] says.
#[verifier::ext_equal]
pub ghost struct TotalsView {
    pub open_millis: u128,
    pub metered: Seq<MeteredTime>,
    pub flow_liters_per_minute: Option<Scalar>,
    pub current_flow_liters_per_minute: Option<Scalar>,
}

impl View for ValveUsageState {
    type V = UsageView;

    open spec fn view(&self) -> UsageView {
        UsageView {
            total_open_millis: self.total_open_millis,
            metered: self.metered@,
            open_since_timestamp: self.open_since_timestamp,
            estimated_flow_liters_per_minute: self.estimated_flow_liters_per_minute,
            currently_open: self.currently_open,
        }
    }
}

impl View for ValveUsageTotals {
    type V = TotalsView;

    open spec fn view(&self) -> TotalsView {
        TotalsView {
            open_millis: self.open_millis,
            metered: self.metered@,
            flow_liters_per_minute: self.flow_liters_per_minute,
            current_flow_liters_per_minute: self.current_flow_liters_per_minute,
        }
    }
}

/// Milliseconds from one moment to another; none if the second is not later.
pub open spec fn elapsed(from: i64, to: i64) -> nat {
    if to > from {
        (to - from) as nat
    } else {
        0
    }
}

/// The sum of two spans, as far as it can be held.
pub open spec fn longer(span: u128, more: nat) -> u128 {
    if span + more <= u128::MAX {
        (span + more) as u128
    } else {
        u128::MAX
    }
}

/// Adds open time at a flow rate.
pub open spec fn metered_more(metered: Seq<MeteredTime>, flow: Scalar, more: nat) -> Seq<
    MeteredTime,
>
    decreases metered.len(),
{
    if metered.len() == 0 {
        seq![MeteredTime { flow, open_millis: longer(0, more) }]
    } else if metered[0].flow == flow {
        metered.update(0, MeteredTime { flow, open_millis: longer(metered[0].open_millis, more) })
    } else {
        seq![metered[0]] + metered_more(metered.drop_first(), flow, more)
    }
}

/// [`metered_more`] where a flow rate is known.
pub open spec fn metered_more_if_known(
    metered: Seq<MeteredTime>,
    flow: Option<Scalar>,
    more: nat,
) -> Seq<MeteredTime> {
    match flow {
        Some(rate) => metered_more(metered, rate, more),
        None => metered,
    }
}

impl UsageView {
    /// A valve of which nothing is known yet.
    pub open spec fn unused() -> UsageView {
        UsageView {
            total_open_millis: 0,
            metered: Seq::empty(),
            open_since_timestamp: None,
            estimated_flow_liters_per_minute: None,
            currently_open: false,
        }
    }

    /// An interval has a beginning exactly while the valve is open, and each flow rate is
    /// metered once.
    pub open spec fn consistent(self) -> bool {
        &&& self.currently_open == (self.open_since_timestamp is Some)
        &&& rates_once(self.metered)
    }

    /// After a report at `at` that the valve is open or not, with the flow rate that now
    /// applies to it: an interval begins, or ends and is counted, or nothing changes.
    pub open spec fn after_report(self, is_open: bool, at: i64, flow: Option<Scalar>) -> UsageView {
        let current = UsageView { estimated_flow_liters_per_minute: flow, ..self };
        if self.currently_open == is_open {
            current
        } else if is_open {
            UsageView { currently_open: true, open_since_timestamp: Some(at), ..current }
        } else {
            let ended = UsageView { currently_open: false, open_since_timestamp: None, ..current };
            match self.open_since_timestamp {
                Some(since) => UsageView {
                    total_open_millis: longer(self.total_open_millis, elapsed(since, at)),
                    metered: metered_more_if_known(self.metered, flow, elapsed(since, at)),
                    ..ended
                },
                None => ended,
            }
        }
    }

    /// The totals at `now`, the present interval counted up to then.
    pub open spec fn totals_at(self, now: i64) -> TotalsView {
        let flow = self.estimated_flow_liters_per_minute;
        let ended = TotalsView {
            open_millis: self.total_open_millis,
            metered: self.metered,
            flow_liters_per_minute: flow,
            current_flow_liters_per_minute: if self.currently_open {
                flow
            } else {
                None
            },
        };
        match self.open_since_timestamp {
            Some(since) => if self.currently_open {
                TotalsView {
                    open_millis: longer(self.total_open_millis, elapsed(since, now)),
                    metered: metered_more_if_known(self.metered, flow, elapsed(since, now)),
                    ..ended
                }
            } else {
                ended
            },
            None => ended,
        }
    }
}

impl TotalsView {
    /// The totals of a valve that was never reported.
    pub open spec fn none() -> TotalsView {
        TotalsView {
            open_millis: 0,
            metered: Seq::empty(),
            flow_liters_per_minute: None,
            current_flow_liters_per_minute: None,
        }
    }
}

/// Milliseconds from one moment to another; none if the second is not later.
fn elapsed_millis(from: i64, to: i64) -> (millis: u64)
    ensures
        millis == elapsed(from, to),
{
    if to > from {
        (to as i128 - from as i128) as u64
    } else {
        0
    }
}

/// Adds open time at a flow rate.
fn meter(metered: &mut Vec<MeteredTime>, flow: Scalar, more: u64)
    ensures
        final(metered)@ == metered_more(old(metered)@, flow, more as nat),
{
    let mut i: usize = 0;
    let ghost start = metered@;
    assert(start.skip(0) =~= start);
    assert(start.take(0) + metered_more(start, flow, more as nat) =~= metered_more(
        start,
        flow,
        more as nat,
    ));
    while i < metered.len()
        invariant
            metered@ == start,
            start == old(metered)@,
            i <= metered.len(),
            metered_more(start, flow, more as nat) == start.take(i as int) + metered_more(
                start.skip(i as int),
                flow,
                more as nat,
            ),
        decreases metered.len() - i,
    {
        if metered[i].flow == flow {
            let open_millis: u128 = metered[i].open_millis.saturating_add(more as u128);
            metered.set(i, MeteredTime { flow, open_millis });
            assert(metered@ =~= metered_more(start, flow, more as nat));
            return;
        }
        proof {
            assert(start.skip(i as int).drop_first() =~= start.skip(i + 1));
            assert(start.take(i as int) + (seq![start[i as int]] + metered_more(
                start.skip(i + 1),
                flow,
                more as nat,
            )) =~= start.take(i + 1) + metered_more(start.skip(i + 1), flow, more as nat));
        }
        i += 1;
    }
    metered.push(MeteredTime { flow, open_millis: more as u128 });
    assert(metered@ =~= metered_more(start, flow, more as nat));
}

fn copied(metered: &Vec<MeteredTime>) -> (copy: Vec<MeteredTime>)
    ensures
        copy@ == metered@,
{
    let mut copy: Vec<MeteredTime> = Vec::new();
    for i in 0..metered.len()
        invariant
            copy@ == metered@.take(i as int),
    {
        copy.push(metered[i]);
    }
    assert(metered@.take(metered@.len() as int) =~= metered@);
    copy
}

impl Clone for ValveUsageState {
    /// A second one that says the same.
    fn clone(&self) -> (copy: Self)
        ensures
            copy@ == self@,
    {
        ValveUsageState {
            total_open_millis: self.total_open_millis,
            metered: copied(&self.metered),
            open_since_timestamp: self.open_since_timestamp,
            estimated_flow_liters_per_minute: self.estimated_flow_liters_per_minute,
            currently_open: self.currently_open,
        }
    }
}

impl Default for ValveUsageState {
    /// A valve of which nothing is known yet.
    fn default() -> (usage: Self)
        ensures
            usage@ == UsageView::unused(),
    {
        ValveUsageState {
            total_open_millis: 0,
            metered: Vec::new(),
            open_since_timestamp: None,
            estimated_flow_liters_per_minute: None,
            currently_open: false,
        }
    }
}

impl ValveUsageState {
    /// Takes in a report at `at` that the valve is open or not, with the flow rate that now
    /// applies to it.
    pub fn report(&mut self, is_open: bool, at: i64, flow: Option<Scalar>)
        ensures
            final(self)@ == old(self)@.after_report(is_open, at, flow),
    {
        self.estimated_flow_liters_per_minute = flow;
        if is_open && !self.currently_open {
            self.currently_open = true;
            self.open_since_timestamp = Some(at);
        } else if !is_open && self.currently_open {
            if let Some(since) = self.open_since_timestamp {
                let span: u64 = elapsed_millis(since, at);
                self.total_open_millis = self.total_open_millis.saturating_add(span as u128);
                if let Some(rate) = flow {
                    meter(&mut self.metered, rate, span);
                }
            }
            self.currently_open = false;
            self.open_since_timestamp = None;
        }
    }

    /// The totals at `now`, the present interval counted up to then.
    pub fn totals(&self, now: i64) -> (totals: ValveUsageTotals)
        ensures
            totals@ == self@.totals_at(now),
    {
        let flow = self.estimated_flow_liters_per_minute;
        let mut open_millis: u128 = self.total_open_millis;
        let mut metered = copied(&self.metered);
        if self.currently_open {
            if let Some(since) = self.open_since_timestamp {
                let span: u64 = elapsed_millis(since, now);
                open_millis = open_millis.saturating_add(span as u128);
                if let Some(rate) = flow {
                    meter(&mut metered, rate, span);
                }
            }
        }
        ValveUsageTotals {
            open_millis,
            metered,
            flow_liters_per_minute: flow,
            current_flow_liters_per_minute: if self.currently_open {
                flow
            } else {
                None
            },
        }
    }
}

impl Clone for ValveUsageTotals {
    /// A second one that says the same.
    fn clone(&self) -> (copy: Self)
        ensures
            copy@ == self@,
    {
        ValveUsageTotals {
            open_millis: self.open_millis,
            metered: copied(&self.metered),
            flow_liters_per_minute: self.flow_liters_per_minute,
            current_flow_liters_per_minute: self.current_flow_liters_per_minute,
        }
    }
}

impl Default for ValveUsageTotals {
    /// The totals of a valve that was never reported.
    fn default() -> (totals: Self)
        ensures
            totals@ == TotalsView::none(),
    {
        ValveUsageTotals {
            open_millis: 0,
            metered: Vec::new(),
            flow_liters_per_minute: None,
            current_flow_liters_per_minute: None,
        }
    }
}

/// What is metered, each millisecond weighed by what `rate` makes of the flow rate.
///
/// With the liters per millisecond of each flow rate for `rate` this is the modeled volume.
pub open spec fn weighed(metered: Seq<MeteredTime>, rate: spec_fn(Scalar) -> int) -> int
    decreases metered.len(),
{
    if metered.len() == 0 {
        0
    } else {
        weighed(metered.drop_last(), rate) + metered.last().open_millis * rate(metered.last().flow)
    }
}

/// Each flow rate is metered once.
pub open spec fn rates_once(metered: Seq<MeteredTime>) -> bool {
    forall|i: int, j: int|
        0 <= i < j < metered.len() ==> #[trigger] metered[i].flow != #[trigger] metered[j].flow
}

/// There is room for so many milliseconds more.
pub open spec fn room_for(metered: Seq<MeteredTime>, more: nat) -> bool {
    &&& more <= u128::MAX
    &&& forall|i: int|
        0 <= i < metered.len() ==> #[trigger] metered[i].open_millis + more <= u128::MAX
}

/// The weight of two lists together is the sum of their weights.
pub proof fn weighed_adds_up(
    a: Seq<MeteredTime>,
    b: Seq<MeteredTime>,
    rate: spec_fn(Scalar) -> int,
)
    ensures
        weighed(a + b, rate) == weighed(a, rate) + weighed(b, rate),
    decreases b.len(),
{
    if b.len() == 0 {
        assert(a + b =~= a);
    } else {
        weighed_adds_up(a, b.drop_last(), rate);
        assert((a + b).drop_last() =~= a + b.drop_last());
    }
}

proof fn lemma_weighed_one(one: MeteredTime, rate: spec_fn(Scalar) -> int)
    ensures
        weighed(seq![one], rate) == one.open_millis * rate(one.flow),
{
    reveal_with_fuel(weighed, 2);
    assert(seq![one].drop_last() =~= Seq::empty());
}

/// Metering time at a flow rate adds that time, weighed by what applies to the rate.
pub proof fn metering_adds_weight(
    metered: Seq<MeteredTime>,
    flow: Scalar,
    more: nat,
    rate: spec_fn(Scalar) -> int,
)
    requires
        room_for(metered, more),
    ensures
        weighed(metered_more(metered, flow, more), rate) == weighed(metered, rate) + more * rate(
            flow,
        ),
    decreases metered.len(),
{
    let result = metered_more(metered, flow, more);
    if metered.len() == 0 {
        lemma_weighed_one(result[0], rate);
        assert(result =~= seq![result[0]]);
    } else {
        let first = seq![metered[0]];
        let rest = metered.drop_first();
        assert(metered =~= first + rest);
        weighed_adds_up(first, rest, rate);
        lemma_weighed_one(metered[0], rate);
        if metered[0].flow == flow {
            let changed = seq![result[0]];
            assert(result =~= changed + rest);
            weighed_adds_up(changed, rest, rate);
            lemma_weighed_one(result[0], rate);
            assert((metered[0].open_millis + more) * rate(flow) == metered[0].open_millis * rate(
                flow,
            ) + more * rate(flow)) by (nonlinear_arith);
        } else {
            assert forall|i: int| 0 <= i < rest.len() implies #[trigger] rest[i].open_millis + more
                <= u128::MAX by {
                assert(rest[i] == metered[i + 1]);
            }
            metering_adds_weight(rest, flow, more, rate);
            weighed_adds_up(first, metered_more(rest, flow, more), rate);
        }
    }
}

/// Metering time keeps each flow rate metered once, and forgets none.
pub proof fn metering_keeps_rates_once(metered: Seq<MeteredTime>, flow: Scalar, more: nat)
    requires
        rates_once(metered),
    ensures
        rates_once(metered_more(metered, flow, more)),
        forall|i: int|
            0 <= i < metered_more(metered, flow, more).len() ==> (#[trigger] metered_more(
                metered,
                flow,
                more,
            )[i]).flow == flow || exists|j: int|
                0 <= j < metered.len() && #[trigger] metered[j].flow == metered_more(
                    metered,
                    flow,
                    more,
                )[i].flow,
        metered.len() <= metered_more(metered, flow, more).len() <= metered.len() + 1,
    decreases metered.len(),
{
    let result = metered_more(metered, flow, more);
    if metered.len() > 0 {
        if metered[0].flow == flow {
            assert forall|i: int| 0 <= i < result.len() implies result[i].flow
                == metered[i].flow by {}
        } else {
            let rest = metered.drop_first();
            assert forall|i: int, j: int| 0 <= i < j < rest.len() implies #[trigger] rest[i].flow
                != #[trigger] rest[j].flow by {
                assert(metered[i + 1].flow != metered[j + 1].flow);
            }
            metering_keeps_rates_once(rest, flow, more);
            let tail = metered_more(rest, flow, more);
            assert forall|i: int, j: int|
                0 <= i < j < result.len() implies #[trigger] result[i].flow
                != #[trigger] result[j].flow by {
                assert(result[j] == tail[j - 1]);
                if i == 0 {
                    if tail[j - 1].flow != flow {
                        let p = choose|p: int|
                            0 <= p < rest.len() && #[trigger] rest[p].flow == tail[j - 1].flow;
                        assert(rest[p] == metered[p + 1]);
                    }
                } else {
                    assert(result[i] == tail[i - 1]);
                }
            }
            assert forall|i: int| 0 <= i < result.len() implies (#[trigger] result[i]).flow == flow
                || exists|j: int|
                0 <= j < metered.len() && #[trigger] metered[j].flow == result[i].flow by {
                if i == 0 {
                    assert(metered[0].flow == result[0].flow);
                } else {
                    assert(result[i] == tail[i - 1]);
                    if tail[i - 1].flow != flow {
                        let p = choose|p: int|
                            0 <= p < rest.len() && #[trigger] rest[p].flow == tail[i - 1].flow;
                        assert(metered[p + 1].flow == result[i].flow);
                    }
                }
            }
        }
    }
}

/// A report keeps the account of a valve consistent.
pub proof fn reports_keep_consistency(
    usage: UsageView,
    is_open: bool,
    at: i64,
    flow: Option<Scalar>,
)
    requires
        usage.consistent(),
    ensures
        usage.after_report(is_open, at, flow).consistent(),
        usage.after_report(is_open, at, flow).currently_open == is_open,
        usage.after_report(is_open, at, flow).estimated_flow_liters_per_minute == flow,
{
    if let Some(rate) = flow {
        if let Some(since) = usage.open_since_timestamp {
            metering_keeps_rates_once(usage.metered, rate, elapsed(since, at));
        }
    }
}

/// A valve that opens and then closes has its open time counted, and metered at the flow rate
/// that applied when it closed.
pub proof fn open_interval_is_counted(
    usage: UsageView,
    opened: i64,
    flow_then: Option<Scalar>,
    closed: i64,
    flow: Option<Scalar>,
    rate: spec_fn(Scalar) -> int,
)
    requires
        usage.consistent(),
        !usage.currently_open,
        usage.total_open_millis + elapsed(opened, closed) <= u128::MAX,
        room_for(usage.metered, elapsed(opened, closed)),
    ensures
        ({
            let after = usage.after_report(true, opened, flow_then).after_report(
                false,
                closed,
                flow,
            );
            &&& !after.currently_open
            &&& after.total_open_millis == usage.total_open_millis + elapsed(opened, closed)
            &&& weighed(after.metered, rate) == weighed(usage.metered, rate) + (match flow {
                Some(known) => elapsed(opened, closed) * rate(known),
                None => 0,
            })
        }),
{
    if let Some(known) = flow {
        metering_adds_weight(usage.metered, known, elapsed(opened, closed), rate);
    }
}

/// A report that a valve is as it was changes nothing but the flow rate that applies to it.
pub proof fn repeated_report_counts_nothing(usage: UsageView, at: i64, flow: Option<Scalar>)
    ensures
        usage.after_report(usage.currently_open, at, flow) == (UsageView {
            estimated_flow_liters_per_minute: flow,
            ..usage
        }),
{
}

/// Taking in the same report again changes nothing, at whatever moment.
pub proof fn reports_are_idempotent(
    usage: UsageView,
    is_open: bool,
    at: i64,
    again: i64,
    flow: Option<Scalar>,
)
    ensures
        usage.after_report(is_open, at, flow).after_report(is_open, again, flow)
            == usage.after_report(is_open, at, flow),
{
}

/// Metering time takes nothing back, where no flow rate is negative.
pub proof fn metering_never_shrinks(
    metered: Seq<MeteredTime>,
    flow: Scalar,
    more: nat,
    rate: spec_fn(Scalar) -> int,
)
    requires
        forall|flow: Scalar| #[trigger] rate(flow) >= 0,
    ensures
        weighed(metered_more(metered, flow, more), rate) >= weighed(metered, rate),
    decreases metered.len(),
{
    let result = metered_more(metered, flow, more);
    assert(rate(flow) >= 0);
    if metered.len() == 0 {
        lemma_weighed_one(result[0], rate);
        assert(result =~= seq![result[0]]);
        assert(result[0].open_millis * rate(flow) >= 0) by (nonlinear_arith)
            requires
                rate(flow) >= 0,
        ;
    } else {
        let first = seq![metered[0]];
        let rest = metered.drop_first();
        assert(metered =~= first + rest);
        weighed_adds_up(first, rest, rate);
        lemma_weighed_one(metered[0], rate);
        if metered[0].flow == flow {
            let changed = seq![result[0]];
            assert(result =~= changed + rest);
            weighed_adds_up(changed, rest, rate);
            lemma_weighed_one(result[0], rate);
            assert(result[0].open_millis * rate(flow) >= metered[0].open_millis * rate(flow))
                by (nonlinear_arith)
                requires
                    rate(flow) >= 0,
                    result[0].open_millis >= metered[0].open_millis,
            ;
        } else {
            metering_never_shrinks(rest, flow, more, rate);
            weighed_adds_up(first, metered_more(rest, flow, more), rate);
        }
    }
}

/// A report never takes back open time or volume that was counted, where no flow rate is
/// negative.
pub proof fn counted_time_never_shrinks(
    usage: UsageView,
    is_open: bool,
    at: i64,
    flow: Option<Scalar>,
    rate: spec_fn(Scalar) -> int,
)
    requires
        forall|flow: Scalar| #[trigger] rate(flow) >= 0,
    ensures
        usage.after_report(is_open, at, flow).total_open_millis >= usage.total_open_millis,
        weighed(usage.after_report(is_open, at, flow).metered, rate) >= weighed(
            usage.metered,
            rate,
        ),
{
    if let Some(known) = flow {
        if let Some(since) = usage.open_since_timestamp {
            metering_never_shrinks(usage.metered, known, elapsed(since, at), rate);
        }
    }
}

/// The more time is metered at a flow rate, the more weight is added, where no flow rate is
/// negative.
pub proof fn metering_grows_with_time(
    metered: Seq<MeteredTime>,
    flow: Scalar,
    less: nat,
    more: nat,
    rate: spec_fn(Scalar) -> int,
)
    requires
        less <= more,
        forall|flow: Scalar| #[trigger] rate(flow) >= 0,
    ensures
        weighed(metered_more(metered, flow, less), rate) <= weighed(
            metered_more(metered, flow, more),
            rate,
        ),
    decreases metered.len(),
{
    let low = metered_more(metered, flow, less);
    let high = metered_more(metered, flow, more);
    assert(rate(flow) >= 0);
    if metered.len() == 0 || metered[0].flow == flow {
        let rest = low.drop_first();
        assert(low =~= seq![low[0]] + rest);
        assert(high =~= seq![high[0]] + rest);
        weighed_adds_up(seq![low[0]], rest, rate);
        weighed_adds_up(seq![high[0]], rest, rate);
        lemma_weighed_one(low[0], rate);
        lemma_weighed_one(high[0], rate);
        assert(low[0].open_millis * rate(flow) <= high[0].open_millis * rate(flow))
            by (nonlinear_arith)
            requires
                rate(flow) >= 0,
                low[0].open_millis <= high[0].open_millis,
        ;
    } else {
        let first = seq![metered[0]];
        let rest = metered.drop_first();
        metering_grows_with_time(rest, flow, less, more, rate);
        weighed_adds_up(first, metered_more(rest, flow, less), rate);
        weighed_adds_up(first, metered_more(rest, flow, more), rate);
    }
}

/// The totals of a valve grow as time goes by: the open time, and the volume where no flow rate
/// is negative.
pub proof fn totals_grow_with_time(
    usage: UsageView,
    earlier: i64,
    later: i64,
    rate: spec_fn(Scalar) -> int,
)
    requires
        earlier <= later,
        forall|flow: Scalar| #[trigger] rate(flow) >= 0,
    ensures
        usage.totals_at(earlier).open_millis <= usage.totals_at(later).open_millis,
        weighed(usage.totals_at(earlier).metered, rate) <= weighed(
            usage.totals_at(later).metered,
            rate,
        ),
{
    if let Some(known) = usage.estimated_flow_liters_per_minute {
        if let Some(since) = usage.open_since_timestamp {
            metering_grows_with_time(
                usage.metered,
                known,
                elapsed(since, earlier),
                elapsed(since, later),
                rate,
            );
        }
    }
}

/// What was shown of an open valve at the moment of its closing is what is shown of it from
/// then on, if the flow rate is still the same.
pub proof fn closing_settles_the_totals(usage: UsageView, closed: i64, later: i64)
    requires
        usage.consistent(),
        usage.currently_open,
    ensures
        ({
            let flow = usage.estimated_flow_liters_per_minute;
            let after = usage.after_report(false, closed, flow).totals_at(later);
            &&& after.open_millis == usage.totals_at(closed).open_millis
            &&& after.metered == usage.totals_at(closed).metered
            &&& after.flow_liters_per_minute == flow
            &&& after.current_flow_liters_per_minute is None
        }),
{
}

/// What a [`ValveUsageState`] says of each of its parts is what the field holds.
pub proof fn usages_say_what_they_hold(usage: ValveUsageState)
    ensures
        usage@.total_open_millis == usage.total_open_millis,
        usage@.metered == usage.metered@,
        usage@.open_since_timestamp == usage.open_since_timestamp,
        usage@.estimated_flow_liters_per_minute == usage.estimated_flow_liters_per_minute,
        usage@.currently_open == usage.currently_open,
{
}

/// What a [`ValveUsageTotals`] says of each of its parts is what the field holds.
pub proof fn totals_say_what_they_hold(totals: ValveUsageTotals)
    ensures
        totals@.open_millis == totals.open_millis,
        totals@.metered == totals.metered@,
        totals@.flow_liters_per_minute == totals.flow_liters_per_minute,
        totals@.current_flow_liters_per_minute == totals.current_flow_liters_per_minute,
{
}

}
