//! What the exporter does when a session has failed: it notes why, waits, and tries again.
use crate::config::RuntimeConfig;
use crate::http::Failure;
use crate::state::ExporterState;
use vstd::arithmetic::power2::pow2;
use vstd::prelude::*;

verus! {

use crate::config::ConfigView;
use crate::http::FailureView;
use crate::state::StateView;
use vstd::arithmetic::power2::{lemma2_to64, lemma_pow2_unfold};

/// How long to wait before the next try, in seconds.
#[derive(Debug)]
pub struct Backoff {
    delay: u64,
    first: u64,
    longest: u64,
}

/// What a [`Backoff`] says.
pub ghost struct BackoffView {
    pub delay: u64,
    pub first: u64,
    pub longest: u64,
}

impl View for Backoff {
    type V = BackoffView;

    closed spec fn view(&self) -> BackoffView {
        BackoffView { delay: self.delay, first: self.first, longest: self.longest }
    }
}

impl BackoffView {
    /// Before any failure.
    pub open spec fn starting(config: ConfigView) -> BackoffView {
        BackoffView {
            delay: config.reconnect_delay,
            first: config.reconnect_delay,
            longest: config.max_reconnect_delay,
        }
    }

    /// After one more failure the delay is twice as long, but not longer than the longest.
    pub open spec fn after_failure(self) -> BackoffView {
        BackoffView {
            delay: if 2 * self.delay < self.longest {
                (2 * self.delay) as u64
            } else {
                self.longest
            },
            ..self
        }
    }

    /// After a success.
    pub open spec fn after_success(self) -> BackoffView {
        BackoffView { delay: self.first, ..self }
    }

    /// After so many failures in a row.
    pub open spec fn after_failures(self, count: nat) -> BackoffView
        decreases count,
    {
        if count == 0 {
            self
        } else {
            self.after_failures((count - 1) as nat).after_failure()
        }
    }
}

impl Backoff {
    /// Before any failure.
    pub fn start(config: &RuntimeConfig) -> (backoff: Backoff)
        ensures
            backoff@ == BackoffView::starting(config@),
    {
        Backoff {
            delay: config.reconnect_delay,
            first: config.reconnect_delay,
            longest: config.max_reconnect_delay,
        }
    }

    /// Starts over after a success.
    pub fn succeed(&mut self)
        ensures
            final(self)@ == old(self)@.after_success(),
    {
        self.delay = self.first;
    }

    /// Notes a failure in the cache, and says for how many seconds to wait before the next try.
    pub fn fail(&mut self, state: &mut ExporterState, failure: &Failure) -> (delay: u64)
        ensures
            delay == old(self)@.delay,
            final(self)@ == old(self)@.after_failure(),
            final(state)@ == old(state)@.after_failure(failure@.words()),
    {
        state.note_failure(failure.message());
        let delay: u64 = self.delay;
        let doubled: u64 = delay.saturating_add(delay);
        self.delay = if doubled < self.longest {
            doubled
        } else {
            self.longest
        };
        delay
    }
}

/// After failures in a row the delay has doubled with each of them, up to the longest.
pub proof fn delays_double(backoff: BackoffView, count: nat)
    requires
        count > 0,
    ensures
        ({
            let grown = backoff.delay * pow2(count);
            backoff.after_failures(count).delay == if grown < backoff.longest {
                grown
            } else {
                backoff.longest as int
            }
        }),
        backoff.after_failures(count).longest == backoff.longest,
        backoff.after_failures(count).first == backoff.first,
    decreases count,
{
    lemma2_to64();
    let earlier = (count - 1) as nat;
    lemma_pow2_unfold(count);
    assert(backoff.delay * (2 * pow2(earlier)) == 2 * (backoff.delay * pow2(earlier)))
        by (nonlinear_arith);
    assert(backoff.delay * pow2(count) == 2 * (backoff.delay * pow2(earlier)));
    if earlier > 0 {
        delays_double(backoff, earlier);
    } else {
        assert(backoff.after_failures(earlier) == backoff);
        assert(backoff.delay * pow2(earlier) == backoff.delay) by (nonlinear_arith)
            requires
                pow2(earlier) == 1,
        ;
    }
}

/// No delay but the first is longer than the longest.
pub proof fn delays_are_bounded(backoff: BackoffView, count: nat)
    requires
        count > 0,
    ensures
        backoff.after_failures(count).delay <= backoff.longest,
{
    delays_double(backoff, count);
}

/// A failure shows: the exporter is not connected, says why, and counts one more try.
pub proof fn failures_show(state: StateView, failure: FailureView)
    ensures
        ({
            let after = state.after_failure(failure.words());
            &&& !after.connected
            &&& after.last_error == Some(failure.words())
            &&& state.websocket_reconnects_total < u64::MAX ==> after.websocket_reconnects_total
                == state.websocket_reconnects_total + 1
            &&& after.devices == state.devices
            &&& after.valve_usage == state.valve_usage
            &&& after.last_successful_sync_timestamp == state.last_successful_sync_timestamp
            &&& state.consistent() ==> after.consistent()
        }),
{
}

/// The first delay and the longest are the configured ones. A success brings the first delay
/// back, whatever has failed before.
pub proof fn delays_start_as_configured(config: ConfigView, backoff: BackoffView, count: nat)
    ensures
        BackoffView::starting(config).delay == config.reconnect_delay,
        BackoffView::starting(config).longest == config.max_reconnect_delay,
        BackoffView::starting(config).after_success() == BackoffView::starting(config),
        BackoffView::starting(config).after_failures(count).after_success()
            == BackoffView::starting(config),
        backoff.after_success().longest == backoff.longest,
        backoff.after_success().first == backoff.first,
        backoff.after_success().delay == backoff.first,
{
    if count > 0 {
        delays_double(BackoffView::starting(config), count);
    }
}

/// After a failure the delay is twice as long as before, or the longest if that is shorter.
pub proof fn each_failure_doubles_the_delay(backoff: BackoffView)
    ensures
        2 * backoff.delay < backoff.longest ==> backoff.after_failure().delay == 2 * backoff.delay,
        2 * backoff.delay >= backoff.longest ==> backoff.after_failure().delay == backoff.longest,
{
}

}
