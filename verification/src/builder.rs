//! Configuring a worker pool step by step.

use vstd::prelude::*;
use crate::worker::WorkerConfig;
use crate::time::Delay;

verus! {

/// Builds the configuration of a worker pool around a queue handle `Q`.
pub struct WorkerBuilder<Q> {
    queue: Q,
    config: WorkerConfig,
}

impl<Q> WorkerBuilder<Q> {
    /// The queue handle the pool will use.
    pub closed spec fn spec_queue(&self) -> Q {
        self.queue
    }

    /// The configuration built so far.
    pub closed spec fn spec_config(&self) -> WorkerConfig {
        self.config
    }

    /// A builder for `queue` with the default configuration.
    pub fn new(queue: Q) -> (b: WorkerBuilder<Q>)
        ensures
            b.spec_queue() == queue,
            b.spec_config().queues@.len() == 1,
            b.spec_config().queues@[0]@ == "default"@,
            b.spec_config().concurrency == 10,
            b.spec_config().poll_interval.secs == 0,
            b.spec_config().poll_interval.nanos == 500_000_000,
    {
        WorkerBuilder { queue, config: WorkerConfig::default() }
    }

    /// The builder with the polled queues replaced by `queues`, in order.
    pub fn queues(self, queues: Vec<String>) -> (b: WorkerBuilder<Q>)
        ensures
            b.spec_queue() == self.spec_queue(),
            b.spec_config() == (WorkerConfig { queues, ..self.spec_config() }),
    {
        let mut config = self.config;
        config.queues = queues;
        WorkerBuilder { queue: self.queue, config }
    }

    /// The builder with the number of workers replaced by `n`.
    pub fn concurrency(self, n: usize) -> (b: WorkerBuilder<Q>)
        ensures
            b.spec_queue() == self.spec_queue(),
            b.spec_config() == (WorkerConfig { concurrency: n, ..self.spec_config() }),
    {
        let mut config = self.config;
        config.concurrency = n;
        WorkerBuilder { queue: self.queue, config }
    }

    /// The queue handle and the configuration, to start the pool with.
    pub fn into_parts(self) -> (r: (Q, WorkerConfig))
        ensures
            r.0 == self.spec_queue(),
            r.1 == self.spec_config(),
    {
        (self.queue, self.config)
    }
}

/// A call that changes a builder's configuration.
pub enum BuilderCall {
    /// `queues` with these queues.
    Queues(Vec<String>),
    /// `concurrency` with this number of workers.
    Concurrency(usize),
}

/// The configuration after `call`.
pub open spec fn after_call(c: WorkerConfig, call: BuilderCall) -> WorkerConfig {
    match call {
        BuilderCall::Queues(q) => WorkerConfig { queues: q, ..c },
        BuilderCall::Concurrency(n) => WorkerConfig { concurrency: n, ..c },
    }
}

/// The queues of the last `queues` call among `calls`, if any.
pub open spec fn last_queues(calls: Seq<BuilderCall>) -> Option<Vec<String>>
    decreases calls.len(),
{
    if calls.len() == 0 {
        None
    } else {
        match calls.last() {
            BuilderCall::Queues(q) => Some(q),
            BuilderCall::Concurrency(_) => last_queues(calls.drop_last()),
        }
    }
}

/// The number of workers of the last `concurrency` call among `calls`, if
/// any.
pub open spec fn last_concurrency(calls: Seq<BuilderCall>) -> Option<usize>
    decreases calls.len(),
{
    if calls.len() == 0 {
        None
    } else {
        match calls.last() {
            BuilderCall::Concurrency(n) => Some(n),
            BuilderCall::Queues(_) => last_concurrency(calls.drop_last()),
        }
    }
}

/// `builders` is a builder made by `new` followed by the builders that
/// `calls` make of it, one call after another.
pub open spec fn built_by<Q>(builders: Seq<WorkerBuilder<Q>>, calls: Seq<BuilderCall>) -> bool {
    &&& builders.len() == calls.len() + 1
    &&& builders[0].spec_config().queues@.len() == 1
    &&& builders[0].spec_config().queues@[0]@ == "default"@
    &&& builders[0].spec_config().concurrency == 10
    &&& builders[0].spec_config().poll_interval == (Delay { secs: 0, nanos: 500_000_000 })
    &&& forall|i: int| #![trigger calls[i]] 0 <= i < calls.len() ==> builders[i + 1].spec_queue() == builders[i].spec_queue()
        && builders[i + 1].spec_config() == after_call(builders[i].spec_config(), calls[i])
}

/// The builder after the first `k` calls holds the handle it was made with,
/// the settings of the last of those calls, and the defaults for the rest.
proof fn lemma_builder_prefix<Q>(builders: Seq<WorkerBuilder<Q>>, calls: Seq<BuilderCall>, k: int)
    requires
        built_by(builders, calls),
        0 <= k <= calls.len(),
    ensures
        builders[k].spec_queue() == builders[0].spec_queue(),
        builders[k].spec_config().poll_interval == (Delay { secs: 0, nanos: 500_000_000 }),
        match last_queues(calls.take(k)) {
            Some(q) => builders[k].spec_config().queues == q,
            None => builders[k].spec_config().queues@.len() == 1 && builders[k].spec_config().queues@[0]@ == "default"@,
        },
        match last_concurrency(calls.take(k)) {
            Some(n) => builders[k].spec_config().concurrency == n,
            None => builders[k].spec_config().concurrency == 10,
        },
    decreases k,
{
    if k > 0 {
        lemma_builder_prefix(builders, calls, k - 1);
        let c = calls[k - 1];
        assert(calls.take(k).drop_last() =~= calls.take(k - 1));
        assert(calls.take(k).last() == c);
    } else {
        assert(calls.take(0) =~= Seq::<BuilderCall>::empty());
    }
}

/// Whatever calls are made on a new builder, in whatever order, the pool it
/// starts polls the queues of the last `queues` call (only `default`
/// without one), runs the number of workers of the last `concurrency` call
/// (ten without one), waits half a second between polls of an empty queue,
/// and uses the queue handle the builder was made with.
pub proof fn lemma_builder_keeps_the_last_settings<Q>(builders: Seq<WorkerBuilder<Q>>, calls: Seq<BuilderCall>)
    requires
        built_by(builders, calls),
    ensures
        builders.last().spec_queue() == builders[0].spec_queue(),
        builders.last().spec_config().poll_interval == (Delay { secs: 0, nanos: 500_000_000 }),
        match last_queues(calls) {
            Some(q) => builders.last().spec_config().queues == q,
            None => builders.last().spec_config().queues@.len() == 1 && builders.last().spec_config().queues@[0]@ == "default"@,
        },
        match last_concurrency(calls) {
            Some(n) => builders.last().spec_config().concurrency == n,
            None => builders.last().spec_config().concurrency == 10,
        },
{
    lemma_builder_prefix(builders, calls, calls.len() as int);
    assert(calls.take(calls.len() as int) =~= calls);
}

} // verus!
