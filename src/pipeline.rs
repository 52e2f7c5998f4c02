//! The decisions of the ingestion pipeline: startup validation, what is
//! computed for each entry, the producer's cutoff, and the run's counts.
//! Threads, the queue and the store are driven by the caller.

use vstd::prelude::*;
use vstd::seq_lib::{lemma_multiset_commutative, to_multiset_build};
use crate::hash::DigestSelection;
use crate::record::ForensicsFileType;

verus! {

/// Why a run refuses to start.
#[derive(Debug, Clone, Copy, PartialEq, Eq, Structural)]
pub enum StartupError {
    /// Neither the command line nor the environment names the store.
    MissingDatabaseUrl,
    /// A run needs at least one worker.
    NoWorkers,
    /// Every worker holds one pooled connection for its whole life, so a
    /// pool smaller than the worker count would leave a worker waiting
    /// forever.
    PoolTooSmall { capacity: u32, threads: usize },
}

/// The store URL: the one given on the command line, else the one of the
/// environment.
pub fn resolve_db_url(cli: Option<String>, env: Option<String>) -> (r: Result<String, StartupError>)
    ensures
        cli is Some ==> r is Ok && r.unwrap()@ == cli.unwrap()@,
        cli is None && env is Some ==> r is Ok && r.unwrap()@ == env.unwrap()@,
        cli is None && env is None ==> r == Err::<String, StartupError>(StartupError::MissingDatabaseUrl),
{
    match cli {
        Some(url) => Ok(url),
        None => match env {
            Some(url) => Ok(url),
            None => Err(StartupError::MissingDatabaseUrl),
        },
    }
}

/// The worker count: the requested one, else the host's parallelism.
pub fn resolve_threads(requested: Option<usize>, host: usize) -> (r: usize)
    ensures
        r == (match requested {
            Some(n) => n,
            None => host,
        }),
{
    match requested {
        Some(n) => n,
        None => host,
    }
}

/// Log verbosity.
#[derive(Debug, Clone, Copy, PartialEq, Eq, Structural)]
pub enum LogLevel {
    Warn,
    Info,
    Debug,
    Trace,
}

/// The level a count of `-v` flags selects: none warns, then info, debug,
/// and trace from three on.
pub fn log_level(verbose: u8) -> (r: LogLevel)
    ensures
        r == (if verbose == 0 {
            LogLevel::Warn
        } else if verbose == 1 {
            LogLevel::Info
        } else if verbose == 2 {
            LogLevel::Debug
        } else {
            LogLevel::Trace
        }),
{
    if verbose == 0 {
        LogLevel::Warn
    } else if verbose == 1 {
        LogLevel::Info
    } else if verbose == 2 {
        LogLevel::Debug
    } else {
        LogLevel::Trace
    }
}

/// A validated pipeline shape.
#[derive(Debug, Clone, Copy, PartialEq, Eq, Structural)]
pub struct PipelineConfig {
    pub threads: usize,
    pub pool_capacity: u32,
    /// Enumeration stops once this many entries were queued.
    pub max_entries: Option<u64>,
}

impl PipelineConfig {
    /// Every worker can hold its own connection for its whole life.
    pub open spec fn wf(&self) -> bool {
        self.threads >= 1 && self.threads <= self.pool_capacity
    }

    /// Validates the shape of a run before any thread starts: at least one
    /// worker, and a pool with a connection for each of them.
    pub fn new(threads: usize, pool_capacity: u32, max_entries: Option<u64>) -> (r: Result<
        PipelineConfig,
        StartupError,
    >)
        ensures
            threads == 0 ==> r == Err::<PipelineConfig, StartupError>(StartupError::NoWorkers),
            threads > 0 && (pool_capacity as int) < threads ==> r == Err::<PipelineConfig, StartupError>(
                StartupError::PoolTooSmall { capacity: pool_capacity, threads },
            ),
            threads > 0 && threads <= pool_capacity ==> r == Ok::<PipelineConfig, StartupError>(
                PipelineConfig { threads, pool_capacity, max_entries },
            ),
            r is Ok ==> r.unwrap().wf(),
    {
        if threads == 0 {
            Err(StartupError::NoWorkers)
        } else if (pool_capacity as usize) < threads {
            Err(StartupError::PoolTooSmall { capacity: pool_capacity, threads })
        } else {
            Ok(PipelineConfig { threads, pool_capacity, max_entries })
        }
    }
}

/// The per-file computations the configuration enables.
#[derive(Debug, Clone, Copy, PartialEq, Eq, Structural)]
pub struct ContentOptions {
    pub blake3: bool,
    pub sha256: bool,
    pub entropy: bool,
}

/// What is computed over the content of one entry. Discovery always runs on
/// processed content.
#[derive(Debug, Clone, Copy, PartialEq, Eq, Structural)]
pub struct ContentPlan {
    pub digests: DigestSelection,
    pub entropy: bool,
    pub discover: bool,
}

/// The content step of an entry whose metadata was read: skipped for
/// anything but a non-empty regular file, otherwise the enabled subset of
/// digests and entropy, with discovery.
pub fn plan_content(kind: ForensicsFileType, len: u64, opts: ContentOptions) -> (r: Option<ContentPlan>)
    ensures
        r is Some <==> kind == ForensicsFileType::File && len > 0,
        r is Some ==> r.unwrap() == (ContentPlan {
            digests: DigestSelection { blake3: opts.blake3, sha256: opts.sha256 },
            entropy: opts.entropy,
            discover: true,
        }),
{
    match kind {
        ForensicsFileType::File => if len > 0 {
            Some(
                ContentPlan {
                    digests: DigestSelection { blake3: opts.blake3, sha256: opts.sha256 },
                    entropy: opts.entropy,
                    discover: true,
                },
            )
        } else {
            None
        },
        _ => None,
    }
}

/// What the producer does with the next item of the walk.
#[derive(Debug, Clone, Copy, PartialEq, Eq, Structural)]
pub enum ProducerAction {
    /// Queue the entry.
    Send,
    /// The walk could not read this item: log it and go on.
    Skip,
    /// The cutoff is reached: close the queue.
    Stop,
}

/// The producer's state: how many entries it queued, against the cutoff.
#[derive(Debug, Clone, Copy, PartialEq, Eq, Structural)]
pub struct Producer {
    pub max_entries: Option<u64>,
    pub sent: u64,
}

impl Producer {
    /// Never more entries queued than the cutoff allows.
    pub open spec fn wf(&self) -> bool {
        match self.max_entries {
            Some(m) => self.sent <= m,
            None => true,
        }
    }

    pub open spec fn cutoff_reached(&self) -> bool {
        match self.max_entries {
            Some(m) => self.sent >= m,
            None => false,
        }
    }

    pub fn new(max_entries: Option<u64>) -> (r: Producer)
        ensures
            r.max_entries == max_entries,
            r.sent == 0,
            r.wf(),
    {
        Producer { max_entries, sent: 0 }
    }

    /// Decides on the next item of the walk; `readable` says whether the
    /// walk could read it.
    pub fn on_item(&mut self, readable: bool) -> (a: ProducerAction)
        requires
            old(self).wf(),
            old(self).sent < u64::MAX,
        ensures
            final(self).wf(),
            final(self).max_entries == old(self).max_entries,
            old(self).cutoff_reached() ==> a == ProducerAction::Stop && final(self).sent == old(self).sent,
            !old(self).cutoff_reached() && readable ==> a == ProducerAction::Send && final(self).sent
                == old(self).sent + 1,
            !old(self).cutoff_reached() && !readable ==> a == ProducerAction::Skip && final(self).sent
                == old(self).sent,
    {
        let reached = match self.max_entries {
            Some(m) => self.sent >= m,
            None => false,
        };
        if reached {
            ProducerAction::Stop
        } else if readable {
            self.sent = self.sent + 1;
            ProducerAction::Send
        } else {
            ProducerAction::Skip
        }
    }
}

/// How the processing of one queued entry ended.
#[derive(Debug, Clone, Copy, PartialEq, Eq, Structural)]
pub enum EntryOutcome {
    /// Its metadata could not be read: dropped.
    MetadataFailed,
    /// Its record was inserted.
    Persisted,
    /// The insert failed: dropped.
    PersistFailed,
}

/// How many of `outcomes` are `o`, in whatever order they came.
pub open spec fn count_of(outcomes: Seq<EntryOutcome>, o: EntryOutcome) -> nat {
    outcomes.to_multiset().count(o)
}

/// The counts of one worker, or of a whole run.
#[derive(Debug, Clone, Copy, PartialEq, Eq, Structural)]
pub struct Tally {
    pub metadata_failed: u64,
    pub persisted: u64,
    pub persist_failed: u64,
}

impl Tally {
    /// Whether this tally counts the outcomes `s`.
    pub open spec fn counts(&self, s: Seq<EntryOutcome>) -> bool {
        &&& self.metadata_failed == count_of(s, EntryOutcome::MetadataFailed)
        &&& self.persisted == count_of(s, EntryOutcome::Persisted)
        &&& self.persist_failed == count_of(s, EntryOutcome::PersistFailed)
    }

    pub open spec fn total(&self) -> int {
        self.metadata_failed + self.persisted + self.persist_failed
    }

    pub fn new() -> (r: Tally)
        ensures
            r.counts(Seq::empty()),
    {
        proof {
            lemma_empty_counts_nothing(EntryOutcome::MetadataFailed);
            lemma_empty_counts_nothing(EntryOutcome::Persisted);
            lemma_empty_counts_nothing(EntryOutcome::PersistFailed);
        }
        Tally { metadata_failed: 0, persisted: 0, persist_failed: 0 }
    }

    /// This tally with one more outcome `o`.
    pub open spec fn spec_record(self, o: EntryOutcome) -> Tally {
        match o {
            EntryOutcome::MetadataFailed => Tally { metadata_failed: (self.metadata_failed + 1) as u64, ..self },
            EntryOutcome::Persisted => Tally { persisted: (self.persisted + 1) as u64, ..self },
            EntryOutcome::PersistFailed => Tally { persist_failed: (self.persist_failed + 1) as u64, ..self },
        }
    }

    /// The field-wise sum of two tallies.
    pub open spec fn spec_merge(self, other: Tally) -> Tally {
        Tally {
            metadata_failed: (self.metadata_failed + other.metadata_failed) as u64,
            persisted: (self.persisted + other.persisted) as u64,
            persist_failed: (self.persist_failed + other.persist_failed) as u64,
        }
    }

    /// Counts one more outcome.
    pub fn record(&mut self, o: EntryOutcome)
        requires
            old(self).total() < u64::MAX,
        ensures
            *final(self) == old(self).spec_record(o),
            final(self).total() == old(self).total() + 1,
    {
        match o {
            EntryOutcome::MetadataFailed => self.metadata_failed = self.metadata_failed + 1,
            EntryOutcome::Persisted => self.persisted = self.persisted + 1,
            EntryOutcome::PersistFailed => self.persist_failed = self.persist_failed + 1,
        }
    }

    /// The tally of two disjoint sets of outcomes, such as two workers'.
    pub fn merge(&self, other: &Tally) -> (r: Tally)
        requires
            self.total() + other.total() <= u64::MAX,
        ensures
            r == self.spec_merge(*other),
            r.total() == self.total() + other.total(),
    {
        Tally {
            metadata_failed: self.metadata_failed + other.metadata_failed,
            persisted: self.persisted + other.persisted,
            persist_failed: self.persist_failed + other.persist_failed,
        }
    }
}

/// Recording an outcome into the tally of `seen` gives the tally of `seen`
/// followed by that outcome.
pub proof fn lemma_record_counts(t: Tally, seen: Seq<EntryOutcome>, o: EntryOutcome)
    requires
        t.counts(seen),
        t.total() < u64::MAX,
    ensures
        t.spec_record(o).counts(seen.push(o)),
{
    to_multiset_build(seen, o);
}

/// Merging the tallies of two sets of outcomes gives the tally of both.
pub proof fn lemma_merge_counts(t1: Tally, t2: Tally, a: Seq<EntryOutcome>, b: Seq<EntryOutcome>)
    requires
        t1.counts(a),
        t2.counts(b),
        t1.total() + t2.total() <= u64::MAX,
    ensures
        t1.spec_merge(t2).counts(a + b),
{
    lemma_multiset_commutative(a, b);
}

proof fn lemma_empty_counts_nothing(o: EntryOutcome)
    ensures
        count_of(Seq::empty(), o) == 0,
{
    let e = Seq::<EntryOutcome>::empty();
    lemma_multiset_commutative(e, e);
    assert(e + e =~= e);
}

/// All outcomes of a run, worker after worker.
pub open spec fn all_outcomes(workers: Seq<Seq<EntryOutcome>>) -> Seq<EntryOutcome>
    decreases workers.len(),
{
    if workers.len() == 0 {
        Seq::empty()
    } else {
        all_outcomes(workers.drop_last()) + workers.last()
    }
}

/// The sum over workers of how many of their outcomes are `o`.
pub open spec fn sum_counts(workers: Seq<Seq<EntryOutcome>>, o: EntryOutcome) -> nat
    decreases workers.len(),
{
    if workers.len() == 0 {
        0
    } else {
        sum_counts(workers.drop_last(), o) + count_of(workers.last(), o)
    }
}

proof fn lemma_sum_counts_is_count_of_all(workers: Seq<Seq<EntryOutcome>>, o: EntryOutcome)
    ensures
        sum_counts(workers, o) == count_of(all_outcomes(workers), o),
    decreases workers.len(),
{
    if workers.len() > 0 {
        lemma_sum_counts_is_count_of_all(workers.drop_last(), o);
        lemma_multiset_commutative(all_outcomes(workers.drop_last()), workers.last());
    } else {
        lemma_empty_counts_nothing(o);
    }
}

/// The counts of a run do not depend on how its entries were shared out:
/// two runs over the same entries with the same outcomes, whatever the
/// number of workers and whatever entries each worker took, add up to the
/// same number of persisted records and of each kind of drop.
pub proof fn lemma_counts_independent_of_workers(
    run1: Seq<Seq<EntryOutcome>>,
    run2: Seq<Seq<EntryOutcome>>,
    o: EntryOutcome,
)
    requires
        all_outcomes(run1).to_multiset() == all_outcomes(run2).to_multiset(),
    ensures
        sum_counts(run1, o) == sum_counts(run2, o),
{
    lemma_sum_counts_is_count_of_all(run1, o);
    lemma_sum_counts_is_count_of_all(run2, o);
}

} // verus!
