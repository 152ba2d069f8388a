//! The snapshot/diff engine: one cycle compares a fresh reading against the
//! last accepted snapshot and builds the sparse record to be logged.
use vstd::prelude::*;

use crate::sample::{copy_list, lists_match, same_lists, CpuSample, ProcessSample, Sample, UnitSample};
use crate::usage::{is_positive, usage_is_positive};

verus! {

/// A measurement: the held snapshot, or a record built by one cycle.
///
/// In a record a category is `Some` only when it changed; in the held
/// snapshot it is the latest value accepted for it, `None` before any. A
/// category never set differs from every fresh list, the empty one included,
/// so the first record carries every category.
#[derive(Clone, Debug)]
pub struct MeasurementData {
    pub timestamp: String,
    pub used_memory: u64,
    pub used_swap: u64,
    pub process_data: Option<Vec<ProcessSample>>,
    pub cpu_data: Option<Vec<CpuSample>>,
    pub units: Option<Vec<UnitSample>>,
}

/// What the metric providers reported in one cycle.
#[derive(Clone, Debug)]
pub struct Reading {
    pub used_memory: u64,
    pub used_swap: u64,
    /// Every process, idle ones included; the provider reports each pid once
    /// (see [`unique_pids`]).
    pub processes: Vec<ProcessSample>,
    pub cpus: Vec<CpuSample>,
    /// The service-manager units; `None` where the platform has no service
    /// manager.
    pub units: Option<Vec<UnitSample>>,
}

/// The outcome of one cycle.
#[derive(Clone, Debug)]
pub struct Tick {
    /// Whether a category changed, so that the record is to be written.
    pub emit: bool,
    /// The sparse record.
    pub record: MeasurementData,
    /// The snapshot to hold from now on.
    pub updated: MeasurementData,
}

/// The mathematical value of a [`MeasurementData`].
pub struct MeasurementView {
    pub timestamp: Seq<char>,
    pub used_memory: u64,
    pub used_swap: u64,
    pub process_data: Option<Seq<ProcessSample>>,
    pub cpu_data: Option<Seq<CpuSample>>,
    pub units: Option<Seq<UnitSample>>,
}

/// The mathematical value of a [`Reading`].
pub struct ReadingView {
    pub used_memory: u64,
    pub used_swap: u64,
    pub processes: Seq<ProcessSample>,
    pub cpus: Seq<CpuSample>,
    pub units: Option<Seq<UnitSample>>,
}

/// The mathematical value of a [`Tick`].
pub struct TickView {
    pub emit: bool,
    pub record: MeasurementView,
    pub updated: MeasurementView,
}

/// The value of an optional list.
pub open spec fn list_view<T>(o: Option<Vec<T>>) -> Option<Seq<T>> {
    match o {
        Some(v) => Some(v@),
        None => None,
    }
}

impl View for MeasurementData {
    type V = MeasurementView;

    open spec fn view(&self) -> MeasurementView {
        MeasurementView {
            timestamp: self.timestamp@,
            used_memory: self.used_memory,
            used_swap: self.used_swap,
            process_data: list_view(self.process_data),
            cpu_data: list_view(self.cpu_data),
            units: list_view(self.units),
        }
    }
}

impl View for Reading {
    type V = ReadingView;

    open spec fn view(&self) -> ReadingView {
        ReadingView {
            used_memory: self.used_memory,
            used_swap: self.used_swap,
            processes: self.processes@,
            cpus: self.cpus@,
            units: list_view(self.units),
        }
    }
}

impl View for Tick {
    type V = TickView;

    open spec fn view(&self) -> TickView {
        TickView { emit: self.emit, record: self.record@, updated: self.updated@ }
    }
}

/// The processes that used some CPU in the cycle, in the order reported.
pub open spec fn busy_of(s: Seq<ProcessSample>) -> Seq<ProcessSample> {
    s.filter(|p: ProcessSample| is_positive(p.usage_bits))
}

/// No two entries of a process list share a pid.
pub open spec fn unique_pids(s: Seq<ProcessSample>) -> bool {
    forall|i: int, j: int| 0 <= i < s.len() && 0 <= j < s.len() && i != j ==> s[i].pid != s[j].pid
}

/// Every process of the held list was busy when it was recorded.
pub open spec fn held_busy(m: MeasurementView) -> bool {
    m.process_data matches Some(s) ==> forall|i: int|
        0 <= i < s.len() ==> is_positive(#[trigger] s[i].usage_bits)
}

/// Whether a freshly sampled category differs from the held one; a category
/// never set differs from every list.
pub open spec fn differs<T: Sample>(held: Option<Seq<T>>, fresh: Seq<T>) -> bool {
    match held {
        Some(h) => !same_lists(h, fresh),
        None => true,
    }
}

/// A category as it stands in a record: the fresh value where it changed.
pub open spec fn delta<T: Sample>(held: Option<Seq<T>>, fresh: Seq<T>) -> Option<Seq<T>> {
    if differs(held, fresh) {
        Some(fresh)
    } else {
        None
    }
}

/// A category of the held snapshot after a record is accepted.
pub open spec fn merged<T>(held: Option<Seq<T>>, change: Option<Seq<T>>) -> Option<Seq<T>> {
    match change {
        Some(s) => Some(s),
        None => held,
    }
}

/// The record that one cycle builds, whether or not it is written: memory and
/// swap always, each changed category, and the cycle's time only on a change.
pub open spec fn record_of(
    previous: MeasurementView,
    reading: ReadingView,
    now: Seq<char>,
) -> MeasurementView {
    let process_data = delta(previous.process_data, busy_of(reading.processes));
    let cpu_data = delta(previous.cpu_data, reading.cpus);
    let units = match reading.units {
        Some(u) => delta(previous.units, u),
        None => None,
    };
    let changed = process_data is Some || cpu_data is Some || units is Some;
    MeasurementView {
        timestamp: if changed {
            now
        } else {
            previous.timestamp
        },
        used_memory: reading.used_memory,
        used_swap: reading.used_swap,
        process_data,
        cpu_data,
        units,
    }
}

/// Whether a record carries any category, and so is to be written.
pub open spec fn carries_change(record: MeasurementView) -> bool {
    record.process_data is Some || record.cpu_data is Some || record.units is Some
}

/// The held snapshot once a record is accepted.
pub open spec fn accepted(previous: MeasurementView, record: MeasurementView) -> MeasurementView {
    MeasurementView {
        timestamp: record.timestamp,
        used_memory: record.used_memory,
        used_swap: record.used_swap,
        process_data: merged(previous.process_data, record.process_data),
        cpu_data: merged(previous.cpu_data, record.cpu_data),
        units: merged(previous.units, record.units),
    }
}

/// One cycle of the engine.
pub open spec fn cycle(previous: MeasurementView, reading: ReadingView, now: Seq<char>) -> TickView {
    let record = record_of(previous, reading, now);
    let emit = carries_change(record);
    TickView {
        emit,
        record,
        updated: if emit {
            accepted(previous, record)
        } else {
            previous
        },
    }
}

impl MeasurementData {
    /// The snapshot held at start-up: no category set, memory and swap zero.
    pub fn new(timestamp: String) -> (r: MeasurementData)
        ensures
            r@ == initial(timestamp@),
    {
        MeasurementData {
            timestamp,
            used_memory: 0,
            used_swap: 0,
            process_data: None,
            cpu_data: None,
            units: None,
        }
    }
}

/// The snapshot held at start-up, stamped with the given time.
pub open spec fn initial(timestamp: Seq<char>) -> MeasurementView {
    MeasurementView {
        timestamp,
        used_memory: 0,
        used_swap: 0,
        process_data: None,
        cpu_data: None,
        units: None,
    }
}

/// Keeps the processes whose CPU usage is strictly greater than zero.
pub fn busy_processes(all: &Vec<ProcessSample>) -> (r: Vec<ProcessSample>)
    ensures
        r@ == busy_of(all@),
{
    let mut out: Vec<ProcessSample> = Vec::new();
    let mut i: usize = 0;
    while i < all.len()
        invariant
            0 <= i <= all.len(),
            out@ == busy_of(all@.subrange(0, i as int)),
        decreases all.len() - i,
    {
        proof {
            let next = all@.subrange(0, i + 1);
            assert(next.drop_last() =~= all@.subrange(0, i as int));
            assert(next.last() == all@[i as int]);
            reveal(Seq::filter);
        }
        if usage_is_positive(all[i].usage_bits) {
            out.push(all[i].duplicate());
        }
        i += 1;
    }
    assert(all@.subrange(0, all.len() as int) =~= all@);
    out
}

/// The category as it goes into the record: the fresh list where it differs
/// from the held one, `None` where it does not.
pub fn category_delta<T: Sample>(held: &Option<Vec<T>>, fresh: Vec<T>) -> (r: Option<Vec<T>>)
    ensures
        list_view(r) == delta(list_view(*held), fresh@),
{
    let unchanged = match held {
        Some(h) => lists_match(h, &fresh),
        None => false,
    };
    if unchanged {
        None
    } else {
        Some(fresh)
    }
}

/// The held category after a record is accepted.
pub fn merge_category<T: Sample>(held: Option<Vec<T>>, change: &Option<Vec<T>>) -> (r: Option<
    Vec<T>,
>)
    ensures
        list_view(r) == merged(list_view(held), list_view(*change)),
{
    match change {
        Some(c) => Some(copy_list(c)),
        None => held,
    }
}

/// One cycle: compares the reading with the held snapshot, builds the sparse
/// record, and gives the snapshot to hold afterwards.
pub fn tick(previous: MeasurementData, reading: Reading, now: String) -> (r: Tick)
    ensures
        r@ == cycle(previous@, reading@, now@),
{
    let busy = busy_processes(&reading.processes);
    let process_data = category_delta(&previous.process_data, busy);
    let cpu_data = category_delta(&previous.cpu_data, reading.cpus);
    let units = match reading.units {
        Some(u) => category_delta(&previous.units, u),
        None => None,
    };
    let emit = process_data.is_some() || cpu_data.is_some() || units.is_some();
    if emit {
        let record = MeasurementData {
            timestamp: now.clone(),
            used_memory: reading.used_memory,
            used_swap: reading.used_swap,
            process_data,
            cpu_data,
            units,
        };
        let updated = MeasurementData {
            timestamp: now,
            used_memory: reading.used_memory,
            used_swap: reading.used_swap,
            process_data: merge_category(previous.process_data, &record.process_data),
            cpu_data: merge_category(previous.cpu_data, &record.cpu_data),
            units: merge_category(previous.units, &record.units),
        };
        Tick { emit, record, updated }
    } else {
        let record = MeasurementData {
            timestamp: previous.timestamp.clone(),
            used_memory: reading.used_memory,
            used_swap: reading.used_swap,
            process_data: None,
            cpu_data: None,
            units: None,
        };
        Tick { emit, record, updated: previous }
    }
}

} // verus!
