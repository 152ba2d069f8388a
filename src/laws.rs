//! Properties of the engine that span calls or hold for every input.
use vstd::prelude::*;

use crate::engine::{
    busy_of, cycle, delta, differs, held_busy, initial, merged, unique_pids, MeasurementView,
    ReadingView,
};
use crate::sample::{same_lists, ProcessSample, Sample};
use crate::usage::{is_nan, is_positive};

verus! {

proof fn lemma_same_lists_reflexive<T: Sample>(s: Seq<T>)
    requires
        forall|i: int| 0 <= i < s.len() ==> (#[trigger] s[i]).same(&s[i]),
    ensures
        same_lists(s, s),
{
}

/// Once a category's fresh value has been through a cycle, the category held
/// afterwards no longer differs from it.
proof fn lemma_category_settles<T: Sample>(held: Option<Seq<T>>, fresh: Seq<T>)
    requires
        forall|i: int| 0 <= i < fresh.len() ==> (#[trigger] fresh[i]).same(&fresh[i]),
    ensures
        !differs(merged(held, delta(held, fresh)), fresh),
{
    lemma_same_lists_reflexive(fresh);
}

proof fn lemma_busy_are_positive(s: Seq<ProcessSample>)
    ensures
        forall|i: int| 0 <= i < busy_of(s).len() ==> is_positive(#[trigger] busy_of(s)[i].usage_bits),
{
    broadcast use vstd::seq_lib::group_filter_ensures;

}

/// When a cycle reads the same processes, CPUs and units as the cycle before
/// it, it emits nothing and leaves the held snapshot, timestamp included, as
/// it was. (A CPU whose usage is NaN never equals itself, so such CPUs are
/// left out.)
pub proof fn lemma_repeat_is_quiet(
    previous: MeasurementView,
    first: ReadingView,
    second: ReadingView,
    first_now: Seq<char>,
    second_now: Seq<char>,
)
    requires
        second.processes == first.processes,
        second.cpus == first.cpus,
        second.units == first.units,
        forall|i: int| 0 <= i < first.cpus.len() ==> !is_nan(#[trigger] first.cpus[i].usage_bits),
    ensures
        ({
            let held = cycle(previous, first, first_now).updated;
            let again = cycle(held, second, second_now);
            &&& !again.emit
            &&& again.updated == held
            &&& again.updated.timestamp == held.timestamp
        }),
{
    let busy = busy_of(first.processes);
    lemma_busy_are_positive(first.processes);
    assert forall|i: int| 0 <= i < busy.len() implies (#[trigger] busy[i]).same(&busy[i]) by {
        assert(is_positive(busy[i].usage_bits));
    }
    lemma_category_settles(previous.process_data, busy);
    lemma_category_settles(previous.cpu_data, first.cpus);
    if let Some(u) = first.units {
        lemma_category_settles(previous.units, u);
    }
}

/// A record that is written holds a category exactly when that category's
/// fresh value differs from the held one, and then holds the fresh value.
pub proof fn lemma_sparse_record(previous: MeasurementView, reading: ReadingView, now: Seq<char>)
    ensures
        ({
            let t = cycle(previous, reading, now);
            let busy = busy_of(reading.processes);
            t.emit ==> {
                &&& (t.record.process_data is Some <==> differs(previous.process_data, busy))
                &&& (t.record.process_data matches Some(s) ==> s == busy)
                &&& (t.record.cpu_data is Some <==> differs(previous.cpu_data, reading.cpus))
                &&& (t.record.cpu_data matches Some(s) ==> s == reading.cpus)
                &&& (reading.units matches Some(u) ==> (t.record.units is Some <==> differs(
                    previous.units,
                    u,
                )) && (t.record.units matches Some(s) ==> s == u))
                &&& (reading.units is None ==> t.record.units is None)
            }
        }),
{
}

/// No process that was idle in a cycle stands in that cycle's record.
pub proof fn lemma_idle_never_recorded(previous: MeasurementView, reading: ReadingView, now: Seq<char>)
    ensures
        cycle(previous, reading, now).record.process_data matches Some(s) ==> forall|i: int|
            0 <= i < s.len() ==> is_positive(#[trigger] s[i].usage_bits),
{
    lemma_busy_are_positive(reading.processes);
}

/// The held process list only ever holds busy processes: true at start-up and
/// kept by every cycle.
pub proof fn lemma_held_stays_busy(previous: MeasurementView, reading: ReadingView, now: Seq<char>)
    requires
        held_busy(previous),
    ensures
        held_busy(cycle(previous, reading, now).updated),
        forall|start: Seq<char>| #[trigger] held_busy(initial(start)),
{
    lemma_busy_are_positive(reading.processes);
}

proof fn lemma_all_busy_kept(s: Seq<ProcessSample>)
    requires
        forall|i: int| 0 <= i < s.len() ==> is_positive(#[trigger] s[i].usage_bits),
    ensures
        busy_of(s) == s,
    decreases s.len(),
{
    reveal(Seq::filter);
    if s.len() > 0 {
        lemma_all_busy_kept(s.drop_last());
        assert(s.drop_last().push(s.last()) =~= s);
    }
}

proof fn lemma_busy_removes_idle(s: Seq<ProcessSample>, k: int, idle: ProcessSample)
    requires
        0 <= k < s.len(),
        forall|i: int| 0 <= i < s.len() ==> is_positive(#[trigger] s[i].usage_bits),
        !is_positive(idle.usage_bits),
    ensures
        busy_of(s.update(k, idle)) == s.remove(k),
    decreases s.len(),
{
    let t = s.update(k, idle);
    reveal(Seq::filter);
    if k == s.len() - 1 {
        assert(t.drop_last() =~= s.drop_last());
        lemma_all_busy_kept(s.drop_last());
        assert(s.remove(k) =~= s.drop_last());
    } else {
        assert(t.drop_last() =~= s.drop_last().update(k, idle));
        lemma_busy_removes_idle(s.drop_last(), k, idle);
        assert(s.drop_last().remove(k).push(s.last()) =~= s.remove(k));
    }
}

/// When a process of the held list goes idle and nothing else changes, the
/// cycle writes a record whose process list is the held one without that
/// process: no entry of it carries the idle process's pid.
pub proof fn lemma_going_idle_is_recorded(
    previous: MeasurementView,
    reading: ReadingView,
    now: Seq<char>,
    k: int,
    idle: ProcessSample,
)
    requires
        held_busy(previous),
        previous.process_data matches Some(held) && 0 <= k < held.len() && reading.processes
            == held.update(k, idle),
        unique_pids(reading.processes),
        !is_positive(idle.usage_bits),
    ensures
        ({
            let t = cycle(previous, reading, now);
            let held = previous.process_data->0;
            &&& t.emit
            &&& t.record.process_data == Some(held.remove(k))
            &&& forall|i: int|
                0 <= i < held.remove(k).len() ==> (#[trigger] held.remove(k)[i]).pid != idle.pid
        }),
{
    let held = previous.process_data->0;
    lemma_busy_removes_idle(held, k, idle);
    assert(!same_lists(held, held.remove(k)));
    assert forall|i: int| 0 <= i < held.remove(k).len() implies (#[trigger] held.remove(
        k,
    )[i]).pid != idle.pid by {
        let j = if i < k {
            i
        } else {
            i + 1
        };
        assert(held.remove(k)[i] == reading.processes[j]);
        assert(reading.processes[k] == idle);
    }
}

/// Memory and swap use stand in every record, and in the snapshot held after
/// it is written, whether or not they changed.
pub proof fn lemma_memory_always_recorded(
    previous: MeasurementView,
    reading: ReadingView,
    now: Seq<char>,
)
    ensures
        ({
            let t = cycle(previous, reading, now);
            &&& t.record.used_memory == reading.used_memory
            &&& t.record.used_swap == reading.used_swap
            &&& t.emit ==> t.updated.used_memory == reading.used_memory && t.updated.used_swap
                == reading.used_swap
        }),
{
}

/// On the snapshot held at start-up, the first cycle is always written, at
/// the cycle's time, and records every category as freshly read, empty lists
/// included.
pub proof fn lemma_first_cycle_covers(start: Seq<char>, reading: ReadingView, now: Seq<char>)
    ensures
        ({
            let t = cycle(initial(start), reading, now);
            &&& t.emit
            &&& t.record.timestamp == now
            &&& t.record.process_data == Some(busy_of(reading.processes))
            &&& t.record.cpu_data == Some(reading.cpus)
            &&& t.record.units == reading.units
        }),
{
}

} // verus!
