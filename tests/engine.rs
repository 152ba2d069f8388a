use idle_log::{
    busy_processes, lists_match, tick, ActiveState, CpuSample, DiskUsage, LoadState,
    MeasurementData, ProcessSample, Reading, UnitSample,
};

fn cpu(usage: f32, frequency: u64) -> CpuSample {
    CpuSample { usage_bits: usage.to_bits(), frequency }
}

fn process(pid: u32, name: &str, usage: f32) -> ProcessSample {
    ProcessSample {
        pid,
        name: name.to_string(),
        usage_bits: usage.to_bits(),
        memory_usage: 4096,
        disk_usage: DiskUsage {
            total_written_bytes: 10,
            written_bytes: 1,
            total_read_bytes: 20,
            read_bytes: 2,
        },
    }
}

fn unit(name: &str, active: ActiveState) -> UnitSample {
    UnitSample {
        unit_name: name.to_string(),
        loaded: LoadState::Loaded,
        active,
        sub_state: "running".to_string(),
        description: "a unit".to_string(),
    }
}

fn reading(
    used_memory: u64,
    processes: Vec<ProcessSample>,
    cpus: Vec<CpuSample>,
    units: Option<Vec<UnitSample>>,
) -> Reading {
    Reading { used_memory, used_swap: 0, processes, cpus, units }
}

fn cpus_of(o: &Option<Vec<CpuSample>>) -> Option<Vec<(u32, u64)>> {
    o.as_ref().map(|v| v.iter().map(|c| (c.usage_bits, c.frequency)).collect())
}

fn pids_of(o: &Option<Vec<ProcessSample>>) -> Option<Vec<u32>> {
    o.as_ref().map(|v| v.iter().map(|p| p.pid).collect())
}

fn unit_names_of(o: &Option<Vec<UnitSample>>) -> Option<Vec<String>> {
    o.as_ref().map(|v| v.iter().map(|u| u.unit_name.clone()).collect())
}

#[test]
fn first_cycle_records_every_category_even_empty() {
    let held = MeasurementData::new("T0".to_string());
    let t = tick(held, reading(1000, vec![], vec![cpu(0.5, 2400)], None), "T1".to_string());
    assert!(t.emit);
    assert_eq!(t.record.timestamp, "T1");
    assert_eq!(t.record.used_memory, 1000);
    assert_eq!(t.record.used_swap, 0);
    assert_eq!(cpus_of(&t.record.cpu_data), Some(vec![(0.5f32.to_bits(), 2400)]));
    assert_eq!(pids_of(&t.record.process_data), Some(vec![]));
    assert!(t.record.units.is_none());
    assert_eq!(t.updated.timestamp, "T1");
    assert_eq!(pids_of(&t.updated.process_data), Some(vec![]));
    assert_eq!(cpus_of(&t.updated.cpu_data), Some(vec![(0.5f32.to_bits(), 2400)]));
}

#[test]
fn second_cycle_with_only_memory_changed_is_not_written() {
    let held = MeasurementData::new("T0".to_string());
    let first = tick(held, reading(1000, vec![], vec![cpu(0.5, 2400)], None), "T1".to_string());
    let second =
        tick(first.updated, reading(1200, vec![], vec![cpu(0.5, 2400)], None), "T2".to_string());
    assert!(!second.emit);
    assert_eq!(second.record.timestamp, "T1");
    assert_eq!(second.record.used_memory, 1200);
    assert_eq!(second.record.used_swap, 0);
    assert!(second.record.cpu_data.is_none());
    assert!(second.record.process_data.is_none());
    assert!(second.record.units.is_none());
    assert_eq!(second.updated.timestamp, "T1");
    assert_eq!(second.updated.used_memory, 1000);
}

#[test]
fn identical_reads_emit_nothing() {
    let r = || {
        reading(
            500,
            vec![process(1, "init", 0.25), process(7, "idle", 0.0)],
            vec![cpu(3.0, 2400), cpu(0.0, 1800)],
            Some(vec![unit("a.service", ActiveState::Active)]),
        )
    };
    let first = tick(MeasurementData::new("T0".to_string()), r(), "T1".to_string());
    assert!(first.emit);
    let second = tick(first.updated, r(), "T2".to_string());
    assert!(!second.emit);
    assert_eq!(second.updated.timestamp, "T1");
    assert_eq!(second.record.timestamp, "T1");
}

#[test]
fn only_changed_categories_are_recorded() {
    let procs = || vec![process(1, "init", 0.25)];
    let units = || Some(vec![unit("a.service", ActiveState::Active)]);
    let first = tick(
        MeasurementData::new("T0".to_string()),
        reading(1, procs(), vec![cpu(1.0, 100)], units()),
        "T1".to_string(),
    );
    let second = tick(first.updated, reading(2, procs(), vec![cpu(2.0, 100)], units()), "T2".to_string());
    assert!(second.emit);
    assert_eq!(second.record.timestamp, "T2");
    assert!(second.record.process_data.is_none());
    assert!(second.record.units.is_none());
    assert_eq!(cpus_of(&second.record.cpu_data), Some(vec![(2.0f32.to_bits(), 100)]));
    // The held snapshot keeps the categories that did not move.
    assert_eq!(pids_of(&second.updated.process_data), Some(vec![1]));
    assert_eq!(unit_names_of(&second.updated.units), Some(vec!["a.service".to_string()]));
    assert_eq!(second.updated.used_memory, 2);
}

#[test]
fn unit_state_change_is_recorded() {
    let first = tick(
        MeasurementData::new("T0".to_string()),
        reading(1, vec![], vec![], Some(vec![unit("a.service", ActiveState::Active)])),
        "T1".to_string(),
    );
    assert_eq!(unit_names_of(&first.record.units), Some(vec!["a.service".to_string()]));
    let second = tick(
        first.updated,
        reading(1, vec![], vec![], Some(vec![unit("a.service", ActiveState::Failed)])),
        "T2".to_string(),
    );
    assert!(second.emit);
    assert_eq!(second.record.units.as_ref().map(|v| v[0].active), Some(ActiveState::Failed));
}

#[test]
fn process_going_idle_alone_triggers_a_record() {
    let first = tick(
        MeasurementData::new("T0".to_string()),
        reading(1, vec![process(1, "a", 1.0), process(2, "b", 2.0)], vec![cpu(1.0, 1)], None),
        "T1".to_string(),
    );
    assert_eq!(pids_of(&first.record.process_data), Some(vec![1, 2]));
    let second = tick(
        first.updated,
        reading(1, vec![process(1, "a", 1.0), process(2, "b", 0.0)], vec![cpu(1.0, 1)], None),
        "T2".to_string(),
    );
    assert!(second.emit);
    assert_eq!(pids_of(&second.record.process_data), Some(vec![1]));
    assert!(second.record.cpu_data.is_none());
    assert_eq!(pids_of(&second.updated.process_data), Some(vec![1]));
}

#[test]
fn all_processes_going_idle_records_an_empty_list() {
    let first = tick(
        MeasurementData::new("T0".to_string()),
        reading(1, vec![process(3, "c", 1.0)], vec![], None),
        "T1".to_string(),
    );
    let second =
        tick(first.updated, reading(1, vec![process(3, "c", 0.0)], vec![], None), "T2".to_string());
    assert!(second.emit);
    assert_eq!(pids_of(&second.record.process_data), Some(vec![]));
}

#[test]
fn memory_and_swap_are_in_every_record() {
    let r = Reading {
        used_memory: 77,
        used_swap: 88,
        processes: vec![],
        cpus: vec![cpu(1.0, 1)],
        units: None,
    };
    let first = tick(MeasurementData::new("T0".to_string()), r.clone(), "T1".to_string());
    assert_eq!((first.record.used_memory, first.record.used_swap), (77, 88));
    assert_eq!((first.updated.used_memory, first.updated.used_swap), (77, 88));
    let second = tick(first.updated, r, "T2".to_string());
    assert!(!second.emit);
    assert_eq!((second.record.used_memory, second.record.used_swap), (77, 88));
}

#[test]
fn first_cycle_covers_every_non_empty_category() {
    let t = tick(
        MeasurementData::new("T0".to_string()),
        reading(
            1,
            vec![process(1, "a", 0.5)],
            vec![cpu(0.0, 1000)],
            Some(vec![unit("b.service", ActiveState::Inactive)]),
        ),
        "T1".to_string(),
    );
    assert!(t.emit);
    assert_eq!(t.record.timestamp, "T1");
    assert_eq!(pids_of(&t.record.process_data), Some(vec![1]));
    assert_eq!(cpus_of(&t.record.cpu_data), Some(vec![(0, 1000)]));
    assert_eq!(unit_names_of(&t.record.units), Some(vec!["b.service".to_string()]));
}

#[test]
fn first_cycle_with_only_empty_categories_is_written() {
    let t = tick(
        MeasurementData::new("T0".to_string()),
        reading(9, vec![process(1, "a", 0.0)], vec![], Some(vec![])),
        "T1".to_string(),
    );
    assert!(t.emit);
    assert_eq!(t.record.timestamp, "T1");
    assert_eq!(t.record.used_memory, 9);
    assert_eq!(pids_of(&t.record.process_data), Some(vec![]));
    assert_eq!(cpus_of(&t.record.cpu_data), Some(vec![]));
    assert_eq!(unit_names_of(&t.record.units), Some(vec![]));
    let again = tick(
        t.updated,
        reading(9, vec![process(1, "a", 0.0)], vec![], Some(vec![])),
        "T2".to_string(),
    );
    assert!(!again.emit);
    assert_eq!(again.updated.timestamp, "T1");
}

#[test]
fn missing_service_manager_never_records_units() {
    let first = tick(
        MeasurementData::new("T0".to_string()),
        reading(1, vec![], vec![cpu(1.0, 1)], Some(vec![unit("a.service", ActiveState::Active)])),
        "T1".to_string(),
    );
    let second = tick(first.updated, reading(1, vec![], vec![cpu(2.0, 1)], None), "T2".to_string());
    assert!(second.emit);
    assert!(second.record.units.is_none());
    assert_eq!(unit_names_of(&second.updated.units), Some(vec!["a.service".to_string()]));
}

#[test]
fn nan_cpu_usage_is_recorded_every_cycle() {
    let r = || reading(1, vec![], vec![cpu(f32::NAN, 1)], None);
    let first = tick(MeasurementData::new("T0".to_string()), r(), "T1".to_string());
    let second = tick(first.updated, r(), "T2".to_string());
    assert!(second.emit);
    assert_eq!(second.record.timestamp, "T2");
}

#[test]
fn negative_zero_cpu_usage_equals_zero() {
    let first = tick(
        MeasurementData::new("T0".to_string()),
        reading(1, vec![], vec![cpu(0.0, 1)], None),
        "T1".to_string(),
    );
    let second =
        tick(first.updated, reading(1, vec![], vec![cpu(-0.0, 1)], None), "T2".to_string());
    assert!(!second.emit);
}

#[test]
fn cpu_order_matters() {
    let first = tick(
        MeasurementData::new("T0".to_string()),
        reading(1, vec![], vec![cpu(1.0, 1), cpu(2.0, 2)], None),
        "T1".to_string(),
    );
    let second = tick(
        first.updated,
        reading(1, vec![], vec![cpu(2.0, 2), cpu(1.0, 1)], None),
        "T2".to_string(),
    );
    assert!(second.emit);
    assert_eq!(
        cpus_of(&second.record.cpu_data),
        Some(vec![(2.0f32.to_bits(), 2), (1.0f32.to_bits(), 1)])
    );
}

#[test]
fn busy_processes_keeps_order_and_drops_idle() {
    let all = vec![
        process(5, "e", 0.0),
        process(3, "c", 7.5),
        process(9, "i", -0.0),
        process(1, "a", f32::NAN),
        process(4, "d", 0.1),
    ];
    let busy = busy_processes(&all);
    assert_eq!(busy.iter().map(|p| p.pid).collect::<Vec<_>>(), vec![3, 4]);
    assert_eq!(busy[0].name, "c");
}

#[test]
fn lists_match_compares_every_field() {
    let a = vec![process(1, "a", 1.0)];
    let mut b = vec![process(1, "a", 1.0)];
    assert!(lists_match(&a, &b));
    b[0].name = "b".to_string();
    assert!(!lists_match(&a, &b));
    let mut c = vec![process(1, "a", 1.0)];
    c[0].disk_usage.read_bytes = 3;
    assert!(!lists_match(&a, &c));
    assert!(!lists_match(&a, &vec![]));
}
