use punchcard::{
    apply, clock_in, clock_intermittent_in, clock_intermittent_out, clock_lunch_in,
    clock_lunch_out, clock_out, AlreadyExists, EmployeeData, ErrorCode, PdeascAccount,
    RecordStore, Transition,
};

fn record(active: bool, stamps: [u64; 6]) -> EmployeeData {
    EmployeeData {
        active,
        shift_start_clock: stamps[0],
        shift_end_clock: stamps[1],
        intermittent_start_clock: stamps[2],
        intermittent_end_clock: stamps[3],
        lunch_start_clock: stamps[4],
        lunch_end_clock: stamps[5],
    }
}

const ALL: [Transition; 6] = [
    Transition::ClockIn,
    Transition::ClockOut,
    Transition::IntermittentIn,
    Transition::IntermittentOut,
    Transition::LunchIn,
    Transition::LunchOut,
];

fn starts_active(t: Transition) -> bool {
    matches!(t, Transition::ClockIn | Transition::IntermittentOut | Transition::LunchOut)
}

#[test]
fn new_record_is_inactive_and_zero() {
    assert_eq!(EmployeeData::new(), record(false, [0; 6]));
}

#[test]
fn clock_in_from_fresh_record() {
    let mut d = EmployeeData::new();
    assert_eq!(clock_in(&mut d, 100), Ok(()));
    assert_eq!(d, record(true, [100, 0, 0, 0, 0, 0]));
}

#[test]
fn clock_in_twice_fails_and_keeps_record() {
    let mut d = EmployeeData::new();
    clock_in(&mut d, 100).unwrap();
    let before = d;
    assert_eq!(clock_in(&mut d, 200), Err(ErrorCode::AlreadyClockedIn));
    assert_eq!(d, before);
}

#[test]
fn lunch_in_after_clock_in() {
    let mut d = EmployeeData::new();
    clock_in(&mut d, 100).unwrap();
    assert_eq!(clock_lunch_in(&mut d, 150), Ok(()));
    assert_eq!(d, record(false, [100, 0, 0, 0, 150, 0]));
    let before = d;
    assert_eq!(clock_lunch_in(&mut d, 160), Err(ErrorCode::NotClockedIn));
    assert_eq!(d, before);
}

#[test]
fn lunch_out_after_lunch_in() {
    let mut d = EmployeeData::new();
    clock_in(&mut d, 100).unwrap();
    clock_lunch_in(&mut d, 150).unwrap();
    assert_eq!(clock_lunch_out(&mut d, 180), Ok(()));
    assert_eq!(d, record(true, [100, 0, 0, 0, 150, 180]));
}

#[test]
fn create_same_identifier_twice_fails() {
    let mut store = RecordStore::new();
    let ctx = PdeascAccount { seed: b"X".to_vec() };
    let first = store.initialize(&ctx);
    assert!(first.is_ok());
    assert!(matches!(store.initialize(&ctx), Err(AlreadyExists)));
    let account = first.unwrap();
    assert_eq!(account.seed, b"X".to_vec());
    assert_eq!(store.get(&account), Some(EmployeeData::new()));
}

#[test]
fn each_transition_stamps_its_field() {
    let base_active = record(true, [1, 2, 3, 4, 5, 6]);
    let base_idle = record(false, [1, 2, 3, 4, 5, 6]);

    let mut d = base_active;
    assert_eq!(clock_out(&mut d, 70), Ok(()));
    assert_eq!(d, record(false, [1, 70, 3, 4, 5, 6]));

    let mut d = base_active;
    assert_eq!(clock_intermittent_in(&mut d, 71), Ok(()));
    assert_eq!(d, record(false, [1, 2, 71, 4, 5, 6]));

    let mut d = base_idle;
    assert_eq!(clock_intermittent_out(&mut d, 72), Ok(()));
    assert_eq!(d, record(true, [1, 2, 3, 72, 5, 6]));

    let mut d = base_active;
    assert_eq!(clock_lunch_in(&mut d, 73), Ok(()));
    assert_eq!(d, record(false, [1, 2, 3, 4, 73, 6]));

    let mut d = base_idle;
    assert_eq!(clock_lunch_out(&mut d, 74), Ok(()));
    assert_eq!(d, record(true, [1, 2, 3, 4, 5, 74]));

    let mut d = base_idle;
    assert_eq!(clock_in(&mut d, 75), Ok(()));
    assert_eq!(d, record(true, [75, 2, 3, 4, 5, 6]));
}

#[test]
fn polarity_decides_which_transitions_succeed() {
    for active in [false, true] {
        for t in ALL {
            let mut d = record(active, [9, 8, 7, 6, 5, 4]);
            let r = apply(&mut d, t, 1000);
            if starts_active(t) == !active {
                assert_eq!(r, Ok(()));
                assert_eq!(d.active, !active);
            } else if starts_active(t) {
                assert_eq!(r, Err(ErrorCode::AlreadyClockedIn));
            } else {
                assert_eq!(r, Err(ErrorCode::NotClockedIn));
            }
        }
    }
}

#[test]
fn failure_leaves_record_untouched() {
    for active in [false, true] {
        for t in ALL {
            if starts_active(t) == !active {
                continue;
            }
            let before = record(active, [11, 12, 13, 14, 15, 16]);
            let mut d = before;
            assert!(apply(&mut d, t, 99).is_err());
            assert_eq!(d, before);
        }
    }
}

#[test]
fn success_changes_one_timestamp() {
    for active in [false, true] {
        for t in ALL {
            if starts_active(t) != !active {
                continue;
            }
            let before = record(active, [11, 12, 13, 14, 15, 16]);
            let mut d = before;
            apply(&mut d, t, 500).unwrap();
            let a = [
                d.shift_start_clock,
                d.shift_end_clock,
                d.intermittent_start_clock,
                d.intermittent_end_clock,
                d.lunch_start_clock,
                d.lunch_end_clock,
            ];
            let changed = a.iter().zip([11u64, 12, 13, 14, 15, 16]).filter(|(x, y)| **x != *y).count();
            assert_eq!(changed, 1);
            assert!(a.contains(&500));
            assert_eq!(d.active, !active);
        }
    }
}

#[test]
fn repeated_illegal_transition_gives_same_error() {
    let mut d = EmployeeData::new();
    let first = clock_out(&mut d, 10);
    let second = clock_out(&mut d, 20);
    assert_eq!(first, Err(ErrorCode::NotClockedIn));
    assert_eq!(second, first);
    assert_eq!(d, EmployeeData::new());

    clock_in(&mut d, 30).unwrap();
    let first = clock_lunch_out(&mut d, 40);
    let second = clock_lunch_out(&mut d, 50);
    assert_eq!(first, Err(ErrorCode::AlreadyClockedIn));
    assert_eq!(second, first);
}

#[test]
fn largest_timestamp_is_kept() {
    let mut d = EmployeeData::new();
    clock_in(&mut d, u64::MAX).unwrap();
    assert_eq!(d.shift_start_clock, u64::MAX);
}

#[test]
fn store_transition_touches_only_its_record() {
    let mut store = RecordStore::new();
    let a = store.initialize(&PdeascAccount { seed: vec![1, 2, 3] }).unwrap();
    let b = store.initialize(&PdeascAccount { seed: vec![1, 2] }).unwrap();
    let empty = store.initialize(&PdeascAccount { seed: Vec::new() }).unwrap();
    assert!(store.contains(&vec![1, 2, 3]));
    assert!(!store.contains(&vec![1]));

    assert_eq!(store.transition(&a, Transition::ClockIn, 100), Ok(()));
    assert_eq!(store.get(&a), Some(record(true, [100, 0, 0, 0, 0, 0])));
    assert_eq!(store.get(&b), Some(EmployeeData::new()));
    assert_eq!(store.get(&empty), Some(EmployeeData::new()));

    assert_eq!(store.transition(&b, Transition::LunchIn, 5), Err(ErrorCode::NotClockedIn));
    assert_eq!(store.get(&b), Some(EmployeeData::new()));

    assert_eq!(store.transition(&a, Transition::IntermittentIn, 120), Ok(()));
    assert_eq!(store.transition(&a, Transition::IntermittentOut, 130), Ok(()));
    assert_eq!(store.get(&a), Some(record(true, [100, 0, 120, 130, 0, 0])));
}

#[test]
fn get_of_unknown_identifier_is_none() {
    let store = RecordStore::new();
    let other = punchcard::EmployeeAccount { seed: vec![7] };
    assert_eq!(store.get(&other), None);
}
