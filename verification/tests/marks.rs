use wasm_tracing::marks::{event_mark_name, mark_name, thread_display_suffix};
use wasm_tracing::ThreadMark;

#[test]
fn suffix_of_each_thread_mark() {
    assert_eq!(thread_display_suffix(ThreadMark::Unmarked), "");
    assert_eq!(thread_display_suffix(ThreadMark::Main), " #main");
    assert_eq!(thread_display_suffix(ThreadMark::Worker(0)), " #0");
    assert_eq!(thread_display_suffix(ThreadMark::Worker(12)), " #12");
}

#[test]
fn span_mark_names() {
    assert_eq!(mark_name(1, ThreadMark::Unmarked), "t1");
    assert_eq!(mark_name(255, ThreadMark::Unmarked), "tff");
    assert_eq!(mark_name(0x1234_5678_9abc_def0, ThreadMark::Unmarked), "t123456789abcdef0");
    assert_eq!(mark_name(26, ThreadMark::Worker(3)), "t1a-3");
    assert_eq!(mark_name(26, ThreadMark::Main), "t1a-999");
}

#[test]
fn event_mark_names() {
    assert_eq!(event_mark_name(0), "c0");
    assert_eq!(event_mark_name(10), "ca");
    assert_eq!(event_mark_name(4096), "c1000");
    assert_eq!(event_mark_name(usize::MAX), format!("c{:x}", usize::MAX));
}

#[test]
fn from_index_tells_workers_from_the_rest() {
    assert_eq!(ThreadMark::from_index(None), ThreadMark::Main);
    assert_eq!(ThreadMark::from_index(Some(4)), ThreadMark::Worker(4));
}

#[test]
fn current_outside_a_pool_is_main() {
    assert_eq!(ThreadMark::current(), ThreadMark::Main);
}

#[test]
fn current_inside_a_pool_is_a_worker() {
    let pool = rayon::ThreadPoolBuilder::new().num_threads(3).build().unwrap();
    let mark = pool.install(ThreadMark::current);
    match mark {
        ThreadMark::Worker(index) => assert!(index < 3),
        other => panic!("not a worker: {:?}", other),
    }
    let (mark, index) = pool.install(|| (ThreadMark::current(), rayon::current_thread_index()));
    assert_eq!(mark, ThreadMark::from_index(index));
}

#[test]
fn different_spans_have_different_marks() {
    let mut seen = std::collections::HashSet::new();
    let mut id: u64 = 1;
    while id <= 2000 {
        assert!(seen.insert(mark_name(id, ThreadMark::Worker(1))));
        id += 1;
    }
}

#[test]
fn mark_names_agree_with_std_formatting() {
    let mut id: u64 = 1;
    while id < u64::MAX / 7 {
        assert_eq!(mark_name(id, ThreadMark::Unmarked), format!("t{:x}", id));
        assert_eq!(mark_name(id, ThreadMark::Worker(17)), format!("t{:x}-{}", id, 17));
        assert_eq!(mark_name(id, ThreadMark::Main), format!("t{:x}-{}", id, 999));
        assert_eq!(event_mark_name(id as usize), format!("c{:x}", id as usize));
        id = id * 7 + 3;
    }
}
