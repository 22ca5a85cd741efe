use smallvcm::{iteration_schedule, merge_plan, worker_iterations, worker_seed, RunError};

fn run_counts(iterations: u32, workers: usize) -> Vec<u32> {
    iteration_schedule(iterations, workers)
        .iter()
        .map(|list| list.len() as u32)
        .collect()
}

#[test]
fn five_iterations_one_worker() {
    let schedule = iteration_schedule(5, 1);
    assert_eq!(schedule, vec![vec![0, 1, 2, 3, 4]]);
    let counts = run_counts(5, 1);
    assert_eq!(counts.iter().sum::<u32>(), 5);
    assert_eq!(merge_plan(&counts), Ok(vec![0]));
}

#[test]
fn five_iterations_five_workers() {
    let schedule = iteration_schedule(5, 5);
    assert_eq!(schedule, vec![vec![0], vec![1], vec![2], vec![3], vec![4]]);
    let counts = run_counts(5, 5);
    assert_eq!(counts.iter().sum::<u32>(), 5);
    assert_eq!(merge_plan(&counts), Ok(vec![0, 1, 2, 3, 4]));
}

#[test]
fn more_workers_than_iterations() {
    let counts = run_counts(3, 8);
    assert_eq!(counts, vec![1, 1, 1, 0, 0, 0, 0, 0]);
    assert_eq!(merge_plan(&counts).unwrap().len(), 3);
}

#[test]
fn round_robin_indices() {
    assert_eq!(worker_iterations(1, 10, 3), vec![1, 4, 7]);
    assert_eq!(worker_iterations(0, 10, 3), vec![0, 3, 6, 9]);
    assert_eq!(worker_iterations(2, 10, 3), vec![2, 5, 8]);
    assert_eq!(worker_iterations(3, 3, 4), Vec::<u32>::new());
    assert_eq!(worker_iterations(0, 0, 1), Vec::<u32>::new());
}

#[test]
fn every_index_runs_once() {
    let schedule = iteration_schedule(17, 4);
    let mut seen: Vec<u32> = schedule.concat();
    seen.sort();
    assert_eq!(seen, (0..17).collect::<Vec<u32>>());
}

#[test]
fn largest_iteration_count() {
    let list = worker_iterations(0, u32::MAX, 1 << 31);
    assert_eq!(list, vec![0, 1 << 31]);
    let list = worker_iterations(5, u32::MAX, usize::MAX);
    assert_eq!(list, vec![5]);
    let list = worker_iterations((1 << 31) - 2, u32::MAX, 1 << 31);
    assert_eq!(list, vec![(1 << 31) - 2, u32::MAX - 1]);
    let list = worker_iterations((1 << 31) - 1, u32::MAX, 1 << 31);
    assert_eq!(list, vec![(1 << 31) - 1]);
}

#[test]
fn no_worker_used() {
    assert_eq!(merge_plan(&vec![0, 0, 0]), Err(RunError::NoWorkerUsed));
    assert_eq!(merge_plan(&vec![]), Err(RunError::NoWorkerUsed));
}

#[test]
fn unused_workers_left_out_of_merge() {
    assert_eq!(merge_plan(&vec![0, 3, 0, 1]), Ok(vec![1, 3]));
}

#[test]
fn worker_seeds_offset_base() {
    assert_eq!(worker_seed(1234, 0), 1234);
    assert_eq!(worker_seed(1234, 3), 1237);
}
