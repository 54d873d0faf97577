use raw_processor::context::select_compute_queue;

#[test]
fn first_device_with_compute_wins() {
    let caps = vec![vec![false, false], vec![false, true, true], vec![true]];
    assert_eq!(select_compute_queue(&caps), Some((1, 1)));
}

#[test]
fn first_compute_family_of_the_device_wins() {
    let caps = vec![vec![false, true, false, true]];
    assert_eq!(select_compute_queue(&caps), Some((0, 1)));
}

#[test]
fn no_compute_device_gives_none() {
    assert_eq!(select_compute_queue(&vec![]), None);
    assert_eq!(select_compute_queue(&vec![vec![], vec![false]]), None);
}
