use thirtyfour_sync::components::scan::{scan, ScanStep};

/// Runs a scan over a list in which the items at `wanted` are the wanted
/// ones. Returns the items read, the items taken and the count at the end.
fn run_scan(
    count: usize,
    probed: bool,
    single: bool,
    wanted: &[usize],
) -> (Vec<usize>, Vec<usize>, usize) {
    let mut read = Vec::new();
    let mut taken = Vec::new();
    let mut step = scan(count, probed, single);
    loop {
        match step {
            ScanStep::Probe(probing) => {
                let item = probing.item();
                read.push(item);
                step = probing.read(wanted.contains(&item));
            }
            ScanStep::Take(taking) => {
                taken.push(taking.item());
                step = taking.took();
            }
            ScanStep::Done(total) => return (read, taken, total),
        }
    }
}

#[test]
fn scan_without_reads_takes_every_item() {
    assert_eq!(run_scan(3, false, false, &[]), (vec![], vec![0, 1, 2], 3));
}

#[test]
fn single_scan_without_reads_takes_the_first_item_only() {
    assert_eq!(run_scan(3, false, true, &[]), (vec![], vec![0], 1));
}

#[test]
fn scan_of_an_empty_list_takes_nothing() {
    assert_eq!(run_scan(0, false, false, &[]), (vec![], vec![], 0));
    assert_eq!(run_scan(0, true, true, &[]), (vec![], vec![], 0));
}

#[test]
fn scan_with_reads_takes_the_wanted_items_in_order() {
    assert_eq!(run_scan(5, true, false, &[1, 3, 4]), (vec![0, 1, 2, 3, 4], vec![1, 3, 4], 3));
    assert_eq!(run_scan(2, true, false, &[]), (vec![0, 1], vec![], 0));
}

#[test]
fn single_scan_with_reads_stops_at_the_first_wanted_item() {
    assert_eq!(run_scan(5, true, true, &[2, 4]), (vec![0, 1, 2], vec![2], 1));
    assert_eq!(run_scan(3, true, true, &[]), (vec![0, 1, 2], vec![], 0));
}
