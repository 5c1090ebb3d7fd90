//! The parts that the analysis is made of.

use finite_wasm::harness::{is_test_file, tests_failed, write_error};
use finite_wasm::operands::Operands;
use finite_wasm::partial_sum::{Overflow, PartialSumMap};

#[test]
fn operands_keep_their_maximum() {
    let mut operands = Operands::new();
    assert_eq!((operands.len(), operands.size(), operands.max_size()), (0, 0, 0));
    operands.push(4).push(8);
    assert_eq!((operands.len(), operands.size(), operands.max_size()), (2, 12, 12));
    operands.pop().push(4);
    assert_eq!((operands.len(), operands.size(), operands.max_size()), (2, 8, 12));
    operands.push(16);
    assert_eq!((operands.len(), operands.size(), operands.max_size()), (3, 24, 24));
    operands.pop_multiple(2);
    assert_eq!((operands.len(), operands.size(), operands.max_size()), (1, 4, 24));
}

#[test]
fn pop_multiple_undoes_pushes() {
    let mut operands = Operands::new();
    operands.push(5);
    operands.push(1).push(2).push(3);
    operands.pop_multiple(3);
    assert_eq!((operands.len(), operands.size()), (1, 5));
    operands.pop_multiple(0);
    assert_eq!((operands.len(), operands.size()), (1, 5));
}

#[test]
fn operands_of_given_sizes() {
    let operands = Operands::from_sizes(vec![1, 2, 3]).unwrap();
    assert_eq!((operands.len(), operands.size(), operands.max_size()), (3, 6, 6));
    assert!(Operands::from_sizes(vec![u64::MAX]).is_some());
    assert!(Operands::from_sizes(vec![u64::MAX, 1]).is_none());
}

#[test]
fn observed_sizes_raise_the_maximum() {
    let mut operands = Operands::from_sizes(vec![3]).unwrap();
    operands.observe(2);
    assert_eq!((operands.size(), operands.max_size()), (3, 3));
    operands.observe(7);
    assert_eq!((operands.size(), operands.max_size()), (3, 7));
}

#[test]
fn runs_are_found_by_index() {
    let mut map = PartialSumMap::new();
    assert_eq!(map.find(0), None);
    assert_eq!(map.push(2, 'a'), Ok(()));
    assert_eq!(map.push(0, 'b'), Ok(()));
    assert_eq!(map.push(3, 'c'), Ok(()));
    let found: Vec<Option<&char>> = (0..6).map(|index| map.find(index)).collect();
    assert_eq!(
        found,
        vec![Some(&'a'), Some(&'a'), Some(&'c'), Some(&'c'), Some(&'c'), None]
    );
    map.clear();
    assert_eq!(map.find(0), None);
}

#[test]
fn runs_that_are_too_long() {
    let mut map = PartialSumMap::new();
    assert_eq!(map.push(u32::MAX, 'a'), Ok(()));
    assert_eq!(map.push(1, 'b'), Err(Overflow));
    assert_eq!(map.push(0, 'c'), Ok(()));
    assert_eq!(map.find(u32::MAX - 1), Some(&'a'));
    assert_eq!(map.find(u32::MAX), None);
}

#[test]
fn errors_are_written_with_their_causes() {
    let mut report = String::from("test one\n");
    write_error(&mut report, "some tests failed", &vec![]);
    assert_eq!(report, "test one\nerror: some tests failed\n");

    let mut report = String::new();
    let causes = vec![String::from("no such directory"), String::from("os error")];
    write_error(&mut report, "could not walk", &causes);
    assert_eq!(
        report,
        "error: could not walk\ncaused by: no such directory\ncaused by: os error\n"
    );
}

#[test]
fn test_files_have_the_extension() {
    assert!(is_test_file(Some(&String::from("wast"))));
    assert!(!is_test_file(Some(&String::from("wasm"))));
    assert!(!is_test_file(Some(&String::from("WAST"))));
    assert!(!is_test_file(Some(&String::new())));
    assert!(!is_test_file(None));
}

#[test]
fn a_single_failure_is_enough() {
    assert!(!tests_failed(&vec![]));
    assert!(!tests_failed(&vec![false, false]));
    assert!(tests_failed(&vec![false, true, false]));
}
