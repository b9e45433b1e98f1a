use telnet_server::iter::{contains_sequence, dequeue};

#[test]
fn finds_match_start() {
    assert!(contains_sequence(&[1, 2, 3, 4, 5], &[1, 2, 3]));
}

#[test]
fn finds_match_middle() {
    assert!(contains_sequence(&[1, 2, 3, 4, 5], &[2, 3, 4]));
}

#[test]
fn finds_match_end() {
    assert!(contains_sequence(&[1, 2, 3, 4, 5], &[3, 4, 5]));
}

#[test]
fn finds_no_match() {
    assert!(!contains_sequence(&[1, 2, 3, 4, 5], &[3, 3, 3]));
}

#[test]
fn finds_match_empty() {
    assert!(contains_sequence(&[1, 2, 3, 4, 5], &[]));
}

#[test]
fn finds_no_match_on_empty_haystack() {
    assert!(!contains_sequence(&[], &[1]));
}

#[test]
fn finds_no_match_on_empty_haystack_and_needle() {
    assert!(!contains_sequence::<u8>(&[], &[]));
}

#[test]
fn finds_no_match_when_needle_longer_than_haystack() {
    assert!(!contains_sequence(&[1, 2], &[1, 2, 3]));
}

#[test]
fn finds_match_on_whole_haystack() {
    assert!(contains_sequence(&[7, 8, 9], &[7, 8, 9]));
}

#[test]
fn dequeue_works() {
    let mut vec = vec![1, 2];
    assert_eq!(dequeue(&mut vec), Some(1));
    assert_eq!(dequeue(&mut vec), Some(2));
    assert_eq!(dequeue(&mut vec), None);
}
