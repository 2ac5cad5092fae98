use dhat_to_flamegraph::folded::{Folded, Trace};
use dhat_to_flamegraph::text::{concat_all, join, push_decimal};

fn names(frames: &[&str]) -> Vec<String> {
    frames.iter().map(|frame| frame.to_string()).collect()
}

fn decimal(n: u128) -> String {
    let mut out = String::new();
    push_decimal(&mut out, n);
    out
}

#[test]
fn single_frame_line() {
    let folded = Folded { lines: vec![Trace { trace: names(&["main"]), frequency: 42 }] };
    assert_eq!(folded.to_string(), "main 42\n");
}

#[test]
fn trace_text_has_no_line_end() {
    let trace = Trace { trace: names(&["main"]), frequency: 42 };
    assert_eq!(trace.to_string(), "main 42");
}

#[test]
fn frames_are_joined_by_semicolons() {
    let trace = Trace { trace: names(&["main", "helper", "alloc"]), frequency: 7 };
    assert_eq!(trace.to_string(), "main;helper;alloc 7");
    let pair = Trace { trace: names(&["a", "b"]), frequency: 1 };
    assert_eq!(pair.to_string(), "a;b 1");
}

#[test]
fn no_frames_leaves_the_frequency_alone() {
    let trace = Trace { trace: vec![], frequency: 42 };
    assert_eq!(trace.to_string(), "42");
    let folded = Folded { lines: vec![trace] };
    assert_eq!(folded.to_string(), "42\n");
}

#[test]
fn frame_names_are_not_escaped() {
    let trace = Trace { trace: names(&["a;b", "c d", ""]), frequency: 3 };
    assert_eq!(trace.to_string(), "a;b;c d; 3");
    let unnamed = Trace { trace: names(&[""]), frequency: 3 };
    assert_eq!(unnamed.to_string(), " 3");
}

#[test]
fn frame_names_keep_their_characters() {
    let trace = Trace { trace: names(&["<alloc::vec::Vec<T> as Clone>::clone", "größe"]), frequency: 9 };
    assert_eq!(trace.to_string(), "<alloc::vec::Vec<T> as Clone>::clone;größe 9");
}

#[test]
fn no_traces_no_text() {
    assert_eq!(Folded { lines: vec![] }.to_string(), "");
}

#[test]
fn equal_stacks_stay_apart() {
    let folded = Folded {
        lines: vec![
            Trace { trace: names(&["main", "f"]), frequency: 1 },
            Trace { trace: names(&["main", "f"]), frequency: 2 },
            Trace { trace: names(&["main"]), frequency: 3 },
        ],
    };
    assert_eq!(folded.to_string(), "main;f 1\nmain;f 2\nmain 3\n");
}

#[test]
fn decimal_of_small_and_large_numbers() {
    assert_eq!(decimal(0), "0");
    assert_eq!(decimal(7), "7");
    assert_eq!(decimal(9), "9");
    assert_eq!(decimal(10), "10");
    assert_eq!(decimal(42), "42");
    assert_eq!(decimal(100), "100");
    assert_eq!(decimal(1_234_567_890), "1234567890");
    assert_eq!(decimal(u64::MAX as u128), "18446744073709551615");
    assert_eq!(decimal(u64::MAX as u128 + 1), "18446744073709551616");
    assert_eq!(decimal(u128::MAX), "340282366920938463463374607431768211455");
}

#[test]
fn decimal_agrees_with_std() {
    let mut n: u128 = 1;
    for _ in 0..120 {
        assert_eq!(decimal(n), n.to_string());
        assert_eq!(decimal(n - 1), (n - 1).to_string());
        n = n.wrapping_mul(3).wrapping_add(n >> 5);
    }
}

#[test]
fn push_decimal_appends() {
    let mut out = "x ".to_string();
    push_decimal(&mut out, 305);
    assert_eq!(out, "x 305");
}

#[test]
fn join_puts_the_separator_between() {
    let sep = ";".to_string();
    assert_eq!(join(&names(&[]), &sep), "");
    assert_eq!(join(&names(&["a"]), &sep), "a");
    assert_eq!(join(&names(&["a", "b"]), &sep), "a;b");
    assert_eq!(join(&names(&["a", "b", "c"]), &sep), "a;b;c");
    assert_eq!(join(&names(&["", ""]), &sep), ";");
    assert_eq!(join(&names(&["a", "b", "c"]), &", ".to_string()), "a, b, c");
    assert_eq!(join(&names(&["a", "b"]), &String::new()), "ab");
}

#[test]
fn concat_all_strings_the_parts_together() {
    assert_eq!(concat_all(&names(&[])), "");
    assert_eq!(concat_all(&names(&["ab", "", "c"])), "abc");
}
