use std::cell::RefCell;

use new_folder::naming::{
    base, candidate, exhausted, find_new_folder_name, push_decimal, LAST_CANDIDATE,
};

fn names(list: &[&str]) -> Vec<String> {
    list.iter().map(|s| s.to_string()).collect()
}

fn resolve_in(taken: &[&str]) -> String {
    let taken = names(taken);
    find_new_folder_name(|name: &str| taken.iter().any(|t| t == name))
}

#[test]
fn base_name_is_the_localized_default() {
    assert_eq!(base(), "새 폴더");
}

#[test]
fn exhausted_marker_text() {
    assert_eq!(exhausted(), "!ERROR!");
}

#[test]
fn last_candidate_is_the_largest_number() {
    assert_eq!(LAST_CANDIDATE, u64::MAX);
}

#[test]
fn candidate_below_two_is_the_base_name() {
    assert_eq!(candidate(0), "새 폴더");
    assert_eq!(candidate(1), "새 폴더");
}

#[test]
fn candidate_two_has_number_in_brackets() {
    assert_eq!(candidate(2), "새 폴더 (2)");
}

#[test]
fn candidate_with_several_digits() {
    assert_eq!(candidate(9), "새 폴더 (9)");
    assert_eq!(candidate(10), "새 폴더 (10)");
    assert_eq!(candidate(1234), "새 폴더 (1234)");
    assert_eq!(candidate(1000), "새 폴더 (1000)");
}

#[test]
fn candidate_of_largest_number() {
    assert_eq!(candidate(u64::MAX), "새 폴더 (18446744073709551615)");
}

#[test]
fn push_decimal_appends_digits() {
    let mut out = String::from("x");
    push_decimal(&mut out, 0);
    assert_eq!(out, "x0");
    push_decimal(&mut out, 907);
    assert_eq!(out, "x0907");
    push_decimal(&mut out, 10);
    assert_eq!(out, "x090710");
}

#[test]
fn push_decimal_agrees_with_std_formatting() {
    for n in [0u64, 1, 9, 10, 11, 99, 100, 101, 65535, 4294967296, u64::MAX - 1, u64::MAX] {
        let mut out = String::new();
        push_decimal(&mut out, n);
        assert_eq!(out, format!("{}", n));
    }
}

#[test]
fn empty_directory_gives_base_name() {
    assert_eq!(resolve_in(&[]), "새 폴더");
}

#[test]
fn unrelated_entries_give_base_name() {
    assert_eq!(resolve_in(&["docs", "새 폴더 (2)", "New Folder"]), "새 폴더");
}

#[test]
fn base_taken_gives_second_candidate() {
    assert_eq!(resolve_in(&["새 폴더"]), "새 폴더 (2)");
}

#[test]
fn base_and_second_taken_give_third_candidate() {
    assert_eq!(resolve_in(&["새 폴더", "새 폴더 (2)"]), "새 폴더 (3)");
}

#[test]
fn first_gap_is_taken_not_the_end() {
    assert_eq!(resolve_in(&["새 폴더", "새 폴더 (2)", "새 폴더 (4)", "새 폴더 (5)"]), "새 폴더 (3)");
}

#[test]
fn eleven_taken_give_the_twelfth() {
    let mut taken: Vec<String> = vec!["새 폴더".to_string()];
    for n in 2..=11 {
        taken.push(format!("새 폴더 ({})", n));
    }
    let name = find_new_folder_name(|name: &str| taken.iter().any(|t| t == name));
    assert_eq!(name, "새 폴더 (12)");
}

#[test]
fn result_is_never_among_the_taken() {
    let mut taken: Vec<String> = Vec::new();
    for round in 0..40 {
        let name = find_new_folder_name(|name: &str| taken.iter().any(|t| t == name));
        assert!(!taken.contains(&name), "round {}", round);
        assert_eq!(name, candidate(round + 1));
        taken.push(name);
    }
}

#[test]
fn search_asks_candidates_in_order_and_stops() {
    let asked: RefCell<Vec<String>> = RefCell::new(Vec::new());
    let name = find_new_folder_name(|name: &str| {
        asked.borrow_mut().push(name.to_string());
        name == "새 폴더" || name == "새 폴더 (2)"
    });
    assert_eq!(name, "새 폴더 (3)");
    assert_eq!(asked.into_inner(), names(&["새 폴더", "새 폴더 (2)", "새 폴더 (3)"]));
}

#[test]
fn search_asks_once_when_base_is_free() {
    let asked: RefCell<Vec<String>> = RefCell::new(Vec::new());
    let name = find_new_folder_name(|name: &str| {
        asked.borrow_mut().push(name.to_string());
        false
    });
    assert_eq!(name, "새 폴더");
    assert_eq!(asked.into_inner(), names(&["새 폴더"]));
}

#[test]
fn candidates_are_pairwise_distinct() {
    let all: Vec<String> = (1..=120u64).map(candidate).collect();
    for a in 0..all.len() {
        for b in (a + 1)..all.len() {
            assert_ne!(all[a], all[b]);
        }
    }
}

#[test]
fn no_candidate_reads_like_the_marker() {
    for n in [0u64, 1, 2, 10, 999, u64::MAX] {
        assert_ne!(candidate(n), exhausted());
    }
}
