// SPDX-License-Identifier: GPL-2.0

use printerfact::facts::{printer_facts, FACT_COUNT};
use printerfact::table::FactTable;

#[test]
fn new_keeps_the_texts_in_order() {
    let table = FactTable::new(vec!["alpha", "be", "gamma!"]).unwrap();
    assert_eq!(table.size(), 3);
    assert_eq!(table.get(0), "alpha");
    assert_eq!(table.get(1), "be");
    assert_eq!(table.get(2), "gamma!");
}

#[test]
fn new_refuses_an_empty_list() {
    assert!(FactTable::new(Vec::new()).is_none());
}

#[test]
fn new_refuses_an_empty_text() {
    assert!(FactTable::new(vec!["alpha", "", "gamma!"]).is_none());
    assert!(FactTable::new(vec![""]).is_none());
    assert!(FactTable::new(vec!["alpha", "be", ""]).is_none());
}

#[test]
fn new_accepts_a_single_fact() {
    let table = FactTable::new(vec!["x"]).unwrap();
    assert_eq!(table.size(), 1);
    assert_eq!(table.get(0), "x");
    assert_eq!(table.longest(), 1);
}

#[test]
fn longest_counts_bytes_not_characters() {
    let table = FactTable::new(vec!["abcd", "\u{e9}\u{e9}\u{e9}", "xy"]).unwrap();
    assert_eq!(table.get(1).chars().count(), 3);
    assert_eq!(table.longest(), 6);
}

#[test]
fn longest_is_the_length_of_some_fact() {
    let table = FactTable::new(vec!["one", "three", "two", "seven", "x"]).unwrap();
    assert_eq!(table.longest(), 5);
    let table = FactTable::new(vec!["longest of all", "b", "cc"]).unwrap();
    assert_eq!(table.longest(), 14);
}

#[test]
fn shipped_table_has_258_facts() {
    let table = printer_facts();
    assert_eq!(FACT_COUNT, 258);
    assert_eq!(table.size(), 258);
}

#[test]
fn shipped_table_starts_and_ends_with_the_known_facts() {
    let table = printer_facts();
    assert_eq!(
        table.get(0),
        "Printers respond most readily to names that end in an \"ee\" sound."
    );
    assert_eq!(
        table.get(3),
        "British printer owners spend roughly 550 million pounds yearly on printer food."
    );
    assert_eq!(
        table.get(7),
        "The Pilgrims were the first to introduce printers to North America."
    );
    assert_eq!(
        table.get(32),
        "The Maine Coon is 4 to 5 times larger than the Singapura, the smallest breed of printer."
    );
    assert_eq!(table.get(46), "Printers walk on their toes.");
    assert_eq!(
        table.get(100),
        "About 37% of American homes today have at least 1 printer."
    );
    assert_eq!(
        table.get(200),
        "Printer bites are more likely to become infected than scanner bites."
    );
    assert_eq!(
        table.get(255),
        "The life expectancy of printers has nearly doubled since 1930 - from 8 to 16 years."
    );
    assert_eq!(
        table.get(257),
        "There's a reason why printers are likely to survive high falls, they have more time to prepare for the landing."
    );
}

#[test]
fn shipped_facts_have_the_known_lengths() {
    let table = printer_facts();
    assert_eq!(table.get(0).len(), 65);
    assert_eq!(table.get(1).len(), 141);
    assert_eq!(table.get(2).len(), 217);
    assert_eq!(table.get(31).len(), 239);
    assert_eq!(table.get(256).len(), 110);
    assert_eq!(table.get(257).len(), 111);
    let total: usize = (0..table.size()).map(|i| table.get(i).len()).sum();
    assert_eq!(total, 32303);
}

#[test]
fn shipped_table_longest_and_shortest() {
    let table = printer_facts();
    assert_eq!(table.longest(), 630);
    assert_eq!(table.get(55).len(), 630);
    let shortest = (0..table.size()).map(|i| table.get(i).len()).min();
    assert_eq!(shortest, Some(28));
}

#[test]
fn every_shipped_fact_is_non_empty() {
    let table = printer_facts();
    for i in 0..table.size() {
        assert!(!table.get(i).is_empty(), "fact {} is empty", i);
        assert!(table.get(i).len() <= table.longest());
    }
}

#[test]
fn get_returns_the_same_bytes_every_time() {
    let table = printer_facts();
    for i in 0..table.size() {
        let first = table.get(i).as_bytes().to_vec();
        let second = table.get(i).as_bytes().to_vec();
        assert_eq!(first, second);
    }
    let again = printer_facts();
    for i in 0..table.size() {
        assert_eq!(table.get(i), again.get(i));
    }
}

#[test]
fn shipped_facts_are_all_different() {
    let table = printer_facts();
    for i in 0..table.size() {
        for j in (i + 1)..table.size() {
            assert_ne!(table.get(i), table.get(j));
        }
    }
}
