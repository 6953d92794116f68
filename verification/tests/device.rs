// SPDX-License-Identifier: GPL-2.0

use printerfact::device::{write_slice, RustFile};
use printerfact::error::Error;
use printerfact::facts::printer_facts;
use printerfact::table::FactTable;
use std::cell::Cell;

fn small_table() -> FactTable {
    FactTable::new(vec!["alpha", "be", "gamma!"]).unwrap()
}

fn open_on(table: &FactTable) -> Box<RustFile<'_>> {
    RustFile::open(table, |file| Some(Box::new(file))).unwrap()
}

#[test]
fn write_slice_fills_the_front_of_the_buffer() {
    let mut buffer = [9u8; 6];
    assert_eq!(write_slice(&mut buffer, b"abc"), Ok(3));
    assert_eq!(buffer, [b'a', b'b', b'c', 9, 9, 9]);
}

#[test]
fn write_slice_fills_a_buffer_of_the_same_length() {
    let mut buffer = [0u8; 4];
    assert_eq!(write_slice(&mut buffer, b"wxyz"), Ok(4));
    assert_eq!(&buffer, b"wxyz");
}

#[test]
fn write_slice_of_nothing_writes_nothing() {
    let mut buffer = [5u8; 3];
    assert_eq!(write_slice(&mut buffer, b""), Ok(0));
    assert_eq!(buffer, [5u8; 3]);
    let mut none: [u8; 0] = [];
    assert_eq!(write_slice(&mut none, b""), Ok(0));
}

#[test]
fn write_slice_refuses_a_buffer_that_is_too_small() {
    let mut buffer = [7u8; 2];
    assert_eq!(write_slice(&mut buffer, b"abc"), Err(Error::BufferTooSmall));
    assert_eq!(buffer, [7u8; 2]);
    let mut none: [u8; 0] = [];
    assert_eq!(write_slice(&mut none, b"a"), Err(Error::BufferTooSmall));
}

#[test]
fn open_gives_a_session_on_the_table() {
    let table = small_table();
    let file = RustFile::open(&table, |file| Some(Box::new(file))).unwrap();
    assert_eq!(file.table.size(), 3);
    assert_eq!(file.table.get(2), "gamma!");
}

#[test]
fn open_hands_the_session_to_the_allocator_once() {
    let table = small_table();
    let calls = Cell::new(0);
    let opened = RustFile::open(&table, |file| {
        calls.set(calls.get() + 1);
        Some(file)
    });
    assert!(opened.is_ok());
    assert_eq!(calls.get(), 1);
}

#[test]
fn open_fails_when_the_allocator_has_no_memory() {
    let table = small_table();
    let opened: Result<Box<RustFile>, Error> = RustFile::open(&table, |_file| None);
    assert_eq!(opened.unwrap_err(), Error::AllocationFailed);
}

#[test]
fn get_fact_selects_by_the_drawn_byte() {
    let table = small_table();
    let file = open_on(&table);
    assert_eq!(file.get_fact(Some(0)), Ok("alpha"));
    assert_eq!(file.get_fact(Some(1)), Ok("be"));
    assert_eq!(file.get_fact(Some(2)), Ok("gamma!"));
    assert_eq!(file.get_fact(Some(3)), Ok("alpha"));
    assert_eq!(file.get_fact(Some(7)), Ok("be"));
    assert_eq!(file.get_fact(Some(255)), Ok("alpha"));
}

#[test]
fn get_fact_reports_a_failed_source() {
    let table = small_table();
    let file = open_on(&table);
    assert_eq!(file.get_fact(None), Err(Error::RandomSourceUnavailable));
}

#[test]
fn get_fact_on_the_shipped_table() {
    let table = printer_facts();
    let file = open_on(&table);
    assert_eq!(
        file.get_fact(Some(0)),
        Ok("Printers respond most readily to names that end in an \"ee\" sound.")
    );
    assert_eq!(
        file.get_fact(Some(255)),
        Ok("The life expectancy of printers has nearly doubled since 1930 - from 8 to 16 years.")
    );
}

#[test]
fn read_with_draw_writes_the_whole_fact() {
    let table = small_table();
    let file = open_on(&table);
    let mut buffer = [0u8; 8];
    assert_eq!(file.read_with_draw(&mut buffer, 0, Some(5)), Ok(6));
    assert_eq!(&buffer, b"gamma!\0\0");
}

#[test]
fn read_with_draw_keeps_what_lies_behind_the_fact() {
    let table = small_table();
    let file = open_on(&table);
    let mut buffer = [b'#'; 5];
    assert_eq!(file.read_with_draw(&mut buffer, 0, Some(4)), Ok(2));
    assert_eq!(&buffer, b"be###");
}

#[test]
fn read_with_draw_fills_a_buffer_of_exactly_the_length() {
    let table = small_table();
    let file = open_on(&table);
    let mut buffer = [0u8; 5];
    assert_eq!(file.read_with_draw(&mut buffer, 0, Some(0)), Ok(5));
    assert_eq!(&buffer, b"alpha");
}

#[test]
fn read_with_draw_does_not_cut_a_fact_short() {
    let table = small_table();
    let file = open_on(&table);
    let mut buffer = [1u8; 5];
    assert_eq!(file.read_with_draw(&mut buffer, 0, Some(2)), Err(Error::BufferTooSmall));
    assert_eq!(buffer, [1u8; 5]);
}

#[test]
fn read_with_draw_reports_a_failed_source_before_the_buffer() {
    let table = small_table();
    let file = open_on(&table);
    let mut buffer = [3u8; 8];
    assert_eq!(
        file.read_with_draw(&mut buffer, 0, None),
        Err(Error::RandomSourceUnavailable)
    );
    assert_eq!(buffer, [3u8; 8]);
    let mut none: [u8; 0] = [];
    assert_eq!(
        file.read_with_draw(&mut none, 0, None),
        Err(Error::RandomSourceUnavailable)
    );
}

#[test]
fn read_with_draw_past_offset_zero_ignores_the_draw() {
    let table = small_table();
    let file = open_on(&table);
    for draw in [None, Some(0u8), Some(2), Some(255)] {
        let mut buffer = [8u8; 8];
        assert_eq!(file.read_with_draw(&mut buffer, 1, draw), Ok(0));
        assert_eq!(file.read_with_draw(&mut buffer, u64::MAX, draw), Ok(0));
        assert_eq!(buffer, [8u8; 8]);
    }
}

#[test]
fn read_at_offset_zero_returns_the_selected_fact() {
    let table = printer_facts();
    let file = open_on(&table);
    let mut buffer = [0u8; 200];
    let written = file.read(&mut buffer, 0, || Some(7)).unwrap();
    let fact = "The Pilgrims were the first to introduce printers to North America.";
    assert_eq!(written, fact.len());
    assert_eq!(written, 67);
    assert_eq!(&buffer[..written], fact.as_bytes());
    assert!(buffer[written..].iter().all(|byte| *byte == 0));
}

#[test]
fn read_adds_no_delimiter() {
    let table = small_table();
    let file = open_on(&table);
    let mut buffer = [b'.'; 4];
    assert_eq!(file.read(&mut buffer, 0, || Some(1)), Ok(2));
    assert_eq!(&buffer, b"be..");
}

#[test]
fn second_read_at_the_new_offset_returns_nothing() {
    let table = printer_facts();
    let file = open_on(&table);
    let mut buffer = [0u8; 700];
    let written = file.read(&mut buffer, 0, || Some(46)).unwrap();
    assert_eq!(&buffer[..written], b"Printers walk on their toes.");
    let before = buffer;
    assert_eq!(file.read(&mut buffer, written as u64, || Some(47)), Ok(0));
    assert_eq!(buffer, before);
}

#[test]
fn read_into_a_buffer_smaller_than_the_fact_fails() {
    let table = printer_facts();
    let file = open_on(&table);
    let mut buffer = [0xAAu8; 64];
    assert_eq!(
        file.read(&mut buffer, 0, || Some(0)),
        Err(Error::BufferTooSmall)
    );
    assert_eq!(buffer, [0xAAu8; 64]);
    let mut exact = [0u8; 65];
    assert_eq!(file.read(&mut exact, 0, || Some(0)), Ok(65));
}

#[test]
fn read_into_an_empty_buffer_fails() {
    let table = small_table();
    let file = open_on(&table);
    let mut none: [u8; 0] = [];
    assert_eq!(
        file.read(&mut none, 0, || Some(1)),
        Err(Error::BufferTooSmall)
    );
}

#[test]
fn read_reports_a_failed_source() {
    let table = printer_facts();
    let file = open_on(&table);
    let mut buffer = [4u8; 700];
    assert_eq!(
        file.read(&mut buffer, 0, || None),
        Err(Error::RandomSourceUnavailable)
    );
    assert_eq!(buffer, [4u8; 700]);
}

#[test]
fn read_after_a_failed_read_can_succeed() {
    let table = small_table();
    let file = open_on(&table);
    let mut buffer = [0u8; 8];
    assert_eq!(
        file.read(&mut buffer, 0, || None),
        Err(Error::RandomSourceUnavailable)
    );
    assert_eq!(file.read(&mut buffer, 0, || Some(0)), Ok(5));
    assert_eq!(&buffer[..5], b"alpha");
}

#[test]
fn read_past_offset_zero_returns_nothing() {
    let table = printer_facts();
    let file = open_on(&table);
    for offset in [1u64, 2, 65, 630, 631, 1 << 32, u64::MAX] {
        let mut buffer = [6u8; 16];
        assert_eq!(file.read(&mut buffer, offset, || Some(3)), Ok(0));
        assert_eq!(buffer, [6u8; 16]);
        let mut none: [u8; 0] = [];
        assert_eq!(file.read(&mut none, offset, || None), Ok(0));
    }
}

#[test]
fn read_past_offset_zero_does_not_ask_the_source() {
    let table = small_table();
    let file = open_on(&table);
    let mut buffer = [0u8; 8];
    let written = file.read(&mut buffer, 5, || panic!("the source was asked"));
    assert_eq!(written, Ok(0));
}

#[test]
fn read_at_offset_zero_asks_the_source_once() {
    let table = small_table();
    let file = open_on(&table);
    let calls = Cell::new(0);
    let mut buffer = [0u8; 8];
    let written = file.read(&mut buffer, 0, || {
        calls.set(calls.get() + 1);
        Some(2)
    });
    assert_eq!(written, Ok(6));
    assert_eq!(calls.get(), 1);
}

#[test]
fn two_reads_at_offset_zero_draw_twice() {
    let table = small_table();
    let file = open_on(&table);
    let mut first = [0u8; 8];
    let mut second = [0u8; 8];
    assert_eq!(file.read(&mut first, 0, || Some(0)), Ok(5));
    assert_eq!(file.read(&mut second, 0, || Some(1)), Ok(2));
    assert_eq!(&first[..5], b"alpha");
    assert_eq!(&second[..2], b"be");
}

#[test]
fn read_with_a_buffer_for_the_longest_fact_returns_an_entry_for_every_byte() {
    let table = printer_facts();
    let file = open_on(&table);
    let mut buffer = vec![0u8; table.longest()];
    for draw in 0..=255u8 {
        let written = file.read(&mut buffer, 0, || Some(draw)).unwrap();
        let entry = table.get(draw as usize % table.size());
        assert_eq!(written, entry.len());
        assert_eq!(&buffer[..written], entry.as_bytes());
    }
}

#[test]
fn read_with_a_buffer_one_short_of_the_longest_fact_fails_only_for_it() {
    let table = printer_facts();
    let file = open_on(&table);
    let mut buffer = vec![0u8; table.longest() - 1];
    for draw in 0..=255u8 {
        let read = file.read(&mut buffer, 0, || Some(draw));
        if draw == 55 {
            assert_eq!(read, Err(Error::BufferTooSmall));
        } else {
            assert_eq!(read, Ok(table.get(draw as usize).len()));
        }
    }
}

#[test]
fn write_is_not_supported() {
    let table = small_table();
    let file = open_on(&table);
    assert_eq!(file.write(b"fact", 0), Err(Error::OperationNotSupported));
    assert_eq!(file.write(b"", 9), Err(Error::OperationNotSupported));
}

#[test]
fn seek_is_not_supported() {
    let table = small_table();
    let file = open_on(&table);
    assert_eq!(file.seek(0), Err(Error::OperationNotSupported));
    assert_eq!(file.seek(5), Err(Error::OperationNotSupported));
}

#[test]
fn ioctl_is_not_supported() {
    let table = small_table();
    let file = open_on(&table);
    assert_eq!(file.ioctl(0, 0), Err(Error::OperationNotSupported));
    assert_eq!(file.ioctl(0x5401, 1), Err(Error::OperationNotSupported));
}

#[test]
fn a_failure_leaves_the_session_usable() {
    let table = small_table();
    let file = open_on(&table);
    let mut small = [0u8; 1];
    assert_eq!(
        file.read(&mut small, 0, || Some(0)),
        Err(Error::BufferTooSmall)
    );
    assert_eq!(file.write(b"x", 0), Err(Error::OperationNotSupported));
    let mut buffer = [0u8; 8];
    assert_eq!(file.read(&mut buffer, 0, || Some(0)), Ok(5));
}
