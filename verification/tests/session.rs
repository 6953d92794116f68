// SPDX-License-Identifier: GPL-2.0

use printerfact::device::RustFile;
use printerfact::error::Error;
use printerfact::facts::printer_facts;
use printerfact::table::FactTable;

/// The reader's side of a session: the offset it keeps, and what it has
/// read so far.
struct Reader {
    offset: u64,
    content: Vec<u8>,
    results: Vec<Result<usize, Error>>,
}

impl Reader {
    fn new() -> Reader {
        Reader {
            offset: 0,
            content: Vec::new(),
            results: Vec::new(),
        }
    }

    fn read(&mut self, file: &RustFile, capacity: usize, draw: Option<u8>) {
        let mut buffer = vec![0u8; capacity];
        let result = file.read(&mut buffer, self.offset, || draw);
        if let Ok(written) = result {
            self.content.extend_from_slice(&buffer[..written]);
            self.offset += written as u64;
        }
        self.results.push(result);
    }
}

fn open_on(table: &FactTable) -> RustFile<'_> {
    RustFile::open(table, |file| Some(file)).unwrap()
}

#[test]
fn reading_a_session_to_its_end_yields_one_fact() {
    let table = printer_facts();
    let file = open_on(&table);
    let mut reader = Reader::new();
    for draw in [12u8, 13, 14, 15] {
        reader.read(&file, 4096, Some(draw));
    }
    assert_eq!(reader.content, table.get(12).as_bytes());
    assert_eq!(
        reader.results,
        vec![Ok(table.get(12).len()), Ok(0), Ok(0), Ok(0)]
    );
}

#[test]
fn a_session_stays_fresh_until_a_read_succeeds() {
    let table = printer_facts();
    let file = open_on(&table);
    let mut reader = Reader::new();
    reader.read(&file, 4096, None);
    reader.read(&file, 10, Some(3));
    reader.read(&file, 4096, Some(3));
    reader.read(&file, 4096, Some(4));
    reader.read(&file, 0, None);
    assert_eq!(
        reader.results,
        vec![
            Err(Error::RandomSourceUnavailable),
            Err(Error::BufferTooSmall),
            Ok(79),
            Ok(0),
            Ok(0),
        ]
    );
    assert_eq!(reader.content, table.get(3).as_bytes());
    assert_eq!(reader.offset, 79);
}

#[test]
fn a_new_session_on_the_same_table_is_fresh_again() {
    let table = printer_facts();
    let first = open_on(&table);
    let mut reader = Reader::new();
    reader.read(&first, 4096, Some(1));
    reader.read(&first, 4096, Some(2));
    let second = open_on(&table);
    let mut other = Reader::new();
    other.read(&second, 4096, Some(2));
    assert_eq!(reader.content, table.get(1).as_bytes());
    assert_eq!(other.content, table.get(2).as_bytes());
}

#[test]
fn interleaved_sessions_see_what_they_see_alone() {
    let table = printer_facts();
    let reads_a = [(4096usize, Some(3u8)), (4096, Some(9)), (16, None)];
    let reads_b = [(8usize, Some(200u8)), (4096, None), (4096, Some(1)), (4096, Some(5))];

    let file_a = open_on(&table);
    let file_b = open_on(&table);
    let mut alone_a = Reader::new();
    for (capacity, draw) in reads_a {
        alone_a.read(&file_a, capacity, draw);
    }
    let mut alone_b = Reader::new();
    for (capacity, draw) in reads_b {
        alone_b.read(&file_b, capacity, draw);
    }

    // true: the next read of a; false: the next read of b
    let orders: [[bool; 7]; 4] = [
        [true, false, true, false, true, false, false],
        [false, false, false, false, true, true, true],
        [false, true, true, false, false, true, false],
        [true, true, false, true, false, false, false],
    ];
    for order in orders {
        let file_a = open_on(&table);
        let file_b = open_on(&table);
        let mut a = Reader::new();
        let mut b = Reader::new();
        let mut next_a = 0;
        let mut next_b = 0;
        for turn in order {
            if turn {
                a.read(&file_a, reads_a[next_a].0, reads_a[next_a].1);
                next_a += 1;
            } else {
                b.read(&file_b, reads_b[next_b].0, reads_b[next_b].1);
                next_b += 1;
            }
        }
        assert_eq!(a.results, alone_a.results);
        assert_eq!(a.content, alone_a.content);
        assert_eq!(b.results, alone_b.results);
        assert_eq!(b.content, alone_b.content);
    }
    assert_eq!(alone_a.results, vec![Ok(79), Ok(0), Ok(0)]);
    assert_eq!(
        alone_b.results,
        vec![
            Err(Error::BufferTooSmall),
            Err(Error::RandomSourceUnavailable),
            Ok(141),
            Ok(0),
        ]
    );
}

#[test]
fn two_sessions_share_one_table() {
    let table = FactTable::new(vec!["alpha", "be", "gamma!"]).unwrap();
    let first = open_on(&table);
    let second = open_on(&table);
    let mut a = [0u8; 8];
    let mut b = [0u8; 8];
    assert_eq!(first.read(&mut a, 0, || Some(2)), Ok(6));
    assert_eq!(second.read(&mut b, 0, || Some(2)), Ok(6));
    assert_eq!(a, b);
    assert_eq!(table.get(2), "gamma!");
}

/// A fixed sequence of bytes that is spread evenly enough to stand for a
/// uniform source.
struct Bytes {
    state: u32,
}

impl Bytes {
    fn next(&mut self) -> u8 {
        self.state ^= self.state << 13;
        self.state ^= self.state >> 17;
        self.state ^= self.state << 5;
        (self.state >> 16) as u8
    }
}

fn frequencies(table: &FactTable, reads: usize) -> Vec<f64> {
    let mut bytes = Bytes { state: 0x2545_F491 };
    let mut counts = vec![0usize; table.size()];
    let mut buffer = vec![0u8; table.longest()];
    for _ in 0..reads {
        let file = open_on(table);
        let draw = bytes.next();
        let written = file.read(&mut buffer, 0, || Some(draw)).unwrap();
        let index = (0..table.size())
            .find(|i| table.get(*i).as_bytes() == &buffer[..written])
            .unwrap();
        counts[index] += 1;
    }
    counts
        .iter()
        .map(|count| *count as f64 / reads as f64)
        .collect()
}

#[test]
fn fresh_reads_select_every_fact_of_a_small_table_about_equally_often() {
    let table = FactTable::new(vec!["north", "east", "south", "west", "up", "down"]).unwrap();
    let observed = frequencies(&table, 60_000);
    for frequency in observed {
        assert!((frequency - 1.0 / 6.0).abs() < 0.01, "{}", frequency);
    }
}

#[test]
fn fresh_reads_of_the_shipped_table_never_select_its_last_two_facts() {
    let table = printer_facts();
    let observed = frequencies(&table, 51_200);
    for index in 0..256 {
        assert!(
            (observed[index] - 1.0 / 256.0).abs() < 0.002,
            "{} {}",
            index,
            observed[index]
        );
    }
    assert_eq!(observed[256], 0.0);
    assert_eq!(observed[257], 0.0);
}
