use xlsx_split::cell::{cell_write, row_writes, Cell, CellWrite};
use xlsx_split::naming::output_file_name;
use xlsx_split::paginate::{page_count, page_writes, paginate, Page};

fn sheet_of(rows: usize) -> Vec<Vec<Cell>> {
    (0..rows)
        .map(|i| vec![Cell::Int(i as i64), Cell::Text(format!("row {}", i))])
        .collect()
}

fn lengths(pages: &[Page]) -> Vec<usize> {
    pages.iter().map(|p| p.output_rows().len()).collect()
}

#[test]
fn thousand_rows_with_one_header_row() {
    let pages = paginate(1000, 300, 1);
    assert_eq!(pages.len(), 4);
    assert_eq!(lengths(&pages), vec![300, 301, 301, 101]);
    let names: Vec<String> = pages
        .iter()
        .map(|p| output_file_name("data", p.number, "xlsx"))
        .collect();
    assert_eq!(names, vec!["data-1.xlsx", "data-2.xlsx", "data-3.xlsx", "data-4.xlsx"]);
    assert_eq!(pages[0].output_rows(), (0..300).collect::<Vec<usize>>());
    let second = pages[1].output_rows();
    assert_eq!(second[0], 0);
    assert_eq!(second[1..].to_vec(), (300..600).collect::<Vec<usize>>());
    let last = pages[3].output_rows();
    assert_eq!(last[0], 0);
    assert_eq!(last[1..].to_vec(), (900..1000).collect::<Vec<usize>>());
}

#[test]
fn thousand_rows_without_header() {
    let pages = paginate(1000, 300, 0);
    assert_eq!(lengths(&pages), vec![300, 300, 300, 100]);
    for p in &pages {
        assert_eq!(p.header_rows, 0);
        assert_eq!(p.output_rows(), (p.start..p.end).collect::<Vec<usize>>());
    }
    assert_eq!(pages[1].output_rows()[0], 300);
}

#[test]
fn boolean_stays_boolean() {
    assert_eq!(cell_write(&Cell::Bool(true)), Some(CellWrite::Boolean(true)));
    assert_ne!(cell_write(&Cell::Bool(true)), Some(CellWrite::Text("true".to_string())));
    assert_ne!(cell_write(&Cell::Bool(true)), Some(CellWrite::Integer(1)));
}

#[test]
fn each_kind_is_written_as_its_own_type() {
    let row = vec![
        Cell::Bool(false),
        Cell::Empty,
        Cell::Int(42),
        Cell::Float(2.5f64.to_bits()),
        Cell::Text("abc".to_string()),
        Cell::Other,
    ];
    assert_eq!(
        row_writes(&row),
        vec![
            Some(CellWrite::Boolean(false)),
            Some(CellWrite::Text(String::new())),
            Some(CellWrite::Integer(42)),
            Some(CellWrite::Float(2.5f64.to_bits())),
            Some(CellWrite::Text("abc".to_string())),
            None,
        ]
    );
}

#[test]
fn page_count_is_ceiling() {
    assert_eq!(page_count(0, 300), 1);
    assert_eq!(page_count(1, 300), 1);
    assert_eq!(page_count(300, 300), 1);
    assert_eq!(page_count(301, 300), 2);
    assert_eq!(page_count(1000, 300), 4);
    assert_eq!(page_count(7, 1), 7);
    assert_eq!(page_count(usize::MAX, 1), usize::MAX);
    assert_eq!(page_count(usize::MAX, usize::MAX), 1);
    for rows in 0..50usize {
        for count in 1..8usize {
            assert_eq!(paginate(rows, count, 1).len(), page_count(rows, count));
        }
    }
}

#[test]
fn empty_sheet_gives_one_empty_page() {
    let pages = paginate(0, 300, 1);
    assert_eq!(pages, vec![Page { number: 1, header_rows: 0, start: 0, end: 0 }]);
    assert!(pages[0].output_rows().is_empty());
}

#[test]
fn header_is_repeated_verbatim() {
    let sheet = sheet_of(10);
    let pages = paginate(sheet.len(), 3, 2);
    assert_eq!(pages.len(), 4);
    for p in &pages[1..] {
        let writes = page_writes(&sheet, p);
        assert_eq!(writes[0], row_writes(&sheet[0]));
        assert_eq!(writes[1], row_writes(&sheet[1]));
        assert_eq!(writes[2], row_writes(&sheet[p.start]));
    }
    assert_eq!(page_writes(&sheet, &pages[0])[0], row_writes(&sheet[0]));
    assert_eq!(lengths(&pages), vec![3, 5, 5, 3]);
}

#[test]
fn header_longer_than_sheet_takes_all_rows() {
    let pages = paginate(4, 2, 9);
    assert_eq!(pages.len(), 2);
    assert_eq!(pages[1].header_rows, 4);
    assert_eq!(pages[1].output_rows(), vec![0, 1, 2, 3, 2, 3]);
}

#[test]
fn every_row_is_data_of_exactly_one_page() {
    for count in 1..6usize {
        let pages = paginate(23, count, 2);
        for i in 0..23usize {
            let holders: Vec<&Page> = pages.iter().filter(|p| p.start <= i && i < p.end).collect();
            assert_eq!(holders.len(), 1);
            assert_eq!(holders[0].number, i / count + 1);
        }
    }
}

#[test]
fn same_input_gives_same_output() {
    let sheet = sheet_of(17);
    let a = paginate(sheet.len(), 5, 1);
    let b = paginate(sheet.len(), 5, 1);
    assert_eq!(a, b);
    for (p, q) in a.iter().zip(b.iter()) {
        assert_eq!(page_writes(&sheet, p), page_writes(&sheet, q));
    }
}

#[test]
fn file_names_carry_the_page_number() {
    assert_eq!(output_file_name("data", 3, "xlsx"), "data-3.xlsx");
    assert_eq!(output_file_name("report", 10, "xls"), "report-10.xls");
    assert_eq!(output_file_name("a", 0, "b"), "a-0.b");
    assert_eq!(output_file_name("s", 1234567890, "xlsx"), "s-1234567890.xlsx");
}
