use monet::math::Vec2;
use monet::table::{collect_points, columns_of, read_csv_columns, select_columns, DataError};

fn cells(row: &[&str]) -> Vec<String> {
    row.iter().map(|c| c.to_string()).collect()
}

fn number(cell: &str) -> Option<i64> {
    cell.parse::<f64>().ok().map(|v| (v * 1_000_000.0).round() as i64)
}

#[test]
fn point_filtering() {
    let x = cells(&["1", "bad", "3"]);
    let y = cells(&["2", "4", "6"]);
    let xs: Vec<Option<i64>> = x.iter().map(|c| number(c)).collect();
    let ys: Vec<Option<i64>> = y.iter().map(|c| number(c)).collect();
    let points = collect_points(&xs, &ys);
    assert_eq!(points, vec![Vec2::vec2(1_000_000, 2_000_000), Vec2::vec2(3_000_000, 6_000_000)]);
}

#[test]
fn a_row_is_dropped_where_either_cell_is_no_number() {
    let xs = vec![Some(1), None, Some(3), None];
    let ys = vec![None, Some(5), Some(6), None];
    assert_eq!(collect_points(&xs, &ys), vec![Vec2::vec2(3, 6)]);
}

#[test]
fn points_reach_as_far_as_both_columns() {
    let xs = vec![Some(1), Some(2), Some(3)];
    let ys = vec![Some(4)];
    assert_eq!(collect_points(&xs, &ys), vec![Vec2::vec2(1, 4)]);
    assert_eq!(collect_points(&ys, &xs), vec![Vec2::vec2(4, 1)]);
    assert_eq!(collect_points(&Vec::new(), &xs), Vec::<Vec2>::new());
}

#[test]
fn missing_column() {
    let table = vec![cells(&["1"]), cells(&["2"]), cells(&["3"])];
    match select_columns(&table, 0, 99) {
        Err(DataError::MissingColumn { x, y }) => {
            assert_eq!((x, y), (0, 99));
        }
        other => panic!("{:?}", other),
    }
    let message = select_columns(&table, 0, 99).unwrap_err().message();
    assert_eq!(message, "The located column, 0 and 99 doesn't exit.");
    assert!(message.contains("99"));
    assert!(select_columns(&table, 3, 0).is_err());
}

#[test]
fn present_columns_are_handed_out() {
    let table = vec![cells(&["1", "2"]), cells(&["a", "b"]), cells(&["x", "y"])];
    let (xs, ys) = select_columns(&table, 2, 0).unwrap();
    assert_eq!(xs, &cells(&["x", "y"]));
    assert_eq!(ys, &cells(&["1", "2"]));
    let (xs, ys) = select_columns(&table, 1, 1).unwrap();
    assert_eq!(xs, ys);
}

#[test]
fn rows_become_columns() {
    let rows = vec![cells(&["1", "2", "3"]), cells(&["4", "5", "6"])];
    assert_eq!(
        columns_of(3, &rows),
        vec![cells(&["1", "4"]), cells(&["2", "5"]), cells(&["3", "6"])]
    );
    assert_eq!(columns_of(2, &rows), vec![cells(&["1", "4"]), cells(&["2", "5"])]);
    assert_eq!(columns_of(0, &rows), Vec::<Vec<String>>::new());
}

#[test]
fn short_rows_leave_their_columns_shorter() {
    let rows = vec![cells(&["1", "2"]), cells(&["3"]), cells(&["4", "5", "6"])];
    assert_eq!(
        columns_of(3, &rows),
        vec![cells(&["1", "3", "4"]), cells(&["2", "5"]), cells(&["6"])]
    );
    assert_eq!(columns_of(2, &Vec::new()), vec![Vec::<String>::new(), Vec::new()]);
}

#[test]
fn comma_separated_data_is_read_into_columns() {
    let data = "x,y,z\n1,2,3\n4,bad,6\n";
    let table = read_csv_columns(data.as_bytes()).unwrap();
    assert_eq!(table, vec![cells(&["1", "4"]), cells(&["2", "bad"]), cells(&["3", "6"])]);
}

#[test]
fn quoted_cells_are_unquoted() {
    let data = "name,value\n\"a,b\",1\n\"say \"\"hi\"\"\",2\n";
    let table = read_csv_columns(data.as_bytes()).unwrap();
    assert_eq!(table, vec![cells(&["a,b", "say \"hi\""]), cells(&["1", "2"])]);
}

#[test]
fn data_with_only_a_header_has_empty_columns() {
    let table = read_csv_columns(b"x,y\n").unwrap();
    assert_eq!(table, vec![Vec::<String>::new(), Vec::new()]);
}

#[test]
fn records_of_unequal_length_are_unreadable() {
    let r = read_csv_columns(b"x,y\n1,2,3\n");
    assert!(matches!(r, Err(DataError::Unreadable)));
    assert_eq!(r.unwrap_err().message(), "Failed to parse CSV into vector.");
}

#[test]
fn data_that_is_not_text_is_unreadable() {
    let r = read_csv_columns(&[b'x', b'\n', 0xff, 0xfe, b'\n']);
    assert!(matches!(r, Err(DataError::Unreadable)));
    let r = read_csv_columns(&[0xff, b'\n', b'1', b'\n']);
    assert!(matches!(r, Err(DataError::Unreadable)));
}
