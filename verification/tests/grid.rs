use prjcombine::grid::{
    push_col_name, push_die_name, push_join_col_names, push_row_name, ColId, DieId, EdgeIoCoord, Rect, RowId,
    TileIobId,
};
use prjcombine::text::{name_sort_key, pin_order, push_decimal, push_padded};

#[test]
fn rect_holds_its_cells() {
    let r = Rect { col_w: ColId(2), col_e: ColId(5), row_s: RowId(10), row_n: RowId(12) };
    assert!(r.contains(ColId(2), RowId(10)));
    assert!(r.contains(ColId(4), RowId(11)));
    assert!(!r.contains(ColId(5), RowId(11)));
    assert!(!r.contains(ColId(3), RowId(12)));
    assert!(!r.contains(ColId(1), RowId(10)));
}

#[test]
fn printed_names() {
    let mut s = String::new();
    push_die_name(&mut s, DieId(2));
    s.push(' ');
    push_col_name(&mut s, ColId(17));
    s.push(' ');
    push_row_name(&mut s, RowId(0));
    assert_eq!(s, "D2 X17 Y0");
    let mut s = String::new();
    push_join_col_names(&mut s, &vec![ColId(1), ColId(20), ColId(300)]);
    assert_eq!(s, "X1, X20, X300");
    let mut s = String::new();
    push_join_col_names(&mut s, &vec![]);
    assert_eq!(s, "");
    assert_eq!(EdgeIoCoord::W(RowId(7), TileIobId(1)).to_string(), "IOB_W7_1");
}

#[test]
fn decimal_text() {
    let mut s = String::new();
    push_decimal(&mut s, 0);
    s.push(',');
    push_decimal(&mut s, 1234567890123);
    assert_eq!(s, "0,1234567890123");
}

#[test]
fn padded_text() {
    let mut s = String::new();
    push_padded(&mut s, "A1", 4);
    s.push('|');
    push_padded(&mut s, "AB123", 4);
    s.push('|');
    assert_eq!(s, "A1  |AB123|");
}

#[test]
fn pin_sort_keys() {
    assert_eq!(name_sort_key("W12"), (1, "W", 12));
    assert_eq!(name_sort_key("AB007"), (2, "AB", 7));
    assert_eq!(name_sort_key("5"), (0, "", 5));
}

#[test]
fn pin_order_is_stable_by_key() {
    let names = vec!["B10", "A2", "B9", "A2", "AA1"];
    assert_eq!(pin_order(&names), vec![1, 3, 2, 0, 4]);
    let none: Vec<&str> = vec![];
    assert!(pin_order(&none).is_empty());
}
