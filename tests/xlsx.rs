use std::sync::mpsc::channel;

use xlsx_writer::column::get_alpabet_from_num;
use xlsx_writer::emit::{ps1_bytes, ps1_commands, ps1_path, ps1_text};
use xlsx_writer::model::{Cell, Sheet, Width};
use xlsx_writer::text::{decimal, replace_str};
use xlsx_writer::stamp::{stamp_text_of, Stamp};
use xlsx_writer::workbook::{default_path, WriteOutcome, Xlsx, XlsxState};

#[test]
fn it_works() {}

#[test]
fn labels_cover_the_alphabet() {
    let letters = "ABCDEFGHIJKLMNOPQRSTUVWXYZ";
    for (i, c) in letters.chars().enumerate() {
        assert_eq!(get_alpabet_from_num(i + 1), c.to_string());
    }
    assert_eq!(get_alpabet_from_num(1), "A");
    assert_eq!(get_alpabet_from_num(3), "C");
    assert_eq!(get_alpabet_from_num(26), "Z");
}

#[test]
fn labels_fall_back_to_z() {
    assert_eq!(get_alpabet_from_num(0), "Z");
    assert_eq!(get_alpabet_from_num(27), "Z");
    assert_eq!(get_alpabet_from_num(usize::MAX), "Z");
}

#[test]
fn set_pos_ignores_row_or_column_below_one() {
    let c = Cell::default().set_pos(0, 5);
    assert_eq!((c.py, c.px), (1, 1));
    let c = Cell::default().set_pos(3, 4).set_pos(2, 0);
    assert_eq!((c.py, c.px), (3, 4));
    let c = Cell::default().set_pos(7, 2);
    assert_eq!((c.py, c.px), (7, 2));
}

#[test]
fn set_sort_builds_range() {
    let s = Sheet::default().set_sort(2, 1, 3);
    assert_eq!(s.sort.as_deref(), Some("A2:C2"));
}

#[test]
fn add_line_builds_range_and_style() {
    let s = Sheet::default().add_line(1, 3, 1, 1, 1);
    assert_eq!(s.lines.len(), 1);
    assert_eq!(s.lines[0].range, "A1:A3");
    assert_eq!(s.lines[0].number, 1);
    let s = s.add_line(10, 12, 2, 27, 4);
    assert_eq!(s.lines[1].range, "B10:Z12");
    assert_eq!(s.lines[1].number, 4);
}

#[test]
fn single_cell_script() {
    let cell = Cell::default().set_pos(1, 1).set_content("_test");
    let sheet = Sheet::default().set_name("test_sheet").set_cells(vec![cell]);
    let sheets = vec![sheet];
    let cmds = ps1_commands("C:/work/test.xlsx", &sheets);
    let expected = vec![
        "$excel = New-Object -ComObject Excel.Application;\n",
        "$excel.Visible = $false;\n",
        "$book = $excel.Workbooks.Add();\n",
        "$excel.DisplayAlerts = $false;\n",
        "$sheet = $book.Worksheets.Add();\n",
        "$sheet.Name = \"test_sheet\";\n",
        "$sheet.Cells.Item(1,1) = \"_test\";\n",
        "$sheet.Cells.font.Name = \"Meiryo UI\";\n",
        "$excel.Worksheets.item(\"Sheet1\").delete();\n",
        "$book.SaveAs(\"C:\\work\\test.xlsx\");\n",
        "$excel.Quit();\n",
        "$excel = $null;\n",
        "[GC]::Collect();\n",
    ];
    assert_eq!(cmds, expected);
    assert!(!cmds.iter().any(|c| c.contains("Hyperlinks") || c.contains("ColorIndex") || c.contains("Validation")));
    assert_eq!(ps1_text("C:/work/test.xlsx", &sheets), expected.concat());
}

#[test]
fn cell_formatting_commands() {
    let cell = Cell::default()
        .set_pos(12, 3)
        .set_content("link")
        .set_hyperlink("C:/docs/a.txt")
        .set_font_col_index(5)
        .set_bg_col_index(36)
        .set_valication("yes,no");
    let sheet = Sheet::default().set_name("s").add_cell(cell);
    let cmds = ps1_commands("out.xlsx", &vec![sheet]);
    assert_eq!(
        &cmds[6..11],
        &[
            "$sheet.Hyperlinks.Add($sheet.Cells.Item(12,3),\"C:\\docs\\a.txt\",\"\",\"\",\"link\") | Out-Null;\n",
            "$sheet.Cells.Item(12,3).Font.ColorIndex = 5;\n",
            "$sheet.Cells.Item(12,3).Interior.ColorIndex = 36;\n",
            "$sheet.Cells.Item(12,3).Validation.Delete();\n",
            "$sheet.Cells.Item(12,3).Validation.Add(3, 1, 1, \"yes,no\");\n",
        ]
    );
}

#[test]
fn entries_keep_insertion_order() {
    let sheet = Sheet::default()
        .set_name("order")
        .add_cell(Cell::default().set_pos(2, 2).set_content("b"))
        .add_cell(Cell::default().set_pos(1, 1).set_content("a"))
        .add_cell(Cell::default().set_pos(2, 2).set_content("b"))
        .add_width(3, 120)
        .add_width(1, 8)
        .add_width(3, 9)
        .add_line(4, 5, 2, 2, 2)
        .add_line(1, 1, 1, 3, 1)
        .set_sort(1, 1, 3);
    let cmds = ps1_commands("o.xlsx", &vec![sheet]);
    assert_eq!(
        &cmds[6..15],
        &[
            "$sheet.Cells.Item(2,2) = \"b\";\n",
            "$sheet.Cells.Item(1,1) = \"a\";\n",
            "$sheet.Cells.Item(2,2) = \"b\";\n",
            "$sheet.columns.item(3).columnWidth = 120;\n",
            "$sheet.columns.item(1).columnWidth = 8;\n",
            "$sheet.columns.item(3).columnWidth = 9;\n",
            "$sheet.Range(\"B4:B5\").Borders.LineStyle = 2;\n",
            "$sheet.Range(\"A1:C1\").Borders.LineStyle = 1;\n",
            "$sheet.Range(\"A1:C1\").AutoFilter() | Out-Null;\n",
        ]
    );
}

#[test]
fn sheets_in_insertion_order() {
    let x = Xlsx::new("w.xlsx")
        .add_sheet(Sheet::default().set_name("first"))
        .add_sheet(Sheet::default().set_name("second"));
    let cmds = ps1_commands(&x.xlsx_path, &x.sheets);
    let names: Vec<&String> = cmds.iter().filter(|c| c.starts_with("$sheet.Name")).collect();
    assert_eq!(names, vec!["$sheet.Name = \"first\";\n", "$sheet.Name = \"second\";\n"]);
    assert_eq!(cmds.len(), 4 + 2 * 3 + 5);
}

#[test]
fn set_widths_replaces_widths() {
    let s = Sheet::default().add_width(1, 1).set_widths(vec![Width { px: 2, width: 30 }]);
    assert_eq!(s.widths.len(), 1);
    assert_eq!((s.widths[0].px, s.widths[0].width), (2, 30));
}

#[test]
fn script_path_beside_workbook() {
    assert_eq!(ps1_path("C:/a/book.xlsx"), "C:/a/book.ps1");
    assert_eq!(ps1_path("C:/a.xlsx/book.xlsx"), "C:/a.xlsx/book.ps1");
    assert_eq!(ps1_path("noext"), "noext.ps1");
    assert_eq!(ps1_path("book.xls"), "book.xls.ps1");
}

#[test]
fn replace_every_occurrence() {
    assert_eq!(replace_str("a/b//c", "/", "\\"), "a\\b\\\\c");
    assert_eq!(replace_str("", "/", "\\"), "");
    assert_eq!(replace_str("aaa", "aa", "b"), "ba");
    assert_eq!(replace_str("ab", "", "-"), "ab".replace("", "-"));
    assert_eq!(replace_str("ab", "", "-"), "-a-b-");
    assert_eq!(replace_str("", "", "-"), "-");
}

#[test]
fn default_path_layout() {
    assert_eq!(default_path("C:\\Users\\me\\Desktop", "20240102030405"), "C:/Users/me/Desktop/xlsx_20240102030405.xlsx");
}

#[test]
fn default_workbook_is_idle_with_stamped_path() {
    let x = Xlsx::default();
    assert!(!x.is_write());
    assert!(x.rxs_write.is_none());
    assert!(x.xlsx_path.ends_with(".xlsx"));
    let name = x.xlsx_path.rsplit('/').next().unwrap();
    assert!(name.starts_with("xlsx_"));
    let stamp = &name["xlsx_".len()..name.len() - ".xlsx".len()];
    assert_eq!(stamp.len(), 14);
    assert!(stamp.chars().all(|c| c.is_ascii_digit()));
}

#[test]
fn script_bytes_are_shift_jis() {
    let sheet = Sheet::default().set_name("あ");
    let sheets = vec![sheet];
    let bytes = ps1_bytes("b.xlsx", &sheets).unwrap();
    let text = ps1_text("b.xlsx", &sheets);
    assert_ne!(bytes, text.as_bytes());
    let needle: &[u8] = b"$sheet.Name = \"\x82\xa0\";\n";
    assert!(bytes.windows(needle.len()).any(|w| w == needle));
    let ascii = ps1_bytes("c.xlsx", &vec![]).unwrap();
    assert_eq!(ascii, ps1_text("c.xlsx", &vec![]).into_bytes());
}

#[test]
fn writing_until_signal_observed() {
    let mut x = Xlsx::new("w.xlsx");
    assert!(!x.is_write());
    x.update();
    assert!(!x.is_write());
    let (tx, rx) = channel();
    x.write_xlsx(rx);
    assert!(x.is_write());
    x.update();
    assert!(x.is_write());
    tx.send(WriteOutcome::Failed("exit status 1".to_string())).unwrap();
    assert!(x.is_write());
    x.update();
    assert!(!x.is_write());
    assert_eq!(x.state, XlsxState::Idle);
    assert!(x.rxs_write.is_none());
    assert!(matches!(&x.outcome, Some(WriteOutcome::Failed(r)) if r == "exit status 1"));
    for _ in 0..5 {
        x.update();
        assert!(!x.is_write());
    }
}

#[test]
fn settle_applies_observed_signal() {
    let mut x = Xlsx::new("w.xlsx");
    x.settle(Some(WriteOutcome::Success));
    assert_eq!(x.state, XlsxState::Idle);
    assert!(x.outcome.is_none());
    let (_tx, rx) = channel();
    x.write_xlsx(rx);
    x.settle(None);
    assert_eq!(x.state, XlsxState::Write);
    x.settle(Some(WriteOutcome::Success));
    assert_eq!(x.state, XlsxState::Idle);
    assert!(x.rxs_write.is_none());
    assert!(matches!(x.outcome, Some(WriteOutcome::Success)));
}

#[test]
fn stamp_is_fourteen_digits() {
    let t = Stamp { year: 2024, month: 1, day: 2, hour: 3, minute: 4, second: 5 };
    assert_eq!(stamp_text_of(&t), "20240102030405");
    let t = Stamp { year: 987, month: 12, day: 31, hour: 23, minute: 59, second: 59 };
    assert_eq!(stamp_text_of(&t), "09871231235959");
}

#[test]
fn stamp_years_outside_four_digits_are_signed() {
    let t = Stamp { year: 12345, month: 6, day: 7, hour: 8, minute: 9, second: 10 };
    assert_eq!(stamp_text_of(&t), "+123450607080910");
    let t = Stamp { year: -44, month: 3, day: 15, hour: 12, minute: 0, second: 0 };
    assert_eq!(stamp_text_of(&t), "-00440315120000");
}

#[test]
fn multi_digit_numbers_in_commands() {
    let sheet = Sheet::default().set_name("n").add_width(105, 2048);
    let cmds = ps1_commands("n.xlsx", &vec![sheet]);
    assert_eq!(cmds[6], "$sheet.columns.item(105).columnWidth = 2048;\n");
}

#[test]
fn decimal_notation() {
    assert_eq!(decimal(0), "0");
    assert_eq!(decimal(10), "10");
    assert_eq!(decimal(907), "907");
    assert_eq!(decimal(usize::MAX), usize::MAX.to_string());
}

#[test]
fn default_at_builds_path_from_dir_and_time() {
    let t = Stamp { year: 2023, month: 11, day: 5, hour: 18, minute: 7, second: 30 };
    let x = Xlsx::default_at(Some("C:\\Users\\me\\Desktop".to_string()), Some(t));
    assert_eq!(x.xlsx_path, "C:/Users/me/Desktop/xlsx_20231105180730.xlsx");
    assert!(!x.is_write());
    assert!(x.sheets.is_empty());
    assert!(x.outcome.is_none());
}

#[test]
fn default_at_fallbacks() {
    let x = Xlsx::default_at(None, None);
    assert_eq!(x.xlsx_path, "./xlsx_19700101000000.xlsx");
    let t = Stamp { year: 2001, month: 2, day: 3, hour: 4, minute: 5, second: 6 };
    let x = Xlsx::default_at(None, Some(t));
    assert_eq!(x.xlsx_path, "./xlsx_20010203040506.xlsx");
}
