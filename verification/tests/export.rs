use xanthidae::export::{export_finished_notice, ExportData};
use xanthidae::flyway::Severity;

fn strings(cells: &[&str]) -> Vec<String> {
    cells.iter().map(|cell| cell.to_string()).collect()
}

#[test]
fn to_string_should_return_wiki_syntax() {
    let export_data = ExportData {
        headers: strings(&["h1", "h2", "h3"]),
        data: vec![strings(&["d11", "d12", "d13"]), strings(&["d21", "d22", "d23"])],
        current_row: vec![],
        prepared: true,
    };
    assert_eq!(
        "||h1||h2||h3||\n|d11|d12|d13|\n|d21|d22|d23|\n",
        export_data.to_string()
    );
}

#[test]
fn feeding_cells_builds_the_same_table() {
    let mut export_data = ExportData::new();
    for header in ["h1", "h2", "h3"] {
        export_data.feed(header.to_string());
    }
    export_data.mark_prepared();
    for cell in ["d11", "d12", "d13", "d21", "d22", "d23"] {
        export_data.feed(cell.to_string());
    }
    assert_eq!(3, export_data.num_columns());
    assert!(export_data.current_row.is_empty());
    assert_eq!(
        "||h1||h2||h3||\n|d11|d12|d13|\n|d21|d22|d23|\n",
        export_data.to_string()
    );
}

#[test]
fn partial_row_stays_in_current_row() {
    let mut export_data = ExportData::new();
    export_data.feed("a".to_string());
    export_data.feed("b".to_string());
    export_data.mark_prepared();
    export_data.feed("1".to_string());
    assert_eq!(strings(&["1"]), export_data.current_row);
    assert!(export_data.data.is_empty());
    assert_eq!("||a||b||\n", export_data.to_string());
    export_data.feed("2".to_string());
    assert!(export_data.current_row.is_empty());
    assert_eq!(vec![strings(&["1", "2"])], export_data.data);
}

#[test]
fn without_headers_no_row_completes() {
    let mut export_data = ExportData::new();
    export_data.mark_prepared();
    export_data.feed("1".to_string());
    export_data.feed("2".to_string());
    assert_eq!(0, export_data.num_columns());
    assert_eq!(strings(&["1", "2"]), export_data.current_row);
    assert!(export_data.data.is_empty());
    assert_eq!("||\n", export_data.to_string());
}

#[test]
fn init_empties_the_buffer() {
    let mut export_data = ExportData::new();
    export_data.feed("a".to_string());
    export_data.mark_prepared();
    export_data.feed("1".to_string());
    export_data.init();
    assert_eq!(ExportData::new(), export_data);
    assert!(!export_data.prepared);
    assert_eq!("||\n", export_data.to_string());
}

#[test]
fn notice_at_the_end_of_an_export() {
    let copied = export_finished_notice(true);
    assert_eq!("Results copied to clipboard", copied.message);
    assert_eq!("Results copied to clipboard", copied.caption);
    assert_eq!(Severity::Information, copied.severity);
    let failed = export_finished_notice(false);
    assert_eq!(
        "An error occured. If this problem persists, please file a bug report.",
        failed.message
    );
    assert_eq!(failed.message, failed.caption);
    assert_eq!(Severity::Information, failed.severity);
}
