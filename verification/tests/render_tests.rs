use chrono::Datelike;

use gtasksprint::errors::RenderError;
use gtasksprint::render::{Boxed, Segment};
use gtasksprint::task::Task;
use gtasksprint::urgency::TermColor;

fn day(y: i32, m: u32, d: u32) -> i32 {
    chrono::NaiveDate::from_ymd_opt(y, m, d).unwrap().num_days_from_ce()
}

fn task(title: Option<&str>, notes: Option<&str>, due: Option<&str>) -> Task {
    Task {
        title: title.map(String::from),
        notes: notes.map(String::from),
        due: due.map(String::from),
    }
}

fn full_text(segs: &[Segment]) -> String {
    segs.iter().map(|s| s.text.as_str()).collect()
}

#[test]
fn one_short_task_renders_exactly() {
    let tasks = vec![task(Some("Buy milk"), None, None)];
    let boxed = Boxed::new(40, "Google Tasks", &tasks);
    let segs = boxed.draw(day(2024, 6, 1)).unwrap();
    assert_eq!(segs.len(), 5);
    assert_eq!(segs[0].text, format!("┌{}┐\n", "─".repeat(37)));
    assert_eq!(segs[1].text, "│");
    assert_eq!(segs[2].text, format!("• Buy milk{}", " ".repeat(27)));
    assert_eq!(segs[2].color, TermColor::White);
    assert_eq!(segs[3].text, "│\n");
    assert_eq!(segs[4].text, format!("└{}┘", "─".repeat(37)));
    for s in &segs {
        assert_eq!(s.color, TermColor::White);
    }
}

#[test]
fn due_today_title_row_is_orange() {
    let tasks = vec![task(Some("Pay rent"), None, Some("2024-06-01T00:00:00Z"))];
    let boxed = Boxed::new(40, "Google Tasks", &tasks);
    let segs = boxed.draw(day(2024, 6, 1)).unwrap();
    assert_eq!(segs[2].color, TermColor::Orange);
    assert!(segs[2].text.starts_with("• Pay rent"));
}

#[test]
fn overdue_title_row_is_red() {
    let tasks = vec![task(Some("File taxes"), None, Some("2024-05-20T00:00:00Z"))];
    let boxed = Boxed::new(40, "Google Tasks", &tasks);
    let segs = boxed.draw(day(2024, 6, 1)).unwrap();
    assert_eq!(segs[2].color, TermColor::Red);
}

#[test]
fn notes_rows_are_grey_whatever_the_urgency() {
    let tasks = vec![task(
        Some("File taxes"),
        Some("bring the receipts"),
        Some("2024-05-20T00:00:00Z"),
    )];
    let boxed = Boxed::new(40, "Google Tasks", &tasks);
    let segs = boxed.draw(day(2024, 6, 1)).unwrap();
    // top border, one title row (3 pieces), one note row (3 pieces), bottom.
    assert_eq!(segs.len(), 8);
    assert_eq!(segs[2].color, TermColor::Red);
    assert_eq!(segs[5].color, TermColor::Grey);
    assert!(segs[5].text.starts_with("  • bring the receipts"));
}

#[test]
fn malformed_due_date_aborts_the_render() {
    let tasks = vec![
        task(Some("Fine task"), None, None),
        task(Some("Broken task"), None, Some("not-a-date")),
    ];
    let boxed = Boxed::new(40, "Google Tasks", &tasks);
    assert_eq!(boxed.draw(day(2024, 6, 1)), Err(RenderError::MalformedDueDate));
}

#[test]
fn too_small_a_width_is_rejected_before_output() {
    let tasks = vec![task(Some("Buy milk"), None, None)];
    let boxed = Boxed::new(6, "Google Tasks", &tasks);
    assert_eq!(boxed.draw(day(2024, 6, 1)), Err(RenderError::InvalidWidth));
}

#[test]
fn every_row_spans_the_same_columns() {
    for width in [7u16, 10, 24, 40, 80] {
        let tasks = vec![
            task(Some("Buy milk and bread and a rather long list of groceries"), None, None),
            task(Some("Call Bob"), Some("about the meeting notes from last Tuesday"), None),
        ];
        let boxed = Boxed::new(width, "Google Tasks", &tasks);
        let segs = boxed.draw(day(2024, 6, 1)).unwrap();
        let text = full_text(&segs);
        for row in text.split('\n') {
            let cols = row.chars().count();
            if width >= 24 {
                // Wrapped lines fit at these widths, so every row — borders
                // and content alike — spans exactly width - 1 columns.
                assert_eq!(cols, usize::from(width) - 1);
            } else {
                // At very small widths the note indents alone can exceed
                // the interior: such rows are allowed to run long, never
                // to come up short.
                assert!(cols >= usize::from(width) - 1);
            }
        }
    }
}

#[test]
fn long_title_wraps_into_indented_rows() {
    let tasks = vec![task(
        Some("Write the quarterly report and send it to the whole team"),
        None,
        None,
    )];
    let boxed = Boxed::new(40, "Google Tasks", &tasks);
    let segs = boxed.draw(day(2024, 6, 1)).unwrap();
    // More than one content row: top + k * 3 + bottom with k >= 2.
    assert!(segs.len() >= 8);
    assert!(segs[2].text.starts_with("• "));
    assert!(segs[5].text.starts_with("   "));
    assert!(!segs[5].text.starts_with("• "));
}

#[test]
fn empty_title_still_shows_a_bullet_row() {
    let tasks = vec![task(None, None, None)];
    let boxed = Boxed::new(40, "Google Tasks", &tasks);
    let segs = boxed.draw(day(2024, 6, 1)).unwrap();
    assert_eq!(segs.len(), 5);
    assert_eq!(segs[2].text, format!("• {}", " ".repeat(35)));
}
