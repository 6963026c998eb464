use measure::sheet::{site_sheet, with_work, worked, Sheet, Unit};

/// Nothing is placed until something is calibrated, so there is no sheet
/// the site is measured from.
#[test]
fn an_uncalibrated_project_places_nothing() {
    assert_eq!(site_sheet(&Vec::new()), None);
}

#[test]
fn the_first_calibrated_sheet_places_the_site() {
    let calibrated = vec![Sheet::new(1, 0), Sheet::new(0, 3), Sheet::new(0, 5)];

    assert_eq!(site_sheet(&calibrated), Some(Sheet::new(0, 3)));
}

/// Every sheet with anything on it, once each, by drawing and then by page.
#[test]
fn the_worked_sheets_come_in_order_once_each() {
    let calibrated = vec![Sheet::new(0, 2)];
    let placed = vec![Sheet::new(1, 0), Sheet::new(0, 2)];
    let measured = vec![Sheet::new(1, 0), Sheet::new(0, 0), Sheet::new(0, 2)];

    assert_eq!(
        worked(&calibrated, &placed, &measured),
        vec![Sheet::new(0, 0), Sheet::new(0, 2), Sheet::new(1, 0)]
    );
}

/// The same work, found in another order, lists the same sheets.
#[test]
fn the_order_work_is_found_in_does_not_matter() {
    let one = worked(&vec![Sheet::new(2, 1), Sheet::new(0, 4)], &vec![], &vec![Sheet::new(1, 1)]);
    let other = worked(&vec![Sheet::new(1, 1)], &vec![Sheet::new(0, 4)], &vec![Sheet::new(2, 1)]);

    assert_eq!(one, other);
}

#[test]
fn sheets_order_by_drawing_then_page() {
    assert!(Sheet::new(0, 9).precedes(&Sheet::new(1, 0)));
    assert!(Sheet::new(1, 0).precedes(&Sheet::new(1, 1)));
    assert!(!Sheet::new(1, 1).precedes(&Sheet::new(1, 1)));
}

#[test]
fn units_read_as_their_symbols() {
    let labels: Vec<&str> = Unit::ALL.iter().map(|unit| unit.label()).collect();

    assert_eq!(labels, ["mm", "cm", "m", "in", "ft"]);
    assert!(Unit::Metres.is_metric());
    assert!(Unit::Centimetres.is_metric());
    assert!(!Unit::Feet.is_metric());
    assert!(!Unit::Inches.is_metric());
}

#[test]
fn a_sheet_with_an_empty_list_is_not_worked() {
    let entries = vec![(Sheet::new(0, 2), 3), (Sheet::new(0, 0), 0), (Sheet::new(1, 0), 1)];
    assert_eq!(with_work(&entries), vec![Sheet::new(0, 2), Sheet::new(1, 0)]);
}
