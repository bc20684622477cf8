use pharmacy::page::PageError;
use pharmacy::sort::{find_column, resolve, ColumnOrder, SortCriterion, SortDirection};

#[test]
fn direction_words() {
    assert_eq!(SortDirection::parse("asc"), Some(SortDirection::Asc));
    assert_eq!(SortDirection::parse("desc"), Some(SortDirection::Desc));
    assert_eq!(SortDirection::parse("ASC"), None);
    assert_eq!(SortDirection::parse("Desc"), None);
    assert_eq!(SortDirection::parse(""), None);
    assert_eq!(SortDirection::Asc.as_text(), "asc");
    assert_eq!(SortDirection::Desc.as_text(), "desc");
}

#[test]
fn criterion_parses_field_and_direction() {
    let c = SortCriterion::parse("name,desc").unwrap();
    assert_eq!(c.field, "name");
    assert_eq!(c.direction, SortDirection::Desc);
}

#[test]
fn criterion_ignores_text_after_second_comma() {
    let c = SortCriterion::parse("city,asc,extra").unwrap();
    assert_eq!(c.field, "city");
    assert_eq!(c.direction, SortDirection::Asc);
}

#[test]
fn criterion_with_empty_field() {
    let c = SortCriterion::parse(",asc").unwrap();
    assert_eq!(c.field, "");
}

#[test]
fn criterion_needs_a_direction() {
    assert_eq!(SortCriterion::parse("name").unwrap_err(), PageError::InvalidDirectionName);
    assert_eq!(SortCriterion::parse("name,").unwrap_err(), PageError::InvalidDirectionName);
    assert_eq!(SortCriterion::parse("name,up").unwrap_err(), PageError::InvalidDirectionName);
    assert_eq!(SortCriterion::parse("name,ASC").unwrap_err(), PageError::InvalidDirectionName);
}

#[test]
fn criterion_text_round_trip() {
    let c = SortCriterion { field: "postCode".to_string(), direction: SortDirection::Desc };
    let t = c.to_text();
    assert_eq!(t, "postCode,desc");
    assert_eq!(SortCriterion::parse(&t).unwrap(), c);
    let u = SortCriterion { field: "Straße".to_string(), direction: SortDirection::Asc };
    assert_eq!(SortCriterion::parse(&u.to_text()).unwrap(), u);
}

#[test]
fn column_lookup_takes_first_match() {
    let cols = vec!["a".to_string(), "b".to_string(), "b".to_string()];
    assert_eq!(find_column(&cols, &"b".to_string()), Some(1));
    assert_eq!(find_column(&cols, &"c".to_string()), None);
    assert_eq!(find_column(&cols, &"A".to_string()), None);
}

#[test]
fn resolve_empty_criteria() {
    let cols = vec!["a".to_string()];
    assert_eq!(resolve(&vec![], &cols).unwrap(), vec![]);
}

#[test]
fn resolve_reports_first_unknown_field() {
    let cols = vec!["a".to_string(), "b".to_string()];
    let criteria = vec![
        SortCriterion { field: "b".to_string(), direction: SortDirection::Asc },
        SortCriterion { field: "x".to_string(), direction: SortDirection::Asc },
        SortCriterion { field: "y".to_string(), direction: SortDirection::Asc },
    ];
    assert_eq!(resolve(&criteria, &cols).unwrap_err(), PageError::InvalidColumnName("x".to_string()));
    let ok = vec![SortCriterion { field: "b".to_string(), direction: SortDirection::Desc }];
    assert_eq!(
        resolve(&ok, &cols).unwrap(),
        vec![ColumnOrder { column: 1, direction: SortDirection::Desc }]
    );
}
