use pharmacy::page::PageError;
use pharmacy::reservation::{Price, Stock, StockEntry};
use pharmacy::search::{
    matches_folded, name_matches, search, search_by_cda, ApothecaryServiceError, ApothecarySite,
    MedicationDetail,
};

fn entry(apothecary_id: u128, medication_id: u128) -> StockEntry {
    StockEntry {
        apothecary_id,
        medication_id,
        stock: Stock::Package { quantity: 3, price: Price { mantissa: 450, scale: 2 } },
    }
}

fn meds() -> Vec<MedicationDetail> {
    vec![
        MedicationDetail { id: 1, name: "Ibuprofen 400mg".to_string() },
        MedicationDetail { id: 2, name: "Paracetamol".to_string() },
        MedicationDetail { id: 3, name: "IBUPROFEN Junior".to_string() },
    ]
}

#[test]
fn folded_match_is_a_substring_test() {
    assert!(matches_folded("IBUPROFEN 400MG", "PROFEN"));
    assert!(matches_folded("ABC", ""));
    assert!(!matches_folded("ABC", "abc"));
    assert!(!matches_folded("AB", "ABC"));
}

#[test]
fn name_match_ignores_case() {
    assert!(name_matches("Ibuprofen 400mg", "ibuprofen"));
    assert!(name_matches("ibuprofen", "IBU"));
    assert!(!name_matches("Paracetamol", "ibuprofen"));
    assert!(name_matches("Straße", "STRASSE"));
}

#[test]
fn search_groups_by_medication_in_first_seen_order() {
    let entries = vec![entry(10, 3), entry(11, 1), entry(12, 3), entry(10, 2)];
    let sites = vec![
        ApothecarySite { id: 10, in_range: true },
        ApothecarySite { id: 11, in_range: true },
        ApothecarySite { id: 12, in_range: true },
    ];
    let groups = search(&entries, &meds(), &sites, "ibuprofen").unwrap();
    assert_eq!(groups.len(), 2);
    assert_eq!(groups[0].medication_id, 3);
    assert_eq!(groups[0].entries, vec![entry(10, 3), entry(12, 3)]);
    assert_eq!(groups[1].medication_id, 1);
    assert_eq!(groups[1].entries, vec![entry(11, 1)]);
}

#[test]
fn search_drops_far_apothecaries_and_empty_groups() {
    let entries = vec![entry(10, 1), entry(11, 1), entry(11, 3)];
    let sites = vec![ApothecarySite { id: 10, in_range: true }, ApothecarySite { id: 11, in_range: false }];
    let groups = search(&entries, &meds(), &sites, "IBUPROFEN").unwrap();
    assert_eq!(groups.len(), 1);
    assert_eq!(groups[0].medication_id, 1);
    assert_eq!(groups[0].entries, vec![entry(10, 1)]);
}

#[test]
fn search_with_every_apothecary_too_far_finds_nothing() {
    let entries = vec![entry(10, 1), entry(11, 3)];
    let sites = vec![ApothecarySite { id: 10, in_range: false }, ApothecarySite { id: 11, in_range: false }];
    let groups = search(&entries, &meds(), &sites, "ibuprofen").unwrap();
    assert!(groups.is_empty());
}

#[test]
fn search_of_empty_stock_finds_nothing() {
    let groups = search(&vec![], &meds(), &vec![], "x").unwrap();
    assert!(groups.is_empty());
}

#[test]
fn search_fails_on_missing_medication() {
    let entries = vec![entry(10, 99)];
    let sites = vec![ApothecarySite { id: 10, in_range: true }];
    assert_eq!(search(&entries, &meds(), &sites, "x").unwrap_err(), ApothecaryServiceError::NotFound);
}

#[test]
fn search_fails_loudly_on_ambiguous_apothecary() {
    let entries = vec![entry(10, 1)];
    let twice = vec![ApothecarySite { id: 10, in_range: true }, ApothecarySite { id: 10, in_range: true }];
    assert_eq!(search(&entries, &meds(), &twice, "ibu").unwrap_err(), ApothecaryServiceError::Internal);
    let none: Vec<ApothecarySite> = vec![];
    assert_eq!(search(&entries, &meds(), &none, "ibu").unwrap_err(), ApothecaryServiceError::Internal);
}

#[test]
fn unmatched_name_skips_the_group_before_checking_apothecaries() {
    let entries = vec![entry(10, 2)];
    let none: Vec<ApothecarySite> = vec![];
    assert!(search(&entries, &meds(), &none, "ibu").unwrap().is_empty());
}

#[test]
fn cda_search_reads_the_name_element() {
    let entries = vec![entry(10, 2), entry(10, 1)];
    let sites = vec![ApothecarySite { id: 10, in_range: true }];
    let cda = "<doc><name>paracetamol</name></doc>";
    let groups = search_by_cda(cda, &entries, &meds(), &sites).unwrap();
    assert_eq!(groups.len(), 1);
    assert_eq!(groups[0].medication_id, 2);
    let nothing = search_by_cda("<doc></doc>", &entries, &meds(), &sites).unwrap();
    assert!(nothing.is_empty());
}

#[test]
fn apothecary_error_responses() {
    assert_eq!(ApothecaryServiceError::NotFound.response(), (404, "Apothecary not found".to_string()));
    assert_eq!(
        ApothecaryServiceError::InvalidSortColumn("zip".to_string()).response(),
        (400, "zip".to_string())
    );
    assert_eq!(ApothecaryServiceError::InvalidXml.response(), (400, "Invalid XML".to_string()));
    assert_eq!(ApothecaryServiceError::InvalidPageSize.response(), (400, "Invalid page size".to_string()));
    assert_eq!(ApothecaryServiceError::Internal.response(), (500, String::new()));
    assert_eq!(
        ApothecaryServiceError::from(PageError::InvalidColumnName("zip".to_string())),
        ApothecaryServiceError::InvalidSortColumn("zip".to_string())
    );
    assert_eq!(ApothecaryServiceError::from(PageError::InvalidDirectionName), ApothecaryServiceError::Internal);
}
