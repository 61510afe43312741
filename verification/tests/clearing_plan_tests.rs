use lsp_daemon::universal_cache::clearing::{symbol_clear_plan, tally_clearing};
use lsp_daemon::universal_cache::LspMethod;

#[test]
fn plan_is_positions_by_methods() {
    let positions = vec![(3, 4), (3, 5)];
    let methods = vec![LspMethod::Hover, LspMethod::DocumentSymbols];
    let plan = symbol_clear_plan(&positions, &methods);
    let pairs: Vec<((u32, u32), LspMethod)> = plan.iter().map(|s| (s.position, s.method)).collect();
    assert_eq!(
        pairs,
        vec![
            ((3, 4), LspMethod::Hover),
            ((3, 4), LspMethod::DocumentSymbols),
            ((3, 5), LspMethod::Hover),
            ((3, 5), LspMethod::DocumentSymbols),
        ]
    );
    assert_eq!(plan[0].params, r#"{"position":{"character":4,"line":3}}"#);
    assert_eq!(plan[1].params, "{}");
}

#[test]
fn tally_reports_only_lookups_that_cleared() {
    let positions = vec![(3, 4), (3, 5)];
    let methods = vec![LspMethod::Hover, LspMethod::References];
    let plan = symbol_clear_plan(&positions, &methods);
    let tally = tally_clearing(&plan, &vec![0, 2, 0, 1]);
    assert_eq!(tally.entries, 3);
    assert_eq!(tally.positions, vec![(3, 4), (3, 5)]);
    assert_eq!(tally.methods, vec![LspMethod::References]);
    let none = tally_clearing(&plan, &vec![0, 0, 0, 0]);
    assert_eq!(none.entries, 0);
    assert!(none.positions.is_empty());
}
