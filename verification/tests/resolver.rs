use sr_core::catalog::{EngineSymbol, ModelCatalog, ModelFamily};
use sr_core::resolver::{
    expected_symbol_name, find_exact, find_fuzzy, normalize, resolve, MatchKind, ResolveError,
    Resolved,
};

fn symbol(name: &str, value: Option<i32>) -> EngineSymbol {
    EngineSymbol { name: name.to_string(), value }
}

fn catalog() -> ModelCatalog {
    ModelCatalog::build(vec![
        symbol("__doc__", None),
        symbol("MODEL_REALSR_DF2K_UP4X", Some(10)),
        symbol("MODEL_WAIFU2X_CUNET_UP2X", Some(20)),
        symbol("MODEL_WAIFU2X_CUNET_UP2X_DENOISE", Some(30)),
        symbol("MODEL_OTHER", Some(40)),
    ])
}

#[test]
fn normalize_lowercases_and_joins_words() {
    assert_eq!(normalize("Waifu2x-CUNet up2x"), "waifu2x_cunet_up2x");
    assert_eq!(normalize("a - b"), "a___b");
    assert_eq!(normalize(""), "");
}

#[test]
fn normalize_twice_is_normalize_once() {
    for name in ["Waifu2x-CUNet up2x", "REALSR df2k", "already_normal", "-- --", "x"] {
        let once = normalize(name);
        assert_eq!(normalize(&once), once);
    }
}

#[test]
fn expected_symbol_is_marker_and_uppercase() {
    assert_eq!(expected_symbol_name("waifu2x-cunet-up2x"), "MODEL_WAIFU2X_CUNET_UP2X");
    assert_eq!(expected_symbol_name(""), "MODEL_");
}

#[test]
fn scenario_hyphenated_name_resolves_to_waifu2x_model() {
    let catalog = catalog();
    assert_eq!(normalize("waifu2x-cunet-up2x"), "waifu2x_cunet_up2x");
    let found = resolve("waifu2x-cunet-up2x", &catalog).unwrap();
    assert_eq!(found, Resolved { id: 20, kind: MatchKind::Exact { symbol: 2 } });
    let entry = &catalog.descriptors()[1];
    assert_eq!(entry.id(), 20);
    assert_eq!(entry.family(), ModelFamily::Waifu2x);
    assert_eq!(entry.relative_label(), "cunet_up2x");
}

#[test]
fn scenario_hyphenated_name_resolves_loosely_without_exact_symbol() {
    let catalog = ModelCatalog::build(vec![symbol("MODEL_WAIFU2X__CUNET_UP2X", Some(7))]);
    let found = resolve("waifu2x-cunet-up2x", &catalog).unwrap();
    assert_eq!(found, Resolved { id: 7, kind: MatchKind::Fuzzy { entry: 0 } });
    assert_eq!(catalog.descriptors()[0].family(), ModelFamily::Waifu2x);
    assert_eq!(catalog.descriptors()[0].relative_label(), "cunet_up2x");
}

#[test]
fn exact_match_wins_over_an_earlier_loose_match() {
    // "cunet_up2x_denoise" contains the label of the entry before it.
    let catalog = catalog();
    let found = resolve("WAIFU2X CUNET UP2X DENOISE", &catalog).unwrap();
    assert_eq!(found, Resolved { id: 30, kind: MatchKind::Exact { symbol: 3 } });
}

#[test]
fn exact_match_needs_no_family() {
    let found = resolve("other", &catalog()).unwrap();
    assert_eq!(found, Resolved { id: 40, kind: MatchKind::Exact { symbol: 4 } });
}

#[test]
fn exact_match_needs_an_integer_value() {
    let catalog = ModelCatalog::build(vec![
        symbol("MODEL_REALSR_A", None),
        symbol("MODEL_REALSR_A", Some(5)),
    ]);
    let found = resolve("realsr_a", &catalog).unwrap();
    assert_eq!(found, Resolved { id: 5, kind: MatchKind::Exact { symbol: 1 } });
}

#[test]
fn loose_match_takes_the_first_entry_that_fits() {
    let catalog = catalog();
    // the label contains the name
    assert_eq!(
        resolve("cunet", &catalog).unwrap(),
        Resolved { id: 20, kind: MatchKind::Fuzzy { entry: 1 } }
    );
    // the name equals the label
    assert_eq!(
        resolve("DF2K-UP4X", &catalog).unwrap(),
        Resolved { id: 10, kind: MatchKind::Fuzzy { entry: 0 } }
    );
    // the name contains the label
    assert_eq!(
        resolve("my cunet_up2x_denoise model", &catalog).unwrap(),
        Resolved { id: 20, kind: MatchKind::Fuzzy { entry: 1 } }
    );
    // the empty name stands in every label
    assert_eq!(
        resolve("", &catalog).unwrap(),
        Resolved { id: 10, kind: MatchKind::Fuzzy { entry: 0 } }
    );
}

#[test]
fn scenario_unknown_model_keeps_the_name_as_typed() {
    let error = resolve("not-a-real-model", &catalog()).unwrap_err();
    let ResolveError::UnknownModel { name } = &error;
    assert_eq!(name, "not-a-real-model");
    assert_eq!(error.message(), "Unknown model: not-a-real-model");
}

#[test]
fn nothing_resolves_against_an_empty_table() {
    let empty = ModelCatalog::build(Vec::new());
    assert!(resolve("waifu2x", &empty).is_err());
    assert!(resolve("", &empty).is_err());
}

#[test]
fn finders_return_the_first_index() {
    let catalog = catalog();
    assert_eq!(find_exact(catalog.symbols(), "MODEL_OTHER"), Some(4));
    assert_eq!(find_exact(catalog.symbols(), "__doc__"), None);
    assert_eq!(find_exact(catalog.symbols(), "MODEL_NONE"), None);
    assert_eq!(find_fuzzy(catalog.descriptors(), "up2x"), Some(1));
    assert_eq!(find_fuzzy(catalog.descriptors(), "denoise"), Some(2));
    assert_eq!(find_fuzzy(catalog.descriptors(), "up3x"), None);
}
