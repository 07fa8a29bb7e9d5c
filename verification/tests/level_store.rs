use midas_app::level_store::{LevelConfig, LevelStore, StoredLevel};

fn lvl(id: u64, price: &'static str) -> StoredLevel<&'static str> {
    StoredLevel { id, locked: false, level: price }
}

#[test]
fn add_find_remove_round_trip() {
    let mut s: LevelStore<&'static str> = LevelStore::new();
    let a = s.alloc_id();
    let b = s.alloc_id();
    assert_eq!((a, b), (1, 2));
    s.add_level("AAPL", lvl(a, "184.50"));
    s.add_level("AAPL", lvl(b, "190.00"));
    assert_eq!(s.levels_for("AAPL").len(), 2);
    assert_eq!(s.generation("AAPL"), 2);
    assert_eq!(s.generation("MSFT"), 0);
    let (t, found) = s.find_level(b).unwrap();
    assert_eq!(t, "AAPL");
    assert_eq!(found.level, "190.00");
    let removed = s.remove_level("AAPL", a).unwrap();
    assert_eq!(removed.level, "184.50");
    assert_eq!(s.generation("AAPL"), 3);
    assert!(s.find_level(a).is_none());
    assert!(s.remove_level("AAPL", a).is_none());
    assert_eq!(s.generation("AAPL"), 3, "a miss does not bump");
}

#[test]
fn tickers_are_independent() {
    let mut s: LevelStore<u32> = LevelStore::new();
    let id = s.alloc_id();
    s.add_level("AAPL", StoredLevel { id, locked: true, level: 1 });
    let id2 = s.alloc_id();
    s.add_level("MSFT", StoredLevel { id: id2, locked: false, level: 2 });
    s.clear_levels("AAPL");
    assert!(s.levels_for("AAPL").is_empty());
    assert_eq!(s.levels_for("MSFT").len(), 1);
    assert_eq!(s.generation("AAPL"), 2);
    s.clear_levels("AAPL");
    assert_eq!(s.generation("AAPL"), 2, "clearing nothing does not bump");
    s.clear_levels("TSLA");
    assert_eq!(s.generation("TSLA"), 0);
}

/// A level as the chart draws it: the store only carries it.
#[derive(Clone, Debug, PartialEq)]
struct Line {
    price: f64,
}

fn make_level(id: u64, price: f64) -> StoredLevel<Line> {
    StoredLevel { id, locked: false, level: Line { price } }
}

#[test]
fn new_store_is_empty() {
    let store: LevelStore<Line> = LevelStore::new();
    assert!(store.levels_for("AAPL").is_empty());
    assert_eq!(store.generation("AAPL"), 0);
}

#[test]
fn alloc_id_is_monotonic() {
    let mut store: LevelStore<Line> = LevelStore::new();
    let a = store.alloc_id();
    let b = store.alloc_id();
    let c = store.alloc_id();
    assert_eq!(a, 1);
    assert_eq!(b, 2);
    assert_eq!(c, 3);
}

#[test]
fn add_and_query_levels() {
    let mut store = LevelStore::new();
    let id = store.alloc_id();
    store.add_level("AAPL", make_level(id, 185.50));
    let levels = store.levels_for("AAPL");
    assert_eq!(levels.len(), 1);
    assert_eq!(levels[0].level.price, 185.50);
    assert!(store.levels_for("MSFT").is_empty());
}

#[test]
fn add_level_bumps_generation() {
    let mut store = LevelStore::new();
    assert_eq!(store.generation("AAPL"), 0);
    store.add_level("AAPL", make_level(1, 100.0));
    assert_eq!(store.generation("AAPL"), 1);
    store.add_level("AAPL", make_level(2, 200.0));
    assert_eq!(store.generation("AAPL"), 2);
    assert_eq!(store.generation("MSFT"), 0);
}

#[test]
fn remove_level_returns_removed() {
    let mut store = LevelStore::new();
    store.add_level("AAPL", make_level(1, 100.0));
    store.add_level("AAPL", make_level(2, 200.0));
    let gen_before = store.generation("AAPL");
    let removed = store.remove_level("AAPL", 1);
    assert!(removed.is_some());
    assert_eq!(removed.unwrap().level.price, 100.0);
    assert_eq!(store.levels_for("AAPL").len(), 1);
    assert!(store.generation("AAPL") > gen_before);
}

#[test]
fn remove_nonexistent_returns_none() {
    let mut store = LevelStore::new();
    store.add_level("AAPL", make_level(1, 100.0));
    let gen_before = store.generation("AAPL");
    assert!(store.remove_level("AAPL", 999).is_none());
    assert!(store.remove_level("MSFT", 1).is_none());
    assert_eq!(store.generation("AAPL"), gen_before);
}

#[test]
fn clear_levels_empties_ticker() {
    let mut store = LevelStore::new();
    store.add_level("AAPL", make_level(1, 100.0));
    store.add_level("AAPL", make_level(2, 200.0));
    let gen_before = store.generation("AAPL");
    store.clear_levels("AAPL");
    assert!(store.levels_for("AAPL").is_empty());
    assert!(store.generation("AAPL") > gen_before);
}

#[test]
fn clear_empty_ticker_is_noop() {
    let mut store: LevelStore<Line> = LevelStore::new();
    store.clear_levels("AAPL");
    assert_eq!(store.generation("AAPL"), 0);
}

#[test]
fn find_level_across_tickers() {
    let mut store = LevelStore::new();
    store.add_level("AAPL", make_level(1, 100.0));
    store.add_level("MSFT", make_level(2, 400.0));
    let (ticker, level) = store.find_level(2).unwrap();
    assert_eq!(ticker, "MSFT");
    assert_eq!(level.level.price, 400.0);
    assert!(store.find_level(999).is_none());
}

/// A level with the fields the workspace config persists.
#[derive(Clone, Debug, PartialEq)]
struct Drawn {
    price: f64,
    label: Option<String>,
    icon: &'static str,
}

fn drawn(price: f64) -> Drawn {
    Drawn { price, label: None, icon: "none" }
}

fn saved<'a, L>(config: &'a [(String, Vec<LevelConfig<L>>)], ticker: &str) -> &'a [LevelConfig<L>] {
    config.iter().find(|(t, _)| t == ticker).map(|(_, v)| v.as_slice()).unwrap()
}

#[test]
fn config_round_trip() {
    let mut store = LevelStore::new();
    let id1 = store.alloc_id();
    let level1 = Drawn { price: 185.50, label: Some("Support".into()), icon: "arrow_up" };
    store.add_level("AAPL", StoredLevel { id: id1, locked: true, level: level1 });
    let id2 = store.alloc_id();
    store.add_level("MSFT", StoredLevel { id: id2, locked: false, level: drawn(420.0) });

    let config = store.to_config();
    assert_eq!(config.len(), 2);
    assert_eq!(saved(&config, "AAPL").len(), 1);
    assert_eq!(saved(&config, "AAPL")[0].level.price, 185.50);
    assert_eq!(saved(&config, "AAPL")[0].level.label.as_deref(), Some("Support"));
    assert_eq!(saved(&config, "AAPL")[0].level.icon, "arrow_up");
    assert!(saved(&config, "AAPL")[0].locked);

    let restored = LevelStore::from_config(&config);
    assert_eq!(restored.levels_for("AAPL").len(), 1);
    assert_eq!(restored.levels_for("AAPL")[0].level.price, 185.50);
    assert_eq!(restored.levels_for("AAPL")[0].level.label.as_deref(), Some("Support"));
    assert_eq!(restored.levels_for("AAPL")[0].level.icon, "arrow_up");
    assert!(restored.levels_for("AAPL")[0].locked);
    assert_eq!(restored.levels_for("MSFT").len(), 1);
    assert_eq!(restored.levels_for("MSFT")[0].level.price, 420.0);
}

#[test]
fn config_round_trip_empty() {
    let config: Vec<(String, Vec<LevelConfig<Drawn>>)> = Vec::new();
    let store = LevelStore::from_config(&config);
    assert!(store.levels_for("AAPL").is_empty());
    assert!(store.to_config().is_empty());
}

#[test]
fn empty_ticker_not_serialized() {
    let mut store = LevelStore::new();
    store.add_level("AAPL", StoredLevel { id: 1, locked: false, level: drawn(100.0) });
    store.clear_levels("AAPL");
    assert!(store.to_config().is_empty());
}

#[test]
fn ids_unique_across_tickers_after_from_config() {
    let config = vec![
        ("AAPL".to_string(), vec![LevelConfig { locked: false, level: drawn(100.0) }]),
        ("MSFT".to_string(), vec![LevelConfig { locked: false, level: drawn(400.0) }]),
    ];
    let store = LevelStore::from_config(&config);
    let aapl_id = store.levels_for("AAPL")[0].id;
    let msft_id = store.levels_for("MSFT")[0].id;
    assert_ne!(aapl_id, msft_id);
    assert_eq!((aapl_id, msft_id), (1, 2));
    assert_eq!(store.generation("AAPL"), 0);
}

#[test]
fn all_levels_lists_every_ticker_once() {
    let mut store = LevelStore::new();
    store.add_level("AAPL", make_level(1, 100.0));
    store.add_level("MSFT", make_level(2, 400.0));
    store.add_level("AAPL", make_level(3, 101.0));
    let all = store.all_levels();
    assert_eq!(all.len(), 2);
    assert_eq!(all[0].0, "AAPL");
    assert_eq!(all[0].1.len(), 2);
    assert_eq!(all[1].0, "MSFT");
    assert_eq!(all[1].1[0].level.price, 400.0);
}

#[test]
fn restore_then_save_gives_the_config_back() {
    let config = vec![
        ("AAPL".to_string(), vec![
            LevelConfig { locked: true, level: drawn(100.0) },
            LevelConfig { locked: false, level: drawn(101.0) },
        ]),
        ("EMPTY".to_string(), vec![]),
        ("MSFT".to_string(), vec![LevelConfig { locked: false, level: drawn(400.0) }]),
    ];
    let out = LevelStore::from_config(&config).to_config();
    assert_eq!(out.len(), 2);
    for (ticker, levels) in &config {
        if levels.is_empty() {
            assert!(out.iter().all(|(t, _)| t != ticker));
            continue;
        }
        let again = saved(&out, ticker);
        assert_eq!(again.len(), levels.len());
        for (a, b) in again.iter().zip(levels) {
            assert_eq!(a.locked, b.locked);
            assert_eq!(a.level, b.level);
        }
    }
}
