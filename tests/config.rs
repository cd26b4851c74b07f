use calliper::{CacheOptions, CacheParameters, ScenarioConfig};

fn layer_a() -> ScenarioConfig {
    ScenarioConfig::new()
        .valgrind("/usr/bin/valgrind".to_string())
        .branch_sim(true)
        .cleanup_files(false)
        .filters(vec!["a".to_string()])
}

fn layer_b() -> ScenarioConfig {
    ScenarioConfig::new().branch_sim(false).aslr(true).output("b.out".to_string())
}

fn layer_c() -> ScenarioConfig {
    ScenarioConfig::new().collect_bus(true).filters(vec!["c".to_string()]).parallelism(4)
}

#[test]
fn overwrite_is_associative() {
    let left = layer_a().overwrite(layer_b()).overwrite(layer_c());
    let right = layer_a().overwrite(layer_b().overwrite(layer_c()));
    assert_eq!(left, right);
}

#[test]
fn overwrite_prefers_the_top_layer() {
    let merged = layer_a().overwrite(layer_b()).overwrite(layer_c());
    assert_eq!(merged.get_filters(), &["c".to_string()][..]);
    assert!(merged.get_collect_bus());
    assert_eq!(merged.get_parallelism(), 4);
    assert!(!merged.get_branch_sim());
    assert!(merged.get_aslr());
    assert_eq!(merged.get_output_file(), Some("b.out"));
    assert_eq!(merged.get_valgrind(), "/usr/bin/valgrind");
    assert!(!merged.get_cleanup_files());
}

#[test]
fn absent_field_falls_back_to_lower_layer() {
    let merged = layer_a().overwrite(ScenarioConfig::new());
    assert_eq!(merged, layer_a());
    let merged = ScenarioConfig::new().overwrite(layer_b());
    assert_eq!(merged, layer_b());
}

#[test]
fn defaults_apply_only_when_read() {
    let c = ScenarioConfig::default();
    assert_eq!(c, ScenarioConfig::new());
    assert_eq!(c.get_valgrind(), "valgrind");
    assert!(!c.get_collect_bus());
    assert!(c.get_cleanup_files());
    assert!(!c.get_aslr());
    assert!(!c.get_branch_sim());
    assert_eq!(c.get_parallelism(), 1);
    assert_eq!(c.get_output_file(), None);
    assert!(c.get_filters().is_empty());
    assert_eq!(c.get_cache(), None);
}

#[test]
fn empty_filter_list_is_kept() {
    let c = ScenarioConfig::new().filters(vec![]);
    let merged = layer_a().overwrite(c);
    assert!(merged.get_filters().is_empty());
}

#[test]
fn cache_settings_are_stored() {
    let level = CacheParameters { size: 32768, associativity: 8, line_size: 64 };
    let options = CacheOptions {
        first_level_data: Some(level),
        first_level_code: Some(level),
        last_level: None,
    };
    let c = ScenarioConfig::new().cache(Some(options));
    assert_eq!(c.get_cache(), Some(options));
    let off = c.clone().overwrite(ScenarioConfig::new().cache(None));
    assert_eq!(off.get_cache(), Some(options));
    assert_eq!(c.clone(), c);
}
