use onnx_optimizer_rs::{OptimizationConfig, OptimizationConfigBuilder};

#[test]
fn test_config_builder_defaults() {
    let config = OptimizationConfigBuilder::new().build();
    assert_eq!(config.max_passes, 10);
    assert!(config.cache_topology);
}

#[test]
fn test_config_builder_custom() {
    let config = OptimizationConfigBuilder::new()
        .max_passes(5)
        .cache_topology(false)
        .min_graph_size_for_advanced_opts(50)
        .build();

    assert_eq!(config.max_passes, 5);
    assert!(!config.cache_topology);
    assert_eq!(config.min_graph_size_for_advanced_opts, 50);
}

#[test]
fn config_defaults() {
    let config = OptimizationConfig::default();
    assert_eq!(config.max_passes, 10);
    assert!(config.cache_topology);
    assert_eq!(config.min_graph_size_for_advanced_opts, 100);
    let built = OptimizationConfigBuilder::default().build();
    assert_eq!(built.min_graph_size_for_advanced_opts, 100);
}

#[test]
fn pass_lists_do_not_change_the_built_configuration() {
    let config = OptimizationConfigBuilder::new()
        .enable_passes(&["EliminateIdentity", "EliminateNopTranspose"])
        .disable_passes(&["ConstantFolding"])
        .max_passes(2)
        .build();
    assert_eq!(config.max_passes, 2);
    assert!(config.cache_topology);
    assert_eq!(config.min_graph_size_for_advanced_opts, 100);
}

#[test]
fn level_config_defaults_to_basic() {
    let config = onnx_optimizer_rs::graph::executor::OptimizationConfig::default();
    assert_eq!(config.max_passes, 10);
    assert!(config.level.includes_basic());
    assert!(config.cache_topology);
    assert_eq!(config.min_graph_size_for_advanced_opts, 100);
}
