use loco_minijinja_engine::{
    MinijinjaViewEngineConfigurableInitializer, MinijinjaViewEngineInitializer,
};

fn basic_features() {
    let std_initializer = MinijinjaViewEngineInitializer;
    assert_eq!(std_initializer.name(), "minijinja");

    let cfg_initializer =
        MinijinjaViewEngineConfigurableInitializer::new("tests".to_string(), None);
    assert_eq!(cfg_initializer.name(), "minijinja");
}

#[test]
fn test_without_feature_autoreloader() {
    basic_features();
}

#[test]
fn test_with_feature_autoreloader() {
    basic_features();
}
