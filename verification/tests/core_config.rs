use std::sync::Arc;

use higgs::higgs_core::{HiggsConfig, HiggsError, HiggsValenceFactory};
use higgs::host::Actor;

/// Factory that panics if `build` is called: for tests that only need a built config.
#[derive(Debug)]
struct UnreachableValenceFactory;

impl HiggsValenceFactory for UnreachableValenceFactory {
    type Valence = ();
    type Error = String;

    fn build(&self, _actor: &Actor) -> Result<(), String> {
        unreachable!("UnreachableValenceFactory::build — not used in this test harness")
    }
}

fn unreachable_valence_factory() -> Arc<UnreachableValenceFactory> {
    Arc::new(UnreachableValenceFactory)
}

#[test]
fn valence_factory_is_object_safe() {
    let _: Arc<dyn HiggsValenceFactory<Valence = (), Error = String>> =
        Arc::new(UnreachableValenceFactory);
}

#[test]
fn builder_requires_valence_factory() {
    let result = HiggsConfig::<UnreachableValenceFactory>::builder().build();
    assert!(result.is_err());
}

#[test]
fn builder_succeeds_with_factory() {
    let config = HiggsConfig::builder()
        .valence_factory(UnreachableValenceFactory)
        .build();
    assert!(config.is_ok());
}

#[test]
fn builder_arc_factory() {
    let factory = unreachable_valence_factory();
    let config = HiggsConfig::builder().valence_factory_arc(factory).build();
    assert!(config.is_ok());
}

#[test]
fn builder_missing_factory_is_internal_error() {
    let result = HiggsConfig::<UnreachableValenceFactory>::builder().build();
    assert!(matches!(result, Err(HiggsError::Internal)));
}

#[test]
fn builder_keeps_the_given_arc() {
    let factory = unreachable_valence_factory();
    let config = HiggsConfig::builder()
        .valence_factory_arc(Arc::clone(&factory))
        .build()
        .expect("factory set");
    assert!(Arc::ptr_eq(config.valence_factory(), &factory));
}

struct NamedFactory(u32);

impl HiggsValenceFactory for NamedFactory {
    type Valence = u32;
    type Error = String;

    fn build(&self, _actor: &Actor) -> Result<u32, String> {
        Ok(self.0)
    }
}

#[test]
fn builder_last_factory_setting_wins() {
    let first = Arc::new(NamedFactory(1));
    let config = HiggsConfig::builder()
        .valence_factory_arc(Arc::clone(&first))
        .valence_factory(NamedFactory(2))
        .build()
        .expect("factory set");
    assert_eq!(config.valence_factory().0, 2);
    let last = Arc::new(NamedFactory(3));
    let config = HiggsConfig::builder()
        .valence_factory(NamedFactory(2))
        .valence_factory_arc(Arc::clone(&last))
        .build()
        .expect("factory set");
    assert!(Arc::ptr_eq(config.valence_factory(), &last));
}
