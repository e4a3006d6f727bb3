use koharu::runtime::config::{ConfigCache, CONFIG_NAME};
use koharu::{RuntimeConfig, TorchSource};

const BUNDLED: RuntimeConfig = RuntimeConfig { torch_source: TorchSource::Bundled };
const OFFICIAL: RuntimeConfig = RuntimeConfig { torch_source: TorchSource::Official };

#[test]
fn defaults_to_bundled_builds() {
    assert_eq!(TorchSource::default(), TorchSource::Bundled);
    assert_eq!(RuntimeConfig::default(), BUNDLED);
    assert_eq!(CONFIG_NAME, "runtime");
}

#[test]
fn first_loaded_config_is_settled() {
    let mut cache = ConfigCache::new();
    assert_eq!(cache.get(), None);
    let first: Result<RuntimeConfig, String> = Ok(OFFICIAL);
    assert_eq!(RuntimeConfig::shared(&mut cache, first), Ok(OFFICIAL));
    assert_eq!(cache.get(), Some(OFFICIAL));
}

#[test]
fn settled_config_stays() {
    let mut cache = ConfigCache::new();
    assert_eq!(RuntimeConfig::shared(&mut cache, Ok::<_, String>(OFFICIAL)), Ok(OFFICIAL));
    for later in [Ok(BUNDLED), Err("unreadable".to_string()), Ok(OFFICIAL), Ok(BUNDLED)] {
        assert_eq!(RuntimeConfig::shared(&mut cache, later), Ok(OFFICIAL));
        assert_eq!(cache.get(), Some(OFFICIAL));
    }
}

#[test]
fn failure_to_load_settles_nothing() {
    let mut cache = ConfigCache::new();
    let failed: Result<RuntimeConfig, String> = Err("unreadable".to_string());
    assert_eq!(RuntimeConfig::shared(&mut cache, failed), Err("unreadable".to_string()));
    assert_eq!(cache.get(), None);
    assert_eq!(RuntimeConfig::shared(&mut cache, Ok::<_, String>(BUNDLED)), Ok(BUNDLED));
    assert_eq!(cache.get(), Some(BUNDLED));
}
