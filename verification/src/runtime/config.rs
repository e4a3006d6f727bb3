//! The configuration of the runtime.
use vstd::prelude::*;

verus! {

/// The name under which the configuration is stored.
pub const CONFIG_NAME: &'static str = "runtime";

/// Where Torch builds come from.
#[derive(Clone, Copy, Debug, PartialEq, Eq, Structural)]
pub enum TorchSource {
    Bundled,
    Official,
}

impl Default for TorchSource {
    fn default() -> (source: Self)
        ensures
            source == TorchSource::Bundled,
    {
        TorchSource::Bundled
    }
}

/// The configuration of the runtime.
#[derive(Clone, Copy, Debug, PartialEq, Eq, Structural)]
pub struct RuntimeConfig {
    pub torch_source: TorchSource,
}

impl Default for RuntimeConfig {
    fn default() -> (config: Self)
        ensures
            config == (RuntimeConfig { torch_source: TorchSource::Bundled }),
    {
        RuntimeConfig { torch_source: TorchSource::default() }
    }
}

/// The configuration that the whole process shares, once it is settled.
#[derive(Debug)]
pub struct ConfigCache {
    settled: Option<RuntimeConfig>,
}

impl View for ConfigCache {
    type V = Option<RuntimeConfig>;

    closed spec fn view(&self) -> Option<RuntimeConfig> {
        self.settled
    }
}

/// What is settled after a configuration was asked for and `loaded` is what
/// loading it gave: what was settled before, or else what was loaded.
pub open spec fn settled_after<E>(
    settled: Option<RuntimeConfig>,
    loaded: Result<RuntimeConfig, E>,
) -> Option<RuntimeConfig> {
    match (settled, loaded) {
        (Some(config), _) => Some(config),
        (None, Ok(config)) => Some(config),
        (None, Err(_)) => None,
    }
}

/// The answer to the same question.
pub open spec fn shared_config<E>(
    settled: Option<RuntimeConfig>,
    loaded: Result<RuntimeConfig, E>,
) -> Result<RuntimeConfig, E> {
    match settled {
        Some(config) => Ok(config),
        None => loaded,
    }
}

/// What is settled after a series of such questions.
pub open spec fn settled_after_all<E>(
    settled: Option<RuntimeConfig>,
    loads: Seq<Result<RuntimeConfig, E>>,
) -> Option<RuntimeConfig>
    decreases loads.len(),
{
    if loads.len() == 0 {
        settled
    } else {
        settled_after(settled_after_all(settled, loads.drop_last()), loads.last())
    }
}

impl ConfigCache {
    /// A cache in which nothing is settled.
    pub fn new() -> (cache: Self)
        ensures
            cache@ is None,
    {
        ConfigCache { settled: None }
    }

    /// The configuration that is settled. Nothing has to be loaded where there
    /// is one.
    pub fn get(&self) -> (config: Option<RuntimeConfig>)
        ensures
            config == self@,
    {
        self.settled
    }
}

impl RuntimeConfig {
    /// The configuration that the process shares: the settled one, or else the
    /// loaded one, which is settled by that. A failure to load settles nothing.
    pub fn shared<E>(cache: &mut ConfigCache, loaded: Result<Self, E>) -> (config: Result<Self, E>)
        ensures
            config == shared_config(old(cache)@, loaded),
            final(cache)@ == settled_after(old(cache)@, loaded),
    {
        if let Some(config) = cache.settled {
            return Ok(config);
        }
        match loaded {
            Ok(config) => {
                cache.settled = Some(config);
                Ok(config)
            },
            Err(error) => Err(error),
        }
    }
}

/// A settled configuration stays, whatever is loaded later and however often,
/// and it is the answer from then on.
pub proof fn law_settled_config_stays<E>(
    config: RuntimeConfig,
    loads: Seq<Result<RuntimeConfig, E>>,
    next: Result<RuntimeConfig, E>,
)
    ensures
        settled_after_all(Some(config), loads) == Some(config),
        shared_config(settled_after_all(Some(config), loads), next) == Ok::<RuntimeConfig, E>(config),
    decreases loads.len(),
{
    if loads.len() > 0 {
        law_settled_config_stays(config, loads.drop_last(), next);
    }
}

/// An answer is settled by being given.
pub proof fn law_answers_are_settled<E>(
    settled: Option<RuntimeConfig>,
    loaded: Result<RuntimeConfig, E>,
)
    ensures
        match shared_config(settled, loaded) {
            Ok(config) => settled_after(settled, loaded) == Some(config),
            Err(_) => settled is None && settled_after(settled, loaded) is None,
        },
{
}

} // verus!
