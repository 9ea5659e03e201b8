//! The wasmtime engine that runs the precompiled component on the device.
//!
//! The component is compiled ahead of time for the 32-bit Pulley
//! interpreter; the engine that loads it must be configured the same way,
//! with the operating-system features (signal handlers, copy-on-write
//! memory, virtual-memory reservations and guard regions) switched off so
//! that it fits in the RP2350's 512 KiB of RAM.
use vstd::prelude::*;

verus! {

#[verifier::external_type_specification]
#[verifier::external_body]
pub struct ExConfig(wasmtime::Config);

#[verifier::external_type_specification]
#[verifier::external_body]
pub struct ExEngine(wasmtime::Engine);

#[verifier::external_type_specification]
#[verifier::external_body]
pub struct ExError(wasmtime::Error);

/// Whether wasmtime recognises `target` as a target triple.
pub uninterp spec fn target_triple_parses(target: Seq<char>) -> bool;

/// The engine settings that the device runtime uses.
pub struct EngineSettings {
    /// Target triple the component was compiled for.
    pub target: &'static str,
    /// Whether traps are caught through operating-system signals.
    pub signals_based_traps: bool,
    /// Whether linear memories are initialised copy-on-write.
    pub memory_init_cow: bool,
    /// Bytes of address space reserved for each linear memory.
    pub memory_reservation: u64,
    /// Bytes of guard region after each linear memory.
    pub memory_guard_size: u64,
    /// Extra bytes reserved for a linear memory to grow into.
    pub memory_reservation_for_growth: u64,
    /// Whether a guard region also precedes each linear memory.
    pub guard_before_linear_memory: bool,
    /// Largest stack, in bytes, that guest code may use.
    pub max_wasm_stack: usize,
}

/// The settings recorded in a wasmtime configuration; `None` where the
/// configuration still holds wasmtime's default.
#[verifier::ext_equal]
pub struct ConfigModel {
    pub target: Option<Seq<char>>,
    pub signals_based_traps: Option<bool>,
    pub memory_init_cow: Option<bool>,
    pub memory_reservation: Option<u64>,
    pub memory_guard_size: Option<u64>,
    pub memory_reservation_for_growth: Option<u64>,
    pub guard_before_linear_memory: Option<bool>,
    pub max_wasm_stack: Option<usize>,
}

/// A configuration in which no setting has been changed yet.
pub open spec fn default_model() -> ConfigModel {
    ConfigModel {
        target: None,
        signals_based_traps: None,
        memory_init_cow: None,
        memory_reservation: None,
        memory_guard_size: None,
        memory_reservation_for_growth: None,
        guard_before_linear_memory: None,
        max_wasm_stack: None,
    }
}

/// The configuration that records every one of `s`'s settings.
pub open spec fn model_of(s: EngineSettings) -> ConfigModel {
    ConfigModel {
        target: Some(s.target@),
        signals_based_traps: Some(s.signals_based_traps),
        memory_init_cow: Some(s.memory_init_cow),
        memory_reservation: Some(s.memory_reservation),
        memory_guard_size: Some(s.memory_guard_size),
        memory_reservation_for_growth: Some(s.memory_reservation_for_growth),
        guard_before_linear_memory: Some(s.guard_before_linear_memory),
        max_wasm_stack: Some(s.max_wasm_stack),
    }
}

/// The configuration of the device engine, the one the component is
/// compiled with ahead of time.
pub open spec fn pulley_model() -> ConfigModel {
    ConfigModel {
        target: Some(seq!['p', 'u', 'l', 'l', 'e', 'y', '3', '2']),
        signals_based_traps: Some(false),
        memory_init_cow: Some(false),
        memory_reservation: Some(0),
        memory_guard_size: Some(0),
        memory_reservation_for_growth: Some(0),
        guard_before_linear_memory: Some(false),
        max_wasm_stack: Some(16384),
    }
}

/// A wasmtime configuration together with the settings recorded in it.
pub struct EngineConfig {
    config: wasmtime::Config,
    model: Ghost<ConfigModel>,
}

impl EngineConfig {
    /// The settings recorded in this configuration.
    pub closed spec fn model(&self) -> ConfigModel {
        self.model@
    }

    /// A configuration with wasmtime's defaults.
    pub fn new() -> (c: EngineConfig)
        ensures
            c.model() == default_model(),
    {
        EngineConfig { config: config_new(), model: Ghost(default_model()) }
    }
}

/// An engine together with the settings of the configuration it was built
/// from.
pub struct PulleyEngine {
    engine: wasmtime::Engine,
    settings: Ghost<ConfigModel>,
}

impl PulleyEngine {
    /// The settings of the configuration the engine was built from.
    pub closed spec fn settings(&self) -> ConfigModel {
        self.settings@
    }

    /// The wasmtime engine itself.
    pub closed spec fn inner(&self) -> wasmtime::Engine {
        self.engine
    }

    /// Borrows the wasmtime engine.
    pub fn engine(&self) -> (e: &wasmtime::Engine)
        ensures
            *e == self.inner(),
    {
        &self.engine
    }

    /// Gives up the record of settings and returns the wasmtime engine.
    pub fn into_engine(self) -> (e: wasmtime::Engine)
        ensures
            e == self.inner(),
    {
        self.engine
    }
}

/// Why the engine could not be created.
pub enum EngineError {
    /// wasmtime does not recognise the target triple.
    UnsupportedTarget(wasmtime::Error),
    /// wasmtime refused the configuration or could not allocate the engine.
    Rejected(wasmtime::Error),
}

/// The settings of the device engine: Pulley 32-bit target, no signal
/// handlers, no copy-on-write, no reservations or guard regions, and a
/// 16 KiB guest stack.
pub fn pulley_engine_settings() -> (s: EngineSettings)
    ensures
        model_of(s) == pulley_model(),
        s.target@ == seq!['p', 'u', 'l', 'l', 'e', 'y', '3', '2'],
        !s.signals_based_traps,
        !s.memory_init_cow,
        s.memory_reservation == 0,
        s.memory_guard_size == 0,
        s.memory_reservation_for_growth == 0,
        !s.guard_before_linear_memory,
        s.max_wasm_stack == 16384,
{
    proof {
        reveal_strlit("pulley32");
    }
    let s = EngineSettings {
        target: "pulley32",
        signals_based_traps: false,
        memory_init_cow: false,
        memory_reservation: 0,
        memory_guard_size: 0,
        memory_reservation_for_growth: 0,
        guard_before_linear_memory: false,
        max_wasm_stack: 16384,
    };
    assert(model_of(s) =~= pulley_model());
    s
}

/// The configuration built from settings records each of them, field by
/// field, exactly as given.
pub proof fn lemma_model_of_records_each_setting(s: EngineSettings)
    ensures
        model_of(s).target == Some(s.target@),
        model_of(s).signals_based_traps == Some(s.signals_based_traps),
        model_of(s).memory_init_cow == Some(s.memory_init_cow),
        model_of(s).memory_reservation == Some(s.memory_reservation),
        model_of(s).memory_guard_size == Some(s.memory_guard_size),
        model_of(s).memory_reservation_for_growth == Some(s.memory_reservation_for_growth),
        model_of(s).guard_before_linear_memory == Some(s.guard_before_linear_memory),
        model_of(s).max_wasm_stack == Some(s.max_wasm_stack),
{
}

/// Two engines built from settings that differ in any field record
/// different settings: no setting is dropped or replaced on the way.
pub proof fn lemma_model_of_is_injective(a: EngineSettings, b: EngineSettings)
    requires
        model_of(a) == model_of(b),
    ensures
        a.target@ == b.target@,
        a.signals_based_traps == b.signals_based_traps,
        a.memory_init_cow == b.memory_init_cow,
        a.memory_reservation == b.memory_reservation,
        a.memory_guard_size == b.memory_guard_size,
        a.memory_reservation_for_growth == b.memory_reservation_for_growth,
        a.guard_before_linear_memory == b.guard_before_linear_memory,
        a.max_wasm_stack == b.max_wasm_stack,
{
    lemma_model_of_records_each_setting(a);
    lemma_model_of_records_each_setting(b);
}

/// `wasmtime::Config::new`: a configuration with wasmtime's defaults.
#[verifier::external_body]
fn config_new() -> wasmtime::Config {
    wasmtime::Config::new()
}

/// `wasmtime::Config::target`: fails exactly when wasmtime cannot parse
/// `target` as a target triple (the outcome depends on the string alone);
/// on success the configuration records the target, on failure it is left
/// as it was.
#[verifier::external_body]
fn config_target(c: &mut EngineConfig, target: &str) -> (res: Result<(), wasmtime::Error>)
    ensures
        res is Ok <==> target_triple_parses(target@),
        res is Ok ==> final(c).model() == (ConfigModel { target: Some(target@), ..old(c).model() }),
        res is Err ==> final(c).model() == old(c).model(),
{
    match c.config.target(target) {
        Ok(_) => Ok(()),
        Err(e) => Err(e),
    }
}

/// `wasmtime::Config::signals_based_traps`: records the setting.
#[verifier::external_body]
fn config_signals_based_traps(c: &mut EngineConfig, enable: bool)
    ensures
        final(c).model() == (ConfigModel { signals_based_traps: Some(enable), ..old(c).model() }),
{
    c.config.signals_based_traps(enable);
}

/// `wasmtime::Config::memory_init_cow`: records the setting.
#[verifier::external_body]
fn config_memory_init_cow(c: &mut EngineConfig, enable: bool)
    ensures
        final(c).model() == (ConfigModel { memory_init_cow: Some(enable), ..old(c).model() }),
{
    c.config.memory_init_cow(enable);
}

/// `wasmtime::Config::memory_reservation`: records the setting.
#[verifier::external_body]
fn config_memory_reservation(c: &mut EngineConfig, bytes: u64)
    ensures
        final(c).model() == (ConfigModel { memory_reservation: Some(bytes), ..old(c).model() }),
{
    c.config.memory_reservation(bytes);
}

/// `wasmtime::Config::memory_guard_size`: records the setting.
#[verifier::external_body]
fn config_memory_guard_size(c: &mut EngineConfig, bytes: u64)
    ensures
        final(c).model() == (ConfigModel { memory_guard_size: Some(bytes), ..old(c).model() }),
{
    c.config.memory_guard_size(bytes);
}

/// `wasmtime::Config::memory_reservation_for_growth`: records the setting.
#[verifier::external_body]
fn config_memory_reservation_for_growth(c: &mut EngineConfig, bytes: u64)
    ensures
        final(c).model() == (ConfigModel {
            memory_reservation_for_growth: Some(bytes),
            ..old(c).model()
        }),
{
    c.config.memory_reservation_for_growth(bytes);
}

/// `wasmtime::Config::guard_before_linear_memory`: records the setting.
#[verifier::external_body]
fn config_guard_before_linear_memory(c: &mut EngineConfig, enable: bool)
    ensures
        final(c).model() == (ConfigModel {
            guard_before_linear_memory: Some(enable),
            ..old(c).model()
        }),
{
    c.config.guard_before_linear_memory(enable);
}

/// `wasmtime::Config::max_wasm_stack`: records the setting.
#[verifier::external_body]
fn config_max_wasm_stack(c: &mut EngineConfig, size: usize)
    ensures
        final(c).model() == (ConfigModel { max_wasm_stack: Some(size), ..old(c).model() }),
{
    c.config.max_wasm_stack(size);
}

/// `wasmtime::Engine::new`: whether it succeeds depends on the whole
/// configuration and on memory being available, so nothing is stated of
/// that; the engine it returns keeps a copy of the configuration it was
/// given.
#[verifier::external_body]
fn engine_new(c: &EngineConfig) -> (res: Result<PulleyEngine, wasmtime::Error>)
    ensures
        res matches Ok(e) ==> e.settings() == c.model(),
{
    match wasmtime::Engine::new(&c.config) {
        Ok(engine) => Ok(PulleyEngine { engine, settings: Ghost(c.model@) }),
        Err(e) => Err(e),
    }
}

/// Creates an engine configured with `settings`.
///
/// An unrecognised target is reported as `UnsupportedTarget` and stops
/// the configuration there; every other failure comes from wasmtime
/// building the engine and is reported as `Rejected`. An engine that is
/// returned was built from a configuration recording exactly `settings`.
pub fn create_engine_with(settings: &EngineSettings) -> (res: Result<PulleyEngine, EngineError>)
    ensures
        (res matches Err(EngineError::UnsupportedTarget(_))) <==> !target_triple_parses(
            settings.target@,
        ),
        res is Ok ==> target_triple_parses(settings.target@),
        res matches Ok(e) ==> e.settings() == model_of(*settings),
        res matches Ok(e) ==> e.settings().target == Some(settings.target@),
        res matches Ok(e) ==> e.settings().signals_based_traps == Some(settings.signals_based_traps),
        res matches Ok(e) ==> e.settings().memory_init_cow == Some(settings.memory_init_cow),
        res matches Ok(e) ==> e.settings().memory_reservation == Some(settings.memory_reservation),
        res matches Ok(e) ==> e.settings().memory_guard_size == Some(settings.memory_guard_size),
        res matches Ok(e) ==> e.settings().memory_reservation_for_growth == Some(
            settings.memory_reservation_for_growth,
        ),
        res matches Ok(e) ==> e.settings().guard_before_linear_memory == Some(
            settings.guard_before_linear_memory,
        ),
        res matches Ok(e) ==> e.settings().max_wasm_stack == Some(settings.max_wasm_stack),
{
    let mut config = EngineConfig::new();
    match config_target(&mut config, settings.target) {
        Ok(()) => {},
        Err(e) => {
            return Err(EngineError::UnsupportedTarget(e));
        },
    }
    config_signals_based_traps(&mut config, settings.signals_based_traps);
    config_memory_init_cow(&mut config, settings.memory_init_cow);
    config_memory_reservation(&mut config, settings.memory_reservation);
    config_memory_guard_size(&mut config, settings.memory_guard_size);
    config_memory_reservation_for_growth(&mut config, settings.memory_reservation_for_growth);
    config_guard_before_linear_memory(&mut config, settings.guard_before_linear_memory);
    config_max_wasm_stack(&mut config, settings.max_wasm_stack);
    match engine_new(&config) {
        Ok(engine) => Ok(engine),
        Err(e) => Err(EngineError::Rejected(e)),
    }
}

/// Creates the device engine, configured with `pulley_engine_settings`:
/// an engine that is returned was built from exactly the Pulley settings
/// the component is compiled with.
pub fn create_engine() -> (res: Result<PulleyEngine, EngineError>)
    ensures
        (res matches Err(EngineError::UnsupportedTarget(_))) <==> !target_triple_parses(
            pulley_model().target.unwrap(),
        ),
        res matches Ok(e) ==> e.settings() == pulley_model(),
        res matches Ok(e) ==> e.settings().target == Some(seq!['p', 'u', 'l', 'l', 'e', 'y', '3', '2']),
        res matches Ok(e) ==> e.settings().signals_based_traps == Some(false),
        res matches Ok(e) ==> e.settings().memory_init_cow == Some(false),
        res matches Ok(e) ==> e.settings().memory_reservation == Some(0u64),
        res matches Ok(e) ==> e.settings().memory_guard_size == Some(0u64),
        res matches Ok(e) ==> e.settings().memory_reservation_for_growth == Some(0u64),
        res matches Ok(e) ==> e.settings().guard_before_linear_memory == Some(false),
        res matches Ok(e) ==> e.settings().max_wasm_stack == Some(16384usize),
{
    let settings = pulley_engine_settings();
    create_engine_with(&settings)
}

} // verus!
