use embedded_wasm_uart::engine::{
    create_engine, create_engine_with, pulley_engine_settings, EngineError, EngineSettings,
};

#[test]
fn pulley_settings_are_bare_metal() {
    let s = pulley_engine_settings();
    assert_eq!(s.target, "pulley32");
    assert!(!s.signals_based_traps);
    assert!(!s.memory_init_cow);
    assert_eq!(s.memory_reservation, 0);
    assert_eq!(s.memory_guard_size, 0);
    assert_eq!(s.memory_reservation_for_growth, 0);
    assert!(!s.guard_before_linear_memory);
    assert_eq!(s.max_wasm_stack, 16384);
}

#[test]
fn device_engine_is_created() {
    assert!(create_engine().is_ok());
}

#[test]
fn device_engine_can_hold_a_store() {
    match create_engine() {
        Ok(engine) => {
            let store = wasmtime::Store::new(engine.engine(), 7u32);
            assert_eq!(*store.data(), 7);
            let _owned: wasmtime::Engine = engine.into_engine();
        }
        Err(_) => panic!("the device engine must be created"),
    }
}

#[test]
fn settings_with_other_values_still_build() {
    let settings = EngineSettings {
        memory_reservation: 1 << 20,
        max_wasm_stack: 32768,
        ..pulley_engine_settings()
    };
    assert!(create_engine_with(&settings).is_ok());
}

#[test]
fn unknown_target_is_reported() {
    let settings = EngineSettings {
        target: "not-a-real-target",
        ..pulley_engine_settings()
    };
    match create_engine_with(&settings) {
        Err(EngineError::UnsupportedTarget(_)) => {}
        Err(EngineError::Rejected(_)) => panic!("expected an unsupported target"),
        Ok(_) => panic!("expected an unsupported target"),
    }
}

#[test]
fn zero_guest_stack_is_rejected() {
    let settings = EngineSettings {
        max_wasm_stack: 0,
        ..pulley_engine_settings()
    };
    match create_engine_with(&settings) {
        Err(EngineError::Rejected(_)) => {}
        Err(EngineError::UnsupportedTarget(_)) => panic!("the target is supported"),
        Ok(_) => panic!("a zero stack must be rejected"),
    }
}
