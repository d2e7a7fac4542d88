use ahk_bridge::bridge::{Bridge, Stage};
use ahk_bridge::error::BridgeError;
use ahk_bridge::protocol::{Action, Config, EntryPoints, Event, ScriptRequest, Symbol};

/// A stand-in for the platform and the engine that records every call.
struct MockEngine {
    handle: usize,
    platform_code: u32,
    init_address: usize,
    is_ready_address: usize,
    execute_address: usize,
    init_status: u8,
    /// The number of polls answered with zero before the first non-zero flag;
    /// `None` for an engine that never becomes ready.
    ready_after: Option<u32>,
    loads: Vec<Vec<u16>>,
    lookups: Vec<(usize, Symbol, Vec<u8>)>,
    init_calls: Vec<(usize, Vec<u8>, Vec<u8>, Vec<u8>)>,
    polls: u32,
    sleeps: Vec<u32>,
    executions: Vec<(usize, Vec<u8>)>,
    /// The number of polls that had been made when the script ran.
    polls_at_execute: Option<u32>,
    last_flag: Option<i8>,
}

fn healthy_engine() -> MockEngine {
    MockEngine {
        handle: 0x1000,
        platform_code: 0,
        init_address: 0x2000,
        is_ready_address: 0x3000,
        execute_address: 0x4000,
        init_status: 0,
        ready_after: Some(0),
        loads: Vec::new(),
        lookups: Vec::new(),
        init_calls: Vec::new(),
        polls: 0,
        sleeps: Vec::new(),
        executions: Vec::new(),
        polls_at_execute: None,
        last_flag: None,
    }
}

fn perform(engine: &mut MockEngine, action: Action) -> Result<Event, Result<(), BridgeError>> {
    match action {
        Action::LoadLibrary { wide_path } => {
            engine.loads.push(wide_path);
            Ok(Event::LoadResult { handle: engine.handle, platform_code: engine.platform_code })
        }
        Action::ResolveSymbol { handle, symbol, name } => {
            engine.lookups.push((handle, symbol, name));
            let address = match symbol {
                Symbol::Init => engine.init_address,
                Symbol::IsReady => engine.is_ready_address,
                Symbol::Execute => engine.execute_address,
            };
            Ok(Event::SymbolAddress { address })
        }
        Action::CallInit { address, first, second, third } => {
            engine.init_calls.push((address, first, second, third));
            Ok(Event::InitStatus { status: engine.init_status })
        }
        Action::PollReady { address } => {
            assert_eq!(address, engine.is_ready_address);
            let flag: i8 = match engine.ready_after {
                Some(n) if engine.polls >= n => 1,
                _ => 0,
            };
            engine.polls += 1;
            engine.last_flag = Some(flag);
            Ok(Event::ReadyFlag { flag })
        }
        Action::Sleep { millis } => {
            engine.sleeps.push(millis);
            Ok(Event::Slept)
        }
        Action::Execute { address, text } => {
            engine.executions.push((address, text));
            engine.polls_at_execute = Some(engine.polls);
            assert_eq!(engine.last_flag, Some(1));
            Ok(Event::ExecuteStatus { status: 0 })
        }
        Action::Finish { outcome } => Err(outcome),
    }
}

fn run_script(
    engine: &mut MockEngine,
    path: &str,
    script: &str,
    config: Config,
) -> Result<(), BridgeError> {
    let request =
        ScriptRequest { library_path: path.to_string(), script_text: script.to_string() };
    let mut bridge = Bridge::new(request, config);
    let mut action = bridge.pending();
    let mut steps: u32 = 0;
    loop {
        steps += 1;
        assert!(steps < 10_000);
        match perform(engine, action) {
            Ok(event) => action = bridge.step(event),
            Err(outcome) => {
                assert!(bridge.finished());
                assert_eq!(bridge.outcome(), Some(outcome.clone()));
                return outcome;
            }
        }
    }
}

fn config(max_polls: u32, poll_delay_ms: u32) -> Config {
    Config { max_polls, poll_delay_ms }
}

fn request(path: &str, script: &str) -> ScriptRequest {
    ScriptRequest { library_path: path.to_string(), script_text: script.to_string() }
}

fn wide(text: &str) -> Vec<u16> {
    let mut units: Vec<u16> = text.encode_utf16().collect();
    units.push(0);
    units
}

#[test]
fn engine_ready_at_once_runs_the_script() {
    let mut engine = healthy_engine();
    let result = run_script(&mut engine, "C:\\engine.dll", "MsgBox Hello", config(100, 10));
    assert_eq!(result, Ok(()));
    assert_eq!(engine.loads, vec![wide("C:\\engine.dll")]);
    assert_eq!(
        engine.lookups,
        vec![
            (0x1000, Symbol::Init, b"ahkdll\0".to_vec()),
            (0x1000, Symbol::IsReady, b"ahkReady\0".to_vec()),
            (0x1000, Symbol::Execute, b"ahkExec\0".to_vec()),
        ]
    );
    assert_eq!(engine.init_calls, vec![(0x2000, vec![0u8], vec![0u8], vec![0u8])]);
    assert_eq!(engine.polls, 1);
    assert!(engine.sleeps.is_empty());
    assert_eq!(engine.executions.len(), 1);
    assert_eq!(engine.executions[0].0, 0x4000);
    let text = &engine.executions[0].1;
    assert_eq!(text.last(), Some(&0u8));
    assert_eq!(String::from_utf8(text[..text.len() - 1].to_vec()).unwrap(), "MsgBox Hello");
}

#[test]
fn missing_library_gives_load_error_naming_the_path() {
    let mut engine = healthy_engine();
    engine.handle = 0;
    engine.platform_code = 126;
    let result = run_script(&mut engine, "C:\\missing.dll", "MsgBox Hello", config(100, 10));
    assert_eq!(
        result,
        Err(BridgeError::Load { path: "C:\\missing.dll".to_string(), platform_code: Some(126) })
    );
    assert_eq!(engine.loads.len(), 1);
    assert!(engine.lookups.is_empty());
    assert!(engine.init_calls.is_empty());
    assert_eq!(engine.polls, 0);
    assert!(engine.executions.is_empty());
}

#[test]
fn path_with_interior_nul_never_reaches_the_loader() {
    let mut engine = healthy_engine();
    let result = run_script(&mut engine, "C:\\en\0gine.dll", "MsgBox Hello", config(100, 10));
    assert_eq!(
        result,
        Err(BridgeError::Load { path: "C:\\en\0gine.dll".to_string(), platform_code: None })
    );
    assert!(engine.loads.is_empty());
    assert!(engine.lookups.is_empty());
    assert!(engine.executions.is_empty());
}

#[test]
fn missing_init_symbol_stops_before_any_other_lookup() {
    let mut engine = healthy_engine();
    engine.init_address = 0;
    let result = run_script(&mut engine, "C:\\engine.dll", "x", config(100, 10));
    assert_eq!(result, Err(BridgeError::SymbolResolution { symbol: Symbol::Init }));
    assert_eq!(engine.lookups.len(), 1);
    assert!(engine.init_calls.is_empty());
    assert_eq!(engine.polls, 0);
    assert!(engine.executions.is_empty());
}

#[test]
fn missing_is_ready_symbol_stops_the_run() {
    let mut engine = healthy_engine();
    engine.is_ready_address = 0;
    let result = run_script(&mut engine, "C:\\engine.dll", "x", config(100, 10));
    assert_eq!(result, Err(BridgeError::SymbolResolution { symbol: Symbol::IsReady }));
    assert_eq!(engine.lookups.len(), 2);
    assert!(engine.init_calls.is_empty());
    assert_eq!(engine.polls, 0);
    assert!(engine.executions.is_empty());
}

#[test]
fn missing_execute_symbol_stops_the_run() {
    let mut engine = healthy_engine();
    engine.execute_address = 0;
    let result = run_script(&mut engine, "C:\\engine.dll", "x", config(100, 10));
    assert_eq!(result, Err(BridgeError::SymbolResolution { symbol: Symbol::Execute }));
    assert_eq!(engine.lookups.len(), 3);
    assert!(engine.init_calls.is_empty());
    assert_eq!(engine.polls, 0);
    assert!(engine.executions.is_empty());
}

#[test]
fn failed_reset_gives_init_error_with_the_status() {
    let mut engine = healthy_engine();
    engine.init_status = 7;
    let result = run_script(&mut engine, "C:\\engine.dll", "x", config(100, 10));
    assert_eq!(result, Err(BridgeError::Init { status: 7 }));
    assert_eq!(engine.init_calls.len(), 1);
    assert_eq!(engine.polls, 0);
    assert!(engine.executions.is_empty());
}

#[test]
fn script_runs_only_after_a_non_zero_flag() {
    let mut engine = healthy_engine();
    engine.ready_after = Some(3);
    let result = run_script(&mut engine, "C:\\engine.dll", "Send a", config(10, 10));
    assert_eq!(result, Ok(()));
    assert_eq!(engine.polls, 4);
    assert_eq!(engine.polls_at_execute, Some(4));
    assert_eq!(engine.sleeps, vec![10, 10, 10]);
    assert_eq!(engine.executions, vec![(0x4000, b"Send a\0".to_vec())]);
}

#[test]
fn engine_ready_on_the_last_allowed_poll_still_runs() {
    let mut engine = healthy_engine();
    engine.ready_after = Some(4);
    let result = run_script(&mut engine, "C:\\engine.dll", "Send a", config(5, 10));
    assert_eq!(result, Ok(()));
    assert_eq!(engine.polls, 5);
    assert_eq!(engine.executions.len(), 1);
}

#[test]
fn engine_never_ready_times_out_after_the_bound() {
    let mut engine = healthy_engine();
    engine.ready_after = None;
    let result = run_script(&mut engine, "C:\\engine.dll", "Send a", config(5, 10));
    assert_eq!(result, Err(BridgeError::ReadyTimeout { polls: 5, waited_ms: 50 }));
    assert_eq!(engine.polls, 5);
    assert_eq!(engine.sleeps, vec![10, 10, 10, 10, 10]);
    assert!(engine.executions.is_empty());
}

#[test]
fn bound_of_zero_polls_times_out_without_polling() {
    let mut engine = healthy_engine();
    let result = run_script(&mut engine, "C:\\engine.dll", "Send a", config(0, 10));
    assert_eq!(result, Err(BridgeError::ReadyTimeout { polls: 0, waited_ms: 0 }));
    assert_eq!(engine.init_calls.len(), 1);
    assert_eq!(engine.polls, 0);
    assert!(engine.sleeps.is_empty());
    assert!(engine.executions.is_empty());
}

#[test]
fn script_with_zero_byte_gives_encoding_error() {
    let mut engine = healthy_engine();
    let result = run_script(&mut engine, "C:\\engine.dll", "Msg\0Box", config(5, 10));
    assert_eq!(result, Err(BridgeError::Encoding));
    assert_eq!(engine.polls, 1);
    assert!(engine.executions.is_empty());
}

#[test]
fn load_failure_comes_before_encoding_failure() {
    let mut engine = healthy_engine();
    engine.handle = 0;
    engine.platform_code = 2;
    let result = run_script(&mut engine, "nowhere.dll", "Msg\0Box", config(5, 10));
    assert_eq!(
        result,
        Err(BridgeError::Load { path: "nowhere.dll".to_string(), platform_code: Some(2) })
    );
}

#[test]
fn new_bridge_waits_for_the_load() {
    let bridge = Bridge::new(request("engine.dll", "x"), config(3, 10));
    assert_eq!(*bridge.stage(), Stage::Unloaded);
    assert!(!bridge.finished());
    assert_eq!(bridge.outcome(), None);
    assert_eq!(bridge.pending(), Action::LoadLibrary { wide_path: wide("engine.dll") });
    assert_eq!(bridge.pending(), Action::LoadLibrary { wide_path: wide("engine.dll") });
}

#[test]
fn event_that_was_not_asked_for_changes_nothing() {
    let mut bridge = Bridge::new(request("engine.dll", "x"), config(3, 10));
    let action = bridge.step(Event::ReadyFlag { flag: 1 });
    assert_eq!(*bridge.stage(), Stage::Unloaded);
    assert_eq!(action, Action::LoadLibrary { wide_path: wide("engine.dll") });
    let action = bridge.step(Event::ExecuteStatus { status: 1 });
    assert_eq!(*bridge.stage(), Stage::Unloaded);
    assert_eq!(action, Action::LoadLibrary { wide_path: wide("engine.dll") });
    let action = bridge.step(Event::LoadResult { handle: 5, platform_code: 0 });
    assert_eq!(*bridge.stage(), Stage::Loaded { handle: 5 });
    assert_eq!(
        action,
        Action::ResolveSymbol { handle: 5, symbol: Symbol::Init, name: b"ahkdll\0".to_vec() }
    );
    let action = bridge.step(Event::LoadResult { handle: 9, platform_code: 0 });
    assert_eq!(*bridge.stage(), Stage::Loaded { handle: 5 });
    assert_eq!(
        action,
        Action::ResolveSymbol { handle: 5, symbol: Symbol::Init, name: b"ahkdll\0".to_vec() }
    );
}

#[test]
fn stages_follow_one_another() {
    let mut bridge = Bridge::new(request("engine.dll", "Run"), config(2, 25));
    bridge.step(Event::LoadResult { handle: 1, platform_code: 0 });
    assert_eq!(*bridge.stage(), Stage::Loaded { handle: 1 });
    bridge.step(Event::SymbolAddress { address: 2 });
    assert_eq!(*bridge.stage(), Stage::LoadedInit { handle: 1, init: 2 });
    bridge.step(Event::SymbolAddress { address: 3 });
    assert_eq!(*bridge.stage(), Stage::LoadedIsReady { handle: 1, init: 2, is_ready: 3 });
    let action = bridge.step(Event::SymbolAddress { address: 4 });
    let entry = EntryPoints { init: 2, is_ready: 3, execute: 4 };
    assert_eq!(*bridge.stage(), Stage::Bound { entry });
    assert_eq!(
        action,
        Action::CallInit { address: 2, first: vec![0], second: vec![0], third: vec![0] }
    );
    let action = bridge.step(Event::InitStatus { status: 0 });
    assert_eq!(*bridge.stage(), Stage::Initialized { entry, polls: 0 });
    assert_eq!(action, Action::PollReady { address: 3 });
    let action = bridge.step(Event::ReadyFlag { flag: 0 });
    assert_eq!(*bridge.stage(), Stage::Waiting { entry, polls: 1 });
    assert_eq!(action, Action::Sleep { millis: 25 });
    let action = bridge.step(Event::Slept);
    assert_eq!(*bridge.stage(), Stage::Initialized { entry, polls: 1 });
    assert_eq!(action, Action::PollReady { address: 3 });
    let action = bridge.step(Event::ReadyFlag { flag: -1 });
    assert_eq!(*bridge.stage(), Stage::Ready { entry });
    assert_eq!(action, Action::Execute { address: 4, text: b"Run\0".to_vec() });
    let action = bridge.step(Event::ExecuteStatus { status: 3 });
    assert_eq!(*bridge.stage(), Stage::Executed);
    assert_eq!(action, Action::Finish { outcome: Ok(()) });
    assert!(bridge.finished());
    assert_eq!(bridge.outcome(), Some(Ok(())));
}

#[test]
fn finished_run_ignores_every_event() {
    let mut bridge = Bridge::new(request("engine.dll", "Run"), config(2, 25));
    bridge.step(Event::LoadResult { handle: 0, platform_code: 193 });
    let failure =
        BridgeError::Load { path: "engine.dll".to_string(), platform_code: Some(193) };
    let events = [
        Event::LoadResult { handle: 1, platform_code: 0 },
        Event::SymbolAddress { address: 2 },
        Event::InitStatus { status: 0 },
        Event::ReadyFlag { flag: 1 },
        Event::Slept,
        Event::ExecuteStatus { status: 0 },
    ];
    for event in events {
        let action = bridge.step(event);
        assert_eq!(action, Action::Finish { outcome: Err(failure.clone()) });
        assert_eq!(*bridge.stage(), Stage::Failed { error: failure.clone() });
    }
}

#[test]
fn feed_takes_a_whole_record_of_events() {
    let mut bridge = Bridge::new(request("engine.dll", "Run"), config(1, 10));
    let action = bridge.feed(&[
        Event::LoadResult { handle: 1, platform_code: 0 },
        Event::SymbolAddress { address: 2 },
        Event::SymbolAddress { address: 3 },
        Event::SymbolAddress { address: 4 },
        Event::InitStatus { status: 0 },
        Event::ReadyFlag { flag: 0 },
        Event::Slept,
    ]);
    assert_eq!(
        action,
        Action::Finish { outcome: Err(BridgeError::ReadyTimeout { polls: 1, waited_ms: 10 }) }
    );
    let mut untouched = Bridge::new(request("engine.dll", "Run"), config(1, 10));
    assert_eq!(untouched.feed(&[]), Action::LoadLibrary { wide_path: wide("engine.dll") });
    assert_eq!(*untouched.stage(), Stage::Unloaded);
}

#[test]
fn default_delay_is_ten_milliseconds() {
    assert_eq!(Config::with_max_polls(7), Config { max_polls: 7, poll_delay_ms: 10 });
}

#[test]
fn waited_time_is_polls_times_delay() {
    assert_eq!(config(5, 10).waited_ms(5), 50);
    assert_eq!(config(5, 10).waited_ms(0), 0);
    assert_eq!(
        config(u32::MAX, u32::MAX).waited_ms(u32::MAX),
        18_446_744_065_119_617_025u64
    );
}

#[test]
fn duplicate_error_equals_its_source() {
    let errors = vec![
        BridgeError::Load { path: "a.dll".to_string(), platform_code: Some(5) },
        BridgeError::Load { path: "b.dll".to_string(), platform_code: None },
        BridgeError::SymbolResolution { symbol: Symbol::IsReady },
        BridgeError::Init { status: 9 },
        BridgeError::ReadyTimeout { polls: 3, waited_ms: 30 },
        BridgeError::Encoding,
    ];
    for error in errors {
        assert_eq!(error.duplicate(), error);
    }
}

#[test]
fn messages_name_the_failing_stage() {
    assert_eq!(
        BridgeError::Load { path: "C:\\missing.dll".to_string(), platform_code: Some(126) }
            .message(),
        "could not load the engine library C:\\missing.dll (platform error 126)"
    );
    assert_eq!(
        BridgeError::Load { path: "a\0b".to_string(), platform_code: None }.message(),
        "not a path that the platform can load: a\0b"
    );
    assert_eq!(
        BridgeError::SymbolResolution { symbol: Symbol::Init }.message(),
        "the engine library does not export ahkdll"
    );
    assert_eq!(
        BridgeError::SymbolResolution { symbol: Symbol::IsReady }.message(),
        "the engine library does not export ahkReady"
    );
    assert_eq!(
        BridgeError::SymbolResolution { symbol: Symbol::Execute }.message(),
        "the engine library does not export ahkExec"
    );
    assert_eq!(
        BridgeError::Init { status: 255 }.message(),
        "the engine could not be reset (status 255)"
    );
    assert_eq!(
        BridgeError::ReadyTimeout { polls: 5, waited_ms: 50 }.message(),
        "the engine was not ready after 5 polls and 50 ms"
    );
    assert_eq!(
        BridgeError::Encoding.message(),
        "the script holds a zero byte and cannot be passed to the engine"
    );
}

#[test]
fn messages_write_numbers_in_decimal() {
    assert_eq!(
        BridgeError::Load { path: String::new(), platform_code: Some(0) }.message(),
        "could not load the engine library  (platform error 0)"
    );
    assert_eq!(
        BridgeError::Load { path: "x".to_string(), platform_code: Some(u32::MAX) }.message(),
        "could not load the engine library x (platform error 4294967295)"
    );
    assert_eq!(
        BridgeError::ReadyTimeout { polls: 1000, waited_ms: u64::MAX }.message(),
        "the engine was not ready after 1000 polls and 18446744073709551615 ms"
    );
    assert_eq!(
        BridgeError::Init { status: 10 }.message(),
        "the engine could not be reset (status 10)"
    );
}

#[test]
fn getters_give_back_what_the_bridge_was_made_with() {
    let bridge = Bridge::new(request("engine.dll", "Run"), config(4, 20));
    assert_eq!(*bridge.request(), request("engine.dll", "Run"));
    assert_eq!(bridge.config(), config(4, 20));
}
