//! What holds of every run of the bridge, whatever the platform and the
//! engine answer.
use vstd::prelude::*;
use crate::bridge::{initial_stage, next_stage, pending_action, run, script_bytes, stage_wf, Stage};
use crate::error::BridgeError;
use crate::protocol::{ActionView, Config, EntryPoints, Event, ScriptRequest, Symbol};
use crate::text::{has_nul, wide_encodable};

verus! {

/// Whether `event` is a readiness flag that says the engine is ready.
pub open spec fn reports_ready(event: Event) -> bool {
    match event {
        Event::ReadyFlag { flag } => flag != 0,
        _ => false,
    }
}

/// Whether `stage` ends a run.
pub open spec fn is_final(stage: Stage) -> bool {
    stage is Executed || stage is Failed
}

/// The symbol whose lookup is due in `stage`, if one is.
pub open spec fn awaited_symbol(stage: Stage) -> Option<Symbol> {
    match stage {
        Stage::Loaded { handle } => Some(Symbol::Init),
        Stage::LoadedInit { handle, init } => Some(Symbol::IsReady),
        Stage::LoadedIsReady { handle, init, is_ready } => Some(Symbol::Execute),
        _ => None,
    }
}

/// The outcomes that an engine which never becomes ready gives to `polls`
/// polls: each time the flag is zero, and the sleep that follows ends.
pub open spec fn never_ready(polls: nat) -> Seq<Event>
    decreases polls,
{
    if polls == 0 {
        Seq::empty()
    } else {
        seq![Event::ReadyFlag { flag: 0 }, Event::Slept] + never_ready((polls - 1) as nat)
    }
}

/// Whether `event` is the outcome of the call that is due in `stage`.
pub open spec fn answers(stage: Stage, event: Event) -> bool {
    match (stage, event) {
        (Stage::Unloaded, Event::LoadResult { handle, platform_code }) => true,
        (Stage::Loaded { handle }, Event::SymbolAddress { address }) => true,
        (Stage::LoadedInit { handle, init }, Event::SymbolAddress { address }) => true,
        (Stage::LoadedIsReady { handle, init, is_ready }, Event::SymbolAddress { address }) => true,
        (Stage::Bound { entry }, Event::InitStatus { status }) => true,
        (Stage::Initialized { entry, polls }, Event::ReadyFlag { flag }) => true,
        (Stage::Waiting { entry, polls }, Event::Slept) => true,
        (Stage::Ready { entry }, Event::ExecuteStatus { status }) => true,
        _ => false,
    }
}

/// The most platform calls that can still be due from `stage` on, the one
/// that is due now included.
pub open spec fn calls_left(stage: Stage, config: Config) -> nat {
    match stage {
        Stage::Unloaded => (2 * config.max_polls + 6) as nat,
        Stage::Loaded { handle } => (2 * config.max_polls + 5) as nat,
        Stage::LoadedInit { handle, init } => (2 * config.max_polls + 4) as nat,
        Stage::LoadedIsReady { handle, init, is_ready } => (2 * config.max_polls + 3) as nat,
        Stage::Bound { entry } => (2 * config.max_polls + 2) as nat,
        Stage::Initialized { entry, polls } => if polls <= config.max_polls {
            (2 * (config.max_polls - polls) + 1) as nat
        } else {
            1
        },
        Stage::Waiting { entry, polls } => if polls <= config.max_polls {
            (2 * (config.max_polls - polls) + 2) as nat
        } else {
            2
        },
        Stage::Ready { entry } => 1,
        Stage::Executed => 0,
        Stage::Failed { error } => 0,
    }
}

/// No run goes on for ever: each outcome of the call that was due brings
/// the end of the run nearer, so that a run makes at most six platform calls
/// and two more for each poll that the bound allows. Any other event leaves
/// the stage as it is, and only a run that is over has no call left.
pub proof fn lemma_answer_brings_end_nearer(
    stage: Stage,
    event: Event,
    request: ScriptRequest,
    config: Config,
)
    requires
        stage_wf(stage, request, config),
    ensures
        answers(stage, event) ==> calls_left(next_stage(stage, event, request, config), config)
            < calls_left(stage, config),
        !answers(stage, event) ==> next_stage(stage, event, request, config) == stage,
        calls_left(stage, config) == 0 <==> is_final(stage),
        calls_left(stage, config) <= 2 * config.max_polls + 6,
{
}

/// A run begins in a well-formed stage.
pub proof fn lemma_initial_stage_wf(request: ScriptRequest, config: Config)
    ensures
        stage_wf(initial_stage(request), request, config),
{
}

/// A run over a first event and the rest is the run over the rest from the
/// stage that the first event leads to.
pub proof fn lemma_run_first(
    stage: Stage,
    first: Event,
    rest: Seq<Event>,
    request: ScriptRequest,
    config: Config,
)
    ensures
        run(stage, seq![first] + rest, request, config) == run(
            next_stage(stage, first, request, config),
            rest,
            request,
            config,
        ),
{
    let events = seq![first] + rest;
    assert(events[0] == first);
    assert(events.drop_first() =~= rest);
}

/// Each step keeps what holds of every stage: no null handle or address, the
/// count of polls within the bound.
pub proof fn lemma_step_keeps_wf(
    stage: Stage,
    event: Event,
    request: ScriptRequest,
    config: Config,
)
    requires
        stage_wf(stage, request, config),
    ensures
        stage_wf(next_stage(stage, event, request, config), request, config),
{
}

/// So does each run.
pub proof fn lemma_run_keeps_wf(
    stage: Stage,
    events: Seq<Event>,
    request: ScriptRequest,
    config: Config,
)
    requires
        stage_wf(stage, request, config),
    ensures
        stage_wf(run(stage, events, request, config), request, config),
    decreases events.len(),
{
    if events.len() > 0 {
        lemma_step_keeps_wf(stage, events[0], request, config);
        lemma_run_keeps_wf(
            next_stage(stage, events[0], request, config),
            events.drop_first(),
            request,
            config,
        );
    }
}

/// No call is asked for through a null handle or a null address, and the
/// bridge never asks for more sleeps than the bound allows polls.
pub proof fn lemma_no_null_call(stage: Stage, request: ScriptRequest, config: Config)
    requires
        stage_wf(stage, request, config),
    ensures
        match pending_action(stage, request, config) {
            ActionView::ResolveSymbol { handle, symbol, name } => handle != 0,
            ActionView::CallInit { address, first, second, third } => address != 0,
            ActionView::PollReady { address } => address != 0,
            ActionView::Execute { address, text } => address != 0,
            _ => true,
        },
        match stage {
            Stage::Initialized { entry, polls } => polls < config.max_polls,
            Stage::Waiting { entry, polls } => polls <= config.max_polls,
            _ => true,
        },
{
}

/// A run that is over stays as it is: after a failure, or after the script
/// was handed over, no event leads to another call.
pub proof fn lemma_final_stays(
    stage: Stage,
    events: Seq<Event>,
    request: ScriptRequest,
    config: Config,
)
    requires
        is_final(stage),
    ensures
        run(stage, events, request, config) == stage,
        pending_action(run(stage, events, request, config), request, config) is Finish,
    decreases events.len(),
{
    if events.len() > 0 {
        assert(next_stage(stage, events[0], request, config) == stage);
        lemma_final_stays(stage, events.drop_first(), request, config);
    }
}

/// A path without a wide native form fails the run before the loader is
/// asked: the run names the path, and stays failed whatever comes.
pub proof fn lemma_unencodable_path_fails(
    events: Seq<Event>,
    request: ScriptRequest,
    config: Config,
)
    requires
        !wide_encodable(request.library_path@),
    ensures
        run(initial_stage(request), events, request, config) == (Stage::Failed {
            error: BridgeError::Load { path: request.library_path, platform_code: None },
        }),
{
    lemma_final_stays(initial_stage(request), events, request, config);
}

/// A load that the platform refuses fails the run with the path and the
/// platform's code, and nothing that comes after changes that: no symbol is
/// looked up and no entry point is called.
pub proof fn lemma_load_failure_is_final(
    platform_code: u32,
    rest: Seq<Event>,
    request: ScriptRequest,
    config: Config,
)
    ensures
        run(
            Stage::Unloaded,
            seq![Event::LoadResult { handle: 0, platform_code }] + rest,
            request,
            config,
        ) == (Stage::Failed {
            error: BridgeError::Load {
                path: request.library_path,
                platform_code: Some(platform_code),
            },
        }),
{
    let first = Event::LoadResult { handle: 0, platform_code };
    lemma_run_first(Stage::Unloaded, first, rest, request, config);
    lemma_final_stays(
        next_stage(Stage::Unloaded, first, request, config),
        rest,
        request,
        config,
    );
}

/// A symbol that the library does not export fails the run with that
/// symbol's name, whichever of the three it is, and nothing that comes after
/// changes that: no other symbol is looked up and no entry point is called.
pub proof fn lemma_missing_symbol_is_final(
    stage: Stage,
    rest: Seq<Event>,
    request: ScriptRequest,
    config: Config,
)
    requires
        awaited_symbol(stage) is Some,
    ensures
        run(stage, seq![Event::SymbolAddress { address: 0 }] + rest, request, config) == (
        Stage::Failed {
            error: BridgeError::SymbolResolution { symbol: awaited_symbol(stage)->Some_0 },
        }),
{
    let first = Event::SymbolAddress { address: 0 };
    lemma_run_first(stage, first, rest, request, config);
    lemma_final_stays(next_stage(stage, first, request, config), rest, request, config);
}

/// The run call becomes due in one way only: a poll was due and the engine
/// answered it with a non-zero flag.
pub proof fn lemma_ready_only_from_poll(
    stage: Stage,
    event: Event,
    request: ScriptRequest,
    config: Config,
)
    requires
        !(stage is Ready),
        next_stage(stage, event, request, config) is Ready,
    ensures
        stage is Initialized,
        reports_ready(event),
        pending_action(stage, request, config) is PollReady,
{
}

/// The run call is due in the stage `Ready` and in no other.
pub proof fn lemma_execute_due_iff_ready(stage: Stage, request: ScriptRequest, config: Config)
    ensures
        pending_action(stage, request, config) is Execute <==> stage is Ready,
{
}

/// If the run call is due, or the script was handed over, after a run that
/// began before the engine was ready, then one of the events was a readiness
/// flag that was not zero. So the flag is asked for at least once before the
/// script runs, and a run in which every flag is zero never runs it.
pub proof fn lemma_ready_was_reported(
    stage: Stage,
    events: Seq<Event>,
    request: ScriptRequest,
    config: Config,
)
    requires
        !(stage is Ready),
        !(stage is Executed),
        run(stage, events, request, config) is Ready || run(stage, events, request, config)
            is Executed,
    ensures
        exists|i: int| 0 <= i < events.len() && reports_ready(#[trigger] events[i]),
    decreases events.len(),
{
    if events.len() > 0 {
        let after = next_stage(stage, events[0], request, config);
        if after is Ready {
            assert(reports_ready(events[0]));
        } else {
            let rest = events.drop_first();
            lemma_ready_was_reported(after, rest, request, config);
            let i = choose|i: int| 0 <= i < rest.len() && reports_ready(#[trigger] rest[i]);
            assert(events[i + 1] == rest[i]);
            assert(reports_ready(events[i + 1]));
        }
    }
}

/// An engine that never becomes ready is given up after the bound: from the
/// `polls`th poll on, the remaining polls each come back zero and are slept
/// on, and then the run fails with the timeout, after as many polls as the
/// bound allows and as many sleeps.
pub proof fn lemma_never_ready_gives_up(
    entry: EntryPoints,
    polls: u32,
    request: ScriptRequest,
    config: Config,
)
    requires
        polls < config.max_polls,
    ensures
        run(
            Stage::Initialized { entry, polls },
            never_ready((config.max_polls - polls) as nat),
            request,
            config,
        ) == (Stage::Failed {
            error: BridgeError::ReadyTimeout {
                polls: config.max_polls,
                waited_ms: config.waited_ms_spec(config.max_polls),
            },
        }),
    decreases config.max_polls - polls,
{
    let left = (config.max_polls - polls) as nat;
    let tail = never_ready((left - 1) as nat);
    let zero = Event::ReadyFlag { flag: 0 };
    let start = Stage::Initialized { entry, polls };
    let waiting = Stage::Waiting { entry, polls: (polls + 1) as u32 };
    assert(never_ready(left) =~= seq![zero] + (seq![Event::Slept] + tail));
    lemma_run_first(start, zero, seq![Event::Slept] + tail, request, config);
    lemma_run_first(waiting, Event::Slept, tail, request, config);
    if polls + 1 < config.max_polls {
        lemma_never_ready_gives_up(entry, (polls + 1) as u32, request, config);
    } else {
        assert(tail =~= Seq::<Event>::empty());
    }
}

/// The whole of it, from the reset call on: where the reset succeeds and the
/// engine never becomes ready, the run fails with the timeout after exactly
/// `max_polls` polls and `max_polls` sleeps of `poll_delay_ms` each.
pub proof fn lemma_timeout_after_bound(entry: EntryPoints, request: ScriptRequest, config: Config)
    ensures
        run(
            Stage::Bound { entry },
            seq![Event::InitStatus { status: 0 }] + never_ready(config.max_polls as nat),
            request,
            config,
        ) == (Stage::Failed {
            error: BridgeError::ReadyTimeout {
                polls: config.max_polls,
                waited_ms: config.waited_ms_spec(config.max_polls),
            },
        }),
        never_ready(config.max_polls as nat).len() == 2 * config.max_polls,
        config.waited_ms_spec(config.max_polls) == config.max_polls as int
            * config.poll_delay_ms as int,
{
    let ok = Event::InitStatus { status: 0 };
    let polls = never_ready(config.max_polls as nat);
    lemma_run_first(Stage::Bound { entry }, ok, polls, request, config);
    if config.max_polls > 0 {
        lemma_never_ready_gives_up(entry, 0, request, config);
    } else {
        assert(polls =~= Seq::<Event>::empty());
    }
    lemma_never_ready_len(config.max_polls as nat);
    assert(0 <= config.max_polls as int * config.poll_delay_ms as int <= 0xffff_ffff
        * 0xffff_ffff) by (nonlinear_arith)
        requires
            0 <= config.max_polls as int <= 0xffff_ffff,
            0 <= config.poll_delay_ms as int <= 0xffff_ffff,
    ;
}

/// `never_ready(polls)` holds two events for each poll.
pub proof fn lemma_never_ready_len(polls: nat)
    ensures
        never_ready(polls).len() == 2 * polls,
    decreases polls,
{
    if polls > 0 {
        lemma_never_ready_len((polls - 1) as nat);
    }
}

/// A run in which all goes well: the library loads, the three symbols are
/// found, the reset succeeds, the first poll finds the engine ready and the
/// script has a native form. Then the script is handed over, and the call
/// before that was the run call with the script's native text.
pub proof fn lemma_clean_run_executes(
    handle: usize,
    entry: EntryPoints,
    platform_code: u32,
    flag: i8,
    status: i8,
    request: ScriptRequest,
    config: Config,
)
    requires
        handle != 0,
        entry.wf(),
        flag != 0,
        config.max_polls > 0,
        !has_nul(script_bytes(request)),
    ensures
        run(
            Stage::Unloaded,
            seq![
                Event::LoadResult { handle, platform_code },
                Event::SymbolAddress { address: entry.init },
                Event::SymbolAddress { address: entry.is_ready },
                Event::SymbolAddress { address: entry.execute },
                Event::InitStatus { status: 0 },
                Event::ReadyFlag { flag },
            ],
            request,
            config,
        ) == (Stage::Ready { entry }),
        next_stage(Stage::Ready { entry }, Event::ExecuteStatus { status }, request, config)
            == Stage::Executed,
{
    let e0 = Event::LoadResult { handle, platform_code };
    let e1 = Event::SymbolAddress { address: entry.init };
    let e2 = Event::SymbolAddress { address: entry.is_ready };
    let e3 = Event::SymbolAddress { address: entry.execute };
    let e4 = Event::InitStatus { status: 0 };
    let e5 = Event::ReadyFlag { flag };
    let all = seq![e0, e1, e2, e3, e4, e5];
    assert(all =~= seq![e0] + seq![e1, e2, e3, e4, e5]);
    assert(seq![e1, e2, e3, e4, e5] =~= seq![e1] + seq![e2, e3, e4, e5]);
    assert(seq![e2, e3, e4, e5] =~= seq![e2] + seq![e3, e4, e5]);
    assert(seq![e3, e4, e5] =~= seq![e3] + seq![e4, e5]);
    assert(seq![e4, e5] =~= seq![e4] + seq![e5]);
    assert(seq![e5] =~= seq![e5] + Seq::<Event>::empty());
    let s1 = Stage::Loaded { handle };
    let s2 = Stage::LoadedInit { handle, init: entry.init };
    let s3 = Stage::LoadedIsReady { handle, init: entry.init, is_ready: entry.is_ready };
    let s4 = Stage::Bound { entry };
    let s5 = Stage::Initialized { entry, polls: 0 };
    lemma_run_first(Stage::Unloaded, e0, seq![e1, e2, e3, e4, e5], request, config);
    lemma_run_first(s1, e1, seq![e2, e3, e4, e5], request, config);
    lemma_run_first(s2, e2, seq![e3, e4, e5], request, config);
    lemma_run_first(s3, e3, seq![e4, e5], request, config);
    lemma_run_first(s4, e4, seq![e5], request, config);
    lemma_run_first(s5, e5, Seq::<Event>::empty(), request, config);
}

} // verus!
