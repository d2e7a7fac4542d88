//! The bridge itself: a state machine that takes the outcome of each platform
//! call and says which call is due next.
//!
//! The host owns the library handle and makes every call. The bridge never
//! asks for a call through a null handle or address, never asks for the
//! script to be run before the engine said it was ready, and gives up after
//! a bounded number of polls.
use vstd::prelude::*;
use vstd::utf8::*;
use crate::error::BridgeError;
use crate::protocol::{Action, ActionView, Config, EntryPoints, Event, ScriptRequest, Symbol};
use crate::protocol::export_name_bytes;
use crate::text::{has_nul, marshal_text, marshal_wide, native_text, wide_encodable, wide_units};

verus! {

/// Where a run stands. Each stage but the last two waits for the outcome of
/// one platform call.
#[derive(Clone, Debug, PartialEq, Eq)]
pub enum Stage {
    /// Nothing is loaded; the load is due.
    Unloaded,
    /// The library is loaded; the lookup of the reset entry point is due.
    Loaded { handle: usize },
    /// The lookup of the readiness entry point is due.
    LoadedInit { handle: usize, init: usize },
    /// The lookup of the run entry point is due.
    LoadedIsReady { handle: usize, init: usize, is_ready: usize },
    /// All three entry points are resolved; the reset call is due.
    Bound { entry: EntryPoints },
    /// The engine is reset; a poll is due, after `polls` polls that found it
    /// not ready.
    Initialized { entry: EntryPoints, polls: u32 },
    /// The last of `polls` polls found the engine not ready; a sleep is due.
    Waiting { entry: EntryPoints, polls: u32 },
    /// The engine is ready; the run call is due.
    Ready { entry: EntryPoints },
    /// The script was handed to the engine.
    Executed,
    /// The run failed.
    Failed { error: BridgeError },
}

/// The UTF-8 bytes of the request's script.
pub open spec fn script_bytes(request: ScriptRequest) -> Seq<u8> {
    encode_utf8(request.script_text@)
}

/// The stage in which a run begins: a path without a wide native form never
/// reaches the loader.
pub open spec fn initial_stage(request: ScriptRequest) -> Stage {
    if wide_encodable(request.library_path@) {
        Stage::Unloaded
    } else {
        Stage::Failed {
            error: BridgeError::Load { path: request.library_path, platform_code: None },
        }
    }
}

/// The stage after `polls` polls found the engine not ready and each was
/// slept on: another poll while the bound allows one, else the timeout.
pub open spec fn after_wait(entry: EntryPoints, polls: u32, config: Config) -> Stage {
    if polls >= config.max_polls {
        Stage::Failed {
            error: BridgeError::ReadyTimeout { polls, waited_ms: config.waited_ms_spec(polls) },
        }
    } else {
        Stage::Initialized { entry, polls }
    }
}

/// The stage that follows `stage` on `event`. An event that is not the
/// outcome of the call that `stage` waits for leaves the stage as it is.
pub open spec fn next_stage(
    stage: Stage,
    event: Event,
    request: ScriptRequest,
    config: Config,
) -> Stage {
    match (stage, event) {
        (Stage::Unloaded, Event::LoadResult { handle, platform_code }) => if handle == 0 {
            Stage::Failed {
                error: BridgeError::Load {
                    path: request.library_path,
                    platform_code: Some(platform_code),
                },
            }
        } else {
            Stage::Loaded { handle }
        },
        (Stage::Loaded { handle }, Event::SymbolAddress { address }) => if address == 0 {
            Stage::Failed { error: BridgeError::SymbolResolution { symbol: Symbol::Init } }
        } else {
            Stage::LoadedInit { handle, init: address }
        },
        (Stage::LoadedInit { handle, init }, Event::SymbolAddress { address }) => if address
            == 0 {
            Stage::Failed { error: BridgeError::SymbolResolution { symbol: Symbol::IsReady } }
        } else {
            Stage::LoadedIsReady { handle, init, is_ready: address }
        },
        (Stage::LoadedIsReady { handle, init, is_ready }, Event::SymbolAddress { address }) => if address
            == 0 {
            Stage::Failed { error: BridgeError::SymbolResolution { symbol: Symbol::Execute } }
        } else {
            Stage::Bound { entry: EntryPoints { init, is_ready, execute: address } }
        },
        (Stage::Bound { entry }, Event::InitStatus { status }) => if status != 0 {
            Stage::Failed { error: BridgeError::Init { status } }
        } else {
            after_wait(entry, 0, config)
        },
        (Stage::Initialized { entry, polls }, Event::ReadyFlag { flag }) => if flag == 0 {
            Stage::Waiting { entry, polls: (polls + 1) as u32 }
        } else if has_nul(script_bytes(request)) {
            Stage::Failed { error: BridgeError::Encoding }
        } else {
            Stage::Ready { entry }
        },
        (Stage::Waiting { entry, polls }, Event::Slept) => after_wait(entry, polls, config),
        (Stage::Ready { entry }, Event::ExecuteStatus { status }) => Stage::Executed,
        _ => stage,
    }
}

/// The stage reached from `stage` by `events`, taken in order.
pub open spec fn run(
    stage: Stage,
    events: Seq<Event>,
    request: ScriptRequest,
    config: Config,
) -> Stage
    decreases events.len(),
{
    if events.len() == 0 {
        stage
    } else {
        run(next_stage(stage, events[0], request, config), events.drop_first(), request, config)
    }
}

/// The call that is due in `stage`.
pub open spec fn pending_action(stage: Stage, request: ScriptRequest, config: Config) -> ActionView {
    match stage {
        Stage::Unloaded => ActionView::LoadLibrary { wide_path: wide_units(request.library_path@) },
        Stage::Loaded { handle } => ActionView::ResolveSymbol {
            handle,
            symbol: Symbol::Init,
            name: native_text(export_name_bytes(Symbol::Init)),
        },
        Stage::LoadedInit { handle, init } => ActionView::ResolveSymbol {
            handle,
            symbol: Symbol::IsReady,
            name: native_text(export_name_bytes(Symbol::IsReady)),
        },
        Stage::LoadedIsReady { handle, init, is_ready } => ActionView::ResolveSymbol {
            handle,
            symbol: Symbol::Execute,
            name: native_text(export_name_bytes(Symbol::Execute)),
        },
        Stage::Bound { entry } => ActionView::CallInit {
            address: entry.init,
            first: native_text(Seq::empty()),
            second: native_text(Seq::empty()),
            third: native_text(Seq::empty()),
        },
        Stage::Initialized { entry, polls } => ActionView::PollReady { address: entry.is_ready },
        Stage::Waiting { entry, polls } => ActionView::Sleep { millis: config.poll_delay_ms },
        Stage::Ready { entry } => ActionView::Execute {
            address: entry.execute,
            text: native_text(script_bytes(request)),
        },
        Stage::Executed => ActionView::Finish { outcome: Ok(()) },
        Stage::Failed { error } => ActionView::Finish { outcome: Err(error) },
    }
}

/// What holds of every stage that a run can be in: no handle or address in it
/// is null, the text that its call needs has a native form, and the count of
/// polls is within the bound.
pub open spec fn stage_wf(stage: Stage, request: ScriptRequest, config: Config) -> bool {
    match stage {
        Stage::Unloaded => wide_encodable(request.library_path@),
        Stage::Loaded { handle } => handle != 0,
        Stage::LoadedInit { handle, init } => handle != 0 && init != 0,
        Stage::LoadedIsReady { handle, init, is_ready } => handle != 0 && init != 0 && is_ready
            != 0,
        Stage::Bound { entry } => entry.wf(),
        Stage::Initialized { entry, polls } => entry.wf() && polls < config.max_polls,
        Stage::Waiting { entry, polls } => entry.wf() && 1 <= polls <= config.max_polls,
        Stage::Ready { entry } => entry.wf() && !has_nul(script_bytes(request)),
        Stage::Executed => true,
        Stage::Failed { error } => true,
    }
}

/// One run of the bridge for one request. Its stage is well formed at all
/// times, in the sense of [`stage_wf`].
pub struct Bridge {
    request: ScriptRequest,
    config: Config,
    stage: Stage,
}

/// A [`Bridge`] as contracts see it.
pub struct BridgeView {
    pub request: ScriptRequest,
    pub config: Config,
    pub stage: Stage,
}

impl View for Bridge {
    type V = BridgeView;

    closed spec fn view(&self) -> BridgeView {
        BridgeView { request: self.request, config: self.config, stage: self.stage }
    }
}

/// A native buffer that holds the empty text.
fn blank_text() -> (buffer: Vec<u8>)
    ensures
        buffer@ == native_text(Seq::empty()),
{
    let mut buffer: Vec<u8> = Vec::new();
    buffer.push(crate::text::TERMINATOR);
    assert(buffer@ =~= native_text(Seq::empty()));
    buffer
}

impl Bridge {
    #[verifier::type_invariant]
    closed spec fn inv(self) -> bool {
        stage_wf(self.stage, self.request, self.config)
    }

    /// The stage of the run.
    pub fn stage(&self) -> (stage: &Stage)
        ensures
            *stage == self@.stage,
            stage_wf(*stage, self@.request, self@.config),
    {
        proof {
            use_type_invariant(self);
        }
        &self.stage
    }

    /// The request that the run is for.
    pub fn request(&self) -> (request: &ScriptRequest)
        ensures
            *request == self@.request,
    {
        &self.request
    }

    /// The bound on the wait for the engine.
    pub fn config(&self) -> (config: Config)
        ensures
            config == self@.config,
    {
        self.config
    }

    /// Begins a run for `request`.
    pub fn new(request: ScriptRequest, config: Config) -> (bridge: Bridge)
        ensures
            bridge@.request == request,
            bridge@.config == config,
            bridge@.stage == initial_stage(request),
    {
        let stage = match marshal_wide(request.library_path.as_str()) {
            Some(_) => Stage::Unloaded,
            None => Stage::Failed {
                error: BridgeError::Load {
                    path: request.library_path.clone(),
                    platform_code: None,
                },
            },
        };
        Bridge { request, config, stage }
    }

    /// Whether the run is over, with or without success.
    pub fn finished(&self) -> (over: bool)
        ensures
            over == (self@.stage is Executed || self@.stage is Failed),
            over == (pending_action(self@.stage, self@.request, self@.config) is Finish),
    {
        match &self.stage {
            Stage::Executed => true,
            Stage::Failed { .. } => true,
            _ => false,
        }
    }

    /// How the run ended, once it is over: `Ok` where the script was handed
    /// to the engine, else the failure.
    pub fn outcome(&self) -> (result: Option<Result<(), BridgeError>>)
        ensures
            result == match self@.stage {
                Stage::Executed => Some(Ok::<(), BridgeError>(())),
                Stage::Failed { error } => Some(Err::<(), BridgeError>(error)),
                _ => None,
            },
    {
        match &self.stage {
            Stage::Executed => Some(Ok(())),
            Stage::Failed { error } => Some(Err(error.duplicate())),
            _ => None,
        }
    }

    /// The call that is due now. Asking again gives the same call again.
    pub fn pending(&self) -> (action: Action)
        ensures
            action@ == pending_action(self@.stage, self@.request, self@.config),
    {
        proof {
            use_type_invariant(self);
        }
        match &self.stage {
            Stage::Unloaded => {
                match marshal_wide(self.request.library_path.as_str()) {
                    Some(wide_path) => Action::LoadLibrary { wide_path },
                    None => {
                        // Never taken: in this stage the path has a wide form.
                        proof {
                            assert(false);
                        }
                        Action::Finish { outcome: Err(BridgeError::Encoding) }
                    },
                }
            },
            Stage::Loaded { handle } => Action::ResolveSymbol {
                handle: *handle,
                symbol: Symbol::Init,
                name: Symbol::Init.native_name(),
            },
            Stage::LoadedInit { handle, .. } => Action::ResolveSymbol {
                handle: *handle,
                symbol: Symbol::IsReady,
                name: Symbol::IsReady.native_name(),
            },
            Stage::LoadedIsReady { handle, .. } => Action::ResolveSymbol {
                handle: *handle,
                symbol: Symbol::Execute,
                name: Symbol::Execute.native_name(),
            },
            Stage::Bound { entry } => Action::CallInit {
                address: entry.init,
                first: blank_text(),
                second: blank_text(),
                third: blank_text(),
            },
            Stage::Initialized { entry, .. } => Action::PollReady { address: entry.is_ready },
            Stage::Waiting { .. } => Action::Sleep { millis: self.config.poll_delay_ms },
            Stage::Ready { entry } => {
                match marshal_text(self.request.script_text.as_str()) {
                    Ok(text) => Action::Execute { address: entry.execute, text },
                    Err(_) => {
                        // Never taken: in this stage the script holds no zero byte.
                        proof {
                            assert(false);
                        }
                        Action::Finish { outcome: Err(BridgeError::Encoding) }
                    },
                }
            },
            Stage::Executed => Action::Finish { outcome: Ok(()) },
            Stage::Failed { error } => Action::Finish { outcome: Err(error.duplicate()) },
        }
    }

    /// The stage that follows `polls` polls that found the engine not ready.
    fn wait_or_give_up(&self, entry: EntryPoints, polls: u32) -> (stage: Stage)
        ensures
            stage == after_wait(entry, polls, self.config),
    {
        if polls >= self.config.max_polls {
            Stage::Failed {
                error: BridgeError::ReadyTimeout {
                    polls,
                    waited_ms: self.config.waited_ms(polls),
                },
            }
        } else {
            Stage::Initialized { entry, polls }
        }
    }

    /// Takes the outcome of a platform call and says which call is due next.
    ///
    /// An event that is not the outcome of the call that was due changes
    /// nothing: the same call is due again.
    pub fn step(&mut self, event: Event) -> (action: Action)
        ensures
            final(self)@.request == old(self)@.request,
            final(self)@.config == old(self)@.config,
            final(self)@.stage == next_stage(
                old(self)@.stage,
                event,
                old(self)@.request,
                old(self)@.config,
            ),
            action@ == pending_action(
                final(self)@.stage,
                final(self)@.request,
                final(self)@.config,
            ),
    {
        proof {
            use_type_invariant(&*self);
        }
        let next: Option<Stage> = match (&self.stage, event) {
            (Stage::Unloaded, Event::LoadResult { handle, platform_code }) => {
                if handle == 0 {
                    Some(
                        Stage::Failed {
                            error: BridgeError::Load {
                                path: self.request.library_path.clone(),
                                platform_code: Some(platform_code),
                            },
                        },
                    )
                } else {
                    Some(Stage::Loaded { handle })
                }
            },
            (Stage::Loaded { handle }, Event::SymbolAddress { address }) => {
                if address == 0 {
                    Some(
                        Stage::Failed {
                            error: BridgeError::SymbolResolution { symbol: Symbol::Init },
                        },
                    )
                } else {
                    Some(Stage::LoadedInit { handle: *handle, init: address })
                }
            },
            (Stage::LoadedInit { handle, init }, Event::SymbolAddress { address }) => {
                if address == 0 {
                    Some(
                        Stage::Failed {
                            error: BridgeError::SymbolResolution { symbol: Symbol::IsReady },
                        },
                    )
                } else {
                    Some(
                        Stage::LoadedIsReady { handle: *handle, init: *init, is_ready: address },
                    )
                }
            },
            (Stage::LoadedIsReady { handle, init, is_ready }, Event::SymbolAddress { address }) => {
                if address == 0 {
                    Some(
                        Stage::Failed {
                            error: BridgeError::SymbolResolution { symbol: Symbol::Execute },
                        },
                    )
                } else {
                    Some(
                        Stage::Bound {
                            entry: EntryPoints {
                                init: *init,
                                is_ready: *is_ready,
                                execute: address,
                            },
                        },
                    )
                }
            },
            (Stage::Bound { entry }, Event::InitStatus { status }) => {
                if status != 0 {
                    Some(Stage::Failed { error: BridgeError::Init { status } })
                } else {
                    Some(self.wait_or_give_up(*entry, 0))
                }
            },
            (Stage::Initialized { entry, polls }, Event::ReadyFlag { flag }) => {
                if flag == 0 {
                    Some(Stage::Waiting { entry: *entry, polls: *polls + 1 })
                } else {
                    match marshal_text(self.request.script_text.as_str()) {
                        Ok(_) => Some(Stage::Ready { entry: *entry }),
                        Err(error) => Some(Stage::Failed { error }),
                    }
                }
            },
            (Stage::Waiting { entry, polls }, Event::Slept) => {
                Some(self.wait_or_give_up(*entry, *polls))
            },
            (Stage::Ready { .. }, Event::ExecuteStatus { .. }) => Some(Stage::Executed),
            _ => None,
        };
        if let Some(stage) = next {
            self.stage = stage;
        }
        self.pending()
    }

    /// Takes the outcomes in `events` one after the other and says which call
    /// is due after the last.
    pub fn feed(&mut self, events: &[Event]) -> (action: Action)
        ensures
            final(self)@.request == old(self)@.request,
            final(self)@.config == old(self)@.config,
            final(self)@.stage == run(
                old(self)@.stage,
                events@,
                old(self)@.request,
                old(self)@.config,
            ),
            action@ == pending_action(
                final(self)@.stage,
                final(self)@.request,
                final(self)@.config,
            ),
    {
        let mut i: usize = 0;
        proof {
            assert(events@.skip(0) =~= events@);
        }
        while i < events.len()
            invariant
                0 <= i <= events.len(),
                self@.request == old(self)@.request,
                self@.config == old(self)@.config,
                run(old(self)@.stage, events@, self@.request, self@.config) == run(
                    self@.stage,
                    events@.skip(i as int),
                    self@.request,
                    self@.config,
                ),
            decreases events.len() - i,
        {
            proof {
                assert(events@.skip(i as int).drop_first() =~= events@.skip(i + 1));
                assert(events@.skip(i as int)[0] == events@[i as int]);
            }
            let _ = self.step(events[i]);
            i = i + 1;
        }
        proof {
            assert(events@.skip(i as int).len() == 0);
        }
        self.pending()
    }
}

} // verus!
