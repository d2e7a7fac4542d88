//! What passes between the bridge and the host that drives it: the request,
//! the outcome of each platform call, and the call that is due next.
use vstd::prelude::*;
use vstd::utf8::*;
use crate::error::BridgeError;
use crate::text::{has_nul, is_native_text, lemma_round_trip, native_text};

verus! {

/// One of the three entry points that the engine exports.
#[derive(Clone, Copy, Debug, PartialEq, Eq, Structural)]
pub enum Symbol {
    /// Resets the engine; takes three text buffers, returns a status byte.
    Init,
    /// Says whether the engine can run code; takes nothing.
    IsReady,
    /// Runs script text; takes one text buffer.
    Execute,
}

/// The bytes of the name under which the engine exports `symbol`.
pub open spec fn export_name_bytes(symbol: Symbol) -> Seq<u8> {
    match symbol {
        Symbol::Init => seq![97u8, 104u8, 107u8, 100u8, 108u8, 108u8],
        Symbol::IsReady => seq![97u8, 104u8, 107u8, 82u8, 101u8, 97u8, 100u8, 121u8],
        Symbol::Execute => seq![97u8, 104u8, 107u8, 69u8, 120u8, 101u8, 99u8],
    }
}

/// The name under which the engine exports `symbol`.
pub open spec fn export_name_chars(symbol: Symbol) -> Seq<char> {
    match symbol {
        Symbol::Init => "ahkdll"@,
        Symbol::IsReady => "ahkReady"@,
        Symbol::Execute => "ahkExec"@,
    }
}

/// The bytes of an export name are the UTF-8 bytes of its characters.
pub proof fn lemma_export_name_bytes(symbol: Symbol)
    ensures
        export_name_bytes(symbol) == encode_utf8(export_name_chars(symbol)),
        !has_nul(export_name_bytes(symbol)),
{
    reveal_strlit("ahkdll");
    reveal_strlit("ahkReady");
    reveal_strlit("ahkExec");
    let chars = export_name_chars(symbol);
    assert(is_ascii_chars(chars));
    is_ascii_chars_encode_utf8(chars);
    assert(export_name_bytes(symbol) =~= encode_utf8(chars));
}

impl Symbol {
    /// The name under which the engine exports the entry point.
    pub fn export_name(&self) -> (name: &'static str)
        ensures
            name@ == export_name_chars(*self),
    {
        match self {
            Symbol::Init => "ahkdll",
            Symbol::IsReady => "ahkReady",
            Symbol::Execute => "ahkExec",
        }
    }

    /// The export name as a native text buffer, as the platform's symbol
    /// lookup takes it.
    pub fn native_name(&self) -> (name: Vec<u8>)
        ensures
            name@ == native_text(export_name_bytes(*self)),
            is_native_text(name@),
    {
        let name: Vec<u8> = match self {
            Symbol::Init => vec![97u8, 104u8, 107u8, 100u8, 108u8, 108u8, 0u8],
            Symbol::IsReady => vec![97u8, 104u8, 107u8, 82u8, 101u8, 97u8, 100u8, 121u8, 0u8],
            Symbol::Execute => vec![97u8, 104u8, 107u8, 69u8, 120u8, 101u8, 99u8, 0u8],
        };
        proof {
            assert(name@ =~= native_text(export_name_bytes(*self)));
            lemma_export_name_bytes(*self);
            lemma_round_trip(export_name_bytes(*self));
        }
        name
    }
}

/// The addresses of the three entry points, each resolved from one library.
#[derive(Clone, Copy, Debug, PartialEq, Eq, Structural)]
pub struct EntryPoints {
    pub init: usize,
    pub is_ready: usize,
    pub execute: usize,
}

impl EntryPoints {
    /// No address is null.
    pub open spec fn wf(self) -> bool {
        self.init != 0 && self.is_ready != 0 && self.execute != 0
    }
}

/// What the caller asks for: a script to run in the engine at a path.
#[derive(Clone, Debug, PartialEq, Eq)]
pub struct ScriptRequest {
    pub library_path: String,
    pub script_text: String,
}

/// How long the bridge waits for the engine to become ready.
#[derive(Clone, Copy, Debug, PartialEq, Eq, Structural)]
pub struct Config {
    /// The most polls of the readiness flag before the run is given up.
    pub max_polls: u32,
    /// The sleep after each poll that found the engine not ready.
    pub poll_delay_ms: u32,
}

/// The sleep between two polls unless the caller says otherwise.
pub const DEFAULT_POLL_DELAY_MS: u32 = 10;

impl Config {
    /// A configuration with the usual delay between polls.
    pub fn with_max_polls(max_polls: u32) -> (config: Config)
        ensures
            config == (Config { max_polls, poll_delay_ms: 10 }),
    {
        Config { max_polls, poll_delay_ms: DEFAULT_POLL_DELAY_MS }
    }

    /// The milliseconds slept after `polls` polls that found the engine not
    /// ready.
    pub open spec fn waited_ms_spec(self, polls: u32) -> u64 {
        (polls as int * self.poll_delay_ms as int) as u64
    }

    /// The milliseconds slept after `polls` polls that found the engine not
    /// ready: `polls` times the delay.
    pub fn waited_ms(&self, polls: u32) -> (total: u64)
        ensures
            total == polls as int * self.poll_delay_ms as int,
            total == self.waited_ms_spec(polls),
    {
        proof {
            assert(polls as int * self.poll_delay_ms as int <= 0xffff_ffff * 0xffff_ffff
                && polls as int * self.poll_delay_ms as int >= 0) by (nonlinear_arith)
                requires
                    0 <= polls as int <= 0xffff_ffff,
                    0 <= self.poll_delay_ms as int <= 0xffff_ffff,
            ;
        }
        (polls as u64) * (self.poll_delay_ms as u64)
    }
}

/// The outcome of a platform call, as the host reports it to the bridge.
#[derive(Clone, Copy, Debug, PartialEq, Eq, Structural)]
pub enum Event {
    /// The loader returned `handle`; where that is null, `platform_code` is
    /// the platform's last error.
    LoadResult { handle: usize, platform_code: u32 },
    /// The symbol lookup returned `address`, null where the export is missing.
    SymbolAddress { address: usize },
    /// The engine's reset call returned `status`; zero is success.
    InitStatus { status: u8 },
    /// The engine's readiness flag; non-zero once it can run code.
    ReadyFlag { flag: i8 },
    /// The sleep between two polls is over.
    Slept,
    /// The engine's run call returned `status`, which means nothing here.
    ExecuteStatus { status: i8 },
}

/// The platform call that is due next.
#[derive(Debug, PartialEq, Eq)]
pub enum Action {
    /// Load the library whose path is `wide_path`, in wide native form.
    LoadLibrary { wide_path: Vec<u16> },
    /// Look `symbol` up in the library behind `handle`, under `name`.
    ResolveSymbol { handle: usize, symbol: Symbol, name: Vec<u8> },
    /// Call the reset entry point at `address` with the three buffers.
    CallInit { address: usize, first: Vec<u8>, second: Vec<u8>, third: Vec<u8> },
    /// Call the readiness entry point at `address`.
    PollReady { address: usize },
    /// Sleep for `millis` milliseconds.
    Sleep { millis: u32 },
    /// Call the run entry point at `address` with the script in `text`.
    Execute { address: usize, text: Vec<u8> },
    /// Nothing more is due: the run ended with `outcome`.
    Finish { outcome: Result<(), BridgeError> },
}

/// An [`Action`] with its buffers as sequences.
pub enum ActionView {
    LoadLibrary { wide_path: Seq<u16> },
    ResolveSymbol { handle: usize, symbol: Symbol, name: Seq<u8> },
    CallInit { address: usize, first: Seq<u8>, second: Seq<u8>, third: Seq<u8> },
    PollReady { address: usize },
    Sleep { millis: u32 },
    Execute { address: usize, text: Seq<u8> },
    Finish { outcome: Result<(), BridgeError> },
}

impl View for Action {
    type V = ActionView;

    open spec fn view(&self) -> ActionView {
        match *self {
            Action::LoadLibrary { wide_path } => ActionView::LoadLibrary { wide_path: wide_path@ },
            Action::ResolveSymbol { handle, symbol, name } => ActionView::ResolveSymbol {
                handle,
                symbol,
                name: name@,
            },
            Action::CallInit { address, first, second, third } => ActionView::CallInit {
                address,
                first: first@,
                second: second@,
                third: third@,
            },
            Action::PollReady { address } => ActionView::PollReady { address },
            Action::Sleep { millis } => ActionView::Sleep { millis },
            Action::Execute { address, text } => ActionView::Execute { address, text: text@ },
            Action::Finish { outcome } => ActionView::Finish { outcome },
        }
    }
}

} // verus!
