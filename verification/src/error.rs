//! The ways in which one run of the bridge can fail.
use vstd::prelude::*;
use crate::protocol::{export_name_chars, Symbol};

verus! {

/// Why a run of the bridge ended without the script being handed to the engine.
#[derive(Clone, Debug, PartialEq, Eq)]
pub enum BridgeError {
    /// The library could not be loaded from `path`. `platform_code` is the
    /// platform's error code, or `None` where the path could not even be put
    /// into the platform's wide form, so that the platform was never asked.
    Load { path: String, platform_code: Option<u32> },
    /// The library does not export `symbol`.
    SymbolResolution { symbol: Symbol },
    /// The engine's reset call returned the non-zero `status`.
    Init { status: u8 },
    /// The engine did not become ready within `polls` polls, after which the
    /// bridge had slept `waited_ms` milliseconds in all.
    ReadyTimeout { polls: u32, waited_ms: u64 },
    /// The script text holds a zero byte and so has no native form.
    Encoding,
}

/// The character for the decimal digit `digit`.
pub open spec fn digit_char(digit: nat) -> char {
    if digit == 0 {
        '0'
    } else if digit == 1 {
        '1'
    } else if digit == 2 {
        '2'
    } else if digit == 3 {
        '3'
    } else if digit == 4 {
        '4'
    } else if digit == 5 {
        '5'
    } else if digit == 6 {
        '6'
    } else if digit == 7 {
        '7'
    } else if digit == 8 {
        '8'
    } else {
        '9'
    }
}

/// The decimal numeral of `number`, without leading zeros.
pub open spec fn decimal(number: nat) -> Seq<char>
    decreases number,
{
    if number < 10 {
        seq![digit_char(number)]
    } else {
        decimal(number / 10).push(digit_char(number % 10))
    }
}

/// The message that describes `error` to the caller of the host.
pub open spec fn message_spec(error: BridgeError) -> Seq<char> {
    match error {
        BridgeError::Load { path, platform_code: Some(code) } => {
            "could not load the engine library "@ + path@ + " (platform error "@ + decimal(
                code as nat,
            ) + ")"@
        },
        BridgeError::Load { path, platform_code: None } => {
            "not a path that the platform can load: "@ + path@
        },
        BridgeError::SymbolResolution { symbol } => {
            "the engine library does not export "@ + export_name_chars(symbol)
        },
        BridgeError::Init { status } => {
            "the engine could not be reset (status "@ + decimal(status as nat) + ")"@
        },
        BridgeError::ReadyTimeout { polls, waited_ms } => {
            "the engine was not ready after "@ + decimal(polls as nat) + " polls and "@
                + decimal(waited_ms as nat) + " ms"@
        },
        BridgeError::Encoding => {
            "the script holds a zero byte and cannot be passed to the engine"@
        },
    }
}

/// The one-character string for the decimal digit `digit`.
fn digit_text(digit: u64) -> (text: &'static str)
    requires
        digit < 10,
    ensures
        text@ == seq![digit_char(digit as nat)],
{
    proof {
        reveal_strlit("0");
        reveal_strlit("1");
        reveal_strlit("2");
        reveal_strlit("3");
        reveal_strlit("4");
        reveal_strlit("5");
        reveal_strlit("6");
        reveal_strlit("7");
        reveal_strlit("8");
        reveal_strlit("9");
    }
    let text = if digit == 0 {
        "0"
    } else if digit == 1 {
        "1"
    } else if digit == 2 {
        "2"
    } else if digit == 3 {
        "3"
    } else if digit == 4 {
        "4"
    } else if digit == 5 {
        "5"
    } else if digit == 6 {
        "6"
    } else if digit == 7 {
        "7"
    } else if digit == 8 {
        "8"
    } else {
        "9"
    };
    assert(text@ =~= seq![digit_char(digit as nat)]);
    text
}

/// Appends the decimal numeral of `number` to `out`.
fn append_decimal(out: &mut String, number: u64)
    ensures
        final(out)@ == old(out)@ + decimal(number as nat),
    decreases number,
{
    if number >= 10 {
        append_decimal(out, number / 10);
    }
    out.append(digit_text(number % 10));
    proof {
        if number >= 10 {
            let head = decimal((number / 10) as nat);
            let last = digit_char((number % 10) as nat);
            assert((old(out)@ + head) + seq![last] =~= old(out)@ + head.push(last));
        }
    }
}

impl BridgeError {
    /// The message that describes the failure to the caller of the host.
    pub fn message(&self) -> (text: String)
        ensures
            text@ == message_spec(*self),
    {
        match self {
            BridgeError::Load { path, platform_code: Some(code) } => {
                let mut text = "could not load the engine library ".to_owned();
                text.append(path.as_str());
                text.append(" (platform error ");
                append_decimal(&mut text, *code as u64);
                text.append(")");
                text
            },
            BridgeError::Load { path, platform_code: None } => {
                let mut text = "not a path that the platform can load: ".to_owned();
                text.append(path.as_str());
                text
            },
            BridgeError::SymbolResolution { symbol } => {
                let mut text = "the engine library does not export ".to_owned();
                text.append(symbol.export_name());
                text
            },
            BridgeError::Init { status } => {
                let mut text = "the engine could not be reset (status ".to_owned();
                append_decimal(&mut text, *status as u64);
                text.append(")");
                text
            },
            BridgeError::ReadyTimeout { polls, waited_ms } => {
                let mut text = "the engine was not ready after ".to_owned();
                append_decimal(&mut text, *polls as u64);
                text.append(" polls and ");
                append_decimal(&mut text, *waited_ms);
                text.append(" ms");
                text
            },
            BridgeError::Encoding => {
                "the script holds a zero byte and cannot be passed to the engine".to_owned()
            },
        }
    }

    /// A copy of the error, equal to it field by field.
    pub fn duplicate(&self) -> (copy: BridgeError)
        ensures
            copy == *self,
    {
        match self {
            BridgeError::Load { path, platform_code } => BridgeError::Load {
                path: path.clone(),
                platform_code: *platform_code,
            },
            BridgeError::SymbolResolution { symbol } => BridgeError::SymbolResolution {
                symbol: *symbol,
            },
            BridgeError::Init { status } => BridgeError::Init { status: *status },
            BridgeError::ReadyTimeout { polls, waited_ms } => BridgeError::ReadyTimeout {
                polls: *polls,
                waited_ms: *waited_ms,
            },
            BridgeError::Encoding => BridgeError::Encoding,
        }
    }
}

} // verus!
