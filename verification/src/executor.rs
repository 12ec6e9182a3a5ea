//! Actions on processes: the signals that can be sent, how they are named on
//! the wire, and the arguments of the commands that carry them out.

use crate::text::{decimal, decimal_text, same_text, signed_decimal, signed_decimal_text};
use vstd::prelude::*;

verus! {

/// A signal that can be sent to a process.
#[derive(Debug, Clone, Copy, PartialEq, Eq)]
pub enum Signal {
    Term,
    Kill,
    Stop,
    Cont,
}

/// The text that `str::to_uppercase` of the standard library returns for
/// `text`: its uppercase form by the Unicode case mappings.
pub uninterp spec fn uppercase(text: Seq<char>) -> Seq<char>;

/// `str::to_uppercase` of the standard library. The result is a function of
/// the text alone; it is named, not spelled out.
#[verifier::external_body]
fn to_uppercase(text: &str) -> (upper: String)
    ensures
        upper@ == uppercase(text@),
{
    text.to_uppercase()
}

/// The signal that an uppercase token names: its full name, its short name,
/// or its number.
pub open spec fn signal_named(upper: Seq<char>) -> Option<Signal> {
    if upper == "SIGTERM"@ || upper == "TERM"@ || upper == "15"@ {
        Some(Signal::Term)
    } else if upper == "SIGKILL"@ || upper == "KILL"@ || upper == "9"@ {
        Some(Signal::Kill)
    } else if upper == "SIGSTOP"@ || upper == "STOP"@ || upper == "19"@ {
        Some(Signal::Stop)
    } else if upper == "SIGCONT"@ || upper == "CONT"@ || upper == "18"@ {
        Some(Signal::Cont)
    } else {
        None
    }
}

impl Signal {
    /// The short name of the signal, as the `kill` command takes it.
    pub open spec fn label(self) -> Seq<char> {
        match self {
            Signal::Term => "TERM"@,
            Signal::Kill => "KILL"@,
            Signal::Stop => "STOP"@,
            Signal::Cont => "CONT"@,
        }
    }

    /// The number of the signal.
    pub open spec fn code(self) -> i32 {
        match self {
            Signal::Term => 15,
            Signal::Kill => 9,
            Signal::Stop => 19,
            Signal::Cont => 18,
        }
    }

    /// The short name of the signal, as the `kill` command takes it.
    pub fn name(self) -> (name: &'static str)
        ensures
            name@ == self.label(),
    {
        match self {
            Signal::Term => "TERM",
            Signal::Kill => "KILL",
            Signal::Stop => "STOP",
            Signal::Cont => "CONT",
        }
    }

    /// The number of the signal.
    pub fn number(self) -> (number: i32)
        ensures
            number == self.code(),
    {
        match self {
            Signal::Term => 15,
            Signal::Kill => 9,
            Signal::Stop => 19,
            Signal::Cont => 18,
        }
    }

    /// The signal that an uppercase token names, if it names one.
    pub fn from_upper(upper: &str) -> (signal: Option<Signal>)
        ensures
            signal == signal_named(upper@),
    {
        if same_text(upper, "SIGTERM") || same_text(upper, "TERM") || same_text(upper, "15") {
            Some(Signal::Term)
        } else if same_text(upper, "SIGKILL") || same_text(upper, "KILL") || same_text(upper, "9") {
            Some(Signal::Kill)
        } else if same_text(upper, "SIGSTOP") || same_text(upper, "STOP") || same_text(upper, "19") {
            Some(Signal::Stop)
        } else if same_text(upper, "SIGCONT") || same_text(upper, "CONT") || same_text(upper, "18") {
            Some(Signal::Cont)
        } else {
            None
        }
    }

    /// The signal that a token names, whatever its case; `None` for any other
    /// token.
    pub fn parse(token: &str) -> (signal: Option<Signal>)
        ensures
            signal == signal_named(uppercase(token@)),
    {
        let upper = to_uppercase(token);
        Signal::from_upper(upper.as_str())
    }
}

/// The arguments with which the `kill` command sends `signal` to `pid`.
pub open spec fn kill_args(pid: u32, signal: Signal) -> Seq<Seq<char>> {
    seq!["-s"@, signal.label(), decimal(pid as nat)]
}

/// The arguments with which the `renice` command sets the priority of `pid`.
pub open spec fn renice_args(pid: u32, priority: i32) -> Seq<Seq<char>> {
    seq!["-n"@, signed_decimal(priority as int), "-p"@, decimal(pid as nat)]
}

/// The texts of a list of strings.
pub open spec fn texts(strings: Seq<String>) -> Seq<Seq<char>> {
    strings.map_values(|s: String| s@)
}

/// The arguments with which the `kill` command sends `signal` to `pid`.
pub fn kill_arguments(pid: u32, signal: Signal) -> (args: Vec<String>)
    ensures
        texts(args@) == kill_args(pid, signal),
{
    let mut args: Vec<String> = Vec::new();
    args.push("-s".to_string());
    args.push(signal.name().to_string());
    args.push(decimal_text(pid as u64));
    args
}

/// The arguments with which the `renice` command sets the priority of `pid`.
pub fn renice_arguments(pid: u32, priority: i32) -> (args: Vec<String>)
    ensures
        texts(args@) == renice_args(pid, priority),
{
    let mut args: Vec<String> = Vec::new();
    args.push("-n".to_string());
    args.push(signed_decimal_text(priority));
    args.push("-p".to_string());
    args.push(decimal_text(pid as u64));
    args
}

} // verus!
