//! How a run is started and how it can fail: the two arguments of an
//! invocation, the kinds of failure, which of them end the run, and what
//! each one tells the user.

use vstd::prelude::*;
use vstd::string::StringExecFns;
use crate::text::texts_of;

verus! {

/// What can go wrong in a run of the monitor.
#[derive(Debug, PartialEq, Eq)]
pub enum Failure {
    /// The program was not started with exactly a device path and a log path.
    Usage { program: String },
    /// Nothing exists at the device path.
    DeviceMissing { path: String },
    /// The device exists but could not be opened.
    DeviceOpen { path: String, cause: String },
    /// The device could no longer be read.
    Read { cause: String },
    /// One line could not be appended to the log.
    LogWrite,
}

/// The two arguments of a run.
#[derive(Debug, PartialEq, Eq)]
pub struct Invocation {
    /// Path of the input device to watch.
    pub device: String,
    /// Path of the log file to append to.
    pub log: String,
}

impl Failure {
    /// Whether the failure ends the run. Everything on the side of the
    /// device does; a line lost from the log does not.
    pub open spec fn fatal(self) -> bool {
        !(self is LogWrite)
    }

    /// The lines that tell the user of the failure, none where it is passed
    /// over in silence.
    pub open spec fn lines(self) -> Seq<Seq<char>> {
        match self {
            Failure::Usage { program } => seq![
                "Usage: "@ + program@ + " /dev/input/eventN <log file>"@,
                "Find the correct device with `sudo evtest` or `cat /proc/bus/input/devices`."@,
            ],
            Failure::DeviceMissing { path } => seq!["Device "@ + path@ + " does not exist."@],
            Failure::DeviceOpen { path, cause } => seq![
                "Failed to open "@ + path@ + ": "@ + cause@
                    + ". Are you root or have device access?"@,
            ],
            Failure::Read { cause } => seq![cause@],
            Failure::LogWrite => Seq::empty(),
        }
    }

    /// Whether the failure ends the run.
    pub fn is_fatal(&self) -> (fatal: bool)
        ensures
            fatal == self.fatal(),
    {
        match self {
            Failure::LogWrite => false,
            _ => true,
        }
    }

    /// The status with which the process exits on this failure: 1 for each
    /// failure that ends the run, none for one that does not.
    pub fn exit_status(&self) -> (status: Option<i32>)
        ensures
            status == if self.fatal() {
                Some(1i32)
            } else {
                None
            },
    {
        if self.is_fatal() {
            Some(1)
        } else {
            None
        }
    }

    /// The lines to print on the error stream.
    pub fn diagnostic(&self) -> (lines: Vec<String>)
        ensures
            texts_of(lines@) == self.lines(),
    {
        let mut lines: Vec<String> = Vec::new();
        match self {
            Failure::Usage { program } => {
                let mut first = String::from_str("Usage: ");
                first.append(program.as_str());
                first.append(" /dev/input/eventN <log file>");
                lines.push(first);
                lines.push(
                    String::from_str(
                        "Find the correct device with `sudo evtest` or `cat /proc/bus/input/devices`.",
                    ),
                );
            },
            Failure::DeviceMissing { path } => {
                let mut line = String::from_str("Device ");
                line.append(path.as_str());
                line.append(" does not exist.");
                lines.push(line);
            },
            Failure::DeviceOpen { path, cause } => {
                let mut line = String::from_str("Failed to open ");
                line.append(path.as_str());
                line.append(": ");
                line.append(cause.as_str());
                line.append(". Are you root or have device access?");
                lines.push(line);
            },
            Failure::Read { cause } => {
                lines.push(cause.clone());
            },
            Failure::LogWrite => {},
        }
        assert(texts_of(lines@) =~= self.lines());
        lines
    }
}

impl Invocation {
    /// Reads the arguments of the process: the program's own name, the
    /// device path and the log path. With exactly these three the two paths
    /// are taken as they stand; with any other number the result is a usage
    /// failure that holds the program's name (empty where not even that was
    /// given).
    pub fn parse(args: &Vec<String>) -> (outcome: Result<Invocation, Failure>)
        ensures
            outcome is Ok <==> args@.len() == 3,
            outcome is Ok ==> outcome->Ok_0.device@ == args@[1]@ && outcome->Ok_0.log@
                == args@[2]@,
            outcome is Err ==> outcome->Err_0 is Usage,
            outcome is Err && args@.len() > 0 ==> outcome->Err_0->program@ == args@[0]@,
            outcome is Err && args@.len() == 0 ==> outcome->Err_0->program@ == Seq::<
                char,
            >::empty(),
    {
        if args.len() == 3 {
            Ok(Invocation { device: args[1].clone(), log: args[2].clone() })
        } else if args.len() > 0 {
            Err(Failure::Usage { program: args[0].clone() })
        } else {
            Err(Failure::Usage { program: String::new() })
        }
    }
}

} // verus!
