//! Lines of the session log.

use crate::text::{joined3, opt_text, padded, padded_string, texts};
use vstd::prelude::*;
use vstd::string::StringExecFns;

verus! {

/// A log longer than this is put aside when it is opened.
pub const ROLL_BYTES: u64 = 4_194_304;

/// UTC wall clock, `HH:MM:SS.mmm`, of a time since 1970.
pub open spec fn stamp_text(secs: nat, millis: nat) -> Seq<char> {
    padded(secs / 3600 % 24, 2) + ":"@ + padded(secs / 60 % 60, 2) + ":"@ + padded(secs % 60, 2)
        + "."@ + padded(millis, 3)
}

/// The time in front of a log line.
pub fn stamp(secs: u64, millis: u32) -> (text: String)
    ensures
        text@ == stamp_text(secs as nat, millis as nat),
{
    let mut text = padded_string(secs / 3600 % 24, 2);
    text.append(":");
    text.append(padded_string(secs / 60 % 60, 2).as_str());
    text.append(":");
    text.append(padded_string(secs % 60, 2).as_str());
    text.append(".");
    text.append(padded_string(millis as u64, 3).as_str());
    text
}

/// The line that goes to the file.
pub fn write(secs: u64, millis: u32, line: &str) -> (text: String)
    ensures
        text@ == stamp_text(secs as nat, millis as nat) + " "@ + line@ + "\n"@,
{
    let mut text = joined3(stamp(secs, millis).as_str(), " ", line);
    text.append("\n");
    text
}

/// Whether a log of this length is put aside when it is opened.
pub fn rolls(length: u64) -> (r: bool)
    ensures
        r == (length > ROLL_BYTES),
{
    length > ROLL_BYTES
}

/// Parts of the path of the log: beside the executable where that folder can
/// be written to, otherwise in the user's profile or among the temporary
/// files.
pub open spec fn log_parts(
    beside: Option<Seq<char>>,
    profile: Option<Seq<char>>,
    temporary: Seq<char>,
) -> Seq<Seq<char>> {
    match beside {
        Some(folder) => seq![folder, "ghostsun.log"@],
        None => seq![
            match profile {
                Some(p) => p,
                None => temporary,
            },
            "GhostSun"@,
            "ghostsun.log"@,
        ],
    }
}

/// Where the log is kept. `beside` is the folder of the executable, where it
/// can be written to.
pub fn default_path(beside: Option<String>, profile: Option<String>, temporary: String) -> (parts:
    Vec<String>)
    ensures
        texts(parts@) == log_parts(
            opt_text(beside),
            opt_text(profile),
            temporary@,
        ),
{
    let mut parts: Vec<String> = Vec::new();
    let ghost wanted = log_parts(opt_text(beside), opt_text(profile), temporary@);
    match beside {
        Some(folder) => {
            parts.push(folder);
        },
        None => {
            parts.push(
                match profile {
                    Some(p) => p,
                    None => temporary,
                },
            );
            parts.push("GhostSun".to_owned());
        },
    }
    parts.push("ghostsun.log".to_owned());
    assert(texts(parts@) =~= wanted);
    parts
}

/// The log of a session: it is opened once and keeps its place.
pub struct SessionLog {
    pub parts: Option<Vec<String>>,
}

impl SessionLog {
    /// A log that has not been opened.
    pub fn new() -> (log: SessionLog)
        ensures
            log.parts is None,
    {
        SessionLog { parts: None }
    }

    /// Opens the log at a place, unless it is open. Tells whether it has to be
    /// opened now.
    pub fn init(&mut self, place: Vec<String>) -> (first: bool)
        ensures
            first == (old(self).parts is None),
            *final(self) == old(self).opened_at(place),
    {
        if self.parts.is_none() {
            self.parts = Some(place);
            true
        } else {
            false
        }
    }

    pub open spec fn opened_at(self, place: Vec<String>) -> SessionLog {
        match self.parts {
            Some(_) => self,
            None => SessionLog { parts: Some(place) },
        }
    }

    /// Where the log is, once it is open.
    pub fn path(&self) -> (parts: Option<&Vec<String>>)
        ensures
            match parts {
                Some(p) => self.parts == Some(*p),
                None => self.parts is None,
            },
    {
        self.parts.as_ref()
    }
}

/// Opening the log again changes nothing: it stays where it was opened first.
pub proof fn opening_again_changes_nothing(
    log: SessionLog,
    first: Vec<String>,
    second: Vec<String>,
)
    ensures
        log.opened_at(first).opened_at(second) == log.opened_at(first),
        log.opened_at(first).parts is Some,
        log.parts is None ==> log.opened_at(first).parts == Some(first),
{
}

/// The stamp tells the time of day: it is the same one day later.
pub proof fn stamp_is_time_of_day(secs: nat, millis: nat)
    ensures
        stamp_text(secs + 86_400, millis) == stamp_text(secs, millis),
{
    assert((secs + 86_400) / 3600 == secs / 3600 + 24);
    assert((secs / 3600 + 24) % 24 == secs / 3600 % 24);
    assert((secs + 86_400) / 60 == secs / 60 + 1440);
    assert((secs / 60 + 1440) % 60 == secs / 60 % 60);
    assert((secs + 86_400) % 60 == secs % 60);
}

/// The log lies beside the program where it can, else in the folder of the program in the
/// user's profile, else among the temporary files; its name is always the same.
pub proof fn log_lies_in_the_first_place_there_is(
    beside: Option<Seq<char>>,
    profile: Option<Seq<char>>,
    temporary: Seq<char>,
)
    ensures
        ({
            let parts = log_parts(beside, profile, temporary);
            &&& parts.last() == "ghostsun.log"@
            &&& (beside is Some ==> parts.len() == 2 && parts[0] == beside->0)
            &&& (beside is None ==> parts.len() == 3 && parts[1] == "GhostSun"@)
            &&& (beside is None && profile is Some ==> parts[0] == profile->0)
            &&& (beside is None && profile is None ==> parts[0] == temporary)
        }),
{
}

} // verus!
