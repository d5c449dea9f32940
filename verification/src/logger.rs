use vstd::prelude::*;
use crate::console::{colorized, decimal, print_colorized, push_decimal, ANSICON};

verus! {

/// How grave a message of the kernel is.
#[derive(Clone, Copy, Debug, PartialEq, Eq, Structural)]
pub enum Level {
    Error,
    Warn,
    Info,
    Debug,
    Trace,
}

/// Up to which level the kernel's messages are shown.
#[derive(Clone, Copy, Debug, PartialEq, Eq, Structural)]
pub enum LevelFilter {
    Off,
    Error,
    Warn,
    Info,
    Debug,
    Trace,
}

/// The filter that the name `name` asks for: the names `ERROR`, `WARN`,
/// `INFO`, `DEBUG` and `TRACE` ask for their level, anything else for none.
pub open spec fn filter_by_name(name: Option<Seq<u8>>) -> LevelFilter {
    if name == Some(seq![69u8, 82u8, 82u8, 79u8, 82u8]) {
        LevelFilter::Error
    } else if name == Some(seq![87u8, 65u8, 82u8, 78u8]) {
        LevelFilter::Warn
    } else if name == Some(seq![73u8, 78u8, 70u8, 79u8]) {
        LevelFilter::Info
    } else if name == Some(seq![68u8, 69u8, 66u8, 85u8, 71u8]) {
        LevelFilter::Debug
    } else if name == Some(seq![84u8, 82u8, 65u8, 67u8, 69u8]) {
        LevelFilter::Trace
    } else {
        LevelFilter::Off
    }
}

/// Whether `name` consists of the four bytes given.
fn is_four(name: &Vec<u8>, a: u8, b: u8, c: u8, d: u8) -> (r: bool)
    ensures
        r == (name@ == seq![a, b, c, d]),
{
    if name.len() == 4 && name[0] == a && name[1] == b && name[2] == c && name[3] == d {
        assert(name@ =~= seq![a, b, c, d]);
        true
    } else {
        false
    }
}

/// Whether `name` consists of the five bytes given.
fn is_five(name: &Vec<u8>, a: u8, b: u8, c: u8, d: u8, e: u8) -> (r: bool)
    ensures
        r == (name@ == seq![a, b, c, d, e]),
{
    if name.len() == 5 && name[0] == a && name[1] == b && name[2] == c && name[3] == d && name[4] == e {
        assert(name@ =~= seq![a, b, c, d, e]);
        true
    } else {
        false
    }
}

/// Chooses the filter for the kernel's messages by the name that the
/// kernel was built with, if it was built with one.
pub fn init(log: Option<&Vec<u8>>) -> (filter: LevelFilter)
    ensures
        filter == filter_by_name(
            match log {
                Some(name) => Some(name@),
                None => None,
            },
        ),
{
    match log {
        Some(name) => {
            if is_five(name, 69, 82, 82, 79, 82) {
                LevelFilter::Error
            } else if is_four(name, 87, 65, 82, 78) {
                LevelFilter::Warn
            } else if is_four(name, 73, 78, 70, 79) {
                LevelFilter::Info
            } else if is_five(name, 68, 69, 66, 85, 71) {
                LevelFilter::Debug
            } else if is_five(name, 84, 82, 65, 67, 69) {
                LevelFilter::Trace
            } else {
                LevelFilter::Off
            }
        },
        None => LevelFilter::Off,
    }
}

/// The colour in which messages of the level `level` are shown.
pub open spec fn spec_level_to_color(level: Level) -> u8 {
    match level {
        Level::Error => ANSICON::FgRed.spec_code(),
        Level::Warn => ANSICON::FgLightYellow.spec_code(),
        Level::Info => ANSICON::FgBlue.spec_code(),
        Level::Debug => ANSICON::FgLightCyan.spec_code(),
        Level::Trace => ANSICON::FgLightGray.spec_code(),
    }
}

/// The colour in which messages of the level `level` are shown.
#[verifier::when_used_as_spec(spec_level_to_color)]
pub fn level_to_color(level: Level) -> (color: u8)
    ensures
        color == spec_level_to_color(level),
{
    match level {
        Level::Error => ANSICON::FgRed.code(),
        Level::Warn => ANSICON::FgLightYellow.code(),
        Level::Info => ANSICON::FgBlue.code(),
        Level::Debug => ANSICON::FgLightCyan.code(),
        Level::Trace => ANSICON::FgLightGray.code(),
    }
}

/// The name of a level, padded with blanks on the left to five characters.
pub open spec fn level_name(level: Level) -> Seq<u8> {
    match level {
        Level::Error => seq![69u8, 82u8, 82u8, 79u8, 82u8],
        Level::Warn => seq![32u8, 87u8, 65u8, 82u8, 78u8],
        Level::Info => seq![32u8, 73u8, 78u8, 70u8, 79u8],
        Level::Debug => seq![68u8, 69u8, 66u8, 85u8, 71u8],
        Level::Trace => seq![84u8, 82u8, 65u8, 67u8, 69u8],
    }
}

/// The line that the kernel writes for a message: the level and the hart in
/// brackets, a colon, the message, and the end of the line.
pub open spec fn log_line(level: Level, hart_id: u8, message: Seq<u8>) -> Seq<u8> {
    seq![91u8] + level_name(level) + seq![32u8] + decimal(hart_id as nat) + seq![93u8, 58u8, 32u8] + message
        + seq![13u8, 10u8]
}

/// The bytes to hand to the console for a message of the hart `hart_id`:
/// its line, in the colour of its level on the terminal's own background.
pub fn log(level: Level, hart_id: u8, message: &Vec<u8>) -> (out: Vec<u8>)
    ensures
        out@ == colorized(
            log_line(level, hart_id, message@),
            spec_level_to_color(level),
            ANSICON::BgDefault.spec_code(),
        ),
{
    let mut line: Vec<u8> = Vec::new();
    line.push(91);
    match level {
        Level::Error => {
            line.push(69);
            line.push(82);
            line.push(82);
            line.push(79);
            line.push(82);
        },
        Level::Warn => {
            line.push(32);
            line.push(87);
            line.push(65);
            line.push(82);
            line.push(78);
        },
        Level::Info => {
            line.push(32);
            line.push(73);
            line.push(78);
            line.push(70);
            line.push(79);
        },
        Level::Debug => {
            line.push(68);
            line.push(69);
            line.push(66);
            line.push(85);
            line.push(71);
        },
        Level::Trace => {
            line.push(84);
            line.push(82);
            line.push(65);
            line.push(67);
            line.push(69);
        },
    }
    assert(line@ =~= seq![91u8] + level_name(level));
    line.push(32);
    push_decimal(&mut line, hart_id);
    line.push(93);
    line.push(58);
    line.push(32);
    let ghost head = line@;
    assert(head =~= seq![91u8] + level_name(level) + seq![32u8] + decimal(hart_id as nat) + seq![
        93u8,
        58u8,
        32u8,
    ]);
    let mut i: usize = 0;
    while i < message.len()
        invariant
            i <= message@.len(),
            line@ == head + message@.take(i as int),
        decreases message@.len() - i,
    {
        line.push(message[i]);
        assert(message@.take(i + 1) == message@.take(i as int).push(message@[i as int]));
        assert(head + message@.take(i + 1) == (head + message@.take(i as int)).push(message@[i as int]));
        i += 1;
    }
    assert(message@.take(i as int) == message@);
    line.push(13);
    line.push(10);
    assert(line@ =~= log_line(level, hart_id, message@));
    print_colorized(&line, level_to_color(level), ANSICON::BgDefault.code())
}

} // verus!
