use vstd::prelude::*;

verus! {

/// The codes of the text attributes and colours that a terminal takes
/// between `ESC [` and `m`.
#[allow(dead_code)]
#[derive(Clone, Copy, Debug, PartialEq, Eq, Structural)]
pub enum ANSICON {
    Reset,
    Bold,
    Underline,
    Blink,
    Reverse,
    FgBlack,
    FgRed,
    FgGreen,
    FgYellow,
    FgBlue,
    FgMagenta,
    FgCyan,
    FgWhite,
    FgDefault,
    FgLightGray,
    FgLightRed,
    FgLightGreen,
    FgLightYellow,
    FgLightBlue,
    FgLightMagenta,
    FgLightCyan,
    FgLightWhite,
    BgBlack,
    BgRed,
    BgGreen,
    BgYellow,
    BgBlue,
    BgMagenta,
    BgCyan,
    BgWhite,
    BgDefault,
    BgLightGray,
    BgLightRed,
    BgLightGreen,
    BgLightYellow,
    BgLightBlue,
    BgLightMagenta,
    BgLightCyan,
    BgLightWhite,
}

impl ANSICON {
    /// The number that the terminal knows the attribute or colour by.
    pub open spec fn spec_code(self) -> u8 {
        match self {
            ANSICON::Reset => 0,
            ANSICON::Bold => 1,
            ANSICON::Underline => 4,
            ANSICON::Blink => 5,
            ANSICON::Reverse => 7,
            ANSICON::FgBlack => 30,
            ANSICON::FgRed => 31,
            ANSICON::FgGreen => 32,
            ANSICON::FgYellow => 33,
            ANSICON::FgBlue => 34,
            ANSICON::FgMagenta => 35,
            ANSICON::FgCyan => 36,
            ANSICON::FgWhite => 37,
            ANSICON::FgDefault => 39,
            ANSICON::FgLightGray => 90,
            ANSICON::FgLightRed => 91,
            ANSICON::FgLightGreen => 92,
            ANSICON::FgLightYellow => 93,
            ANSICON::FgLightBlue => 94,
            ANSICON::FgLightMagenta => 95,
            ANSICON::FgLightCyan => 96,
            ANSICON::FgLightWhite => 97,
            ANSICON::BgBlack => 40,
            ANSICON::BgRed => 41,
            ANSICON::BgGreen => 42,
            ANSICON::BgYellow => 43,
            ANSICON::BgBlue => 44,
            ANSICON::BgMagenta => 45,
            ANSICON::BgCyan => 46,
            ANSICON::BgWhite => 47,
            ANSICON::BgDefault => 49,
            ANSICON::BgLightGray => 100,
            ANSICON::BgLightRed => 101,
            ANSICON::BgLightGreen => 102,
            ANSICON::BgLightYellow => 103,
            ANSICON::BgLightBlue => 104,
            ANSICON::BgLightMagenta => 105,
            ANSICON::BgLightCyan => 106,
            ANSICON::BgLightWhite => 107,
        }
    }

    /// The number that the terminal knows the attribute or colour by.
    #[verifier::when_used_as_spec(spec_code)]
    pub fn code(self) -> (c: u8)
        ensures
            c == self.spec_code(),
    {
        match self {
            ANSICON::Reset => 0,
            ANSICON::Bold => 1,
            ANSICON::Underline => 4,
            ANSICON::Blink => 5,
            ANSICON::Reverse => 7,
            ANSICON::FgBlack => 30,
            ANSICON::FgRed => 31,
            ANSICON::FgGreen => 32,
            ANSICON::FgYellow => 33,
            ANSICON::FgBlue => 34,
            ANSICON::FgMagenta => 35,
            ANSICON::FgCyan => 36,
            ANSICON::FgWhite => 37,
            ANSICON::FgDefault => 39,
            ANSICON::FgLightGray => 90,
            ANSICON::FgLightRed => 91,
            ANSICON::FgLightGreen => 92,
            ANSICON::FgLightYellow => 93,
            ANSICON::FgLightBlue => 94,
            ANSICON::FgLightMagenta => 95,
            ANSICON::FgLightCyan => 96,
            ANSICON::FgLightWhite => 97,
            ANSICON::BgBlack => 40,
            ANSICON::BgRed => 41,
            ANSICON::BgGreen => 42,
            ANSICON::BgYellow => 43,
            ANSICON::BgBlue => 44,
            ANSICON::BgMagenta => 45,
            ANSICON::BgCyan => 46,
            ANSICON::BgWhite => 47,
            ANSICON::BgDefault => 49,
            ANSICON::BgLightGray => 100,
            ANSICON::BgLightRed => 101,
            ANSICON::BgLightGreen => 102,
            ANSICON::BgLightYellow => 103,
            ANSICON::BgLightBlue => 104,
            ANSICON::BgLightMagenta => 105,
            ANSICON::BgLightCyan => 106,
            ANSICON::BgLightWhite => 107,
        }
    }
}

/// The character ESC, which starts a command to the terminal.
pub const ESC: u8 = 0x1b;

/// The decimal digits of `n`, as characters, without leading zeros.
pub open spec fn decimal(n: nat) -> Seq<u8>
    decreases n,
{
    if n < 10 {
        seq![(48 + n) as u8]
    } else {
        decimal(n / 10).push((48 + n % 10) as u8)
    }
}

/// The command that switches the terminal to the attribute or colour `code`.
pub open spec fn escape(code: u8) -> Seq<u8> {
    seq![ESC, 91u8] + decimal(code as nat) + seq![109u8]
}

/// `content` wrapped so that a terminal shows it in the foreground colour
/// `foreground_color` on the background `background_color` and then goes
/// back to its normal colours.
pub open spec fn colorized(content: Seq<u8>, foreground_color: u8, background_color: u8) -> Seq<u8> {
    escape(foreground_color) + escape(background_color) + content + escape(0)
}

/// Appends the decimal digits of `n` to `out`.
pub fn push_decimal(out: &mut Vec<u8>, n: u8)
    ensures
        final(out)@ == old(out)@ + decimal(n as nat),
{
    if n >= 100 {
        out.push(48 + n / 100);
        out.push(48 + (n / 10) % 10);
        out.push(48 + n % 10);
        proof {
            reveal_with_fuel(decimal, 3);
            assert(decimal(n as nat) =~= seq![(48 + n / 100) as u8, (48 + (n / 10) % 10) as u8, (48 + n % 10) as u8]);
        }
    } else if n >= 10 {
        out.push(48 + n / 10);
        out.push(48 + n % 10);
        proof {
            reveal_with_fuel(decimal, 2);
            assert(decimal(n as nat) =~= seq![(48 + n / 10) as u8, (48 + n % 10) as u8]);
        }
    } else {
        out.push(48 + n);
        assert(decimal(n as nat) =~= seq![(48 + n) as u8]);
    }
    assert(out@ =~= old(out)@ + decimal(n as nat));
}

/// Appends the command that switches the terminal to `code` to `out`.
pub fn push_escape(out: &mut Vec<u8>, code: u8)
    ensures
        final(out)@ == old(out)@ + escape(code),
{
    out.push(ESC);
    out.push(91);
    push_decimal(out, code);
    out.push(109);
    assert(out@ =~= old(out)@ + escape(code));
}

/// The bytes to hand to the console, one by one, to print `text`.
pub fn print(text: &Vec<u8>) -> (out: Vec<u8>)
    ensures
        out@ == text@,
{
    let mut out: Vec<u8> = Vec::new();
    let mut i: usize = 0;
    while i < text.len()
        invariant
            i <= text@.len(),
            out@ == text@.take(i as int),
        decreases text@.len() - i,
    {
        out.push(text[i]);
        assert(text@.take(i + 1) == text@.take(i as int).push(text@[i as int]));
        i += 1;
    }
    assert(text@.take(i as int) == text@);
    out
}

/// The bytes to hand to the console, one by one, to print `text` in the
/// foreground colour `foreground_color` on the background
/// `background_color`.
pub fn print_colorized(text: &Vec<u8>, foreground_color: u8, background_color: u8) -> (out: Vec<u8>)
    ensures
        out@ == colorized(text@, foreground_color, background_color),
{
    let mut out: Vec<u8> = Vec::new();
    push_escape(&mut out, foreground_color);
    push_escape(&mut out, background_color);
    let ghost head = out@;
    let mut i: usize = 0;
    while i < text.len()
        invariant
            i <= text@.len(),
            out@ == head + text@.take(i as int),
        decreases text@.len() - i,
    {
        out.push(text[i]);
        assert(text@.take(i + 1) == text@.take(i as int).push(text@[i as int]));
        assert(head + text@.take(i + 1) == (head + text@.take(i as int)).push(text@[i as int]));
        i += 1;
    }
    assert(text@.take(i as int) == text@);
    push_escape(&mut out, 0);
    assert(out@ =~= colorized(text@, foreground_color, background_color));
    out
}

} // verus!
