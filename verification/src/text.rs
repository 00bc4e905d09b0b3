//! The texts that the entry points hand to the console.

use vstd::prelude::*;

verus! {

/// The decimal digit for `d`, which is below ten.
pub open spec fn digit(d: nat) -> char {
    "0123456789"@[d as int]
}

/// `n` in decimal notation, without leading zeros.
pub open spec fn decimal(n: nat) -> Seq<char>
    decreases n,
{
    if n < 10 {
        seq![digit(n)]
    } else {
        decimal(n / 10).push(digit(n % 10))
    }
}

/// `text` as a line of its own: it ends with carriage return and line feed.
pub open spec fn line(text: Seq<char>) -> Seq<char> {
    text + "\r\n"@
}

/// The line of a message that is marked with `prefix` and names the module
/// it comes from.
pub open spec fn prefixed_line(prefix: Seq<char>, module: Seq<char>, message: Seq<char>) -> Seq<char> {
    prefix + module + " - "@ + message + "\r\n"@
}

/// Whether `prefix` is one of the three marks of a level-prefixed line.
pub open spec fn is_level_prefix(prefix: Seq<char>) -> bool {
    prefix == "E: "@ || prefix == "W: "@ || prefix == "I: "@
}

/// A line ends with carriage return and line feed whatever the text is, and
/// the line of the empty text is these two characters alone.
pub proof fn lemma_line_ends_with_crlf(text: Seq<char>)
    ensures
        line(text).len() == text.len() + 2,
        line(text).subrange(0, text.len() as int) == text,
        line(text)[text.len() as int] == '\r',
        line(text)[text.len() as int + 1] == '\n',
        text.len() == 0 ==> line(text) == seq!['\r', '\n'],
{
    reveal_strlit("\r\n");
    assert(line(text).subrange(0, text.len() as int) =~= text);
    if text.len() == 0 {
        assert(line(text) =~= seq!['\r', '\n']);
    }
}

/// A level-prefixed line begins with exactly one of the three marks, which
/// is followed by the module, the separator, the message and the line end.
pub proof fn lemma_prefixed_line_shape(prefix: Seq<char>, module: Seq<char>, message: Seq<char>)
    requires
        is_level_prefix(prefix),
    ensures
        ({
            let l = prefixed_line(prefix, module, message);
            let m: int = module.len() as int + 3;
            let e: int = m + 3 + message.len() as int;
            &&& l.len() == e + 2
            &&& "E: "@.is_prefix_of(l) <==> prefix == "E: "@
            &&& "W: "@.is_prefix_of(l) <==> prefix == "W: "@
            &&& "I: "@.is_prefix_of(l) <==> prefix == "I: "@
            &&& l.subrange(0, 3) == prefix
            &&& l.subrange(3, m) == module
            &&& l.subrange(m, m + 3) == " - "@
            &&& l.subrange(m + 3, e) == message
            &&& l.subrange(e, e + 2) == "\r\n"@
        }),
{
    reveal_strlit("E: ");
    reveal_strlit("W: ");
    reveal_strlit("I: ");
    reveal_strlit(" - ");
    reveal_strlit("\r\n");
    let l = prefixed_line(prefix, module, message);
    let m: int = module.len() as int + 3;
    let e: int = m + 3 + message.len() as int;
    assert(l.subrange(0, 3) =~= prefix);
    assert(l.subrange(3, m) =~= module);
    assert(l.subrange(m, m + 3) =~= " - "@);
    assert(l.subrange(m + 3, e) =~= message);
    assert(l.subrange(e, e + 2) =~= "\r\n"@);
    assert(l[0] == prefix[0]);
}

fn digit_str(d: u32) -> (s: &'static str)
    requires
        d < 10,
    ensures
        s@ == seq![digit(d as nat)],
{
    proof {
        reveal_strlit("0123456789");
        reveal_strlit("0");
        reveal_strlit("1");
        reveal_strlit("2");
        reveal_strlit("3");
        reveal_strlit("4");
        reveal_strlit("5");
        reveal_strlit("6");
        reveal_strlit("7");
        reveal_strlit("8");
        reveal_strlit("9");
    }
    if d == 0 {
        "0"
    } else if d == 1 {
        "1"
    } else if d == 2 {
        "2"
    } else if d == 3 {
        "3"
    } else if d == 4 {
        "4"
    } else if d == 5 {
        "5"
    } else if d == 6 {
        "6"
    } else if d == 7 {
        "7"
    } else if d == 8 {
        "8"
    } else {
        "9"
    }
}

/// Appends `n` in decimal notation to `out`.
pub fn push_decimal(out: &mut String, n: u32)
    ensures
        final(out)@ == old(out)@ + decimal(n as nat),
    decreases n,
{
    if n >= 10 {
        push_decimal(out, n / 10);
    }
    out.append(digit_str(n % 10));
}

/// Renders `text` as a line of its own.
pub fn render_line(text: &str) -> (out: String)
    ensures
        out@ == line(text@),
{
    let mut out = String::from_str(text);
    out.append("\r\n");
    out
}

/// Renders the line of a message that is marked with `prefix`.
pub fn render_prefixed(prefix: &str, module: &str, message: &str) -> (out: String)
    ensures
        out@ == prefixed_line(prefix@, module@, message@),
{
    let mut out = String::from_str(prefix);
    out.append(module);
    out.append(" - ");
    out.append(message);
    out.append("\r\n");
    out
}

} // verus!
