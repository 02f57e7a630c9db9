//! What the compiler shares with the build: a loader and a resolver that
//! look nothing up, and sizes in print.

use vstd::prelude::*;
use vstd::string::StringExecFns;

verus! {

/// A module as a loader hands it over: its name and its source text.
#[derive(Clone, Debug)]
pub struct ModuleSource {
    pub name: String,
    pub source: String,
}

/// A loader that finds nothing: every module is empty.
pub struct DummyLoader;

impl DummyLoader {
    /// The module of the given name, with an empty source.
    pub fn load(&mut self, name: &str) -> (r: ModuleSource)
        ensures
            r.name@ == name@,
            r.source@ == Seq::<char>::empty(),
    {
        ModuleSource { name: name.to_owned(), source: String::new() }
    }
}

/// A resolver that resolves nothing: every name stands for itself.
pub struct DummyResolver;

impl DummyResolver {
    /// The name as it was given, whatever the base.
    pub fn resolve(&mut self, base: &str, name: &str) -> (r: String)
        ensures
            r@ == name@,
    {
        name.to_owned()
    }
}

/// The sizes below this one have a unit: 1024 to the sixth power.
pub const SIZE_LIMIT: u64 = 0x1000_0000_0000_0000;

/// The number of the unit that a size is printed in: the largest of six
/// whose size, a power of 1024, is not above it.
pub open spec fn unit_index(size: nat) -> nat {
    if size < 0x400 {
        0
    } else if size < 0x10_0000 {
        1
    } else if size < 0x4000_0000 {
        2
    } else if size < 0x100_0000_0000 {
        3
    } else if size < 0x4_0000_0000_0000 {
        4
    } else {
        5
    }
}

/// The bytes in the unit of the given number.
pub open spec fn unit_size(index: nat) -> nat {
    if index == 0 {
        1
    } else if index == 1 {
        0x400
    } else if index == 2 {
        0x10_0000
    } else if index == 3 {
        0x4000_0000
    } else if index == 4 {
        0x100_0000_0000
    } else {
        0x4_0000_0000_0000
    }
}

/// The name of the unit of the given number.
pub open spec fn unit_name(index: nat) -> Seq<char> {
    if index == 0 {
        "B"@
    } else if index == 1 {
        "kB"@
    } else if index == 2 {
        "MB"@
    } else if index == 3 {
        "GB"@
    } else if index == 4 {
        "TB"@
    } else {
        "PB"@
    }
}

/// `n / d` as the nearest whole number, the even one where two are as near.
pub open spec fn round_half_even(n: nat, d: nat) -> nat {
    let q = n / d;
    let r = n % d;
    if 2 * r > d || (2 * r == d && q % 2 == 1) {
        q + 1
    } else {
        q
    }
}

/// A size in thousandths of its unit, rounded.
pub open spec fn thousandths(size: nat) -> nat {
    round_half_even(size * 1000, unit_size(unit_index(size)))
}

/// The character of a decimal digit.
pub open spec fn digit_char(d: nat) -> char {
    (0x30 + d) as u8 as char
}

/// A number in decimal digits, without leading zeros.
pub open spec fn decimal(n: nat) -> Seq<char>
    decreases n,
{
    if n < 10 {
        seq![digit_char(n)]
    } else {
        decimal(n / 10).push(digit_char(n % 10))
    }
}

/// A size in print: its amount in the unit, with three decimals, a space
/// and the unit's name.
pub open spec fn human_text(size: nat) -> Seq<char> {
    let t = thousandths(size);
    decimal(t / 1000) + seq!['.', digit_char(t / 100 % 10), digit_char(t / 10 % 10), digit_char(t % 10), ' ']
        + unit_name(unit_index(size))
}

/// The text of one decimal digit.
fn digit_text(d: u8) -> (r: &'static str)
    requires
        d < 10,
    ensures
        r@ == seq![digit_char(d as nat)],
{
    proof {
        reveal_strlit("0");
        reveal_strlit("1");
        reveal_strlit("2");
        reveal_strlit("3");
        reveal_strlit("4");
        reveal_strlit("5");
        reveal_strlit("6");
        reveal_strlit("7");
        reveal_strlit("8");
        reveal_strlit("9");
    }
    match d {
        0 => "0",
        1 => "1",
        2 => "2",
        3 => "3",
        4 => "4",
        5 => "5",
        6 => "6",
        7 => "7",
        8 => "8",
        _ => "9",
    }
}

/// Adds the decimal digits of `n` to the end of `text`.
fn push_decimal(text: &mut String, n: u64)
    ensures
        final(text)@ == old(text)@ + decimal(n as nat),
    decreases n,
{
    if n >= 10 {
        push_decimal(text, n / 10);
    }
    text.append(digit_text((n % 10) as u8));
}

/// The unit of a size, by number and by name, and the bytes in it.
fn unit_of(size: usize) -> (r: (&'static str, u64))
    requires
        size < SIZE_LIMIT,
    ensures
        r.0@ == unit_name(unit_index(size as nat)),
        r.1 == unit_size(unit_index(size as nat)),
{
    if size < 0x400 {
        ("B", 1)
    } else if size < 0x10_0000 {
        ("kB", 0x400)
    } else if size < 0x4000_0000 {
        ("MB", 0x10_0000)
    } else if (size as u64) < 0x100_0000_0000 {
        ("GB", 0x4000_0000)
    } else if (size as u64) < 0x4_0000_0000_0000 {
        ("TB", 0x100_0000_0000)
    } else {
        ("PB", 0x4_0000_0000_0000)
    }
}

/// A size in bytes as a reader wants it: in the largest unit that it
/// fills, to three decimals, as in `1.500 kB`. Halves of a thousandth go to
/// the even neighbour.
pub fn human_file_size(size: usize) -> (r: String)
    requires
        size < SIZE_LIMIT,
    ensures
        r@ == human_text(size as nat),
{
    let (name, unit) = unit_of(size);
    let scaled: u128 = (size as u128) * 1000;
    let whole: u128 = scaled / (unit as u128);
    let rest: u128 = scaled % (unit as u128);
    let t: u128 = if 2 * rest > unit as u128 || (2 * rest == unit as u128 && whole % 2 == 1) {
        whole + 1
    } else {
        whole
    };
    let mut text = String::new();
    push_decimal(&mut text, (t / 1000) as u64);
    text.append(".");
    text.append(digit_text((t / 100 % 10) as u8));
    text.append(digit_text((t / 10 % 10) as u8));
    text.append(digit_text((t % 10) as u8));
    text.append(" ");
    text.append(name);
    proof {
        reveal_strlit(".");
        reveal_strlit(" ");
    }
    text
}

} // verus!
