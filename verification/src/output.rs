//! Where the processed images are written.

use vstd::prelude::*;

verus! {

/// The file name of the processed image: `<stem>.cyber.<ext>`.
pub open spec fn spec_output_file_name(stem: Seq<char>, ext: Seq<char>) -> Seq<char> {
    stem + ".cyber."@ + ext
}

/// Builds `<stem>.cyber.<ext>` from the input's file stem and extension.
pub fn output_file_name(stem: &str, ext: &str) -> (name: String)
    ensures
        name@ == spec_output_file_name(stem@, ext@),
{
    let mut name = stem.to_owned();
    name.append(".cyber.");
    name.append(ext);
    name
}

/// The decimal digit character of `d`.
pub open spec fn digit_char(d: nat) -> char {
    ('0' as nat + d) as char
}

/// The decimal spelling of `n`, without leading zeros.
pub open spec fn spec_decimal(n: nat) -> Seq<char>
    decreases n,
{
    if n < 10 {
        seq![digit_char(n)]
    } else {
        spec_decimal(n / 10).push(digit_char(n % 10))
    }
}

/// The one-character string of digit `d`.
fn digit_str(d: u32) -> (s: &'static str)
    requires
        d < 10,
    ensures
        s@ == seq![digit_char(d as nat)],
{
    match d {
        0 => {
            proof { reveal_strlit("0"); }
            "0"
        },
        1 => {
            proof { reveal_strlit("1"); }
            "1"
        },
        2 => {
            proof { reveal_strlit("2"); }
            "2"
        },
        3 => {
            proof { reveal_strlit("3"); }
            "3"
        },
        4 => {
            proof { reveal_strlit("4"); }
            "4"
        },
        5 => {
            proof { reveal_strlit("5"); }
            "5"
        },
        6 => {
            proof { reveal_strlit("6"); }
            "6"
        },
        7 => {
            proof { reveal_strlit("7"); }
            "7"
        },
        8 => {
            proof { reveal_strlit("8"); }
            "8"
        },
        _ => {
            proof { reveal_strlit("9"); }
            "9"
        },
    }
}

/// Appends the decimal spelling of `n` to `out`.
fn push_decimal(out: &mut String, n: u32)
    ensures
        final(out)@ == old(out)@ + spec_decimal(n as nat),
    decreases n,
{
    if n >= 10 {
        push_decimal(out, n / 10);
    }
    out.append(digit_str(n % 10));
    assert(out@ =~= old(out)@ + spec_decimal(n as nat));
}

/// The file name of variant `index` of a random batch:
/// `<stem>.cyber.<index>.<ext>`.
pub open spec fn spec_indexed_output_file_name(stem: Seq<char>, index: nat, ext: Seq<char>) -> Seq<char> {
    stem + ".cyber."@ + spec_decimal(index) + "."@ + ext
}

/// Builds `<stem>.cyber.<index>.<ext>`.
pub fn indexed_output_file_name(stem: &str, index: u32, ext: &str) -> (name: String)
    ensures
        name@ == spec_indexed_output_file_name(stem@, index as nat, ext@),
{
    let mut name = stem.to_owned();
    name.append(".cyber.");
    push_decimal(&mut name, index);
    name.append(".");
    name.append(ext);
    name
}

/// The file name of the animation: `<stem>.cyber.gif`.
pub open spec fn spec_animation_file_name(stem: Seq<char>) -> Seq<char> {
    stem + ".cyber.gif"@
}

/// Builds `<stem>.cyber.gif`.
pub fn animation_file_name(stem: &str) -> (name: String)
    ensures
        name@ == spec_animation_file_name(stem@),
{
    let mut name = stem.to_owned();
    name.append(".cyber.gif");
    name
}

} // verus!
