//! The archive namer: a user-supplied label and the current time, as
//! whole seconds since the epoch, give the output filename
//! `<label>-<seconds>.zstd`. Uniqueness holds across seconds but not
//! within one: two archives made with one label in the same second get
//! the same name, and the second overwrites the first.

use vstd::prelude::*;
use vstd::string::StringExecFns;

verus! {

/// The character of a single decimal digit.
pub open spec fn digit_char(d: nat) -> char
    recommends
        d < 10,
{
    if d == 0 {
        '0'
    } else if d == 1 {
        '1'
    } else if d == 2 {
        '2'
    } else if d == 3 {
        '3'
    } else if d == 4 {
        '4'
    } else if d == 5 {
        '5'
    } else if d == 6 {
        '6'
    } else if d == 7 {
        '7'
    } else if d == 8 {
        '8'
    } else {
        '9'
    }
}

/// The decimal representation of a number, most significant digit
/// first, with no leading zeros (zero itself is "0").
pub open spec fn dec_seq(n: nat) -> Seq<char>
    decreases n,
{
    if n < 10 {
        seq![digit_char(n)]
    } else {
        dec_seq(n / 10).push(digit_char(n % 10))
    }
}

/// The filename for an archive made from `label` at `seconds` since the
/// epoch: the label, a separator, the seconds in decimal, and the
/// archive extension.
pub open spec fn archive_name_spec(label: Seq<char>, seconds: nat) -> Seq<char> {
    label + "-"@ + dec_seq(seconds) + ".zstd"@
}

fn digit_str(d: u64) -> (r: &'static str)
    requires
        d < 10,
    ensures
        r@ == seq![digit_char(d as nat)],
{
    proof {
        reveal_strlit("0");
        reveal_strlit("1");
        reveal_strlit("2");
        reveal_strlit("3");
        reveal_strlit("4");
        reveal_strlit("5");
        reveal_strlit("6");
        reveal_strlit("7");
        reveal_strlit("8");
        reveal_strlit("9");
    }
    if d == 0 {
        "0"
    } else if d == 1 {
        "1"
    } else if d == 2 {
        "2"
    } else if d == 3 {
        "3"
    } else if d == 4 {
        "4"
    } else if d == 5 {
        "5"
    } else if d == 6 {
        "6"
    } else if d == 7 {
        "7"
    } else if d == 8 {
        "8"
    } else {
        "9"
    }
}

/// Appends the decimal representation of `n` to `s`.
fn push_dec(n: u64, s: &mut String)
    ensures
        final(s)@ == old(s)@ + dec_seq(n as nat),
    decreases n,
{
    let ghost start = s@;
    if n >= 10 {
        push_dec(n / 10, s);
    }
    s.append(digit_str(n % 10));
    proof {
        if n >= 10 {
            assert(s@ =~= start + dec_seq((n / 10) as nat).push(digit_char((n % 10) as nat)));
        } else {
            assert(s@ =~= start + seq![digit_char(n as nat)]);
        }
    }
}

/// Builds the archive filename `<label>-<seconds>.zstd`.
pub fn archive_file_name(label: &str, seconds: u64) -> (r: String)
    ensures
        r@ == archive_name_spec(label@, seconds as nat),
{
    let mut s = label.to_owned();
    s.append("-");
    push_dec(seconds, &mut s);
    s.append(".zstd");
    proof {
        assert(s@ =~= archive_name_spec(label@, seconds as nat));
    }
    s
}

/// The archive's root entry name: the final component of the source
/// directory's path, or a fixed fallback where the path has none (a
/// root path, for example).
pub fn root_entry_name(component: Option<String>) -> (r: String)
    ensures
        component is Some ==> r@ == component->0@,
        component is None ==> r@ == "archive"@,
{
    match component {
        Option::Some(name) => name,
        Option::None => "archive".to_owned(),
    }
}

/// Joins the archive root name and a relative path below it into one
/// entry path, with the fixed separator between them.
pub fn entry_path(root: &str, rel: &str) -> (r: String)
    ensures
        r@ == root@ + "/"@ + rel@,
{
    let mut s = root.to_owned();
    s.append("/");
    s.append(rel);
    proof {
        assert(s@ =~= root@ + "/"@ + rel@);
    }
    s
}

} // verus!
