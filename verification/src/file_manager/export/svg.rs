//! Exporting a project as one picture for each page.

use crate::path::{file_name_of, FsPath};
use crate::text::string_of;
use vstd::prelude::*;

verus! {

/// The digit that writes a number below ten.
pub open spec fn digit_at(d: nat) -> char {
    (48 + d) as u8 as char
}

/// A number written in decimal.
pub open spec fn decimal_of(n: nat) -> Seq<char>
    decreases n,
{
    if n < 10 {
        seq![digit_at(n)]
    } else {
        decimal_of(n / 10).push(digit_at(n % 10))
    }
}

/// Writes a number in decimal.
pub fn decimal(n: usize) -> (text: String)
    ensures
        text@ == decimal_of(n as nat),
{
    let mut backwards: Vec<char> = Vec::new();
    let mut rest: usize = n;
    while rest >= 10
        invariant
            decimal_of(n as nat) == decimal_of(rest as nat) + backwards@.reverse(),
        decreases rest,
    {
        let digit: u8 = (rest % 10) as u8;
        let ghost before = backwards@;
        backwards.push((48 + digit) as char);
        proof {
            assert(backwards@.reverse() =~= seq![digit_at((rest % 10) as nat)] + before.reverse());
            assert(decimal_of(rest as nat) == decimal_of((rest / 10) as nat).push(
                digit_at((rest % 10) as nat),
            ));
            assert(decimal_of(n as nat) =~= decimal_of((rest / 10) as nat)
                + backwards@.reverse());
        }
        rest = rest / 10;
    }
    let digit: u8 = rest as u8;
    let ghost before = backwards@;
    backwards.push((48 + digit) as char);
    proof {
        assert(backwards@.reverse() =~= seq![digit_at(rest as nat)] + before.reverse());
        assert(decimal_of(n as nat) =~= backwards@.reverse());
    }
    let mut out: Vec<char> = Vec::new();
    let mut i: usize = backwards.len();
    while i > 0
        invariant
            i <= backwards.len(),
            out@ == backwards@.reverse().take(backwards.len() - i),
        decreases i,
    {
        i -= 1;
        out.push(backwards[i]);
        assert(backwards@.reverse().take(backwards.len() - i) =~= backwards@.reverse().take(
            backwards.len() - i - 1,
        ).push(backwards@[i as int]));
    }
    assert(backwards@.reverse().take(backwards.len() as int) =~= backwards@.reverse());
    string_of(&out)
}

/// The name that the files of an export share: the file name of the path
/// that the user picked, or `output` where the path has none.
pub open spec fn base_name_of(output_path: crate::path::PathView) -> Seq<char> {
    match file_name_of(output_path) {
        Some(name) => name,
        None => "output"@,
    }
}

/// The name that the files of an export share.
pub fn svg_base_name(output_path: &FsPath) -> (name: String)
    ensures
        name@ == base_name_of(output_path@),
{
    match output_path.file_name() {
        Some(name) => name,
        None => String::from_str("output"),
    }
}

/// The name of the file for the page number `index`: the base name, a
/// dash, the number, and the extension of a picture.
pub fn svg_file_name(output_base_name: &str, index: usize) -> (name: String)
    ensures
        name@ == output_base_name@ + "-"@ + decimal_of(index as nat) + ".svg"@,
{
    let head = crate::file_manager::export::errors::append_text(output_base_name, "-");
    let number = decimal(index);
    let numbered = crate::file_manager::export::errors::append_text(head.as_str(), number.as_str());
    crate::file_manager::export::errors::append_text(numbered.as_str(), ".svg")
}

} // verus!
