//! The greeting: two lines for the host's log.

use vstd::prelude::*;

verus! {

/// The text that `ndarray` prints for a one-dimensional array of these
/// integers.
pub uninterp spec fn array_text(values: Seq<i32>) -> Seq<char>;

/// The small vector whose text is the second line of the greeting.
pub open spec fn sample_values() -> Seq<i32> {
    seq![1i32, 2i32, 3i32, 4i32]
}

/// The first line of every greeting.
pub open spec fn salutation() -> Seq<char> {
    "Hello from Rust!"@
}

/// Trusted: `ndarray::Array1::from_vec` followed by the array's `Display`
/// (through `to_string`). The array takes the elements as they are, and its
/// text depends on them alone; the contract gives that text its name and
/// claims nothing more of it.
#[verifier::external_body]
fn display_array(values: Vec<i32>) -> (text: String)
    ensures
        text@ == array_text(values@),
{
    ndarray::Array1::from_vec(values).to_string()
}

/// Puts the salutation in front of `array_line`.
pub fn greeting(array_line: String) -> (lines: Vec<String>)
    ensures
        lines@.len() == 2,
        lines@[0]@ == salutation(),
        lines@[1]@ == array_line@,
{
    let mut lines: Vec<String> = Vec::new();
    lines.push("Hello from Rust!".to_owned());
    lines.push(array_line);
    lines
}

/// The lines that a greeting sends to the host's log, in order: the fixed
/// salutation, then the sample vector as `ndarray` prints it.
pub fn greet() -> (lines: Vec<String>)
    ensures
        lines@.len() == 2,
        lines@[0]@ == salutation(),
        lines@[1]@ == array_text(sample_values()),
{
    let mut values: Vec<i32> = Vec::new();
    values.push(1);
    values.push(2);
    values.push(3);
    values.push(4);
    assert(values@ =~= sample_values());
    greeting(display_array(values))
}

} // verus!
