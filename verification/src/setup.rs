use vstd::prelude::*;
use vstd::string::{StrSliceExecFns, StringExecFns};

verus! {

/// The banner of the first-run setup dialogue.
pub fn setup_prompt(app_name: &str) -> (r: String)
    ensures
        r@ == "<"@ + app_name@ + " setup>"@,
{
    let mut p = String::from_str("<");
    p.append(app_name);
    p.append(" setup>");
    p
}

/// The question asked for one missing configuration key.
pub fn key_prompt(prompt: &str, key: &str) -> (r: String)
    ensures
        r@ == prompt@ + " Enter value for "@ + key@ + ": "@,
{
    let mut p = String::from_str(prompt);
    p.append(" Enter value for ");
    p.append(key);
    p.append(": ");
    p
}

/// Whether an answer settles a configuration key: only a non-empty line
/// is stored; an empty one has the question asked again.
pub fn setup_value_accepted(line: &str) -> (r: bool)
    ensures
        r == (line@.len() > 0),
{
    line.unicode_len() > 0
}

} // verus!
