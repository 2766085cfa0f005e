//! Variables of the environment.

use crate::shell::{invoke_system_command, Invocation};
use vstd::prelude::*;

verus! {

/// Capable of being a variable of the environment: something with a name and
/// a value. The trait marks a type and asks nothing of it.
pub trait Variable {

}

/// Prepares the look-up of the variable `name` through the terminal: an
/// `echo` of the name behind a blank and a dollar sign. `name` is left in
/// that form. The host launches what is prepared here.
pub fn invoke_output(name: &mut String) -> (invocation: Invocation)
    ensures
        final(name)@ == " $"@ + old(name)@,
        invocation@.program == "echo"@,
        invocation@.arguments == seq![final(name)@],
{
    let mut reference = String::from_str(" $");
    reference.append(name.as_str());
    *name = reference;
    let arguments: Vec<String> = vec![name.clone()];
    let invocation = invoke_system_command("echo", Some(&arguments));
    assert(arguments.deep_view() =~= seq![name@]);
    invocation
}

} // verus!
