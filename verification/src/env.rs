use vstd::prelude::*;
use vstd::utf8::encode_utf8;
use crate::error::IoError;

verus! {

/// The line that shows one variable: its name, `=`, its value, and a line feed.
pub open spec fn env_line(name: Seq<char>, value: Seq<char>) -> Seq<u8> {
    encode_utf8(name) + seq![0x3du8] + encode_utf8(value) + seq![0x0au8]
}

/// The lines that show the variables, in their order.
pub open spec fn env_text(vars: Seq<(String, String)>) -> Seq<u8>
    decreases vars.len(),
{
    if vars.len() == 0 {
        Seq::empty()
    } else {
        env_text(vars.drop_last()) + env_line(vars.last().0@, vars.last().1@)
    }
}

/// Prints the environment, given as `env_vars`, to `stdout`. Arguments are not taken:
/// with any, nothing is printed and the call fails.
pub fn main(args: Vec<String>, env_vars: Vec<(String, String)>, stdout: &mut Vec<u8>) -> (res:
    Result<(), IoError>)
    ensures
        match res {
            Ok(_) => args@.len() == 0 && final(stdout)@ == old(stdout)@ + env_text(env_vars@),
            Err(e) => args@.len() != 0 && e.message@ == "env command accepts no arguments"@
                && final(stdout)@ == old(stdout)@,
        },
{
    if args.len() != 0 {
        return Err(IoError::new("env command accepts no arguments"));
    }
    _print_env(env_vars, stdout)
}

/// Appends to `stdout` one line for each variable, name and value with `=` between.
pub fn _print_env(env_vars: Vec<(String, String)>, stdout: &mut Vec<u8>) -> (res: Result<
    (),
    IoError,
>)
    ensures
        res is Ok,
        final(stdout)@ == old(stdout)@ + env_text(env_vars@),
{
    let mut i: usize = 0;
    while i < env_vars.len()
        invariant
            i <= env_vars@.len(),
            stdout@ == old(stdout)@ + env_text(env_vars@.take(i as int)),
        decreases env_vars@.len() - i,
    {
        let var = &env_vars[i];
        stdout.extend_from_slice(var.0.as_str().as_bytes());
        stdout.push(0x3du8);
        stdout.extend_from_slice(var.1.as_str().as_bytes());
        stdout.push(0x0au8);
        proof {
            let shown = env_vars@.take(i + 1);
            assert(shown.drop_last() =~= env_vars@.take(i as int));
        }
        i = i + 1;
    }
    assert(env_vars@.take(i as int) =~= env_vars@);
    Ok(())
}

} // verus!
