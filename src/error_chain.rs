use vstd::prelude::*;

verus! {

/// The line that reports one cause of an error.
pub open spec fn cause_line(cause: Seq<char>) -> Seq<char> {
    "Caused by: \n\t"@ + cause + "\n"@
}

/// The lines of the first `n` causes, in order.
pub open spec fn causes_text(causes: Seq<String>, n: nat) -> Seq<char>
    decreases n,
{
    if n == 0 || n > causes.len() {
        Seq::empty()
    } else {
        causes_text(causes, (n - 1) as nat) + cause_line(causes[n - 1]@)
    }
}

/// An error's message, a blank line, then one line for each cause in turn.
pub open spec fn error_chain_text(message: Seq<char>, causes: Seq<String>) -> Seq<char> {
    message + "\n\n"@ + causes_text(causes, causes.len())
}

/// Renders an error together with the chain of errors that caused it,
/// innermost last.
pub fn error_chain_fmt(message: &str, causes: &Vec<String>) -> (r: String)
    ensures
        r@ == error_chain_text(message@, causes@),
{
    let mut r = String::from_str(message);
    r.append("\n\n");
    let mut i: usize = 0;
    while i < causes.len()
        invariant
            i <= causes@.len(),
            r@ == message@ + "\n\n"@ + causes_text(causes@, i as nat),
        decreases causes@.len() - i,
    {
        r.append("Caused by: \n\t");
        r.append(causes[i].as_str());
        r.append("\n");
        proof {
            assert(r@ =~= message@ + "\n\n"@ + causes_text(causes@, (i + 1) as nat));
        }
        i = i + 1;
    }
    r
}

} // verus!
