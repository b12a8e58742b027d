//! The two callable commands: a greeting formatter and the GPU-task stub.
//! Both are pure: each result is a function of the arguments alone.

use vstd::prelude::*;

verus! {

/// The text the greeting command returns for a request `name`: the name
/// embedded verbatim between a fixed prefix and a fixed suffix.
pub open spec fn greet_message(name: Seq<char>) -> Seq<char> {
    "Hello, "@ + name + "! You've been greeted from Rust!"@
}

/// The fixed text the GPU-task stub returns.
pub open spec fn gpu_task_message() -> Seq<char> {
    "GPU task completed"@
}

/// Formats a greeting that embeds the request name verbatim. Total: no
/// validation, no error condition, no side effect.
pub fn greet(name: &str) -> (r: String)
    ensures
        r@ == greet_message(name@),
{
    let mut out = String::from_str("Hello, ");
    out.append(name);
    out.append("! You've been greeted from Rust!");
    out
}

/// Returns the constant completion text. A placeholder for future GPU work:
/// it computes nothing and has no side effect.
pub fn perform_gpu_task() -> (r: String)
    ensures
        r@ == gpu_task_message(),
{
    String::from_str("GPU task completed")
}

/// The greeting's shape, for every request: it opens with the fixed prefix,
/// carries the request name verbatim as a contiguous substring right after
/// it, and ends with the fixed suffix.
pub proof fn lemma_greet_embeds_name(name: Seq<char>)
    ensures
        greet_message(name).take(7) == "Hello, "@,
        greet_message(name).subrange(7, 7 + name.len() as int) == name,
        greet_message(name).skip(7 + name.len() as int) == "! You've been greeted from Rust!"@,
{
    reveal_strlit("Hello, ");
    reveal_strlit("! You've been greeted from Rust!");
    let prefix = "Hello, "@;
    let suffix = "! You've been greeted from Rust!"@;
    assert(greet_message(name).take(7) =~= prefix);
    assert(greet_message(name).subrange(7, 7 + name.len() as int) =~= name);
    assert(greet_message(name).skip(7 + name.len() as int) =~= suffix);
}

} // verus!
