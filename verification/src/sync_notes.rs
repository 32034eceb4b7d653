use vstd::prelude::*;

verus! {

/// A note worth keeping about std's marker traits: `Send` permits moving a
/// value to another thread (a `MutexGuard` is not `Send`, because lock and
/// unlock must happen on the same thread, though it is `Sync`), while `Sync`
/// permits sharing a reference across threads (a `RefCell` is `Send` but not
/// `Sync`, because even a shared reference to it allows mutation).
pub fn outro() -> (r: &'static str)
    ensures
        r@ == "I have a good understanding of Send and Sync!"@,
{
    "I have a good understanding of Send and Sync!"
}

} // verus!
