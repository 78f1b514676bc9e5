use vstd::prelude::*;

pub mod greeting;
pub mod model;
pub mod router;
pub mod space;

verus! {

/// Process-wide shared state handed to every command invocation. The
/// bot keeps no state of its own across invocations — the platform's
/// live channel list is the only source of truth — so this is empty.
pub struct Data {}

} // verus!
