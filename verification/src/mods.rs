use vstd::prelude::*;

verus! {

/// A simple JSON mod: its name, its contents, and an optional load priority (lower
/// numbers load first, 0 is the highest priority).
pub struct RawMod {
    pub name: String,
    pub data: String,
    pub priority: Option<i32>,
}

} // verus!
