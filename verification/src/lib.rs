use vstd::prelude::*;

pub mod text;
pub mod table;
pub mod external;
pub mod universal_cache;
pub mod symbol;
pub mod workspace;
pub mod watchdog;

verus! {
}
