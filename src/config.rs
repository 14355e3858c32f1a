use vstd::prelude::*;

verus! {

/// Where the board's store lives.
#[derive(Clone, Debug)]
pub struct Config {
    pub storage_path: String,
}

} // verus!
