use vstd::prelude::*;

verus! {

/// Where and as whom to reach the storage server.
#[derive(Debug)]
pub struct Settings {
    pub surrealdb_host: String,
    pub surrealdb_db: String,
    pub surrealdb_ns: String,
    pub surrealdb_user: String,
    pub surrealdb_pass: String,
}

} // verus!
