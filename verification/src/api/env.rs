//! The endpoints of the global environment.

use vstd::prelude::*;
use vstd::string::*;
use crate::api::req::EnvRequest;
use crate::constants::{ENV_GLOBAL_KEY, MODULE_ENV};
use crate::env::EnvManager;
use crate::kvs::{KvsForDb, KvsView};

verus! {

/// The text of the environment.
#[derive(Debug, Default, Clone, PartialEq, Eq)]
pub struct EnvResponse {
    pub values: String,
}

/// The text of the environment as the store has it: the value of its row,
/// or the empty text where there is no row.
pub fn get_global_env(row: Option<&KvsForDb>) -> (r: EnvResponse)
    ensures
        r.values@ == (match row {
            Some(kv) => kv@.value,
            None => Seq::empty(),
        }),
{
    match row {
        Some(kv) => EnvResponse { values: kv.value.clone() },
        None => EnvResponse { values: String::new() },
    }
}

/// The row of the environment, but for its `id`.
pub open spec fn env_row(values: Seq<char>) -> KvsView {
    KvsView {
        id: 0,
        module: MODULE_ENV@,
        key: ENV_GLOBAL_KEY@,
        sub_key: Seq::empty(),
        third_key: Seq::empty(),
        value: values,
    }
}

/// Takes a new text of the environment: returns the row to store it under,
/// and forgets what was cached, so that the next lookup reads the row.
pub fn set_global_env(cache: &mut EnvManager, req: EnvRequest) -> (row: KvsForDb)
    ensures
        row@ == env_row(req.values@),
        final(cache)@ is None,
{
    cache.invalidate();
    let row = KvsForDb::new(MODULE_ENV, ENV_GLOBAL_KEY, "", req.values.as_str());
    proof {
        reveal_strlit("");
        assert(""@ =~= Seq::<char>::empty());
    }
    row
}

} // verus!
