//! The idempotency key of a charge. It depends on the job alone, not on the attempt: every execution
//! of a job sends the same key, so that the charge service can recognise it.

use crate::ids::{format_uuid, law_uuid_text_injective, uuid_text};
use crate::text::join2;
use vstd::prelude::*;

verus! {

pub open spec fn charge_key(job_id: u128) -> Seq<char> {
    "reliableq:charge:"@ + uuid_text(job_id)
}

pub fn charge_idempotency_key(job_id: u128) -> (key: String)
    ensures
        key@ == charge_key(job_id),
{
    join2("reliableq:charge:", &format_uuid(job_id))
}

/// Different jobs have different keys.
pub proof fn law_charge_keys_tell_jobs_apart(a: u128, b: u128)
    ensures
        charge_key(a) == charge_key(b) ==> a == b,
{
    if charge_key(a) == charge_key(b) {
        let n = "reliableq:charge:"@.len() as int;
        assert(uuid_text(a) =~= charge_key(a).skip(n));
        assert(uuid_text(b) =~= charge_key(b).skip(n));
        law_uuid_text_injective(a, b);
    }
}

} // verus!
