//! The identity records: two requests (`MyDidInfo`, `MyKyesInfo`) and three
//! resolved records (`MyDid`, `TheirDidInfo`, `TheirDid`).
//!
//! A record is written as a JSON object with one string entry per present
//! field, under the field's name. It is read from any JSON object: entries
//! under other names are passed over, an optional field without an entry (or
//! with `null`) is absent, and a mandatory field without an entry is an error
//! that names the field.

pub mod my_did;
pub mod my_did_info;
pub mod my_keys_info;
pub mod their_did;
pub mod their_did_info;

pub use my_did::{MyDid, MyDidView};
pub use my_did_info::{MyDidInfo, MyDidInfoView};
pub use my_keys_info::{MyKyesInfo, MyKyesInfoView};
pub use their_did::{TheirDid, TheirDidView};
pub use their_did_info::{TheirDidInfo, TheirDidInfoView};

use vstd::prelude::*;

verus! {

/// No two field names are equal.
pub proof fn lemma_names_distinct()
    ensures
        "did"@ != "seed"@,
        "did"@ != "crypto_type"@,
        "did"@ != "pk"@,
        "did"@ != "sk"@,
        "did"@ != "verkey"@,
        "did"@ != "signkey"@,
        "seed"@ != "crypto_type"@,
        "seed"@ != "pk"@,
        "seed"@ != "sk"@,
        "seed"@ != "verkey"@,
        "seed"@ != "signkey"@,
        "crypto_type"@ != "pk"@,
        "crypto_type"@ != "sk"@,
        "crypto_type"@ != "verkey"@,
        "crypto_type"@ != "signkey"@,
        "pk"@ != "sk"@,
        "pk"@ != "verkey"@,
        "pk"@ != "signkey"@,
        "sk"@ != "verkey"@,
        "sk"@ != "signkey"@,
        "verkey"@ != "signkey"@,
{
    reveal_strlit("did");
    reveal_strlit("seed");
    reveal_strlit("crypto_type");
    reveal_strlit("pk");
    reveal_strlit("sk");
    reveal_strlit("verkey");
    reveal_strlit("signkey");
    assert("did"@.len() == 3);
    assert("seed"@.len() == 4);
    assert("crypto_type"@.len() == 11);
    assert("pk"@.len() == 2);
    assert("sk"@.len() == 2);
    assert("verkey"@.len() == 6);
    assert("signkey"@.len() == 7);
    assert("pk"@[0] != "sk"@[0]);
}

} // verus!
