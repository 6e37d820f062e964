use crate::key::Key;
use vstd::prelude::*;

verus! {

/// The bytes of `"vault"`.
pub open spec fn vault_prefix() -> Seq<u8> {
    seq![118u8, 97, 117, 108, 116]
}

/// The bytes of `"token_vault"`.
pub open spec fn token_vault_prefix() -> Seq<u8> {
    seq![116u8, 111, 107, 101, 110, 95, 118, 97, 117, 108, 116]
}

/// The bytes of `"lp_mint"`.
pub open spec fn lp_mint_prefix() -> Seq<u8> {
    seq![108u8, 112, 95, 109, 105, 110, 116]
}

/// The bytes of `"fee"`.
pub open spec fn protocol_fee_prefix() -> Seq<u8> {
    seq![102u8, 101, 101]
}

/// The bytes of `"vault"`, as a vector.
pub fn vault_prefix_bytes() -> (r: Vec<u8>)
    ensures
        r@ == vault_prefix(),
{
    let r = vec![118u8, 97, 117, 108, 116];
    assert(r@ =~= vault_prefix());
    r
}

/// The bytes of `"token_vault"`, as a vector.
pub fn token_vault_prefix_bytes() -> (r: Vec<u8>)
    ensures
        r@ == token_vault_prefix(),
{
    let r = vec![116u8, 111, 107, 101, 110, 95, 118, 97, 117, 108, 116];
    assert(r@ =~= token_vault_prefix());
    r
}

/// The bytes of `"lp_mint"`, as a vector.
pub fn lp_mint_prefix_bytes() -> (r: Vec<u8>)
    ensures
        r@ == lp_mint_prefix(),
{
    let r = vec![108u8, 112, 95, 109, 105, 110, 116];
    assert(r@ =~= lp_mint_prefix());
    r
}

/// The bytes of `"fee"`, as a vector.
pub fn protocol_fee_prefix_bytes() -> (r: Vec<u8>)
    ensures
        r@ == protocol_fee_prefix(),
{
    let r = vec![102u8, 101, 101];
    assert(r@ =~= protocol_fee_prefix());
    r
}

/// The yield-vault program, `24Uqj9JCLxUeoC3hGfh5W3s9FM9uCHDS2SG3LYwBpyTi`.
pub open spec fn vault_program() -> Key {
    Key {
        bytes: [
            15, 191, 232, 132, 109, 104, 92, 189, 198, 44, 202, 126, 4, 199, 232, 246, 141, 204,
            49, 58, 179, 18, 119, 226, 224, 17, 42, 46, 192, 224, 82, 229,
        ],
    }
}

/// The fixed base authority of the yield vaults,
/// `HWzXGcGHy4tcpYfaRDCyLNzXqBTv3E6BttpCH2vJxArv`.
pub open spec fn vault_base() -> Key {
    Key {
        bytes: [
            245, 105, 223, 222, 32, 35, 51, 89, 141, 199, 215, 75, 29, 148, 184, 98, 71, 121, 193,
            248, 47, 30, 37, 166, 91, 110, 78, 248, 163, 190, 155, 155,
        ],
    }
}

/// The pool program, `Eo7WjKq67rjJQSZxS6z3YkapzY3eMj6Xy8X5EQVn5UaB`.
pub open spec fn amm_program() -> Key {
    Key {
        bytes: [
            204, 248, 2, 212, 204, 204, 132, 215, 251, 33, 181, 247, 59, 73, 216, 26, 22, 197,
            180, 200, 142, 227, 35, 148, 225, 201, 29, 53, 136, 204, 64, 128,
        ],
    }
}

/// The token program, `TokenkegQfeZyiNwAJbNbGKPFXCWuBvf9Ss623VQ5DA`.
pub open spec fn token_program() -> Key {
    Key {
        bytes: [
            6, 221, 246, 225, 215, 101, 161, 147, 217, 203, 225, 70, 206, 235, 121, 172, 28, 180,
            133, 237, 95, 91, 55, 145, 58, 140, 245, 133, 126, 255, 0, 169,
        ],
    }
}

/// The associated-token-account program,
/// `ATokenGPvbdGVxr1b2hvZbsiqW5xWH25efTNsLJA8knL`.
pub open spec fn associated_token_program() -> Key {
    Key {
        bytes: [
            140, 151, 37, 143, 78, 36, 137, 241, 187, 61, 16, 41, 20, 142, 13, 131, 11, 90, 19,
            153, 218, 255, 16, 132, 4, 142, 123, 216, 219, 233, 248, 89,
        ],
    }
}

/// The yield-vault program.
pub fn vault_program_id() -> (r: Key)
    ensures
        r == vault_program(),
{
    Key {
        bytes: [
            15, 191, 232, 132, 109, 104, 92, 189, 198, 44, 202, 126, 4, 199, 232, 246, 141, 204,
            49, 58, 179, 18, 119, 226, 224, 17, 42, 46, 192, 224, 82, 229,
        ],
    }
}

/// The base authority of the yield vaults.
pub fn vault_base_key() -> (r: Key)
    ensures
        r == vault_base(),
{
    Key {
        bytes: [
            245, 105, 223, 222, 32, 35, 51, 89, 141, 199, 215, 75, 29, 148, 184, 98, 71, 121, 193,
            248, 47, 30, 37, 166, 91, 110, 78, 248, 163, 190, 155, 155,
        ],
    }
}

/// The pool program.
pub fn amm_program_id() -> (r: Key)
    ensures
        r == amm_program(),
{
    Key {
        bytes: [
            204, 248, 2, 212, 204, 204, 132, 215, 251, 33, 181, 247, 59, 73, 216, 26, 22, 197,
            180, 200, 142, 227, 35, 148, 225, 201, 29, 53, 136, 204, 64, 128,
        ],
    }
}

/// The token program.
pub fn token_program_id() -> (r: Key)
    ensures
        r == token_program(),
{
    Key {
        bytes: [
            6, 221, 246, 225, 215, 101, 161, 147, 217, 203, 225, 70, 206, 235, 121, 172, 28, 180,
            133, 237, 95, 91, 55, 145, 58, 140, 245, 133, 126, 255, 0, 169,
        ],
    }
}

/// The associated-token-account program.
pub fn associated_token_program_id() -> (r: Key)
    ensures
        r == associated_token_program(),
{
    Key {
        bytes: [
            140, 151, 37, 143, 78, 36, 137, 241, 187, 61, 16, 41, 20, 142, 13, 131, 11, 90, 19,
            153, 218, 255, 16, 132, 4, 142, 123, 216, 219, 233, 248, 89,
        ],
    }
}

} // verus!
