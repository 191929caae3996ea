//! The authorization gate for cross-component calls.
//!
//! Balance-mutating operations invoked by other components are accepted
//! only from the settlement-caller component, the fee-pool owner, or an
//! occupied whitelist slot of the configuration record. The stricter
//! [`verify_cpi_caller`] additionally recognizes the settlement caller's
//! deterministically derived configuration sub-address, which is obtained
//! from the host environment's address-derivation primitive.

use vstd::prelude::*;

use crate::addr::Address;
use crate::error::VaultError;
use crate::state::VaultConfig;

verus! {

/// The settlement caller's derived configuration sub-address, as the host
/// environment's address-derivation primitive computes it from the
/// settlement-caller program identity; `None` in the statistically
/// improbable event that no derivation exists.
pub uninterp spec fn ledger_config_pda_of(program: Address) -> Option<Address>;

/// Relies on solana_program's `Pubkey::try_find_program_address`, applied
/// to the fixed seed `b"ledger_config"` under the given program identity:
/// the result is a pure function of the program identity, and `None` only
/// when no bump seed yields a valid derivation.
#[verifier::external_body]
fn derive_ledger_config_pda(program: &Address) -> (r: Option<Address>)
    ensures
        r == ledger_config_pda_of(*program),
{
    let mut bytes = [0u8; 32];
    for (i, w) in [program.w0, program.w1, program.w2, program.w3].iter().enumerate() {
        bytes[i * 8..(i + 1) * 8].copy_from_slice(&w.to_le_bytes());
    }
    let program_key = solana_program::pubkey::Pubkey::new_from_array(bytes);
    let found =
        solana_program::pubkey::Pubkey::try_find_program_address(&[b"ledger_config"], &program_key);
    found.map(|(pda, _bump)| {
        let out = pda.to_bytes();
        let word = |k: usize| u64::from_le_bytes(out[k * 8..(k + 1) * 8].try_into().unwrap());
        Address { w0: word(0), w1: word(1), w2: word(2), w3: word(3) }
    })
}

/// Gate for cross-component invocations.
///
/// The caller must satisfy the whitelist check — it is the
/// settlement-caller component, the configured fee-pool owner, or an
/// occupied whitelist slot — or the call is rejected with
/// `UnauthorizedCaller`. A caller that passes the whitelist check is always
/// accepted: the extra recognition of the derived configuration sub-address
/// never narrows what is accepted, so `InvalidCallerPda` is unreachable
/// here.
pub fn verify_cpi_caller(vault_config: &VaultConfig, caller: &Address) -> (r: Result<
    (),
    VaultError,
>)
    ensures
        r is Ok <==> vault_config.spec_is_authorized(*caller),
        !vault_config.spec_is_authorized(*caller)
            ==> r == Err::<(), VaultError>(VaultError::UnauthorizedCaller),
{
    if !vault_config.is_authorized_caller(caller) {
        return Err(VaultError::UnauthorizedCaller);
    }
    let derived = derive_ledger_config_pda(&vault_config.ledger_program);
    if let Some(pda) = derived {
        if pda == *caller {
            return Ok(());
        }
    }
    if *caller == vault_config.ledger_program {
        return Ok(());
    }
    let mut i: usize = 0;
    while i < vault_config.authorized_callers.len()
        invariant
            i <= vault_config.authorized_callers.len(),
            vault_config.spec_is_authorized(*caller),
            forall|k: int| 0 <= k < i
                ==> #[trigger] vault_config.authorized_callers[k] != Some(*caller),
        decreases vault_config.authorized_callers.len() - i,
    {
        if let Some(entry) = vault_config.authorized_callers[i] {
            if entry == *caller {
                return Ok(());
            }
        }
        i += 1;
    }
    if let Some(fund) = vault_config.fund_program {
        if fund == *caller {
            return Ok(());
        }
    }
    proof {
        assert(false);
    }
    Err(VaultError::InvalidCallerPda)
}

/// Authorization accepts exactly three identity classes — the
/// settlement-caller component, the configured fee-pool owner, and the
/// occupied whitelist slots — and nothing else.
pub proof fn lemma_authorization_classes(c: VaultConfig, caller: Address)
    ensures
        c.spec_is_authorized(caller) <==> (caller == c.ledger_program || c.fund_program
            == Some(caller) || crate::processor::whitelist_contains(
            c.authorized_callers@,
            caller,
        )),
{
}

} // verus!
