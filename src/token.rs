use vstd::prelude::*;

use crate::error::ProtectError;

verus! {

/// The token chosen for this session and the PIN that unlocks it.
pub struct SelectedYubiKey {
    pub serial: String,
    pub pin: String,
}

/// What one scan saw of a connected token: its serial number and the PIN
/// attempts it has left.
#[derive(Debug, Clone, Copy, PartialEq, Eq, Structural)]
pub struct TokenProbe {
    pub serial: u32,
    pub pin_retries: u8,
}

/// Code reported for a PIN check that failed for another reason than a
/// wrong PIN: the token was not found or could not be reached.
pub const PIN_CHECK_UNAVAILABLE: i32 = -1;

/// Reports the outcome of verifying a token's PIN: success, or the number of
/// PIN attempts the token has left after a wrong PIN.
pub fn verify_yubikey_pin(verification: Result<(), ProtectError>) -> (r: Result<(), i32>)
    ensures
        match verification {
            Ok(()) => r is Ok,
            Err(ProtectError::PinIncorrect { retries }) => r == Err::<(), i32>(retries as i32),
            Err(_) => r == Err::<(), i32>(PIN_CHECK_UNAVAILABLE),
        },
{
    match verification {
        Ok(()) => Ok(()),
        Err(ProtectError::PinIncorrect { retries }) => Err(retries as i32),
        Err(_) => Err(PIN_CHECK_UNAVAILABLE),
    }
}

/// The serial numbers of the probed tokens that still accept a PIN, in scan
/// order. A token with no attempts left is locked and is not offered.
pub open spec fn usable_serials_of(probes: Seq<TokenProbe>) -> Seq<u32>
    decreases probes.len(),
{
    if probes.len() == 0 {
        seq![]
    } else {
        let last = probes.last();
        let rest = usable_serials_of(probes.drop_last());
        if last.pin_retries > 0 {
            rest.push(last.serial)
        } else {
            rest
        }
    }
}

/// Filters one scan down to the tokens that can be offered for selection.
pub fn usable_serials(probes: &Vec<TokenProbe>) -> (r: Vec<u32>)
    ensures
        r@ == usable_serials_of(probes@),
{
    let mut out: Vec<u32> = Vec::new();
    let mut i: usize = 0;
    while i < probes.len()
        invariant
            i <= probes@.len(),
            out@ == usable_serials_of(probes@.subrange(0, i as int)),
        decreases probes@.len() - i,
    {
        let probe = probes[i];
        proof {
            assert(probes@.subrange(0, i + 1).drop_last() =~= probes@.subrange(0, i as int));
        }
        if probe.pin_retries > 0 {
            out.push(probe.serial);
        }
        i = i + 1;
    }
    assert(probes@.subrange(0, probes@.len() as int) =~= probes@);
    out
}

/// Decides what a token scan leads to: the serials to offer, or `None` when
/// no usable token was seen and the scan must be repeated after a pause.
pub fn offer_or_rescan(probes: &Vec<TokenProbe>) -> (r: Option<Vec<u32>>)
    ensures
        usable_serials_of(probes@).len() == 0 ==> r is None,
        usable_serials_of(probes@).len() > 0 ==> r is Some && r->Some_0@ == usable_serials_of(
            probes@,
        ),
{
    let serials = usable_serials(probes);
    if serials.len() == 0 {
        None
    } else {
        Some(serials)
    }
}

/// A locked token is never offered: every serial offered comes from a probe
/// that still had PIN attempts left.
pub proof fn lemma_locked_tokens_excluded(probes: Seq<TokenProbe>)
    ensures
        forall|j: int|
            0 <= j < usable_serials_of(probes).len() ==> exists|i: int|
                0 <= i < probes.len() && probes[i].serial == #[trigger] usable_serials_of(
                    probes,
                )[j] && probes[i].pin_retries > 0,
    decreases probes.len(),
{
    if probes.len() > 0 {
        let rest = probes.drop_last();
        lemma_locked_tokens_excluded(rest);
        assert forall|j: int| 0 <= j < usable_serials_of(probes).len() implies exists|i: int|
            0 <= i < probes.len() && probes[i].serial == #[trigger] usable_serials_of(probes)[j]
                && probes[i].pin_retries > 0 by {
            if j < usable_serials_of(rest).len() {
                let i = choose|i: int|
                    0 <= i < rest.len() && rest[i].serial == #[trigger] usable_serials_of(rest)[j]
                        && rest[i].pin_retries > 0;
                assert(probes[i] == rest[i]);
            } else {
                assert(probes[probes.len() - 1].serial == usable_serials_of(probes)[j]);
            }
        }
    }
}

} // verus!
