//! The hardware factor's protocol, without the hardware: what is asked of an
//! authenticator, and what is made of its answer.

use vstd::prelude::*;
use vstd::string::StringExecFns;
use crate::block::{split_block, Block};
use crate::errors::{Failure, TaskError};
use crate::utils::base_x::{b64enc, base64_url};

verus! {

/// Largest bit pattern of a non-negative binary32 number that does not
/// exceed one: the pattern of 1.0 itself.
pub const ONE_BIT_PATTERN: u32 = 0x3F80_0000;

/// Bit pattern of positive infinity in binary32; the patterns above it, sign
/// aside, are no numbers.
pub const INFINITY_PATTERN: u32 = 0x7F80_0000;

/// First bit pattern with the sign set.
pub const SIGN_PATTERN: u32 = 0x8000_0000;

/// An extension output of an assertion, as far as the derivation reads it.
pub enum Extension {
    /// Output of the HMAC-secret extension, if the authenticator gave one.
    HmacSecret(Option<[u8; 32]>),
    /// Any other extension.
    Other,
}

/// One assertion of an authenticator, as far as the derivation reads it.
pub struct Assertion {
    pub credential_id: Vec<u8>,
    pub extensions: Vec<Extension>,
}

/// How the exchange with an authenticator ended.
pub enum FidoOutcome {
    /// The worker that talked to the authenticator ended without a value.
    Aborted,
    /// Nobody was there to take the request for a PIN.
    RelayClosed,
    /// The PIN entry was abandoned, or the authenticator reported an error.
    Refused(String),
    /// The authenticator answered the assertion request.
    Asserted(Vec<Assertion>),
}

/// What is asked of the authenticator for one factor.
pub struct FidoRequest {
    /// Text of the PIN prompt.
    pub prompt: String,
    /// Identifier of the relying party that the credential is bound to.
    pub rpid: String,
    /// Salt handed to the HMAC-secret extension.
    pub hmac_req: [u8; 32],
}

/// Key material that passed the assertion-count guard and the entropy gate.
pub struct Credential {
    credential_id: Vec<u8>,
    secret: [u8; 32],
}

/// A credential as contracts see it.
pub struct CredentialView {
    pub credential_id: Seq<u8>,
    pub secret: Seq<u8>,
}

impl View for Credential {
    type V = CredentialView;

    closed spec fn view(&self) -> CredentialView {
        CredentialView { credential_id: self.credential_id@, secret: self.secret@ }
    }
}

impl CredentialView {
    /// The password of the factor's KDF call: identifier, then secret.
    pub open spec fn key_material(self) -> Seq<u8> {
        self.credential_id + self.secret
    }
}

/// The identifier of the relying party for a discriminator.
pub open spec fn spec_relying_party_id(discriminator: Seq<u8>) -> Seq<char> {
    "passchain-"@ + base64_url(discriminator)
}

/// The PIN prompt for a device.
pub open spec fn spec_pin_prompt(device_name: Seq<char>) -> Seq<char> {
    "Enter FIDO PIN for \""@ + device_name + "\":"@
}

/// The secret of the first HMAC-secret output that holds one; 32 zero bytes
/// where no extension does.
pub open spec fn first_hmac_secret(extensions: Seq<Extension>) -> Seq<u8>
    decreases extensions.len(),
{
    if extensions.len() == 0 {
        Seq::new(32, |i: int| 0u8)
    } else {
        match extensions[0] {
            Extension::HmacSecret(Some(secret)) => secret@,
            _ => first_hmac_secret(extensions.drop_first()),
        }
    }
}

/// Whether a binary32 bit pattern stands for a number that is at most one.
pub open spec fn at_most_one_bit(bits: u32) -> bool {
    let magnitude = if bits >= SIGN_PATTERN {
        bits - SIGN_PATTERN
    } else {
        bits as int
    };
    magnitude <= INFINITY_PATTERN && (bits >= SIGN_PATTERN || bits <= ONE_BIT_PATTERN)
}

/// Whether all bytes of a string are the same.
pub open spec fn uniform(bytes: Seq<u8>) -> bool {
    forall|i: int, j: int| 0 <= i < bytes.len() && 0 <= j < bytes.len() ==> bytes[i] == bytes[j]
}

/// What the entropy gate makes of key material and its measured entropy.
pub open spec fn gated(candidate: CredentialView, entropy_bits: u32) -> Result<
    CredentialView,
    Failure,
> {
    if at_most_one_bit(entropy_bits) {
        Err(Failure::LowEntropy)
    } else {
        Ok(candidate)
    }
}

/// What of an exchange reaches the entropy gate: the key material of its
/// one assertion, or the failure that it ended in.
pub open spec fn candidate(outcome: FidoOutcome) -> Result<CredentialView, Failure> {
    match outcome {
        FidoOutcome::Aborted => Err(Failure::JoinError),
        FidoOutcome::RelayClosed => Err(Failure::ReceiverDropped),
        FidoOutcome::Refused(msg) => Err(Failure::FidoError(msg@)),
        FidoOutcome::Asserted(list) => if list@.len() == 0 {
            Err(Failure::NoAssertionFound)
        } else if list@.len() != 1 {
            Err(Failure::MultipleAssertionFound)
        } else {
            Ok(
                CredentialView {
                    credential_id: list@[0].credential_id@,
                    secret: first_hmac_secret(list@[0].extensions@),
                },
            )
        },
    }
}

/// What an exchange comes to, given the entropy measured of its secret.
pub open spec fn examined(outcome: FidoOutcome, entropy_bits: u32) -> Result<
    CredentialView,
    Failure,
> {
    match candidate(outcome) {
        Ok(c) => gated(c, entropy_bits),
        Err(f) => Err(f),
    }
}

/// The result of an examination as contracts see it.
pub open spec fn answer_view(answer: Result<Credential, TaskError>) -> Result<
    CredentialView,
    Failure,
> {
    match answer {
        Ok(credential) => Ok(credential@),
        Err(e) => Err(e@),
    }
}

/// Calls `entropy::shannon_entropy` and `f32::to_bits` on its result.
///
/// Claimed: for an input whose bytes are all the same, the empty one
/// included, the entropy is zero, as the crate documents and its sum shows.
/// Nothing is claimed of another input: the logarithm behind the sum is not
/// the same on every machine.
#[verifier::external_body]
fn shannon_entropy_bits(data: &[u8; 32]) -> (bits: u32)
    ensures
        uniform(data@) ==> bits == 0,
{
    entropy::shannon_entropy(data).to_bits()
}

/// Derives the identifier of the relying party from a discriminator.
pub fn relying_party_id(discriminator: &[u8; 16]) -> (rpid: String)
    ensures
        rpid@ == spec_relying_party_id(discriminator@),
{
    let encoded = b64enc(discriminator.as_slice());
    let mut rpid = "passchain-".to_owned();
    rpid.append(encoded.as_str());
    rpid
}

/// Words the PIN prompt for a device.
pub fn pin_prompt(device_name: &str) -> (prompt: String)
    ensures
        prompt@ == spec_pin_prompt(device_name@),
{
    let mut prompt = "Enter FIDO PIN for \"".to_owned();
    prompt.append(device_name);
    prompt.append("\":");
    prompt
}

/// What to ask of the device `device_name` when the chain stands at `prev`.
pub fn fido_request(prev: &Block, device_name: &str) -> (request: FidoRequest)
    ensures
        request.prompt@ == spec_pin_prompt(device_name@),
        request.rpid@ == spec_relying_party_id(prev@.subrange(0, 16)),
        request.hmac_req@ == prev@.subrange(16, 48),
{
    let parts = split_block(prev);
    FidoRequest {
        prompt: pin_prompt(device_name),
        rpid: relying_party_id(&parts.rpid),
        hmac_req: parts.hmac_req,
    }
}

/// Picks the HMAC secret out of an assertion's extension outputs.
pub fn hmac_secret(extensions: &Vec<Extension>) -> (secret: [u8; 32])
    ensures
        secret@ == first_hmac_secret(extensions@),
{
    let mut i: usize = 0;
    assert(extensions@.subrange(0, extensions@.len() as int) =~= extensions@);
    while i < extensions.len()
        invariant
            i <= extensions@.len(),
            first_hmac_secret(extensions@) == first_hmac_secret(
                extensions@.subrange(i as int, extensions@.len() as int),
            ),
        decreases extensions@.len() - i,
    {
        let ghost rest = extensions@.subrange(i as int, extensions@.len() as int);
        assert(rest[0] == extensions@[i as int]);
        assert(rest.drop_first() =~= extensions@.subrange(i + 1, extensions@.len() as int));
        match &extensions[i] {
            Extension::HmacSecret(Some(secret)) => {
                return *secret;
            },
            _ => {},
        }
        i += 1;
    }
    assert(extensions@.subrange(i as int, extensions@.len() as int).len() == 0);
    let zero = [0u8; 32];
    assert(zero@ =~= Seq::new(32, |i: int| 0u8));
    zero
}

/// The assertion-count guard: exactly one assertion passes.
pub fn select_assertion(assertions: Vec<Assertion>) -> (r: Result<Assertion, TaskError>)
    ensures
        assertions@.len() == 0 ==> r matches Err(TaskError::NoAssertionFound),
        assertions@.len() >= 2 ==> r matches Err(TaskError::MultipleAssertionFound),
        assertions@.len() == 1 ==> r == Ok::<Assertion, TaskError>(assertions@[0]),
{
    let mut assertions = assertions;
    if assertions.len() == 0 {
        return Err(TaskError::NoAssertionFound);
    }
    if assertions.len() != 1 {
        return Err(TaskError::MultipleAssertionFound);
    }
    match assertions.pop() {
        Some(assertion) => Ok(assertion),
        None => Err(TaskError::NoAssertionFound),
    }
}

/// Whether a binary32 bit pattern stands for a number that is at most one.
pub fn entropy_too_low(entropy_bits: u32) -> (low: bool)
    ensures
        low == at_most_one_bit(entropy_bits),
{
    let magnitude: u32 = if entropy_bits >= SIGN_PATTERN {
        entropy_bits - SIGN_PATTERN
    } else {
        entropy_bits
    };
    magnitude <= INFINITY_PATTERN && (entropy_bits >= SIGN_PATTERN || entropy_bits
        <= ONE_BIT_PATTERN)
}

/// The entropy gate: key material whose measured entropy is at most one bit
/// is turned away.
pub fn entropy_gate(credential_id: Vec<u8>, secret: [u8; 32], entropy_bits: u32) -> (r: Result<
    Credential,
    TaskError,
>)
    ensures
        answer_view(r) == gated(
            CredentialView { credential_id: credential_id@, secret: secret@ },
            entropy_bits,
        ),
{
    if entropy_too_low(entropy_bits) {
        Err(TaskError::LowEntropy)
    } else {
        Ok(Credential { credential_id, secret })
    }
}

/// Makes of an exchange what the count guard and the entropy threshold
/// allow, given the entropy measured of its secret.
pub fn examine_measured(outcome: FidoOutcome, entropy_bits: u32) -> (r: Result<
    Credential,
    TaskError,
>)
    ensures
        answer_view(r) == examined(outcome, entropy_bits),
{
    match outcome {
        FidoOutcome::Aborted => Err(TaskError::JoinError),
        FidoOutcome::RelayClosed => Err(TaskError::ReceiverDropped),
        FidoOutcome::Refused(msg) => Err(TaskError::FidoError(msg)),
        FidoOutcome::Asserted(list) => match select_assertion(list) {
            Ok(assertion) => {
                let secret = hmac_secret(&assertion.extensions);
                entropy_gate(assertion.credential_id, secret, entropy_bits)
            },
            Err(e) => Err(e),
        },
    }
}

/// Measures the entropy of the secret and makes of an exchange what the
/// count guard and the entropy threshold allow.
///
/// The measurement is not the same on every machine, so the result is
/// stated for whatever was measured: an exchange that failed keeps its
/// failure, key material either passes unchanged or is turned away for low
/// entropy, and a secret of equal bytes never passes.
pub fn examine(outcome: FidoOutcome) -> (r: Result<Credential, TaskError>)
    ensures
        candidate(outcome) is Err ==> answer_view(r) == candidate(outcome),
        candidate(outcome) is Ok ==> {
            ||| answer_view(r) == candidate(outcome)
            ||| answer_view(r) == Err::<CredentialView, Failure>(Failure::LowEntropy)
        },
        candidate(outcome) is Ok && uniform(candidate(outcome)->Ok_0.secret) ==> answer_view(r)
            == Err::<CredentialView, Failure>(Failure::LowEntropy),
{
    match outcome {
        FidoOutcome::Asserted(list) => match select_assertion(list) {
            Ok(assertion) => {
                let secret = hmac_secret(&assertion.extensions);
                let entropy_bits = shannon_entropy_bits(&secret);
                entropy_gate(assertion.credential_id, secret, entropy_bits)
            },
            Err(e) => Err(e),
        },
        other => examine_measured(other, 0),
    }
}

impl Credential {
    /// The password of the factor's KDF call: identifier, then secret.
    pub fn key_material(&self) -> (bytes: Vec<u8>)
        ensures
            bytes@ == self@.key_material(),
    {
        let mut bytes: Vec<u8> = Vec::new();
        let mut i: usize = 0;
        while i < self.credential_id.len()
            invariant
                i <= self.credential_id@.len(),
                bytes@ == self.credential_id@.subrange(0, i as int),
            decreases self.credential_id@.len() - i,
        {
            bytes.push(self.credential_id[i]);
            i += 1;
            assert(bytes@ =~= self.credential_id@.subrange(0, i as int));
        }
        assert(bytes@ =~= self.credential_id@);
        let mut j: usize = 0;
        while j < 32
            invariant
                j <= 32,
                bytes@ == self.credential_id@ + self.secret@.subrange(0, j as int),
            decreases 32 - j,
        {
            bytes.push(self.secret[j]);
            j += 1;
            assert(bytes@ =~= self.credential_id@ + self.secret@.subrange(0, j as int));
        }
        assert(bytes@ =~= self.credential_id@ + self.secret@);
        bytes
    }
}

} // verus!
