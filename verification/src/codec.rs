//! The sealed container: the accounts as JSON, encrypted under a key derived
//! from the master password and a fresh salt, framed with that salt as a JSON
//! pair, and written as base64 text.
//!
//! The container stores no cost parameters: it opens only under the parameters
//! that it was sealed under.

use vstd::prelude::*;
use vstd::pervasive::unreached;
use vstd::string::StringSliceAdditionalSpecFns;
use crate::crypto::{
    aead_open,
    aead_opened,
    aead_seal,
    derive_key_bytes,
    derived_key,
    kdf_accepts,
    random_salt,
    MAX_PLAINTEXT,
    MIN_ITERATIONS,
    MIN_MEMORY,
    SEAL_OVERHEAD,
};
use crate::encoding::{
    accounts_of_json,
    base64_bytes,
    base64_decode,
    base64_encode,
    base64_text,
    byte_pair_of_json,
    json_decode_accounts,
    json_decode_byte_pair,
    json_encode_accounts,
    json_encode_byte_pair,
    json_of_accounts,
    json_of_byte_pair,
};
use crate::failure::{Failure, FailureView};
use crate::store::{Accounts, Store};

verus! {

/// The length of a salt in bytes.
pub const SALT_SIZE: usize = 16;

/// The length of a derived key in bytes, which is the key length of the cipher.
pub const KEY_SIZE: u32 = 32;

/// The memory cost of the key derivation, in KiB.
pub const MEMORY_COST: u32 = 65536;

/// The longest ciphertext, nonce and tag included, that a container may hold.
pub const MAX_SEALED: u64 = 274_877_906_856;

/// The cost of deriving a key. The iteration count is a tunable: the default
/// of a configuration favours interactive speed over resistance to guessing.
#[derive(Clone, Copy, Debug, PartialEq, Eq)]
pub struct CostParams {
    pub iterations: u32,
    pub memory: u32,
}

impl CostParams {
    /// The given iteration count with the fixed memory cost.
    pub fn new(iterations: u32) -> (r: CostParams)
        ensures
            r.iterations == iterations,
            r.memory == MEMORY_COST,
    {
        CostParams { iterations, memory: MEMORY_COST }
    }
}

/// The random bytes that are mixed into the key derivation; always
/// [`SALT_SIZE`] of them.
pub struct Salt {
    bytes: Vec<u8>,
}

impl View for Salt {
    type V = Seq<u8>;

    closed spec fn view(&self) -> Seq<u8> {
        self.bytes@
    }
}

impl Salt {
    #[verifier::type_invariant]
    spec fn well_formed(self) -> bool {
        self.bytes@.len() == SALT_SIZE
    }

    /// The salt with the given bytes, if they are of the right number.
    pub fn from_bytes(bytes: Vec<u8>) -> (r: Result<Salt, Failure>)
        ensures
            match r {
                Ok(salt) => bytes@.len() == SALT_SIZE && salt@ == bytes@,
                Err(e) => bytes@.len() != SALT_SIZE && e@ == FailureView::MalformedContainer,
            },
    {
        if bytes.len() == SALT_SIZE {
            Ok(Salt { bytes })
        } else {
            Err(Failure::MalformedContainer)
        }
    }

    /// A fresh salt from the system's random source. Where that source
    /// fails, the process ends: the call into the outside crate panics.
    pub fn generate() -> (r: Salt)
        ensures
            r@.len() == SALT_SIZE,
    {
        match random_salt(SALT_SIZE) {
            Ok(bytes) => Salt { bytes },
            Err(_) => unreached(),
        }
    }

    /// The bytes of the salt.
    pub fn as_bytes(&self) -> (r: &[u8])
        ensures
            r@ == self@,
            r@.len() == SALT_SIZE,
    {
        proof {
            use_type_invariant(self);
        }
        self.bytes.as_slice()
    }
}

/// A key derived from a password and a salt; always [`KEY_SIZE`] bytes. It is
/// never stored.
pub struct DerivedKey {
    bytes: Vec<u8>,
}

impl View for DerivedKey {
    type V = Seq<u8>;

    closed spec fn view(&self) -> Seq<u8> {
        self.bytes@
    }
}

impl DerivedKey {
    #[verifier::type_invariant]
    spec fn well_formed(self) -> bool {
        self.bytes@.len() == KEY_SIZE
    }

    /// The key with the given bytes, if they are of the right number.
    pub fn from_bytes(bytes: Vec<u8>) -> (r: Result<DerivedKey, Failure>)
        ensures
            match r {
                Ok(key) => bytes@.len() == KEY_SIZE && key@ == bytes@,
                Err(e) => bytes@.len() != KEY_SIZE && e@ == FailureView::KeyDerivationFailed,
            },
    {
        if bytes.len() == KEY_SIZE as usize {
            Ok(DerivedKey { bytes })
        } else {
            Err(Failure::KeyDerivationFailed)
        }
    }

    /// The bytes of the key.
    pub fn as_bytes(&self) -> (r: &[u8])
        ensures
            r@ == self@,
            r@.len() == KEY_SIZE,
    {
        proof {
            use_type_invariant(self);
        }
        self.bytes.as_slice()
    }
}

/// The passwords and cost parameters from which a key can be derived.
pub open spec fn key_derivable(password: Seq<u8>, params: CostParams) -> bool {
    kdf_accepts(password.len(), SALT_SIZE as nat, params.iterations, params.memory, KEY_SIZE)
}

/// The key for a password and a salt, or the failure to derive one: there is
/// none for a password or cost parameters that the derivation does not accept.
pub open spec fn key_of(password: Seq<u8>, salt: Seq<u8>, params: CostParams) -> Result<
    Seq<u8>,
    FailureView,
> {
    if kdf_accepts(password.len(), salt.len(), params.iterations, params.memory, KEY_SIZE) {
        match derived_key(password, salt, params.iterations, params.memory, KEY_SIZE) {
            Some(key) => Ok(key),
            None => Err(FailureView::KeyDerivationFailed),
        }
    } else {
        Err(FailureView::KeyDerivationFailed)
    }
}

/// Derives the key for `password` and `salt`. This succeeds exactly where the
/// password is not empty (and shorter than 4 GiB), the iteration count is at
/// least 3 and the memory cost at least 8 KiB.
pub fn derive_key(password: &str, salt: &Salt, params: &CostParams) -> (r: Result<
    DerivedKey,
    Failure,
>)
    ensures
        match r {
            Ok(key) => key_of(password.spec_bytes(), salt@, *params) == Ok::<Seq<u8>, FailureView>(
                key@,
            ),
            Err(e) => key_of(password.spec_bytes(), salt@, *params) == Err::<Seq<u8>, FailureView>(
                e@,
            ),
        },
        r is Ok <==> key_derivable(password.spec_bytes(), *params),
{
    match derive_key_bytes(
        password.as_bytes(),
        salt.as_bytes(),
        params.iterations,
        params.memory,
        KEY_SIZE,
    ) {
        Ok(bytes) => DerivedKey::from_bytes(bytes),
        Err(_) => Err(Failure::KeyDerivationFailed),
    }
}

/// A salt with the ciphertext that was sealed under the key derived from it.
pub struct Container {
    salt: Salt,
    ciphertext: Vec<u8>,
}

impl Container {
    #[verifier::type_invariant]
    spec fn well_formed(self) -> bool {
        self.ciphertext@.len() <= MAX_SEALED
    }

    /// The salt, as bytes.
    pub closed spec fn spec_salt(&self) -> Seq<u8> {
        self.salt@
    }

    /// The ciphertext, with its nonce before it and its tag after it.
    pub closed spec fn spec_ciphertext(&self) -> Seq<u8> {
        self.ciphertext@
    }

    /// The container of the given parts, if they have the shape of one: a salt
    /// of [`SALT_SIZE`] bytes and a ciphertext of at most [`MAX_SEALED`] bytes.
    pub fn from_parts(salt: Vec<u8>, ciphertext: Vec<u8>) -> (r: Result<Container, Failure>)
        ensures
            match r {
                Ok(c) => well_shaped(salt@, ciphertext@) && c.spec_salt() == salt@
                    && c.spec_ciphertext() == ciphertext@,
                Err(e) => !well_shaped(salt@, ciphertext@) && e@ == FailureView::MalformedContainer,
            },
    {
        if ciphertext.len() as u64 > MAX_SEALED {
            return Err(Failure::MalformedContainer);
        }
        match Salt::from_bytes(salt) {
            Ok(salt) => Ok(Container { salt, ciphertext }),
            Err(e) => Err(e),
        }
    }

    /// The salt.
    pub fn salt(&self) -> (r: &Salt)
        ensures
            r@ == self.spec_salt(),
            r@.len() == SALT_SIZE,
    {
        let r = &self.salt;
        proof {
            use_type_invariant(r);
        }
        r
    }

    /// The ciphertext.
    pub fn ciphertext(&self) -> (r: &[u8])
        ensures
            r@ == self.spec_ciphertext(),
            r@.len() <= MAX_SEALED,
    {
        proof {
            use_type_invariant(self);
        }
        self.ciphertext.as_slice()
    }
}

/// The parts have the shape that a container asks for.
pub open spec fn well_shaped(salt: Seq<u8>, ciphertext: Seq<u8>) -> bool {
    salt.len() == SALT_SIZE && ciphertext.len() <= MAX_SEALED
}

/// The salt and the ciphertext that stored text holds, or the failure to find them.
pub open spec fn container_of(data: Seq<u8>) -> Result<(Seq<u8>, Seq<u8>), FailureView> {
    match base64_bytes(data) {
        None => Err(FailureView::MalformedContainer),
        Some(raw) => match byte_pair_of_json(raw) {
            None => Err(FailureView::MalformedContainer),
            Some(pair) => if well_shaped(pair.0, pair.1) {
                Ok(pair)
            } else {
                Err(FailureView::MalformedContainer)
            },
        },
    }
}

/// The accounts that a ciphertext holds under a key, or the failure to open it.
pub open spec fn payload_of(key: Seq<u8>, ciphertext: Seq<u8>) -> Result<Accounts, FailureView> {
    match aead_opened(key, ciphertext) {
        None => Err(FailureView::AuthenticationFailed),
        Some(plaintext) => match accounts_of_json(plaintext) {
            None => Err(FailureView::MalformedContainer),
            Some(accounts) => Ok(accounts),
        },
    }
}

/// The cost parameters under which the key derivation works at all.
pub open spec fn cost_accepted(params: CostParams) -> bool {
    params.iterations >= MIN_ITERATIONS && params.memory >= MIN_MEMORY
}

/// How opening reports a password from which no key derives. Under cost
/// parameters that the derivation accepts the password is at fault, and it is
/// reported as any other wrong password is.
pub open spec fn refusal(params: CostParams) -> FailureView {
    if cost_accepted(params) {
        FailureView::AuthenticationFailed
    } else {
        FailureView::KeyDerivationFailed
    }
}

/// What opening stored text under a password gives: the accounts, or the first
/// failure on the way to them.
pub open spec fn open_result(data: Seq<u8>, password: Seq<u8>, params: CostParams) -> Result<
    Accounts,
    FailureView,
> {
    match container_of(data) {
        Err(e) => Err(e),
        Ok(pair) => match key_of(password, pair.0, params) {
            Err(_) => Err(refusal(params)),
            Ok(key) => payload_of(key, pair.1),
        },
    }
}

/// The text of a container: base64 of the JSON pair of salt and ciphertext.
pub open spec fn container_text(salt: Seq<u8>, ciphertext: Seq<u8>) -> Seq<u8> {
    base64_text(json_of_byte_pair(salt, ciphertext))
}

/// The text `data` is the container of `salt` and `ciphertext`, and the
/// ciphertext holds `accounts` under the key for `password` and `salt`.
pub open spec fn holds(
    data: Seq<u8>,
    salt: Seq<u8>,
    ciphertext: Seq<u8>,
    accounts: Accounts,
    password: Seq<u8>,
    params: CostParams,
) -> bool {
    &&& data == container_text(salt, ciphertext)
    &&& container_of(data) == Ok::<(Seq<u8>, Seq<u8>), FailureView>((salt, ciphertext))
    &&& key_of(password, salt, params) is Ok
    &&& ciphertext.len() == json_of_accounts(accounts).len() + SEAL_OVERHEAD
    &&& aead_opened(key_of(password, salt, params)->Ok_0, ciphertext) == Some(
        json_of_accounts(accounts),
    )
    &&& accounts_of_json(json_of_accounts(accounts)) == Some(accounts)
}

/// The text `data` seals `accounts` under `password`: it is the container of
/// some salt and of some ciphertext that holds the accounts' JSON text.
pub open spec fn seals(
    data: Seq<u8>,
    accounts: Accounts,
    password: Seq<u8>,
    params: CostParams,
) -> bool {
    exists|salt: Seq<u8>, ciphertext: Seq<u8>|
        holds(data, salt, ciphertext, accounts, password, params)
}

/// Round trip: text that seals accounts under a password opens, under the
/// same password and cost parameters, to those accounts.
pub proof fn lemma_sealed_opens(
    data: Seq<u8>,
    accounts: Accounts,
    password: Seq<u8>,
    params: CostParams,
)
    requires
        seals(data, accounts, password, params),
    ensures
        open_result(data, password, params) == Ok::<Accounts, FailureView>(accounts),
{
    let (salt, ciphertext) = choose|salt: Seq<u8>, ciphertext: Seq<u8>|
        holds(data, salt, ciphertext, accounts, password, params);
    assert(container_of(data) == Ok::<(Seq<u8>, Seq<u8>), FailureView>((salt, ciphertext)));
}

/// A password that is not accepted, be it that no key derives from it or that
/// the cipher rejects the ciphertext under its key, for a wrong password or
/// for damage, is reported as a failed authentication and as nothing else; no
/// accounts come back.
pub proof fn lemma_rejection_is_authentication_failure(
    data: Seq<u8>,
    password: Seq<u8>,
    params: CostParams,
)
    requires
        container_of(data) is Ok,
        cost_accepted(params),
        key_of(password, container_of(data)->Ok_0.0, params) is Err || aead_opened(
            key_of(password, container_of(data)->Ok_0.0, params)->Ok_0,
            container_of(data)->Ok_0.1,
        ) is None,
    ensures
        open_result(data, password, params) == Err::<Accounts, FailureView>(
            FailureView::AuthenticationFailed,
        ),
{
}

/// Text that seals accounts is the container of a salt of [`SALT_SIZE`]
/// bytes and of a ciphertext that is not empty: it is as long as the
/// accounts' JSON text and the cipher's overhead together.
pub proof fn lemma_sealed_shape(
    data: Seq<u8>,
    accounts: Accounts,
    password: Seq<u8>,
    params: CostParams,
)
    requires
        seals(data, accounts, password, params),
    ensures
        container_of(data) is Ok,
        container_of(data)->Ok_0.0.len() == SALT_SIZE,
        container_of(data)->Ok_0.1.len() == json_of_accounts(accounts).len() + SEAL_OVERHEAD,
        container_of(data)->Ok_0.1.len() > 0,
        data == container_text(container_of(data)->Ok_0.0, container_of(data)->Ok_0.1),
{
    let (salt, ciphertext) = choose|salt: Seq<u8>, ciphertext: Seq<u8>|
        holds(data, salt, ciphertext, accounts, password, params);
    assert(container_of(data) == Ok::<(Seq<u8>, Seq<u8>), FailureView>((salt, ciphertext)));
}

/// Writes a container as text. The text decodes to the same container.
pub fn encode_container(container: &Container) -> (data: Vec<u8>)
    ensures
        data@ == container_text(container.spec_salt(), container.spec_ciphertext()),
        container_of(data@) == Ok::<(Seq<u8>, Seq<u8>), FailureView>(
            (container.spec_salt(), container.spec_ciphertext()),
        ),
{
    let salt = container.salt();
    let ciphertext = container.ciphertext();
    match json_encode_byte_pair(salt.as_bytes(), ciphertext) {
        Ok(json) => base64_encode(json.as_slice()),
        Err(_) => unreached(),
    }
}

/// Reads a container from text: base64, then a JSON pair of byte arrays, then
/// the check of their lengths.
pub fn decode_container(data: &[u8]) -> (r: Result<Container, Failure>)
    ensures
        match r {
            Ok(c) => container_of(data@) == Ok::<(Seq<u8>, Seq<u8>), FailureView>(
                (c.spec_salt(), c.spec_ciphertext()),
            ),
            Err(e) => container_of(data@) == Err::<(Seq<u8>, Seq<u8>), FailureView>(e@),
        },
{
    match base64_decode(data) {
        Err(_) => Err(Failure::MalformedContainer),
        Ok(raw) => match json_decode_byte_pair(raw.as_slice()) {
            Err(_) => Err(Failure::MalformedContainer),
            Ok(pair) => Container::from_parts(pair.0, pair.1),
        },
    }
}

/// Decrypts the ciphertext of a container and reads the accounts from it. A
/// tag that does not match is reported as [`Failure::AuthenticationFailed`],
/// whatever its cause.
pub fn open_container(container: &Container, key: &DerivedKey) -> (r: Result<Store, Failure>)
    ensures
        match r {
            Ok(store) => payload_of(key@, container.spec_ciphertext()) == Ok::<
                Accounts,
                FailureView,
            >(store@),
            Err(e) => payload_of(key@, container.spec_ciphertext()) == Err::<
                Accounts,
                FailureView,
            >(e@),
        },
{
    match aead_open(key.as_bytes(), container.ciphertext()) {
        Err(_) => Err(Failure::AuthenticationFailed),
        Ok(plaintext) => match json_decode_accounts(plaintext.as_slice()) {
            Err(_) => Err(Failure::MalformedContainer),
            Ok(listing) => Ok(Store::from_entries(listing)),
        },
    }
}

/// Opens stored text under the master password. A password from which no key
/// derives is a wrong password: see [`refusal`].
pub fn open(data: &[u8], password: &str, params: &CostParams) -> (r: Result<Store, Failure>)
    ensures
        match r {
            Ok(store) => open_result(data@, password.spec_bytes(), *params) == Ok::<
                Accounts,
                FailureView,
            >(store@),
            Err(e) => open_result(data@, password.spec_bytes(), *params) == Err::<
                Accounts,
                FailureView,
            >(e@),
        },
{
    let container = match decode_container(data) {
        Ok(container) => container,
        Err(e) => {
            return Err(e);
        },
    };
    let key = match derive_key(password, container.salt(), params) {
        Ok(key) => key,
        Err(_) => {
            return Err(refuse(params));
        },
    };
    open_container(&container, &key)
}

/// See [`refusal`].
pub fn refuse(params: &CostParams) -> (r: Failure)
    ensures
        r@ == refusal(*params),
{
    if params.iterations >= MIN_ITERATIONS && params.memory >= MIN_MEMORY {
        Failure::AuthenticationFailed
    } else {
        Failure::KeyDerivationFailed
    }
}

/// The text `data` seals `accounts` under `password` with the salt `salt`.
pub open spec fn seals_with(
    data: Seq<u8>,
    salt: Seq<u8>,
    accounts: Accounts,
    password: Seq<u8>,
    params: CostParams,
) -> bool {
    exists|ciphertext: Seq<u8>| holds(data, salt, ciphertext, accounts, password, params)
}

/// Seals the accounts under the master password with the given salt, which
/// the call uses up: a salt serves one sealing only. The nonce is drawn
/// afresh.
///
/// What comes back seals the accounts with that salt, and so opens again,
/// under the same password and parameters, to the accounts that were sealed.
/// Sealing fails with [`Failure::KeyDerivationFailed`] exactly where no key
/// can be derived, and with [`Failure::SealFailed`] exactly where one can and
/// the accounts are too large for the cipher.
pub fn seal_with_salt(store: &Store, password: &str, params: &CostParams, salt: Salt) -> (r: Result<
    Vec<u8>,
    Failure,
>)
    ensures
        match r {
            Ok(data) => seals_with(data@, salt@, store@, password.spec_bytes(), *params)
                && open_result(data@, password.spec_bytes(), *params) == Ok::<
                Accounts,
                FailureView,
            >(store@),
            Err(e) => e@ == if key_derivable(password.spec_bytes(), *params) {
                FailureView::SealFailed
            } else {
                FailureView::KeyDerivationFailed
            },
        },
        r is Ok <==> key_derivable(password.spec_bytes(), *params) && json_of_accounts(
            store@,
        ).len() <= MAX_PLAINTEXT,
{
    let key = match derive_key(password, &salt, params) {
        Ok(key) => key,
        Err(e) => {
            return Err(e);
        },
    };
    let listing = store.get_all();
    let plaintext = match json_encode_accounts(&listing) {
        Ok(plaintext) => plaintext,
        Err(_) => {
            return Err(Failure::SealFailed);
        },
    };
    if plaintext.len() as u64 > MAX_PLAINTEXT {
        return Err(Failure::SealFailed);
    }
    let ciphertext = match aead_seal(key.as_bytes(), plaintext.as_slice()) {
        Ok(ciphertext) => ciphertext,
        Err(_) => {
            return Err(Failure::SealFailed);
        },
    };
    let ghost used = salt@;
    let container = Container { salt, ciphertext };
    let data = encode_container(&container);
    proof {
        assert(holds(
            data@,
            used,
            container.spec_ciphertext(),
            store@,
            password.spec_bytes(),
            *params,
        ));
        lemma_sealed_opens(data@, store@, password.spec_bytes(), *params);
    }
    Ok(data)
}

/// Seals the accounts under the master password, with a salt and a nonce that
/// are drawn afresh on every call: see [`seal_with_salt`].
pub fn seal(store: &Store, password: &str, params: &CostParams) -> (r: Result<Vec<u8>, Failure>)
    ensures
        match r {
            Ok(data) => seals(data@, store@, password.spec_bytes(), *params) && open_result(
                data@,
                password.spec_bytes(),
                *params,
            ) == Ok::<Accounts, FailureView>(store@),
            Err(e) => e@ == if key_derivable(password.spec_bytes(), *params) {
                FailureView::SealFailed
            } else {
                FailureView::KeyDerivationFailed
            },
        },
        r is Ok <==> key_derivable(password.spec_bytes(), *params) && json_of_accounts(
            store@,
        ).len() <= MAX_PLAINTEXT,
{
    seal_with_salt(store, password, params, Salt::generate())
}

} // verus!
