//! Bitcoin key pairs: generating a private key, deriving its public key, the
//! bytes that are stored of each, and reading them back. The key arithmetic is
//! done by the `bitcoin` and `secp256k1` crates behind the trusted functions at
//! the end of this file; the library holds keys as plain bytes.
use vstd::prelude::*;

verus! {

/// The network a private key is meant for.
#[derive(Clone, Copy, PartialEq, Eq, Debug, Structural)]
pub enum Network {
    Bitcoin,
    Testnet,
    Signet,
    Regtest,
}

/// What went wrong inside secp256k1.
#[derive(Clone, Copy, PartialEq, Eq, Debug, Structural)]
pub enum SecpProblem {
    InvalidSecretKey,
    InvalidPublicKey,
}

/// What went wrong in base58 handling.
#[derive(Clone, Copy, PartialEq, Eq, Debug, Structural)]
pub enum Base58Problem {
    InvalidLength(usize),
}

/// A key-related error, by the kind that the `bitcoin` crate reports.
#[derive(Clone, Copy, PartialEq, Eq, Debug, Structural)]
pub enum KeyError {
    Base58(Base58Problem),
    Secp256k1(SecpProblem),
    InvalidKeyPrefix(u8),
    Hex,
}

/// The order of the secp256k1 curve.
pub open spec fn curve_order() -> int {
    0xFFFFFFFFFFFFFFFFFFFFFFFFFFFFFFFEBAAEDCE6AF48A03BBFD25E8CD0364141int
}

/// Bytes read as an unsigned integer, most significant byte first.
pub open spec fn big_endian(s: Seq<u8>) -> int
    decreases s.len(),
{
    if s.len() == 0 {
        0
    } else {
        big_endian(s.drop_last()) * 256 + s.last()
    }
}

/// A valid secp256k1 secret key: 32 bytes that, read as an integer, are not 0
/// and are less than the curve order.
pub open spec fn is_valid_secret_key(s: Seq<u8>) -> bool {
    s.len() == 32 && 0 < big_endian(s) < curve_order()
}

/// The serialized public key of a secret key, compressed (33 bytes) or not (65
/// bytes), as `bitcoin::PublicKey::from_private_key(..).to_bytes()` gives it.
pub uninterp spec fn public_key_serialization(secret: Seq<u8>, compressed: bool) -> Seq<u8>;

/// Whether `secp256k1::PublicKey::from_slice` accepts the bytes: whether they
/// encode a point of the curve.
pub uninterp spec fn public_key_parses(data: Seq<u8>) -> bool;

/// A private key: whether its public key is serialized compressed, its
/// network, and its 32 secret bytes.
pub struct PrivateKey {
    compressed: bool,
    network: Network,
    secret: Vec<u8>,
}

/// A public key: whether it is serialized compressed, and its serialization.
pub struct PublicKey {
    compressed: bool,
    bytes: Vec<u8>,
}

pub struct PrivateKeyView {
    pub compressed: bool,
    pub network: Network,
    pub secret: Seq<u8>,
}

pub struct PublicKeyView {
    pub compressed: bool,
    pub bytes: Seq<u8>,
}

impl View for PrivateKey {
    type V = PrivateKeyView;

    closed spec fn view(&self) -> PrivateKeyView {
        PrivateKeyView { compressed: self.compressed, network: self.network, secret: self.secret@ }
    }
}

impl View for PublicKey {
    type V = PublicKeyView;

    closed spec fn view(&self) -> PublicKeyView {
        PublicKeyView { compressed: self.compressed, bytes: self.bytes@ }
    }
}

impl PrivateKey {
    #[verifier::type_invariant]
    spec fn valid(&self) -> bool {
        is_valid_secret_key(self.secret@)
    }

    /// The 32 secret bytes, as `bitcoin::PrivateKey::to_bytes` gives them.
    pub fn to_bytes(&self) -> (res: Vec<u8>)
        ensures
            res@ == self@.secret,
            is_valid_secret_key(res@),
    {
        proof {
            use_type_invariant(self);
        }
        self.secret.clone()
    }

    pub fn compressed(&self) -> (res: bool)
        ensures
            res == self@.compressed,
    {
        self.compressed
    }

    pub fn network(&self) -> (res: Network)
        ensures
            res == self@.network,
    {
        self.network
    }
}

impl PublicKey {
    /// The serialized public key, as `bitcoin::PublicKey::to_bytes` gives it.
    pub fn to_bytes(&self) -> (res: Vec<u8>)
        ensures
            res@ == self@.bytes,
    {
        self.bytes.clone()
    }

    pub fn compressed(&self) -> (res: bool)
        ensures
            res == self@.compressed,
    {
        self.compressed
    }
}

/// What `bitcoin::PrivateKey::from_slice(data, network)` gives: a compressed key
/// for the network when the bytes are a valid secret key, else a secp256k1 error.
pub open spec fn parsed_private_key(data: Seq<u8>, network: Network) -> Result<PrivateKeyView, KeyError> {
    if is_valid_secret_key(data) {
        Ok(PrivateKeyView { compressed: true, network, secret: data })
    } else {
        Err(KeyError::Secp256k1(SecpProblem::InvalidSecretKey))
    }
}

/// What `bitcoin::PublicKey::from_slice(data)` gives: 33 bytes are a compressed
/// key and 65 bytes starting with 4 an uncompressed one, when they encode a
/// point of the curve.
pub open spec fn parsed_public_key(data: Seq<u8>) -> Result<PublicKeyView, KeyError> {
    if data.len() != 33 && data.len() != 65 {
        Err(KeyError::Base58(Base58Problem::InvalidLength(data.len() as usize)))
    } else if data.len() == 65 && data[0] != 4 {
        Err(KeyError::InvalidKeyPrefix(data[0]))
    } else if public_key_parses(data) {
        Ok(PublicKeyView { compressed: data.len() == 33, bytes: data })
    } else {
        Err(KeyError::Secp256k1(SecpProblem::InvalidPublicKey))
    }
}

/// A new random private key for the Bitcoin network; its public key is
/// serialized compressed. Reading its bytes back gives the same key.
pub fn generate_private_key() -> (res: Result<PrivateKey, String>)
    ensures
        res matches Ok(k) && k@.compressed && k@.network == Network::Bitcoin && is_valid_secret_key(
            k@.secret,
        ) && parsed_private_key(k@.secret, Network::Bitcoin) == Ok::<PrivateKeyView, KeyError>(k@),
{
    let secret = random_secret_key();
    Ok(PrivateKey { compressed: true, network: Network::Bitcoin, secret })
}

/// The public key of a private key; it is serialized compressed when the
/// private key says so. Reading its bytes back gives the same key.
pub fn derive_public_key(private_key: &PrivateKey) -> (res: Result<PublicKey, String>)
    ensures
        res matches Ok(k) && k@.compressed == private_key@.compressed && k@.bytes
            == public_key_serialization(private_key@.secret, private_key@.compressed)
            && parsed_public_key(k@.bytes) == Ok::<PublicKeyView, KeyError>(k@),
{
    proof {
        use_type_invariant(private_key);
    }
    let bytes = public_key_of(private_key.secret.as_slice(), private_key.compressed);
    Ok(PublicKey { compressed: private_key.compressed, bytes })
}

/// The key a key file's text holds, for a private key for the network: a read
/// error passes through; otherwise the UTF-8 bytes of the text are parsed, and
/// an error is answered with the `bitcoin` crate's text for it.
pub open spec fn recovered_private_key(read: Result<Seq<char>, Seq<char>>, network: Network) -> Result<
    PrivateKeyView,
    Seq<char>,
> {
    match read {
        Err(e) => Err(e),
        Ok(text) => match parsed_private_key(vstd::utf8::encode_utf8(text), network) {
            Ok(k) => Ok(k),
            Err(e) => Err(key_error_text(e)),
        },
    }
}

/// The key a key file's text holds, for a public key, as for a private key.
pub open spec fn recovered_public_key(read: Result<Seq<char>, Seq<char>>) -> Result<PublicKeyView, Seq<char>> {
    match read {
        Err(e) => Err(e),
        Ok(text) => match parsed_public_key(vstd::utf8::encode_utf8(text)) {
            Ok(k) => Ok(k),
            Err(e) => Err(key_error_text(e)),
        },
    }
}

pub open spec fn text_result(r: Result<String, String>) -> Result<Seq<char>, Seq<char>> {
    match r {
        Ok(t) => Ok(t@),
        Err(e) => Err(e@),
    }
}

pub open spec fn private_key_result(r: Result<PrivateKey, String>) -> Result<PrivateKeyView, Seq<char>> {
    match r {
        Ok(k) => Ok(k@),
        Err(e) => Err(e@),
    }
}

pub open spec fn public_key_result(r: Result<PublicKey, String>) -> Result<PublicKeyView, Seq<char>> {
    match r {
        Ok(k) => Ok(k@),
        Err(e) => Err(e@),
    }
}

/// Reads a private key for the Bitcoin network from the text of a key file
/// (or the error of reading it).
pub fn recover_private_key(read: Result<String, String>) -> (res: Result<PrivateKey, String>)
    ensures
        private_key_result(res) == recovered_private_key(text_result(read), Network::Bitcoin),
{
    match read {
        Err(e) => Err(e),
        Ok(text) => {
            let bytes = text.as_str().as_bytes();
            match private_key_from_slice(bytes, Network::Bitcoin) {
                Ok((compressed, secret)) => Ok(PrivateKey { compressed, network: Network::Bitcoin, secret }),
                Err(e) => Err(e),
            }
        },
    }
}

/// Reads a public key from the text of a key file (or the error of reading it).
pub fn recover_public_key(read: Result<String, String>) -> (res: Result<PublicKey, String>)
    ensures
        public_key_result(res) == recovered_public_key(text_result(read)),
{
    match read {
        Err(e) => Err(e),
        Ok(text) => {
            let bytes = text.as_str().as_bytes();
            match public_key_from_slice(bytes) {
                Ok((compressed, bytes)) => Ok(PublicKey { compressed, bytes }),
                Err(e) => Err(e),
            }
        },
    }
}

/// A stored private key is recovered: when a key file's text is made of the
/// key's secret bytes, recovering a key for the key's network from it gives
/// the key back.
pub proof fn lemma_private_key_recovered(k: PrivateKeyView, text: Seq<char>)
    requires
        is_valid_secret_key(k.secret),
        k.compressed,
        vstd::utf8::encode_utf8(text) == k.secret,
    ensures
        recovered_private_key(Ok(text), k.network) == Ok::<PrivateKeyView, Seq<char>>(k),
{
}

/// A stored public key is recovered: when a key file's text is made of the
/// bytes of a public key that parse back to it, as every derived key's do,
/// recovering a public key from it gives the key back.
pub proof fn lemma_public_key_recovered(k: PublicKeyView, text: Seq<char>)
    requires
        parsed_public_key(k.bytes) == Ok::<PublicKeyView, KeyError>(k),
        vstd::utf8::encode_utf8(text) == k.bytes,
    ensures
        recovered_public_key(Ok(text)) == Ok::<PublicKeyView, Seq<char>>(k),
{
}

/// The decimal digit character of `d`.
pub open spec fn digit_char(d: int) -> char {
    if d == 0 { '0' }
    else if d == 1 { '1' }
    else if d == 2 { '2' }
    else if d == 3 { '3' }
    else if d == 4 { '4' }
    else if d == 5 { '5' }
    else if d == 6 { '6' }
    else if d == 7 { '7' }
    else if d == 8 { '8' }
    else { '9' }
}

/// A number written in decimal, without leading zeros.
pub open spec fn decimal(n: nat) -> Seq<char>
    decreases n,
{
    if n < 10 {
        seq![digit_char(n as int)]
    } else {
        decimal(n / 10).push(digit_char((n % 10) as int))
    }
}

/// The text of a key error, as the `bitcoin` crate displays it.
pub open spec fn key_error_text(e: KeyError) -> Seq<char> {
    match e {
        KeyError::Base58(_) => "key base58 error"@,
        KeyError::Secp256k1(_) => "key secp256k1 error"@,
        KeyError::InvalidKeyPrefix(b) => "key prefix invalid: "@ + decimal(b as nat),
        KeyError::Hex => "key hex decoding error"@,
    }
}

/// Calls `secp256k1::SecretKey::new` with the thread's random number generator
/// and hands out the key's bytes: 32 random bytes that form a valid secret key.
#[verifier::external_body]
fn random_secret_key() -> (res: Vec<u8>)
    ensures
        is_valid_secret_key(res@),
{
    secp256k1::SecretKey::new(&mut secp256k1::rand::thread_rng()).secret_bytes().to_vec()
}

/// Calls `bitcoin::PublicKey::from_private_key` on the private key with these
/// secret bytes and hands out `to_bytes` of the result: the named serialization,
/// 33 bytes when compressed and 65 starting with 4 when not, which
/// `secp256k1::PublicKey::from_slice` accepts.
#[verifier::external_body]
fn public_key_of(secret: &[u8], compressed: bool) -> (res: Vec<u8>)
    requires
        is_valid_secret_key(secret@),
    ensures
        res@ == public_key_serialization(secret@, compressed),
        res@.len() == if compressed { 33int } else { 65int },
        !compressed ==> res@[0] == 4,
        public_key_parses(res@),
{
    let inner = secp256k1::SecretKey::from_slice(secret).unwrap();
    let key = bitcoin::PrivateKey { compressed, network: bitcoin::Network::Bitcoin, inner };
    bitcoin::PublicKey::from_private_key(&secp256k1::Secp256k1::new(), &key).to_bytes()
}

/// Calls `bitcoin::PrivateKey::from_slice(data, network)` and hands out the
/// key's `compressed` flag and `to_bytes`, or the error's `to_string`: a key
/// exactly when the bytes are a valid secret key, compressed, with these bytes;
/// else the text of a secp256k1 key error.
#[verifier::external_body]
fn private_key_from_slice(data: &[u8], network: Network) -> (res: Result<(bool, Vec<u8>), String>)
    ensures
        match parsed_private_key(data@, network) {
            Ok(k) => res matches Ok(r) && r.0 == k.compressed && r.1@ == k.secret,
            Err(e) => res matches Err(m) && m@ == key_error_text(e),
        },
{
    let network = match network {
        Network::Bitcoin => bitcoin::Network::Bitcoin,
        Network::Testnet => bitcoin::Network::Testnet,
        Network::Signet => bitcoin::Network::Signet,
        Network::Regtest => bitcoin::Network::Regtest,
    };
    match bitcoin::PrivateKey::from_slice(data, network) {
        Ok(k) => Ok((k.compressed, k.to_bytes())),
        Err(e) => Err(e.to_string()),
    }
}

/// Calls `bitcoin::PublicKey::from_slice(data)` and hands out the key's
/// `compressed` flag and `to_bytes`, or the error's `to_string`, as
/// `parsed_public_key` states from the crate's source: the length and prefix
/// checks, then `secp256k1::PublicKey::from_slice`, whose serialization of an
/// accepted encoding is that encoding.
#[verifier::external_body]
fn public_key_from_slice(data: &[u8]) -> (res: Result<(bool, Vec<u8>), String>)
    ensures
        match parsed_public_key(data@) {
            Ok(k) => res matches Ok(r) && r.0 == k.compressed && r.1@ == k.bytes,
            Err(e) => res matches Err(m) && m@ == key_error_text(e),
        },
{
    match bitcoin::PublicKey::from_slice(data) {
        Ok(k) => Ok((k.compressed, k.to_bytes())),
        Err(e) => Err(e.to_string()),
    }
}

} // verus!
