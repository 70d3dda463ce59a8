use vstd::prelude::*;
use vstd::string::*;

use crate::errors::{ErrorKind, WalletError};
use crate::network::{network_name, NetworkType};

use bdk::bitcoin::secp256k1::Secp256k1;
use bdk::bitcoin::util::bip32::{DerivationPath, ExtendedPrivKey, Fingerprint};
use bdk::keys::{DerivableKey, DescriptorKey, GeneratableDefaultOptions, GeneratedKey};
use bdk::miniscript::descriptor::DescriptorSecretKey;
use bdk::miniscript::Segwitv0;
use std::str::FromStr;

verus! {

/// Whether a phrase is a checksum-valid English mnemonic of a supported
/// word count, as bip39's parser decides it.
pub uninterp spec fn mnemonic_valid(words: Seq<char>) -> bool;

/// The base58 string of the master extended private key derived from a
/// mnemonic, a passphrase and a network.
pub uninterp spec fn xprv_str_of(words: Seq<char>, passphrase: Seq<char>, network: NetworkType) -> Seq<char>;

/// Whether a string parses as a base58 extended private key.
pub uninterp spec fn xprv_valid(xprv: Seq<char>) -> bool;

/// Whether a string parses as a BIP-32 derivation path.
pub uninterp spec fn path_valid(path: Seq<char>) -> bool;

/// The base58 string of the child key a path derives from an extended
/// private key.
pub uninterp spec fn derived_xprv_of(xprv: Seq<char>, path: Seq<char>) -> Seq<char>;

/// The descriptor secret-key string for a derived key with its origin:
/// `[<fingerprint><path>]<derived xprv>/*`.
pub uninterp spec fn desc_prv_of(derived_xprv: Seq<char>, fingerprint: Seq<char>, path: Seq<char>) -> Seq<char>;

/// The public form of a descriptor secret-key string.
pub uninterp spec fn desc_pub_of(descriptor_secret: Seq<char>) -> Seq<char>;

/// The 8-hex-character master fingerprint of an extended private key.
pub uninterp spec fn fingerprint_hex_of(xprv: Seq<char>) -> Seq<char>;

/// The English mnemonic phrase encoding the given entropy bytes.
pub uninterp spec fn mnemonic_of_entropy(entropy: Seq<u8>) -> Seq<char>;

/// The base58 master extended private key built from 32 entropy bytes.
pub uninterp spec fn xkey_of_entropy(entropy: Seq<u8>) -> Seq<char>;

/// Whether the BIP-39 seed of a phrase and passphrase yields a valid
/// master key: key creation rejects a negligible fraction of seeds whose
/// material falls outside the curve order.
pub uninterp spec fn master_seed_ok(words: Seq<char>, passphrase: Seq<char>) -> bool;

/// Whether BIP-32 child derivation succeeds for a key and path; only a
/// negligible fraction of tweaks is rejected.
pub uninterp spec fn derive_ok(xprv: Seq<char>, path: Seq<char>) -> bool;

/// Whether a string parses as a master fingerprint: 8 hex digits.
pub uninterp spec fn fingerprint_text_valid(s: Seq<char>) -> bool;

/// Whether a descriptor secret-key string re-parses and converts to its
/// public form.
pub uninterp spec fn desc_pub_ok(descriptor_secret: Seq<char>) -> bool;

/// Whether 32 entropy bytes yield a valid master key; as with seeds, a
/// negligible fraction is rejected.
pub uninterp spec fn entropy_key_ok(entropy: Seq<u8>) -> bool;

/// Whether every character is a lowercase hex digit.
pub open spec fn is_lower_hex(s: Seq<char>) -> bool {
    forall|i: int|
        0 <= i < s.len() ==> (('0' <= #[trigger] s[i] && s[i] <= '9') || ('a' <= s[i] && s[i]
            <= 'f'))
}

/// Counts the space-separated words of a phrase; `in_word` says whether
/// the previous character belonged to a word.
pub open spec fn word_count_from(s: Seq<char>, in_word: bool) -> int
    decreases s.len(),
{
    if s.len() == 0 {
        0
    } else {
        (if s[0] != ' ' && !in_word {
            1int
        } else {
            0int
        }) + word_count_from(s.drop_first(), s[0] != ' ')
    }
}

/// The number of space-separated words in a phrase.
pub open spec fn word_count(s: Seq<char>) -> int {
    word_count_from(s, false)
}

/// The passphrase a caller supplied; an absent passphrase acts as the
/// empty one, which is how the seed derivation treats it.
pub open spec fn passphrase_view(p: Option<&str>) -> Seq<char> {
    match p {
        Some(s) => s@,
        None => Seq::<char>::empty(),
    }
}

/// Relies on bip39's Mnemonic::parse and to_seed and on rust-bitcoin's
/// ExtendedPrivKey::new_master: parsing accepts exactly checksum-valid
/// mnemonics (English is the only compiled word list, so parse and
/// parse_in agree), the master key string is a function of the words,
/// the passphrase and the network alone, and its base58 rendering parses
/// back as an extended private key.
#[verifier::external_body]
fn mnemonic_to_xprv(words: &str, passphrase: Option<&str>, network: NetworkType) -> (r: Result<
    String,
    WalletError,
>)
    ensures
        r is Ok <==> (mnemonic_valid(words@) && master_seed_ok(
            words@,
            passphrase_view(passphrase),
        )),
        r matches Ok(x) ==> x@ == xprv_str_of(words@, passphrase_view(passphrase), network)
            && xprv_valid(x@),
        r matches Err(e) ==> e.kind == ErrorKind::InvalidMnemonic || mnemonic_valid(words@),
{
    let m = bip39::Mnemonic::parse(words)
        .map_err(|e| WalletError::new(ErrorKind::InvalidMnemonic, e.to_string()))?;
    let net = match network {
        NetworkType::Mainnet => bdk::bitcoin::Network::Bitcoin,
        NetworkType::Testnet => bdk::bitcoin::Network::Testnet,
        NetworkType::Signet => bdk::bitcoin::Network::Signet,
        NetworkType::Regtest => bdk::bitcoin::Network::Regtest,
    };
    let seed = m.to_seed(passphrase.unwrap_or(""));
    let xprv = ExtendedPrivKey::new_master(net, &seed)
        .map_err(|e| WalletError::new(ErrorKind::InvalidInput, e.to_string()))?;
    Ok(xprv.to_string())
}

/// Relies on rust-bitcoin's BIP-32 derivation: the child key is a
/// function of the extended private key string and the path alone, and
/// its base58 form parses back as an extended private key.
#[verifier::external_body]
fn derive_xprv_at_path(xprv: &str, path: &str) -> (r: Result<String, WalletError>)
    ensures
        r is Ok <==> (xprv_valid(xprv@) && path_valid(path@) && derive_ok(xprv@, path@)),
        r matches Ok(d) ==> {
            &&& d@ == derived_xprv_of(xprv@, path@)
            &&& xprv_valid(d@)
        },
        r matches Err(e) ==> xprv_valid(xprv@) || e.kind == ErrorKind::InvalidInput,
        r matches Err(e) ==> !xprv_valid(xprv@) || path_valid(path@) || e.kind
            == ErrorKind::InvalidDerivationPath,
{
    let key = ExtendedPrivKey::from_str(xprv)
        .map_err(|e| WalletError::new(ErrorKind::InvalidInput, e.to_string()))?;
    let dpath = DerivationPath::from_str(path)
        .map_err(|e| WalletError::new(ErrorKind::InvalidDerivationPath, e.to_string()))?;
    let derived = key.derive_priv(&Secp256k1::new(), &dpath)
        .map_err(|e| WalletError::new(ErrorKind::InvalidInput, e.to_string()))?;
    Ok(derived.to_string())
}

/// Relies on miniscript's descriptor key display: for a derived key and
/// its origin (master fingerprint plus path), the descriptor secret-key
/// string is a function of those inputs alone, rendered as
/// `[<fingerprint><path>]<derived key>/*`, so it ends with the unhardened
/// wildcard `/*`. It fails exactly when one of the three inputs does not
/// parse; the result re-parses (its derivation path is empty, so the
/// public conversion cannot fail on it).
#[verifier::external_body]
fn descriptor_secret_for(derived_xprv: &str, fingerprint: &str, path: &str) -> (r: Result<
    String,
    WalletError,
>)
    ensures
        r is Ok <==> (xprv_valid(derived_xprv@) && fingerprint_text_valid(fingerprint@)
            && path_valid(path@)),
        r matches Ok(p) ==> {
            &&& p@ == desc_prv_of(derived_xprv@, fingerprint@, path@)
            &&& p@.len() >= 2 && p@[p@.len() - 2] == '/' && p@[p@.len() - 1] == '*'
            &&& desc_pub_ok(p@)
        },
{
    let key = ExtendedPrivKey::from_str(derived_xprv)
        .map_err(|e| WalletError::new(ErrorKind::InvalidInput, e.to_string()))?;
    let fp = Fingerprint::from_str(fingerprint)
        .map_err(|e| WalletError::new(ErrorKind::InvalidInput, e.to_string()))?;
    let dpath = DerivationPath::from_str(path)
        .map_err(|e| WalletError::new(ErrorKind::InvalidDerivationPath, e.to_string()))?;
    let desc: DescriptorKey<Segwitv0> = key
        .into_descriptor_key(Some((fp, dpath)), DerivationPath::default())
        .map_err(|e| WalletError::new(ErrorKind::InvalidInput, e.to_string()))?;
    match desc {
        DescriptorKey::Secret(sk, _, _) => Ok(sk.to_string()),
        DescriptorKey::Public(_, _, _) => Err(
            WalletError::new(ErrorKind::InvalidInput, "expected a secret key".to_string()),
        ),
    }
}

/// Relies on miniscript's DescriptorSecretKey::to_public: the public form
/// is a function of the secret descriptor key string alone. The wildcard
/// claim needs the input to end in `/*`: such a string can only parse as
/// an extended-key descriptor with an unhardened wildcard, which the
/// public conversion keeps.
#[verifier::external_body]
fn descriptor_public_of(descriptor_secret: &str) -> (r: Result<String, WalletError>)
    requires
        descriptor_secret@.len() >= 2,
        descriptor_secret@[descriptor_secret@.len() - 2] == '/',
        descriptor_secret@[descriptor_secret@.len() - 1] == '*',
    ensures
        r is Ok <==> desc_pub_ok(descriptor_secret@),
        r matches Ok(p) ==> {
            &&& p@ == desc_pub_of(descriptor_secret@)
            &&& p@.len() >= 2 && p@[p@.len() - 2] == '/' && p@[p@.len() - 1] == '*'
        },
{
    let sk = DescriptorSecretKey::from_str(descriptor_secret)
        .map_err(|e| WalletError::new(ErrorKind::InvalidInput, e.to_string()))?;
    let pk = sk.to_public(&Secp256k1::new())
        .map_err(|e| WalletError::new(ErrorKind::InvalidInput, e.to_string()))?;
    Ok(pk.to_string())
}

/// Relies on ExtendedPrivKey::from_str and fingerprint: the fingerprint
/// is a function of the key string alone, rendered as 8 lowercase hex
/// digits, which is exactly the form the fingerprint parser accepts.
#[verifier::external_body]
fn xprv_fingerprint_hex(xprv: &str) -> (r: Result<String, WalletError>)
    ensures
        r is Ok <==> xprv_valid(xprv@),
        r matches Ok(f) ==> f@ == fingerprint_hex_of(xprv@) && f@.len() == 8 && is_lower_hex(
            f@,
        ) && fingerprint_text_valid(f@),
{
    let key = ExtendedPrivKey::from_str(xprv)
        .map_err(|e| WalletError::new(ErrorKind::InvalidInput, e.to_string()))?;
    Ok(key.fingerprint(&Secp256k1::new()).to_string())
}

/// Relies on bip39's Mnemonic::generate_in: a fresh 12-word English
/// phrase from the system's randomness, rendered with single spaces, so
/// every successful draw has exactly 12 words; nothing else can be said
/// of its value.
#[verifier::external_body]
fn generate_mnemonic_words() -> (r: Result<String, WalletError>)
    ensures
        r matches Ok(m) ==> word_count(m@) == 12,
{
    bip39::Mnemonic::generate_in(bip39::Language::English, bip39::WordCount::Words12)
        .map(|m| m.to_string())
        .map_err(|e| WalletError::new(ErrorKind::InvalidInput, e.to_string()))
}

/// Relies on bip39's Mnemonic::from_entropy: for entropy of an accepted
/// length the phrase is a function of the bytes alone, it always comes
/// back with three words for every four entropy bytes, and it carries a
/// checksum valid by construction, so it re-parses as a valid mnemonic.
#[verifier::external_body]
fn mnemonic_from_entropy(entropy: &[u8]) -> (r: Result<String, WalletError>)
    requires
        entropy@.len() % 4 == 0,
        16 <= entropy@.len() <= 32,
    ensures
        r is Ok,
        r matches Ok(m) ==> m@ == mnemonic_of_entropy(entropy@) && mnemonic_valid(
            mnemonic_of_entropy(entropy@),
        ) && 4 * word_count(m@) == 3 * entropy@.len(),
{
    bip39::Mnemonic::from_entropy(entropy)
        .map(|m| m.to_string())
        .map_err(|e| WalletError::new(ErrorKind::InvalidMnemonic, e.to_string()))
}

/// Relies on bip39's Mnemonic::parse_in with the English word list, the
/// only list compiled in: it accepts exactly the checksum-valid English
/// phrases of a supported word count.
#[verifier::external_body]
fn english_mnemonic_ok(words: &str) -> (r: bool)
    ensures
        r == mnemonic_valid(words@),
{
    bip39::Mnemonic::parse_in(bip39::Language::English, words).is_ok()
}

/// Relies on bdk's key generation for extended private keys: from 32
/// entropy bytes it deterministically builds a master key, so the
/// resulting base58 string is a function of the entropy alone.
#[verifier::external_body]
fn xkey_from_entropy32(entropy: &[u8]) -> (r: Result<String, WalletError>)
    requires
        entropy@.len() == 32,
    ensures
        r is Ok <==> entropy_key_ok(entropy@),
        r matches Ok(x) ==> x@ == xkey_of_entropy(entropy@),
{
    let arr: [u8; 32] = match entropy.try_into() {
        Ok(a) => a,
        Err(e) => return Err(WalletError::new(ErrorKind::InvalidInput, e.to_string())),
    };
    let key: GeneratedKey<ExtendedPrivKey, Segwitv0> =
        ExtendedPrivKey::generate_with_entropy_default(arr)
            .map_err(|e| WalletError::new(ErrorKind::InvalidInput, e.to_string()))?;
    Ok(key.to_string())
}

/// The external `wpkh` descriptor built from a descriptor key ending in
/// the wildcard `/*`: the wildcard is rewritten to the external chain.
pub open spec fn wpkh_external_of(key: Seq<char>) -> Seq<char> {
    "wpkh("@ + key.take(key.len() - 2) + "/0/*)"@
}

/// The internal (change) `wpkh` descriptor for the same key.
pub open spec fn wpkh_internal_of(key: Seq<char>) -> Seq<char> {
    "wpkh("@ + key.take(key.len() - 2) + "/1/*)"@
}

/// Wraps a descriptor key in `wpkh(...)` and rewrites its trailing
/// wildcard into the external (`/0/*`) and internal (`/1/*`) variants.
pub fn wpkh_descriptors(key: &str) -> (r: (String, String))
    requires
        key@.len() >= 2,
        key@[key@.len() - 2] == '/',
        key@[key@.len() - 1] == '*',
    ensures
        r.0@ == wpkh_external_of(key@),
        r.1@ == wpkh_internal_of(key@),
{
    let n = key.unicode_len();
    let stem = key.substring_char(0, n - 2);
    let mut ext = "wpkh(".to_owned();
    ext.append(stem);
    ext.append("/0/*)");
    let mut inner = "wpkh(".to_owned();
    inner.append(stem);
    inner.append("/1/*)");
    proof {
        assert(ext@ =~= wpkh_external_of(key@));
        assert(inner@ =~= wpkh_internal_of(key@));
    }
    (ext, inner)
}

/// The wallet name: the master fingerprint, a dash, and the network name.
pub open spec fn wallet_name_of(fingerprint: Seq<char>, network: NetworkType) -> Seq<char> {
    fingerprint + "-"@ + network_name(network)
}

/// Builds the wallet name `<fingerprint>-<network>`.
pub fn wallet_name(fingerprint: &str, network: NetworkType) -> (r: String)
    ensures
        r@ == wallet_name_of(fingerprint@, network),
{
    let mut out = fingerprint.to_owned();
    out.append("-");
    let net = network.name();
    out.append(net.as_str());
    proof {
        assert(out@ =~= wallet_name_of(fingerprint@, network));
    }
    out
}

/// The descriptors and name of a derived wallet: external and internal
/// chains, in public and private form.
#[derive(Debug)]
pub struct DerivedWallet {
    pub name: String,
    pub external_pub: String,
    pub internal_pub: String,
    pub external_prv: String,
    pub internal_prv: String,
}

/// What it means for a derived wallet to come from the given seed words,
/// passphrase, path and network: every field is a function of exactly
/// those inputs.
pub open spec fn is_derivation_of(
    w: DerivedWallet,
    words: Seq<char>,
    pass: Seq<char>,
    path: Seq<char>,
    network: NetworkType,
) -> bool {
    let x = xprv_str_of(words, pass, network);
    let dp = desc_prv_of(derived_xprv_of(x, path), fingerprint_hex_of(x), path);
    let db = desc_pub_of(dp);
    &&& w.external_prv@ == wpkh_external_of(dp)
    &&& w.internal_prv@ == wpkh_internal_of(dp)
    &&& w.external_pub@ == wpkh_external_of(db)
    &&& w.internal_pub@ == wpkh_internal_of(db)
    &&& w.name@ == wallet_name_of(fingerprint_hex_of(x), network)
    &&& fingerprint_hex_of(x).len() == 8
    &&& is_lower_hex(fingerprint_hex_of(x))
}

/// Derives a wallet from seed words, an optional passphrase, a BIP-32
/// path and a network: descriptor strings for the external and internal
/// chains in public and private form, and the wallet name
/// `<fingerprint>-<network>`.
pub fn derive_wallet(
    seed_words: &str,
    passphrase: Option<&str>,
    path: &str,
    network: NetworkType,
) -> (r: Result<DerivedWallet, WalletError>)
    ensures
        r matches Ok(w) ==> mnemonic_valid(seed_words@) && path_valid(path@) && is_derivation_of(
            w,
            seed_words@,
            passphrase_view(passphrase),
            path@,
            network,
        ),
        mnemonic_valid(seed_words@) && master_seed_ok(seed_words@, passphrase_view(passphrase))
            && path_valid(path@) && derive_ok(
            xprv_str_of(seed_words@, passphrase_view(passphrase), network),
            path@,
        ) ==> r is Ok,
        !mnemonic_valid(seed_words@) ==> (r matches Err(e) && e.kind
            == ErrorKind::InvalidMnemonic),
        mnemonic_valid(seed_words@) && master_seed_ok(seed_words@, passphrase_view(passphrase))
            && !path_valid(path@) ==> (r matches Err(e) && e.kind
            == ErrorKind::InvalidDerivationPath),
{
    let xprv = mnemonic_to_xprv(seed_words, passphrase, network)?;
    let derived = derive_xprv_at_path(xprv.as_str(), path)?;
    let fingerprint = xprv_fingerprint_hex(xprv.as_str())?;
    let desc_prv = descriptor_secret_for(derived.as_str(), fingerprint.as_str(), path)?;
    let desc_pub = descriptor_public_of(desc_prv.as_str())?;
    let prv_pair = wpkh_descriptors(desc_prv.as_str());
    let pub_pair = wpkh_descriptors(desc_pub.as_str());
    let name = wallet_name(fingerprint.as_str(), network);
    Ok(
        DerivedWallet {
            name,
            external_pub: pub_pair.0,
            internal_pub: pub_pair.1,
            external_prv: prv_pair.0,
            internal_prv: prv_pair.1,
        },
    )
}

/// Determinism of derivation: two wallets derived from the same seed
/// words, passphrase, path and network agree on every descriptor string
/// and on the wallet name.
pub proof fn lemma_derivation_deterministic(
    w1: DerivedWallet,
    w2: DerivedWallet,
    words: Seq<char>,
    pass: Seq<char>,
    path: Seq<char>,
    network: NetworkType,
)
    requires
        is_derivation_of(w1, words, pass, path, network),
        is_derivation_of(w2, words, pass, path, network),
    ensures
        w1.name@ == w2.name@,
        w1.external_pub@ == w2.external_pub@,
        w1.internal_pub@ == w2.internal_pub@,
        w1.external_prv@ == w2.external_prv@,
        w1.internal_prv@ == w2.internal_prv@,
{
}

/// A generated or reconstructed key origin: the mnemonic phrase, the
/// serialized master extended private key, and the master fingerprint.
#[derive(Debug)]
pub struct Seed {
    pub mnemonic: String,
    pub xprv: String,
    pub fingerprint: String,
}

/// Whether a phrase is a checksum-valid English mnemonic. True exactly on
/// the phrases the BIP-39 English word list and checksum accept.
pub fn validate_seed(seed_words: &str) -> (r: bool)
    ensures
        r == mnemonic_valid(seed_words@),
{
    english_mnemonic_ok(seed_words)
}

/// How many times a freshly generated phrase is re-checked before the
/// generator is declared broken.
pub const GENERATE_RETRY_LIMIT: u32 = 64;

/// Generates a fresh 12-word English seed for a network. The phrase is
/// re-parsed before use, and regenerated if the check fails, so a
/// returned seed always carries a valid mnemonic.
pub fn generate_seed(network: NetworkType) -> (r: Result<Seed, WalletError>)
    ensures
        r matches Ok(s) ==> {
            &&& mnemonic_valid(s.mnemonic@)
            &&& word_count(s.mnemonic@) == 12
            &&& s.xprv@ == xprv_str_of(s.mnemonic@, Seq::<char>::empty(), network)
            &&& s.fingerprint@ == fingerprint_hex_of(s.xprv@)
            &&& s.fingerprint@.len() == 8
        },
{
    let mut words = generate_mnemonic_words()?;
    let mut attempts: u32 = 0;
    while attempts < GENERATE_RETRY_LIMIT && !english_mnemonic_ok(words.as_str())
        invariant
            attempts <= GENERATE_RETRY_LIMIT,
            word_count(words@) == 12,
        decreases GENERATE_RETRY_LIMIT - attempts,
    {
        words = generate_mnemonic_words()?;
        attempts = attempts + 1;
    }
    if !english_mnemonic_ok(words.as_str()) {
        return Err(
            WalletError::new(
                ErrorKind::InvalidMnemonic,
                "the generator kept producing unparsable phrases".to_owned(),
            ),
        );
    }
    let xprv = mnemonic_to_xprv(words.as_str(), None, network)?;
    let fingerprint = xprv_fingerprint_hex(xprv.as_str())?;
    Ok(Seed { mnemonic: words, xprv, fingerprint })
}

/// Reconstructs a seed deterministically from 16 entropy bytes.
pub fn get_seed_from_entropy(network: NetworkType, entropy: &[u8]) -> (r: Result<
    Seed,
    WalletError,
>)
    requires
        entropy@.len() == 16,
    ensures
        master_seed_ok(mnemonic_of_entropy(entropy@), Seq::<char>::empty()) ==> r is Ok,
        r matches Ok(s) ==> {
            &&& s.mnemonic@ == mnemonic_of_entropy(entropy@)
            &&& mnemonic_valid(s.mnemonic@)
            &&& word_count(s.mnemonic@) == 12
            &&& s.xprv@ == xprv_str_of(mnemonic_of_entropy(entropy@), Seq::<char>::empty(), network)
            &&& s.fingerprint@ == fingerprint_hex_of(s.xprv@)
            &&& s.fingerprint@.len() == 8
        },
{
    let words = mnemonic_from_entropy(entropy)?;
    let xprv = mnemonic_to_xprv(words.as_str(), None, network)?;
    let fingerprint = xprv_fingerprint_hex(xprv.as_str())?;
    Ok(Seed { mnemonic: words, xprv, fingerprint })
}

/// The public descriptor key for an existing extended private key and
/// path, without re-deriving from a mnemonic.
pub fn get_xpub_desc_key(xprv: &str, path: &str) -> (r: Result<String, WalletError>)
    ensures
        r matches Ok(k) ==> xprv_valid(xprv@) && path_valid(path@) && k@ == desc_pub_of(
            desc_prv_of(derived_xprv_of(xprv@, path@), fingerprint_hex_of(xprv@), path@),
        ),
        xprv_valid(xprv@) && path_valid(path@) && derive_ok(xprv@, path@) ==> r is Ok,
        !xprv_valid(xprv@) ==> r is Err,
        xprv_valid(xprv@) && !path_valid(path@) ==> (r matches Err(e) && e.kind
            == ErrorKind::InvalidDerivationPath),
{
    let derived = derive_xprv_at_path(xprv, path)?;
    let fingerprint = xprv_fingerprint_hex(xprv)?;
    let secret = descriptor_secret_for(derived.as_str(), fingerprint.as_str(), path)?;
    descriptor_public_of(secret.as_str())
}

/// A fresh master extended private key from 32 caller-supplied entropy
/// bytes, as a base58 string.
pub fn generate_xkey_with_entropy(entropy: &[u8]) -> (r: Result<String, WalletError>)
    requires
        entropy@.len() == 32,
    ensures
        r is Ok <==> entropy_key_ok(entropy@),
        r matches Ok(x) ==> x@ == xkey_of_entropy(entropy@),
{
    xkey_from_entropy32(entropy)
}

} // verus!
