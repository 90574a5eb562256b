//! Identifiers, amounts and the bitcoin key material that the library reads.
use vstd::prelude::*;

verus! {

/// The character that writes the hexadecimal digit `n` (`0 <= n < 16`) in lower case.
pub open spec fn lower_hex_char(n: int) -> char {
    if n < 10 {
        (48 + n) as char
    } else {
        (87 + n) as char
    }
}

/// The `i`-th hexadecimal digit of `v` (`0 <= i < 32`), most significant first.
pub open spec fn u128_nibble(v: u128, i: int) -> int {
    ((v >> ((124 - 4 * i) as u128)) & 0xfu128) as int
}

/// How many of the four hyphens of the hyphenated form stand before position `k`.
pub open spec fn hyphens_before(k: int) -> int {
    (if k > 8 { 1int } else { 0int }) + (if k > 13 { 1int } else { 0int }) + (if k > 18 {
        1int
    } else {
        0int
    }) + (if k > 23 { 1int } else { 0int })
}

/// The hyphenated lower-case text of the UUID whose 128 bits, read big-endian, are `v`:
/// 32 hexadecimal digits in groups of 8, 4, 4, 4 and 12, joined by `-`.
pub open spec fn uuid_hyphenated(v: u128) -> Seq<char> {
    Seq::new(
        36,
        |k: int|
            if k == 8 || k == 13 || k == 18 || k == 23 {
                '-'
            } else {
                lower_hex_char(u128_nibble(v, k - hyphens_before(k)))
            },
    )
}

/// Writes the UUID whose big-endian bits are `v` in its hyphenated form.
///
/// Calls `uuid::Uuid::from_u128` and formats the result with `Uuid::hyphenated`;
/// the uuid crate documents both the big-endian reading and the lower-case
/// hyphenated layout, which is what the contract states.
#[verifier::external_body]
pub(crate) fn uuid_text(v: u128) -> (text: String)
    ensures
        text@ == uuid_hyphenated(v),
{
    uuid::Uuid::from_u128(v).hyphenated().to_string()
}

/// Identifier of an account of the service.
#[derive(Clone, Copy, Debug, PartialEq, Eq)]
pub struct AccountId(pub u128);

/// Identifier of a wallet.
#[derive(Clone, Copy, Debug, PartialEq, Eq)]
pub struct WalletId(pub u128);

/// Identifier of a batch of payouts.
#[derive(Clone, Copy, Debug, PartialEq, Eq)]
pub struct BatchId(pub u128);

/// Identifier of a batch group, the queue that payouts wait in.
#[derive(Clone, Copy, Debug, PartialEq, Eq)]
pub struct BatchGroupId(pub u128);

/// Identifier of a payout.
#[derive(Clone, Copy, Debug, PartialEq, Eq)]
pub struct PayoutId(pub u128);

/// Identifier of a ledger journal.
#[derive(Clone, Copy, Debug, PartialEq, Eq)]
pub struct JournalId(pub u128);

/// An amount of bitcoin in satoshis.
#[derive(Clone, Copy, Debug, PartialEq, Eq)]
pub struct Satoshis(pub u64);

/// An exact decimal amount of bitcoin: `mantissa` × 10^-`scale` BTC.
#[derive(Clone, Copy, Debug, PartialEq, Eq)]
pub struct BtcAmount {
    pub mantissa: u64,
    pub scale: u32,
}

/// The number of decimal places between a bitcoin and a satoshi.
pub const SATS_SCALE: u32 = 8;

/// `satoshis` in bitcoin: the satoshis over 10^8, without rounding.
pub open spec fn btc_of(satoshis: Satoshis) -> BtcAmount {
    BtcAmount { mantissa: satoshis.0, scale: SATS_SCALE }
}

impl Satoshis {
    /// The amount in bitcoin, exactly: the satoshis as mantissa, scale 8.
    pub fn to_btc(&self) -> (btc: BtcAmount)
        ensures
            btc == btc_of(*self),
    {
        BtcAmount { mantissa: self.0, scale: SATS_SCALE }
    }
}

/// The first four bytes of the HASH160 of a public key.
#[derive(Clone, Copy, Debug, PartialEq, Eq)]
pub struct Fingerprint(pub [u8; 4]);

/// The fingerprint made of the first four bytes of `bytes`.
pub open spec fn fingerprint_of_bytes(bytes: Seq<u8>) -> Fingerprint {
    Fingerprint([bytes[0], bytes[1], bytes[2], bytes[3]])
}

/// An extended public key is identified by its fingerprint.
#[derive(Clone, Copy, Debug, PartialEq, Eq)]
pub struct XPubId(pub Fingerprint);

/// The bitcoin network a key belongs to.
#[derive(Clone, Copy, Debug, PartialEq, Eq)]
pub enum Network {
    Bitcoin,
    Testnet,
    Signet,
    Regtest,
}

/// One step of a BIP-32 derivation, with its index below 2^31.
#[derive(Clone, Copy, Debug, PartialEq, Eq)]
pub enum ChildNumber {
    Normal { index: u32 },
    Hardened { index: u32 },
}

/// A BIP-32 extended public key, with its public key in compressed form.
#[derive(Clone, Copy, Debug, PartialEq, Eq)]
pub struct ExtendedPubKey {
    pub network: Network,
    pub depth: u8,
    pub parent_fingerprint: Fingerprint,
    pub child_number: ChildNumber,
    pub public_key: [u8; 33],
    pub chain_code: [u8; 32],
}

/// A BIP-32 derivation path.
#[derive(Clone, Debug, PartialEq, Eq)]
pub struct DerivationPath(pub Vec<ChildNumber>);

impl View for DerivationPath {
    type V = Seq<ChildNumber>;

    open spec fn view(&self) -> Seq<ChildNumber> {
        self.0@
    }
}

impl DerivationPath {
    /// A copy of the path.
    pub fn duplicate(&self) -> (copy: DerivationPath)
        ensures
            copy@ == self@,
    {
        let steps = self.0.clone();
        assert(steps@ =~= self.0@);
        DerivationPath(steps)
    }
}

/// The id of a bitcoin transaction.
#[derive(Clone, Copy, Debug, PartialEq, Eq)]
pub struct Txid(pub [u8; 32]);

/// The value of the hexadecimal digit `c`, in either case.
pub open spec fn hex_digit_value(c: char) -> Option<int> {
    if '0' <= c && c <= '9' {
        Some(c as int - 48)
    } else if 'a' <= c && c <= 'f' {
        Some(c as int - 87)
    } else if 'A' <= c && c <= 'F' {
        Some(c as int - 55)
    } else {
        None
    }
}

/// The four bytes written by `text` as eight hexadecimal digits, if it is that.
pub open spec fn parsed_hex_fingerprint(text: Seq<char>) -> Option<Seq<u8>> {
    if text.len() == 8 && forall|i: int| 0 <= i < 8 ==> (#[trigger] hex_digit_value(text[i])) is Some {
        Some(
            Seq::new(
                4,
                |j: int|
                    (hex_digit_value(text[2 * j]).unwrap() * 16 + hex_digit_value(
                        text[2 * j + 1],
                    ).unwrap()) as u8,
            ),
        )
    } else {
        None
    }
}

/// The outside error type `bitcoin::util::bip32::Error`, carried as an opaque value.
#[verifier::external_type_specification]
#[verifier::external_body]
pub struct ExBip32Error(bdk::bitcoin::util::bip32::Error);

/// The error with which bitcoin's fingerprint parsing refuses `text`.
pub uninterp spec fn fingerprint_parse_error(text: Seq<char>) -> bdk::bitcoin::util::bip32::Error;

/// Reads a fingerprint written as hexadecimal text.
///
/// Calls `FromStr` of `bitcoin::util::bip32::Fingerprint`, which decodes
/// eight hexadecimal digits of either case into four bytes and refuses any
/// other text; its hex error is handed back as `bip32::Error::Hex`. Which
/// hex error that is (odd length, wrong length or the first bad byte) is a
/// function of the text alone; the contract names it
/// `fingerprint_parse_error` and says no more of it.
#[verifier::external_body]
fn parse_fingerprint(text: &str) -> (parsed: Result<[u8; 4], bdk::bitcoin::util::bip32::Error>)
    ensures
        match parsed {
            Ok(bytes) => parsed_hex_fingerprint(text@) == Some(bytes@),
            Err(e) => parsed_hex_fingerprint(text@) is None && e == fingerprint_parse_error(text@),
        },
{
    match <bdk::bitcoin::util::bip32::Fingerprint as std::str::FromStr>::from_str(text) {
        Ok(fingerprint) => Ok(fingerprint.into_bytes()),
        Err(e) => Err(bdk::bitcoin::util::bip32::Error::Hex(e)),
    }
}

impl XPubId {
    /// Reads an xpub id from its hexadecimal text.
    pub fn parse(text: &str) -> (parsed: Result<XPubId, bdk::bitcoin::util::bip32::Error>)
        ensures
            match parsed {
                Ok(id) => parsed_hex_fingerprint(text@) == Some(id.0.0@),
                Err(e) => parsed_hex_fingerprint(text@) is None && e == fingerprint_parse_error(text@),
            },
    {
        match parse_fingerprint(text) {
            Ok(bytes) => Ok(XPubId(Fingerprint(bytes))),
            Err(e) => Err(e),
        }
    }
}

impl std::str::FromStr for XPubId {
    type Err = bdk::bitcoin::util::bip32::Error;

    /// Reads an xpub id from its hexadecimal text; see [`XPubId::parse`].
    fn from_str(text: &str) -> (parsed: Result<XPubId, bdk::bitcoin::util::bip32::Error>)
        ensures
            match parsed {
                Ok(id) => parsed_hex_fingerprint(text@) == Some(id.0.0@),
                Err(e) => parsed_hex_fingerprint(text@) is None && e == fingerprint_parse_error(text@),
            },
    {
        XPubId::parse(text)
    }
}

/// A fresh random (version 4) UUID, as its big-endian bits.
///
/// Calls `uuid::Uuid::new_v4` and reads it with `Uuid::as_u128`. The value
/// comes from the operating system's random source; the contract claims only
/// that its version field says "random" and its variant field says RFC 4122,
/// which `new_v4` sets on every UUID it makes.
#[verifier::external_body]
pub(crate) fn new_uuid() -> (v: u128)
    ensures
        (v >> 76u128) & 0xfu128 == 4,
        (v >> 62u128) & 0x3u128 == 2,
{
    uuid::Uuid::new_v4().as_u128()
}

/// Different hexadecimal digits are written with different characters.
proof fn lemma_lower_hex_char_injective(m: int, n: int)
    requires
        0 <= m < 16,
        0 <= n < 16,
        lower_hex_char(m) == lower_hex_char(n),
    ensures
        m == n,
{
    assert(lower_hex_char(m) as int == if m < 10 { 48 + m } else { 87 + m });
    assert(lower_hex_char(n) as int == if n < 10 { 48 + n } else { 87 + n });
}

/// Shifting right by `s` keeps the bits above `s + 4` shifted by four, and
/// the four bits above `s`.
proof fn lemma_shift_split(v: u128, s: u128)
    requires
        s <= 120,
    ensures
        v >> s == ((v >> (s + 4)) << 4u128) | ((v >> s) & 0xfu128),
{
    assert(v >> s == ((v >> (s + 4)) << 4u128) | ((v >> s) & 0xfu128)) by (bit_vector)
        requires
            s <= 120,
    ;
}

/// Two values whose 32 hexadecimal digits agree agree in their top `k` digits.
proof fn lemma_top_digits_agree(a: u128, b: u128, k: nat)
    requires
        1 <= k <= 32,
        forall|i: int| 0 <= i < 32 ==> u128_nibble(a, i) == u128_nibble(b, i),
    ensures
        a >> ((128 - 4 * k) as u128) == b >> ((128 - 4 * k) as u128),
    decreases k,
{
    if k == 1 {
        assert(u128_nibble(a, 0) == u128_nibble(b, 0));
        assert(a >> 124u128 == (a >> 124u128) & 0xfu128) by (bit_vector);
        assert(b >> 124u128 == (b >> 124u128) & 0xfu128) by (bit_vector);
    } else {
        lemma_top_digits_agree(a, b, (k - 1) as nat);
        let s = (128 - 4 * k) as u128;
        lemma_shift_split(a, s);
        lemma_shift_split(b, s);
        assert(u128_nibble(a, k - 1) == u128_nibble(b, k - 1));
    }
}

/// Different UUIDs are written differently.
pub proof fn lemma_uuid_hyphenated_injective(a: u128, b: u128)
    requires
        uuid_hyphenated(a) == uuid_hyphenated(b),
    ensures
        a == b,
{
    assert forall|i: int| 0 <= i < 32 implies u128_nibble(a, i) == u128_nibble(b, i) by {
        let k = i + (if i >= 8 { 1int } else { 0int }) + (if i >= 12 { 1int } else { 0int }) + (if i
            >= 16 {
            1int
        } else {
            0int
        }) + (if i >= 20 { 1int } else { 0int });
        assert(hyphens_before(k) == k - i);
        assert(k != 8 && k != 13 && k != 18 && k != 23 && 0 <= k < 36);
        let na = u128_nibble(a, i);
        let nb = u128_nibble(b, i);
        assert(uuid_hyphenated(a)[k] == lower_hex_char(na));
        assert(uuid_hyphenated(b)[k] == lower_hex_char(nb));
        let sa = (124 - 4 * i) as u128;
        assert((a >> sa) & 0xfu128 <= 0xfu128) by (bit_vector);
        assert((b >> sa) & 0xfu128 <= 0xfu128) by (bit_vector);
        lemma_lower_hex_char_injective(na, nb);
    }
    lemma_top_digits_agree(a, b, 32);
    assert(a >> 0u128 == a) by (bit_vector);
    assert(b >> 0u128 == b) by (bit_vector);
}

} // verus!
