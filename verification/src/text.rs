//! Text building blocks of the review screens: decimal numbers and coin
//! amounts, hexadecimal, bytes shown as text, and bech32m addresses.

use vstd::prelude::*;

use crate::primitives::{
    OutputTimeLock, OutputValue, spec_address_prefix, spec_coin_ticker, spec_delegation_id_prefix, spec_encode_destination,
    spec_encode_vrf_public_key, spec_order_id_prefix, spec_pool_id_prefix, spec_token_id_prefix,
    spec_vrf_public_key_prefix, encode_destination, encode_vrf_public_key, Amount, CoinType,
    Destination, H256, VrfPublicKey,
};
use crate::status::StatusWord;

verus! {

/// Appends one character to a string.
///
/// Calls `String::push`, which (as std documents) appends the character to
/// the end of the string.
#[verifier::external_body]
pub(crate) fn push_char(s: &mut String, c: char)
    ensures
        final(s)@ == old(s)@.push(c),
{
    s.push(c);
}

/// The character of a decimal digit.
pub open spec fn spec_digit(d: nat) -> char {
    (d + 48) as char
}

/// The decimal representation of a number, without leading zeros.
pub open spec fn spec_decimal(n: nat) -> Seq<char>
    decreases n,
{
    if n < 10 {
        seq![spec_digit(n)]
    } else {
        spec_decimal(n / 10) + seq![spec_digit(n % 10)]
    }
}

/// The character of a digit below ten.
fn digit_char(d: u8) -> (c: char)
    requires
        d < 10,
    ensures
        c == spec_digit(d as nat),
{
    let code: u8 = 48 + d;
    code as char
}

/// Appends the decimal representation of `n` to a string.
pub fn push_decimal(s: &mut String, n: u128)
    ensures
        final(s)@ == old(s)@ + spec_decimal(n as nat),
    decreases n,
{
    if n >= 10 {
        push_decimal(s, n / 10);
    }
    let d = (n % 10) as u8;
    push_char(s, digit_char(d));
    proof {
        if n >= 10 {
            assert(spec_decimal(n as nat) == spec_decimal((n / 10) as nat) + seq![spec_digit(
                (n % 10) as nat,
            )]);
        }
    }
}

/// The decimal representation of a number.
pub fn decimal(n: u128) -> (r: String)
    ensures
        r@ == spec_decimal(n as nat),
{
    let mut s = String::new();
    push_decimal(&mut s, n);
    proof {
        assert(s@ =~= spec_decimal(n as nat));
    }
    s
}

/// Appends the decimal digits of `n` to a vector of characters.
fn push_decimal_chars(v: &mut Vec<char>, n: u128)
    ensures
        final(v)@ == old(v)@ + spec_decimal(n as nat),
    decreases n,
{
    if n >= 10 {
        push_decimal_chars(v, n / 10);
    }
    let d = (n % 10) as u8;
    v.push(digit_char(d));
    proof {
        if n >= 10 {
            assert(spec_decimal(n as nat) == spec_decimal((n / 10) as nat) + seq![spec_digit(
                (n % 10) as nat,
            )]);
        }
    }
}

/// Digits padded on the left with zeros to at least `width` characters.
pub open spec fn spec_zero_pad(d: Seq<char>, width: nat) -> Seq<char> {
    if d.len() >= width {
        d
    } else {
        Seq::new((width - d.len()) as nat, |i: int| '0') + d
    }
}

/// An amount of atoms as a decimal number with `decimals` digits after the
/// point and at least one before it.
pub open spec fn spec_coin_amount(atoms: u128, decimals: nat) -> Seq<char> {
    let p = spec_zero_pad(spec_decimal(atoms as nat), decimals + 1);
    p.subrange(0, p.len() - decimals) + seq!['.'] + p.subrange(p.len() - decimals, p.len() as int)
}

/// An amount of coins as a decimal number, with the network's decimals.
pub fn format_coin_amount(amount: Amount, coin: CoinType) -> (r: String)
    ensures
        r@ == spec_coin_amount(amount.atoms, 11),
{
    let decimals = coin.coin_decimals() as usize;
    let mut digits: Vec<char> = Vec::new();
    push_decimal_chars(&mut digits, amount.into_atoms());
    assert(digits@ =~= spec_decimal(amount.atoms as nat));
    let width = decimals + 1;
    let mut padded: Vec<char> = Vec::new();
    if digits.len() < width {
        let n = width - digits.len();
        let mut i: usize = 0;
        while i < n
            invariant
                i <= n,
                padded@ == Seq::new(i as nat, |j: int| '0'),
            decreases n - i,
        {
            padded.push('0');
            i += 1;
            proof {
                assert(padded@ =~= Seq::new(i as nat, |j: int| '0'));
            }
        }
    }
    let mut k: usize = 0;
    let ghost pad_len = padded@.len();
    let ghost pad = padded@;
    while k < digits.len()
        invariant
            k <= digits@.len(),
            padded@ == pad + digits@.subrange(0, k as int),
        decreases digits@.len() - k,
    {
        padded.push(digits[k]);
        k += 1;
        proof {
            assert(digits@.subrange(0, k as int) =~= digits@.subrange(0, (k - 1) as int).push(
                digits@[k - 1],
            ));
        }
    }
    proof {
        assert(digits@.subrange(0, digits@.len() as int) =~= digits@);
        assert(padded@ =~= spec_zero_pad(spec_decimal(amount.atoms as nat), 12));
    }
    let split = padded.len() - decimals;
    let mut out = String::new();
    let mut i: usize = 0;
    while i < padded.len()
        invariant
            i <= padded@.len(),
            split < padded@.len(),
            i <= split ==> out@ == padded@.subrange(0, i as int),
            i > split ==> out@ == padded@.subrange(0, split as int) + seq!['.']
                + padded@.subrange(split as int, i as int),
        decreases padded@.len() - i,
    {
        if i == split {
            push_char(&mut out, '.');
        }
        let ghost before = out@;
        push_char(&mut out, padded[i]);
        i += 1;
        proof {
            if i <= split {
                assert(out@ =~= padded@.subrange(0, i as int));
            } else {
                assert(out@ =~= padded@.subrange(0, split as int) + seq!['.']
                    + padded@.subrange(split as int, i as int));
            }
        }
    }
    out
}

/// An amount of coins with the network's ticker after it.
pub open spec fn spec_coin_amount_with_name(atoms: u128, coin: CoinType) -> Seq<char> {
    spec_coin_amount(atoms, 11) + " "@ + spec_coin_ticker(coin)
}

/// An amount of coins with the network's ticker after it.
pub fn format_coin_amount_with_name(amount: Amount, coin: CoinType) -> (r: String)
    ensures
        r@ == spec_coin_amount_with_name(amount.atoms, coin),
{
    let mut s = format_coin_amount(amount, coin);
    s.append(" ");
    s.append(coin.coin_ticker());
    s
}

/// A number of atoms, as `"<n> atoms"`.
pub open spec fn spec_atoms(atoms: u128) -> Seq<char> {
    spec_decimal(atoms as nat) + " atoms"@
}

/// A number of atoms, as `"<n> atoms"`.
pub fn format_atoms(amount: Amount) -> (r: String)
    ensures
        r@ == spec_atoms(amount.atoms),
{
    let mut s = decimal(amount.into_atoms());
    s.append(" atoms");
    s
}

/// The lowercase hexadecimal digit of a value below sixteen.
pub open spec fn spec_hex_digit(d: nat) -> char {
    if d < 10 {
        (d + 48) as char
    } else {
        (d + 87) as char
    }
}

/// Bytes as lowercase hexadecimal, two digits per byte, high digit first.
pub open spec fn spec_hex(bytes: Seq<u8>) -> Seq<char>
    decreases bytes.len(),
{
    if bytes.len() == 0 {
        Seq::empty()
    } else {
        spec_hex(bytes.drop_last()) + seq![
            spec_hex_digit((bytes.last() / 16) as nat),
            spec_hex_digit((bytes.last() % 16) as nat),
        ]
    }
}

/// Bytes as lowercase hexadecimal, without a prefix.
///
/// Calls `const_hex::encode`, which writes each byte as two lowercase
/// hexadecimal digits, the high one first.
#[verifier::external_body]
pub(crate) fn hex_encode(data: &[u8]) -> (r: String)
    ensures
        r@ == spec_hex(data@),
{
    const_hex::encode(data)
}

/// Every byte is a printable ASCII character (space to tilde).
pub open spec fn spec_printable(bytes: Seq<u8>) -> bool {
    forall|i: int| 0 <= i < bytes.len() ==> 0x20 <= #[trigger] bytes[i] <= 0x7e
}

/// Bytes taken as ASCII characters.
pub open spec fn spec_ascii_chars(bytes: Seq<u8>) -> Seq<char> {
    Seq::new(bytes.len(), |i: int| bytes[i] as char)
}

/// The text of bytes that are all printable ASCII; others have none.
pub fn as_displayable_chars(bytes: &[u8]) -> (r: Option<String>)
    ensures
        r is Some <==> spec_printable(bytes@),
        r matches Some(s) ==> s@ == spec_ascii_chars(bytes@),
{
    let mut s = String::new();
    let mut i: usize = 0;
    while i < bytes.len()
        invariant
            i <= bytes@.len(),
            s@ == spec_ascii_chars(bytes@.subrange(0, i as int)),
            forall|j: int| 0 <= j < i ==> 0x20 <= #[trigger] bytes@[j] <= 0x7e,
        decreases bytes@.len() - i,
    {
        let b = bytes[i];
        if b < 0x20 || b > 0x7e {
            return None;
        }
        push_char(&mut s, b as char);
        i += 1;
        proof {
            assert(s@ =~= spec_ascii_chars(bytes@.subrange(0, i as int)));
        }
    }
    proof {
        assert(bytes@.subrange(0, i as int) =~= bytes@);
    }
    Some(s)
}

/// Bytes as the user sees them: as text when all are printable ASCII,
/// otherwise as `0x` and lowercase hexadecimal.
pub open spec fn spec_displayable(bytes: Seq<u8>) -> Seq<char> {
    if spec_printable(bytes) {
        spec_ascii_chars(bytes)
    } else {
        "0x"@ + spec_hex(bytes)
    }
}

/// A printable ASCII character (space to tilde).
pub open spec fn spec_printable_char(c: char) -> bool {
    ' ' <= c <= '~'
}

/// Hexadecimal text has only digits and lowercase letters up to `f`.
pub proof fn lemma_hex_chars(bytes: Seq<u8>)
    ensures
        spec_hex(bytes).len() == 2 * bytes.len(),
        forall|i: int|
            0 <= i < spec_hex(bytes).len() ==> ('0' <= #[trigger] spec_hex(bytes)[i] <= '9'
                || 'a' <= spec_hex(bytes)[i] <= 'f'),
    decreases bytes.len(),
{
    if bytes.len() > 0 {
        lemma_hex_chars(bytes.drop_last());
        let b = bytes.last();
        assert(b / 16 < 16 && b % 16 < 16);
    }
}

/// What the user is shown of any bytes is printable ASCII: the bytes
/// themselves when they are, their hexadecimal otherwise.
pub proof fn lemma_displayable_is_printable(bytes: Seq<u8>)
    ensures
        forall|i: int|
            0 <= i < spec_displayable(bytes).len() ==> spec_printable_char(
                #[trigger] spec_displayable(bytes)[i],
            ),
{
    if spec_printable(bytes) {
        assert forall|i: int| 0 <= i < spec_displayable(bytes).len() implies spec_printable_char(
            #[trigger] spec_displayable(bytes)[i],
        ) by {
            assert(0x20 <= bytes[i] <= 0x7e);
        }
    } else {
        lemma_hex_chars(bytes);
        reveal_strlit("0x");
        assert forall|i: int| 0 <= i < spec_displayable(bytes).len() implies spec_printable_char(
            #[trigger] spec_displayable(bytes)[i],
        ) by {
            if i >= 2 {
                assert(spec_displayable(bytes)[i] == spec_hex(bytes)[i - 2]);
            }
        }
    }
}

/// Bytes as the user sees them.
pub fn make_displayable(bytes: &[u8]) -> (r: String)
    ensures
        r@ == spec_displayable(bytes@),
{
    match as_displayable_chars(bytes) {
        Some(s) => s,
        None => {
            let mut s = String::from_str("0x");
            let hex = hex_encode(bytes);
            s.append(hex.as_str());
            s
        },
    }
}

/// Bytes as the user sees them (same text as `make_displayable`).
pub fn make_displayable_str(bytes: &[u8]) -> (r: String)
    ensures
        r@ == spec_displayable(bytes@),
{
    make_displayable(bytes)
}

/// A lowercase ASCII letter.
pub open spec fn spec_is_lower(c: char) -> bool {
    'a' <= c <= 'z'
}

/// An uppercase ASCII letter.
pub open spec fn spec_is_upper(c: char) -> bool {
    'A' <= c <= 'Z'
}

/// A bech32 human-readable part: 1 to 83 characters from `!` to `~`, not
/// mixing lowercase and uppercase letters.
pub open spec fn spec_hrp_valid(hrp: Seq<char>) -> bool {
    &&& 1 <= hrp.len() <= 83
    &&& forall|i: int| 0 <= i < hrp.len() ==> 33 <= (#[trigger] hrp[i]) as u32 <= 126
    &&& !((exists|i: int| 0 <= i < hrp.len() && spec_is_lower(#[trigger] hrp[i])) && (exists|
        j: int,
    | 0 <= j < hrp.len() && spec_is_upper(#[trigger] hrp[j])))
}

/// The length of a bech32m string: the human-readable part, the separator,
/// five bits per character of data, and six checksum characters.
pub open spec fn spec_bech32m_len(hrp_len: nat, data_len: nat) -> nat {
    hrp_len + 1 + (8 * data_len + 4) / 5 + 6
}

/// A character as lowercase ASCII.
pub open spec fn spec_ascii_lower(c: char) -> char {
    if spec_is_upper(c) {
        ((c as u32) + 32) as char
    } else {
        c
    }
}

/// A character of the bech32 alphabet: a digit other than `1`, or a
/// lowercase letter other than `b`, `i` and `o`.
pub open spec fn spec_bech32_char(c: char) -> bool {
    ||| '0' <= c <= '9' && c != '1'
    ||| spec_is_lower(c) && c != 'b' && c != 'i' && c != 'o'
}

/// The shape of a bech32m string of `data_len` bytes: the human-readable
/// part in lowercase, the separator `1`, then characters of the alphabet
/// (the data and the checksum), of the length `spec_bech32m_len` gives.
pub open spec fn spec_bech32m_shape(hrp: Seq<char>, data_len: nat, s: Seq<char>) -> bool {
    &&& s.len() == spec_bech32m_len(hrp.len(), data_len)
    &&& forall|i: int| 0 <= i < hrp.len() ==> #[trigger] s[i] == spec_ascii_lower(hrp[i])
    &&& s[hrp.len() as int] == '1'
    &&& forall|i: int| hrp.len() < i < s.len() ==> spec_bech32_char(#[trigger] s[i])
}

/// The bech32m string (lowercase, checksum included) of data under a
/// human-readable part.
pub uninterp spec fn bech32m_encoding(hrp: Seq<char>, data: Seq<u8>) -> Seq<char>;

/// The address of data under a prefix; `TxAddressFail` for a prefix that is
/// no human-readable part or a string over 1023 characters.
pub open spec fn spec_bech32m(hrp: Seq<char>, data: Seq<u8>) -> Result<Seq<char>, StatusWord> {
    if spec_hrp_valid(hrp) && spec_bech32m_len(hrp.len(), data.len()) <= 1023 {
        Ok(bech32m_encoding(hrp, data))
    } else {
        Err(StatusWord::TxAddressFail)
    }
}

/// Encodes data as a bech32m string.
///
/// Calls `bech32::Hrp::parse` on the prefix and `bech32::encode::<Bech32m>`.
/// The contract states when they fail, as their source shows (an invalid
/// human-readable part; a string longer than 1023 characters), names the
/// string they produce and states its shape as `encode_lower_to_fmt` writes
/// it (the lowercased part, `1`, the data's and the checksum's characters).
/// The checksum characters themselves are not stated.
#[verifier::external_body]
pub fn bech32m_encode(hrp: &str, data: &[u8]) -> (r: Result<String, StatusWord>)
    ensures
        match r {
            Ok(s) => spec_bech32m(hrp@, data@) == Ok::<Seq<char>, StatusWord>(s@),
            Err(e) => spec_bech32m(hrp@, data@) == Err::<Seq<char>, StatusWord>(e),
        },
        r matches Ok(s) ==> s@ == bech32m_encoding(hrp@, data@),
        r matches Ok(s) ==> spec_bech32m_shape(hrp@, data@.len(), s@),
{
    let parsed_hrp = bech32::Hrp::parse(hrp).map_err(|_| StatusWord::TxAddressFail)?;
    bech32::encode::<bech32::Bech32m>(parsed_hrp, data).map_err(|_| StatusWord::TxAddressFail)
}

/// A text result as characters.
pub open spec fn text_view(r: Result<String, StatusWord>) -> Result<Seq<char>, StatusWord> {
    match r {
        Ok(s) => Ok(s@),
        Err(e) => Err(e),
    }
}

/// The address of a destination on a network.
pub open spec fn spec_to_address(dest: Destination, coin: CoinType) -> Result<
    Seq<char>,
    StatusWord,
> {
    spec_bech32m(spec_address_prefix(coin, dest), spec_encode_destination(dest))
}

/// The address of a destination on a network.
pub fn to_address(destination: &Destination, coin: CoinType) -> (r: Result<String, StatusWord>)
    ensures
        text_view(r) == spec_to_address(*destination, coin),
        r matches Ok(s) ==> spec_bech32m_shape(
            spec_address_prefix(coin, *destination),
            spec_encode_destination(*destination).len(),
            s@,
        ),
{
    let hrp = coin.address_prefix(destination);
    let data = encode_destination(destination);
    bech32m_encode(hrp, data.as_slice())
}

/// The address of an id under a prefix.
pub fn id_to_address(id: &H256, hrp: &str) -> (r: Result<String, StatusWord>)
    ensures
        text_view(r) == spec_bech32m(hrp@, id.0@),
{
    bech32m_encode(hrp, &id.0)
}

/// The address of a token id.
pub fn token_id_to_address(id: &H256, coin: CoinType) -> (r: Result<String, StatusWord>)
    ensures
        text_view(r) == spec_bech32m(spec_token_id_prefix(coin), id.0@),
{
    id_to_address(id, coin.token_id_address_prefix())
}

/// The address of a staking pool id.
pub fn pool_id_to_address(id: &H256, coin: CoinType) -> (r: Result<String, StatusWord>)
    ensures
        text_view(r) == spec_bech32m(spec_pool_id_prefix(coin), id.0@),
{
    id_to_address(id, coin.pool_id_address_prefix())
}

/// The address of a delegation id.
pub fn delegation_id_to_address(id: &H256, coin: CoinType) -> (r: Result<String, StatusWord>)
    ensures
        text_view(r) == spec_bech32m(spec_delegation_id_prefix(coin), id.0@),
{
    id_to_address(id, coin.delegation_id_address_prefix())
}

/// The address of an order id.
pub fn order_id_to_address(id: &H256, coin: CoinType) -> (r: Result<String, StatusWord>)
    ensures
        text_view(r) == spec_bech32m(spec_order_id_prefix(coin), id.0@),
{
    id_to_address(id, coin.order_id_address_prefix())
}

/// The address of a VRF public key.
pub fn vrf_to_address(key: &VrfPublicKey, coin: CoinType) -> (r: Result<String, StatusWord>)
    ensures
        text_view(r) == spec_bech32m(
            spec_vrf_public_key_prefix(coin),
            spec_encode_vrf_public_key(*key),
        ),
{
    let data = encode_vrf_public_key(key);
    bech32m_encode(coin.vrf_public_key_address_prefix(), data.as_slice())
}

/// The UTC date and time of a Unix timestamp as `YYYY-MM-DD hh:mm:ss`, where
/// `chrono` can represent that instant.
pub uninterp spec fn utc_datetime_text(secs: i64) -> Option<Seq<char>>;

/// The UTC date and time of a Unix timestamp.
///
/// Calls `chrono::TimeZone::timestamp_opt` on `chrono::Utc` (taking the
/// earliest result) and formats it with `%Y-%m-%d %H:%M:%S`. The text is
/// named, not stated; that there is none exactly when `chrono` cannot
/// represent the instant is in the name as well.
#[verifier::external_body]
fn utc_timestamp_text(secs: i64) -> (r: Option<String>)
    ensures
        match r {
            Some(s) => utc_datetime_text(secs) == Some(s@),
            None => utc_datetime_text(secs) is None,
        },
{
    match chrono::TimeZone::timestamp_opt(&chrono::Utc, secs, 0).earliest() {
        Some(dt) => Some(dt.format("%Y-%m-%d %H:%M:%S").to_string()),
        None => None,
    }
}

/// A timestamp as UTC date and time; `TxLockTimeInvalid` for one beyond
/// `i64` or beyond what can be shown.
pub open spec fn spec_format_timestamp(secs: u64) -> Result<Seq<char>, StatusWord> {
    if secs > i64::MAX {
        Err(StatusWord::TxLockTimeInvalid)
    } else {
        match utc_datetime_text(secs as i64) {
            Some(t) => Ok(t),
            None => Err(StatusWord::TxLockTimeInvalid),
        }
    }
}

/// A timestamp as UTC date and time.
pub fn format_timestamp(seconds: u64) -> (r: Result<String, StatusWord>)
    ensures
        text_view(r) == spec_format_timestamp(seconds),
{
    if seconds > 0x7fff_ffff_ffff_ffffu64 {
        return Err(StatusWord::TxLockTimeInvalid);
    }
    let secs: i64 = seconds as i64;
    match utc_timestamp_text(secs) {
        Some(s) => Ok(s),
        None => Err(StatusWord::TxLockTimeInvalid),
    }
}

/// A time lock as text.
pub open spec fn spec_format_lock(lock: OutputTimeLock) -> Result<Seq<char>, StatusWord> {
    match lock {
        OutputTimeLock::UntilHeight(h) => Ok("Lock until block height "@ + spec_decimal(h as nat)),
        OutputTimeLock::UntilTime(t) => match spec_format_timestamp(t) {
            Ok(s) => Ok("Lock until "@ + s),
            Err(e) => Err(e),
        },
        OutputTimeLock::ForBlockCount(b) => Ok("Lock for "@ + spec_decimal(b as nat) + " blocks"@),
        OutputTimeLock::ForSeconds(n) => Ok("Lock for "@ + spec_decimal(n as nat) + " seconds"@),
    }
}

/// A time lock as text.
pub fn format_lock(lock: &OutputTimeLock) -> (r: Result<String, StatusWord>)
    ensures
        text_view(r) == spec_format_lock(*lock),
{
    match lock {
        OutputTimeLock::UntilHeight(h) => {
            let mut s = String::from_str("Lock until block height ");
            push_decimal(&mut s, *h as u128);
            Ok(s)
        },
        OutputTimeLock::UntilTime(t) => {
            let ts = format_timestamp(*t)?;
            let mut s = String::from_str("Lock until ");
            s.append(ts.as_str());
            Ok(s)
        },
        OutputTimeLock::ForBlockCount(b) => {
            let mut s = String::from_str("Lock for ");
            push_decimal(&mut s, *b as u128);
            s.append(" blocks");
            Ok(s)
        },
        OutputTimeLock::ForSeconds(n) => {
            let mut s = String::from_str("Lock for ");
            push_decimal(&mut s, *n as u128);
            s.append(" seconds");
            Ok(s)
        },
    }
}

/// An amount of a token, as `"<n> atoms of <token address>"`.
pub open spec fn spec_token_amount_with_name(id: H256, atoms: u128, coin: CoinType) -> Result<
    Seq<char>,
    StatusWord,
> {
    match spec_bech32m(spec_token_id_prefix(coin), id.0@) {
        Ok(t) => Ok(spec_decimal(atoms as nat) + " atoms of "@ + t),
        Err(e) => Err(e),
    }
}

/// An amount of a token with the token's address.
pub fn format_token_amount_with_name(token_id: &H256, amount: Amount, coin: CoinType) -> (r: Result<
    String,
    StatusWord,
>)
    ensures
        text_view(r) == spec_token_amount_with_name(*token_id, amount.atoms, coin),
{
    let atoms = amount.into_atoms();
    let id_str = token_id_to_address(token_id, coin)?;
    let mut s = decimal(atoms);
    s.append(" atoms of ");
    s.append(id_str.as_str());
    Ok(s)
}

/// A value as text: coins with the ticker, tokens with the token's address.
pub open spec fn spec_format_value(value: OutputValue, coin: CoinType) -> Result<
    Seq<char>,
    StatusWord,
> {
    match value {
        OutputValue::Coin(a) => Ok(spec_coin_amount_with_name(a.atoms, coin)),
        OutputValue::TokenV1(id, a) => spec_token_amount_with_name(id, a.atoms, coin),
    }
}

/// A value as text.
pub fn format_value(value: &OutputValue, coin: CoinType) -> (r: Result<String, StatusWord>)
    ensures
        text_view(r) == spec_format_value(*value, coin),
{
    match value {
        OutputValue::Coin(amount) => Ok(format_coin_amount_with_name(*amount, coin)),
        OutputValue::TokenV1(token_id, amount) => format_token_amount_with_name(
            token_id,
            *amount,
            coin,
        ),
    }
}

/// The same asset as a value, in another amount.
pub open spec fn spec_value_with_amount(value: OutputValue, amount: Amount) -> OutputValue {
    match value {
        OutputValue::Coin(_) => OutputValue::Coin(amount),
        OutputValue::TokenV1(id, _) => OutputValue::TokenV1(id, amount),
    }
}

/// The same asset as a value, in another amount.
pub fn output_value_with_amount(value: &OutputValue, amount: Amount) -> (r: OutputValue)
    ensures
        r == spec_value_with_amount(*value, amount),
{
    match value {
        OutputValue::Coin(_) => OutputValue::Coin(amount),
        OutputValue::TokenV1(id, _) => OutputValue::TokenV1(*id, amount),
    }
}

/// The value of a decimal digit character.
pub open spec fn spec_digit_value(c: char) -> int {
    (c as int) - 48
}

/// The number that decimal digits stand for, the last digit the lowest.
pub open spec fn spec_decimal_value(d: Seq<char>) -> int
    decreases d.len(),
{
    if d.len() == 0 {
        0
    } else {
        spec_decimal_value(d.drop_last()) * 10 + spec_digit_value(d.last())
    }
}

/// The decimal text of a number is made of digits, starts with a digit
/// other than zero unless the number is zero, and stands for the number.
pub proof fn lemma_decimal_stands_for_number(n: nat)
    ensures
        spec_decimal(n).len() >= 1,
        forall|i: int| 0 <= i < spec_decimal(n).len() ==> '0' <= #[trigger] spec_decimal(n)[i] <= '9',
        n > 0 ==> spec_decimal(n)[0] != '0',
        spec_decimal_value(spec_decimal(n)) == n,
    decreases n,
{
    if n >= 10 {
        lemma_decimal_stands_for_number(n / 10);
        let d = spec_decimal(n / 10);
        let c = spec_digit(n % 10);
        assert(c as int == n % 10 + 48);
        assert((d + seq![c]).drop_last() =~= d);
        assert((d + seq![c]).last() == c);
        assert((d + seq![c])[0] == d[0]);
        assert(spec_decimal_value(d + seq![c]) == spec_decimal_value(d) * 10 + spec_digit_value(c));
        assert((n / 10) * 10 + n % 10 == n);
    } else {
        assert(spec_digit(n) as int == n + 48);
        assert(seq![spec_digit(n)].drop_last() =~= Seq::<char>::empty());
        assert(spec_decimal_value(seq![spec_digit(n)]) == spec_decimal_value(
            Seq::<char>::empty(),
        ) * 10 + spec_digit_value(spec_digit(n)));
    }
}

/// The value of a hexadecimal digit character.
pub open spec fn spec_hex_value(c: char) -> int {
    if c <= '9' {
        (c as int) - 48
    } else {
        (c as int) - 87
    }
}

/// Hexadecimal text has two lowercase digits per byte, and each pair stands
/// for its byte, the high digit first.
pub proof fn lemma_hex_stands_for_bytes(bytes: Seq<u8>)
    ensures
        spec_hex(bytes).len() == 2 * bytes.len(),
        forall|i: int| 0 <= i < spec_hex(bytes).len() ==> ('0' <= #[trigger] spec_hex(bytes)[i] <= '9'
            || 'a' <= spec_hex(bytes)[i] <= 'f'),
        forall|i: int| 0 <= i < bytes.len() ==> spec_hex_value(#[trigger] spec_hex(bytes)[2 * i]) * 16
            + spec_hex_value(spec_hex(bytes)[2 * i + 1]) == bytes[i],
    decreases bytes.len(),
{
    if bytes.len() > 0 {
        let init = bytes.drop_last();
        lemma_hex_stands_for_bytes(init);
        let b = bytes.last();
        let h = spec_hex(init);
        let pair = seq![spec_hex_digit((b / 16) as nat), spec_hex_digit((b % 16) as nat)];
        assert(spec_hex(bytes) == h + pair);
        assert forall|i: int| 0 <= i < bytes.len() implies spec_hex_value(
            #[trigger] spec_hex(bytes)[2 * i],
        ) * 16 + spec_hex_value(spec_hex(bytes)[2 * i + 1]) == bytes[i] by {
            if i < init.len() {
                assert(spec_hex(bytes)[2 * i] == h[2 * i]);
                assert(spec_hex(bytes)[2 * i + 1] == h[2 * i + 1]);
                assert(init[i] == bytes[i]);
            } else {
                assert(spec_hex(bytes)[2 * i] == pair[0]);
                assert(spec_hex(bytes)[2 * i + 1] == pair[1]);
                assert((b / 16) * 16 + b % 16 == b);
            }
        }
    }
}

/// Leading zeros do not change what digits stand for.
proof fn lemma_leading_zeros_value(z: nat, d: Seq<char>)
    ensures
        spec_decimal_value(Seq::new(z, |i: int| '0') + d) == spec_decimal_value(d),
    decreases d.len(), z,
{
    let zs = Seq::new(z, |i: int| '0');
    if d.len() == 0 {
        assert(zs + d =~= zs);
        if z > 0 {
            assert(zs.drop_last() =~= Seq::new((z - 1) as nat, |i: int| '0'));
            lemma_leading_zeros_value((z - 1) as nat, d);
            assert(Seq::new((z - 1) as nat, |i: int| '0') + d =~= Seq::new(
                (z - 1) as nat,
                |i: int| '0',
            ));
            assert(('0' as int) == 48);
        }
    } else {
        lemma_leading_zeros_value(z, d.drop_last());
        assert((zs + d).drop_last() =~= zs + d.drop_last());
        assert((zs + d).last() == d.last());
    }
}

/// An amount of coins reads as its atoms once the point is taken out, and
/// has exactly `decimals` digits after the point and at least one before it.
pub proof fn lemma_coin_amount_reads_as_atoms(atoms: u128, decimals: nat)
    ensures
        ({
            let r = spec_coin_amount(atoms, decimals);
            let k = r.len() - decimals - 1;
            &&& k >= 1
            &&& r[k] == '.'
            &&& spec_decimal_value(r.subrange(0, k) + r.subrange(k + 1, r.len() as int)) == atoms
        }),
{
    let d = spec_decimal(atoms as nat);
    lemma_decimal_stands_for_number(atoms as nat);
    let p = spec_zero_pad(d, decimals + 1);
    let r = spec_coin_amount(atoms, decimals);
    let k = p.len() - decimals;
    assert(r.len() == p.len() + 1);
    assert(r[k] == '.');
    assert(r.subrange(0, k) + r.subrange(k + 1, r.len() as int) =~= p);
    if d.len() < decimals + 1 {
        lemma_leading_zeros_value((decimals + 1 - d.len()) as nat, d);
    }
}

} // verus!
