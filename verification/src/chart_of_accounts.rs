//! Chart of accounts: the names behind the numeric ids of ledgers, account
//! types, transfer types and venues, and the display form of an amount.

use vstd::prelude::*;

verus! {

/// Asset ticker and decimal scale of a ledger id. Ids from 1 are fiat
/// currencies, ids from 100 are crypto assets; an id without an entry maps to
/// `???` with scale 2.
pub open spec fn spec_ledger_info(id: u32) -> (Seq<char>, u8) {
    match id {
        1 => ("USD"@, 2),
        2 => ("EUR"@, 2),
        3 => ("ARS"@, 2),
        4 => ("BRL"@, 2),
        100 => ("BTC"@, 8),
        101 => ("ETH"@, 18),
        102 => ("USDC"@, 6),
        103 => ("USDT"@, 6),
        104 => ("SOL"@, 9),
        105 => ("LTC"@, 8),
        106 => ("DOGE"@, 8),
        107 => ("AVAX"@, 18),
        108 => ("MATIC"@, 18),
        _ => ("???"@, 2),
    }
}

/// Name of an account type code; a code without an entry maps to `UNKNOWN`.
pub open spec fn spec_account_type_name(code: u16) -> Seq<char> {
    match code {
        1 => "USER_WALLET_DEFI"@,
        2 => "USER_ACCOUNT_CEFI"@,
        3 => "USER_ACCOUNT_TRADFI"@,
        100 => "VENUE_BINANCE"@,
        101 => "VENUE_OKX"@,
        102 => "VENUE_BYBIT"@,
        103 => "VENUE_GATE"@,
        104 => "VENUE_B2C2"@,
        105 => "CUSTODY_BITGO"@,
        200 => "HOLD_TRADE"@,
        201 => "HOLD_WITHDRAWAL"@,
        202 => "HOLD_SETTLEMENT"@,
        300 => "FEES_COLLECTED"@,
        301 => "FEES_VENUE"@,
        400 => "SETTLEMENT_IN_TRANSIT"@,
        401 => "ADJUSTMENT"@,
        402 => "EXTERNAL_FUNDING"@,
        500 => "LIQUIDITY_BRIDGE"@,
        _ => "UNKNOWN"@,
    }
}

/// Name of a transfer type code; a code without an entry maps to `UNKNOWN`.
pub open spec fn spec_transfer_type_name(code: u16) -> Seq<char> {
    match code {
        1 => "DEPOSIT"@,
        2 => "WITHDRAWAL"@,
        3 => "TRADE_BUY"@,
        4 => "TRADE_SELL"@,
        5 => "INTERNAL_TRANSFER"@,
        6 => "VENUE_SETTLEMENT"@,
        7 => "FEE_CHARGE"@,
        8 => "FEE_REBATE"@,
        9 => "ADJUSTMENT"@,
        10 => "FUNDING_ALLOCATION"@,
        11 => "INTER_VENUE_TRANSFER"@,
        12 => "CUSTODY_MOVEMENT"@,
        13 => "HOLD_RESERVE"@,
        14 => "SETTLE_EXTERNAL"@,
        _ => "UNKNOWN"@,
    }
}

/// Name of a venue id; an id without an entry maps to `Unknown`.
pub open spec fn spec_venue_name(id: u32) -> Seq<char> {
    match id {
        0 => "Internal"@,
        1 => "Binance"@,
        2 => "OKX"@,
        3 => "Bybit"@,
        4 => "Gate"@,
        5 => "B2C2"@,
        6 => "BitGo"@,
        10 => "OnChain"@,
        _ => "Unknown"@,
    }
}

/// Looks up the asset ticker and the decimal scale of a ledger.
pub fn ledger_info(id: u32) -> (r: (&'static str, u8))
    ensures
        r.0@ == spec_ledger_info(id).0,
        r.1 == spec_ledger_info(id).1,
{
    match id {
        1 => ("USD", 2),
        2 => ("EUR", 2),
        3 => ("ARS", 2),
        4 => ("BRL", 2),
        100 => ("BTC", 8),
        101 => ("ETH", 18),
        102 => ("USDC", 6),
        103 => ("USDT", 6),
        104 => ("SOL", 9),
        105 => ("LTC", 8),
        106 => ("DOGE", 8),
        107 => ("AVAX", 18),
        108 => ("MATIC", 18),
        _ => ("???", 2),
    }
}

/// The asset ticker of a ledger.
pub fn ledger_name(id: u32) -> (r: &'static str)
    ensures
        r@ == spec_ledger_info(id).0,
{
    ledger_info(id).0
}

/// The decimal scale of a ledger.
pub fn ledger_scale(id: u32) -> (r: u8)
    ensures
        r == spec_ledger_info(id).1,
        r <= 18,
{
    ledger_info(id).1
}

/// Looks up the name of an account type.
pub fn account_type_name(code: u16) -> (r: &'static str)
    ensures
        r@ == spec_account_type_name(code),
{
    match code {
        1 => "USER_WALLET_DEFI",
        2 => "USER_ACCOUNT_CEFI",
        3 => "USER_ACCOUNT_TRADFI",
        100 => "VENUE_BINANCE",
        101 => "VENUE_OKX",
        102 => "VENUE_BYBIT",
        103 => "VENUE_GATE",
        104 => "VENUE_B2C2",
        105 => "CUSTODY_BITGO",
        200 => "HOLD_TRADE",
        201 => "HOLD_WITHDRAWAL",
        202 => "HOLD_SETTLEMENT",
        300 => "FEES_COLLECTED",
        301 => "FEES_VENUE",
        400 => "SETTLEMENT_IN_TRANSIT",
        401 => "ADJUSTMENT",
        402 => "EXTERNAL_FUNDING",
        500 => "LIQUIDITY_BRIDGE",
        _ => "UNKNOWN",
    }
}

/// Looks up the name of a transfer type.
pub fn transfer_type_name(code: u16) -> (r: &'static str)
    ensures
        r@ == spec_transfer_type_name(code),
{
    match code {
        1 => "DEPOSIT",
        2 => "WITHDRAWAL",
        3 => "TRADE_BUY",
        4 => "TRADE_SELL",
        5 => "INTERNAL_TRANSFER",
        6 => "VENUE_SETTLEMENT",
        7 => "FEE_CHARGE",
        8 => "FEE_REBATE",
        9 => "ADJUSTMENT",
        10 => "FUNDING_ALLOCATION",
        11 => "INTER_VENUE_TRANSFER",
        12 => "CUSTODY_MOVEMENT",
        13 => "HOLD_RESERVE",
        14 => "SETTLE_EXTERNAL",
        _ => "UNKNOWN",
    }
}

/// Looks up the name of a venue.
pub fn venue_name(id: u32) -> (r: &'static str)
    ensures
        r@ == spec_venue_name(id),
{
    match id {
        0 => "Internal",
        1 => "Binance",
        2 => "OKX",
        3 => "Bybit",
        4 => "Gate",
        5 => "B2C2",
        6 => "BitGo",
        10 => "OnChain",
        _ => "Unknown",
    }
}

/// The character of a decimal digit, for `d` below ten.
pub open spec fn digit_char(d: nat) -> char {
    (48 + d) as u8 as char
}

/// The decimal digits of `n`, most significant first, without leading zeros;
/// zero is written as the single digit `0`.
pub open spec fn decimal(n: nat) -> Seq<char>
    decreases n,
{
    if n < 10 {
        seq![digit_char(n)]
    } else {
        decimal(n / 10).push(digit_char(n % 10))
    }
}

/// `digits` filled up with zeros on the left to `width` characters; a text of
/// `width` characters or more is left as it is.
pub open spec fn zero_padded(digits: Seq<char>, width: nat) -> Seq<char> {
    if digits.len() >= width {
        digits
    } else {
        Seq::new((width - digits.len()) as nat, |i: int| '0') + digits
    }
}

/// The decimal digits of `n` with a comma between groups of three digits,
/// counted from the right.
pub open spec fn grouped(n: nat) -> Seq<char>
    decreases n,
{
    if n < 1000 {
        decimal(n)
    } else {
        grouped(n / 1000) + seq![','] + zero_padded(decimal(n % 1000), 3)
    }
}

/// Ten to the power `e`.
pub open spec fn pow10(e: nat) -> nat
    decreases e,
{
    if e == 0 {
        1
    } else {
        10 * pow10((e - 1) as nat)
    }
}

/// Display form of the raw amount `raw` of a ledger with `scale` decimal
/// places: the whole part with grouped thousands, then, unless `scale` is
/// zero, a point and the fraction in exactly `scale` digits.
pub open spec fn amount_text(raw: nat, scale: nat) -> Seq<char> {
    if scale == 0 {
        grouped(raw)
    } else {
        grouped(raw / pow10(scale)) + seq!['.'] + zero_padded(decimal(raw % pow10(scale)), scale)
    }
}

/// The lowest `width` decimal digits of `n`, most significant first, with
/// leading zeros kept.
pub open spec fn low_digits(n: nat, width: nat) -> Seq<char>
    decreases width,
{
    if width == 0 {
        Seq::empty()
    } else {
        low_digits(n / 10, (width - 1) as nat).push(digit_char(n % 10))
    }
}

/// Powers of ten are positive and grow with the exponent.
pub proof fn lemma_pow10_increases(e1: nat, e2: nat)
    requires
        e1 <= e2,
    ensures
        0 < pow10(e1) <= pow10(e2),
    decreases e2,
{
    if e2 == 0 {
    } else if e1 == e2 {
        lemma_pow10_increases((e1 - 1) as nat, (e2 - 1) as nat);
    } else {
        lemma_pow10_increases(e1, (e2 - 1) as nat);
    }
}

/// Ten to the power 38 is the largest power of ten below 2 to the power 128.
pub proof fn lemma_pow10_fits()
    ensures
        pow10(37) == 10000000000000000000000000000000000000,
        pow10(38) == 100000000000000000000000000000000000000,
        pow10(38) <= u128::MAX < pow10(39),
{
    assert(pow10(8) == 100000000) by {
        reveal_with_fuel(pow10, 9);
    }
    assert(pow10(16) == 10000000000000000) by {
        reveal_with_fuel(pow10, 9);
    }
    assert(pow10(24) == 1000000000000000000000000) by {
        reveal_with_fuel(pow10, 9);
    }
    assert(pow10(32) == 100000000000000000000000000000000) by {
        reveal_with_fuel(pow10, 9);
    }
    assert(pow10(37) == 10000000000000000000000000000000000000) by {
        reveal_with_fuel(pow10, 6);
    }
    assert(pow10(38) == 10 * pow10(37));
    assert(pow10(39) == 10 * pow10(38));
}

/// The lowest `width` digits of zero are `width` zeros.
proof fn lemma_low_digits_of_zero(width: nat)
    ensures
        low_digits(0, width) =~= Seq::new(width, |i: int| '0'),
    decreases width,
{
    if width > 0 {
        lemma_low_digits_of_zero((width - 1) as nat);
    }
}

/// A number below ten to the power `width` written in its lowest `width`
/// digits is its decimal form padded with zeros to `width` characters.
pub proof fn lemma_low_digits_is_zero_padded(n: nat, width: nat)
    requires
        width > 0,
        n < pow10(width),
    ensures
        low_digits(n, width) == zero_padded(decimal(n), width),
        decimal(n).len() <= width,
    decreases width,
{
    if n < 10 {
        lemma_low_digits_of_zero((width - 1) as nat);
        assert(low_digits(n, width) =~= zero_padded(decimal(n), width));
    } else {
        assert(width > 1) by {
            if width == 1 {
                assert(pow10(1) == 10 * pow10(0));
            }
        }
        lemma_low_digits_is_zero_padded(n / 10, (width - 1) as nat);
        assert(low_digits(n, width) =~= zero_padded(decimal(n), width));
    }
}

/// The first `count` digits of `digits` with a comma before every digit,
/// except the first, whose distance to the end of `digits` is a multiple of
/// three.
pub open spec fn commas_by_position(digits: Seq<char>, count: nat) -> Seq<char>
    decreases count,
{
    if count == 0 {
        Seq::empty()
    } else {
        let i = (count - 1) as int;
        let before = commas_by_position(digits, (count - 1) as nat);
        if i > 0 && (digits.len() - i) % 3 == 0 {
            before.push(',').push(digits[i])
        } else {
            before.push(digits[i])
        }
    }
}

/// Where no comma is due among the first `count` digits, they stand as they
/// are.
proof fn lemma_no_comma_in_short_text(digits: Seq<char>, count: nat)
    requires
        count <= digits.len() <= 3,
    ensures
        commas_by_position(digits, count) =~= digits.take(count as int),
    decreases count,
{
    if count > 0 {
        lemma_no_comma_in_short_text(digits, (count - 1) as nat);
    }
}

/// Three more digits at the end leave the commas among the digits before
/// them where they were.
proof fn lemma_commas_ignore_whole_groups(head: Seq<char>, group: Seq<char>, count: nat)
    requires
        group.len() == 3,
        count <= head.len(),
    ensures
        commas_by_position(head + group, count) == commas_by_position(head, count),
    decreases count,
{
    if count > 0 {
        lemma_commas_ignore_whole_groups(head, group, (count - 1) as nat);
        assert((head + group)[count - 1] == head[count - 1]);
    }
}

/// From a thousand on, the decimal form is that of the thousands followed by
/// the three lowest digits.
proof fn lemma_decimal_splits_at_thousands(n: nat)
    requires
        n >= 1000,
    ensures
        decimal(n) == decimal(n / 1000) + low_digits(n % 1000, 3),
        low_digits(n % 1000, 3).len() == 3,
{
    let low = n % 1000;
    assert(low % 10 == n % 10);
    assert((low / 10) % 10 == (n / 10) % 10);
    assert((low / 10 / 10) % 10 == (n / 10 / 10) % 10);
    assert(n / 10 / 10 / 10 == n / 1000);
    reveal_with_fuel(low_digits, 4);
    reveal_with_fuel(decimal, 4);
    assert(low_digits(low, 3) =~= seq![
        digit_char((n / 10 / 10) % 10),
        digit_char((n / 10) % 10),
        digit_char(n % 10),
    ]);
    assert(decimal(n) =~= decimal(n / 1000) + low_digits(low, 3));
}

/// The grouped form is the decimal form with a comma before every digit,
/// except the first, whose distance to the end is a multiple of three.
pub proof fn lemma_grouped_is_commas_by_position(n: nat)
    ensures
        grouped(n) == commas_by_position(decimal(n), decimal(n).len()),
    decreases n,
{
    let digits = decimal(n);
    if n < 1000 {
        reveal_with_fuel(pow10, 4);
        lemma_low_digits_is_zero_padded(n, 3);
        lemma_no_comma_in_short_text(digits, digits.len());
        assert(digits.take(digits.len() as int) =~= digits);
    } else {
        let head = decimal(n / 1000);
        let group = low_digits(n % 1000, 3);
        lemma_decimal_splits_at_thousands(n);
        lemma_grouped_is_commas_by_position(n / 1000);
        lemma_commas_ignore_whole_groups(head, group, head.len());
        reveal_with_fuel(pow10, 4);
        lemma_low_digits_is_zero_padded(n % 1000, 3);
        let len = head.len() as int;
        assert(digits.len() == len + 3);
        assert(len > 0);
        let upto0 = commas_by_position(digits, len as nat);
        let upto1 = commas_by_position(digits, (len + 1) as nat);
        let upto2 = commas_by_position(digits, (len + 2) as nat);
        let upto3 = commas_by_position(digits, (len + 3) as nat);
        assert(upto1 == upto0.push(',').push(digits[len]));
        assert(upto2 == upto1.push(digits[len + 1]));
        assert(upto3 == upto2.push(digits[len + 2]));
        assert(upto3 =~= upto0 + seq![','] + group);
    }
}

/// The character of the decimal digit `d`.
fn digit(d: u8) -> (r: char)
    requires
        d < 10,
    ensures
        r == digit_char(d as nat),
{
    (d + 48) as char
}

/// Appends the decimal form of `n` to `out`.
fn push_decimal(out: &mut String, n: u128)
    ensures
        final(out)@ == old(out)@ + decimal(n as nat),
    decreases n,
{
    if n >= 10 {
        push_decimal(out, n / 10);
    }
    out.push(digit((n % 10) as u8));
}

/// Appends the lowest `width` digits of `n` to `out`.
fn push_low_digits(out: &mut String, n: u128, width: u8)
    ensures
        final(out)@ == old(out)@ + low_digits(n as nat, width as nat),
    decreases width,
{
    if width > 0 {
        push_low_digits(out, n / 10, width - 1);
        out.push(digit((n % 10) as u8));
    }
}

/// Appends the grouped form of `n` to `out`.
fn push_grouped(out: &mut String, n: u128)
    ensures
        final(out)@ == old(out)@ + grouped(n as nat),
    decreases n,
{
    if n < 1000 {
        push_decimal(out, n);
    } else {
        push_grouped(out, n / 1000);
        out.push(',');
        proof {
            reveal_with_fuel(pow10, 4);
            lemma_low_digits_is_zero_padded((n % 1000) as nat, 3);
        }
        push_low_digits(out, n % 1000, 3);
    }
}

/// The largest decimal scale that an amount can be formatted with: ten to a
/// higher power does not fit the type of a raw amount.
pub const MAX_SCALE: u8 = 38;

/// Ten to the power `scale`.
fn power_of_ten(scale: u8) -> (r: u128)
    requires
        scale <= MAX_SCALE,
    ensures
        r == pow10(scale as nat),
        r > 0,
{
    let mut r: u128 = 1;
    let mut i: u8 = 0;
    while i < scale
        invariant
            i <= scale <= MAX_SCALE,
            r == pow10(i as nat),
            r > 0,
        decreases scale - i,
    {
        proof {
            lemma_pow10_increases(i as nat, 37);
            lemma_pow10_fits();
        }
        r = r * 10;
        i = i + 1;
    }
    r
}

/// Writes `n` in decimal with a comma between groups of three digits.
pub fn format_with_commas(n: u128) -> (r: String)
    ensures
        r@ == grouped(n as nat),
        r@ == commas_by_position(decimal(n as nat), decimal(n as nat).len()),
{
    let mut out = String::new();
    push_grouped(&mut out, n);
    proof {
        lemma_grouped_is_commas_by_position(n as nat);
    }
    out
}

/// Formats a raw amount for display, given the decimal scale of its ledger:
/// `150000` at scale 2 reads `1,500.00`.
pub fn format_amount(raw: u128, scale: u8) -> (r: String)
    requires
        scale <= MAX_SCALE,
    ensures
        r@ == amount_text(raw as nat, scale as nat),
{
    if scale == 0 {
        return format_with_commas(raw);
    }
    let divisor = power_of_ten(scale);
    let whole = raw / divisor;
    let frac = raw % divisor;
    let mut out = format_with_commas(whole);
    out.push('.');
    proof {
        lemma_low_digits_is_zero_padded(frac as nat, scale as nat);
    }
    push_low_digits(&mut out, frac, scale);
    out
}

} // verus!
