//! The codes that are tracked when nothing else is configured.

use vstd::prelude::*;
use crate::text::texts;

verus! {

/// The standard codes, in alphabetical order.
pub const STANDARD_CODES: [&'static str; 168] = [
    "AED", "AFN", "ALL", "AMD", "ANG", "AOA", "ARS", "AUD", "AWG", "AZN", "BAM", "BBD", "BDT",
    "BGN", "BHD", "BIF", "BMD", "BND", "BOB", "BRL", "BSD", "BTC", "BTN", "BWP", "BYN", "BYR",
    "BZD", "CAD", "CDF", "CHF", "CLF", "CLP", "CNY", "COP", "CRC", "CUC", "CUP", "CVE", "CZK",
    "DJF", "DKK", "DOP", "DZD", "EGP", "ERN", "ETB", "EUR", "FJD", "FKP", "GBP", "GEL", "GGP",
    "GHS", "GIP", "GMD", "GNF", "GTQ", "GYD", "HKD", "HNL", "HRK", "HTG", "HUF", "IDR", "ILS",
    "IMP", "INR", "IQD", "IRR", "ISK", "JEP", "JMD", "JOD", "JPY", "KES", "KGS", "KHR", "KMF",
    "KPW", "KRW", "KWD", "KYD", "KZT", "LAK", "LBP", "LKR", "LRD", "LSL", "LTL", "LVL", "LYD",
    "MAD", "MDL", "MGA", "MKD", "MMK", "MNT", "MOP", "MRO", "MUR", "MVR", "MWK", "MXN", "MYR",
    "MZN", "NAD", "NGN", "NIO", "NOK", "NPR", "NZD", "OMR", "PAB", "PEN", "PGK", "PHP", "PKR",
    "PLN", "PYG", "QAR", "RON", "RSD", "RUB", "RWF", "SAR", "SBD", "SCR", "SDG", "SEK", "SGD",
    "SHP", "SLL", "SOS", "SRD", "STD", "SVC", "SYP", "SZL", "THB", "TJS", "TMT", "TND", "TOP",
    "TRY", "TTD", "TWD", "TZS", "UAH", "UGX", "USD", "UYU", "UZS", "VEF", "VND", "VUV", "WST",
    "XAF", "XAG", "XAU", "XCD", "XDR", "XOF", "XPF", "YER", "ZAR", "ZMK", "ZMW", "ZWL",
];

/// The texts of [`STANDARD_CODES`], in its order.
pub open spec fn standard_codes_spec() -> Seq<Seq<char>> {
    STANDARD_CODES@.map_values(|code: &'static str| code@)
}

/// The standard codes as owned strings, ready to be made a universe of.
pub fn standard_codes() -> (codes: Vec<String>)
    ensures
        texts(codes@) == standard_codes_spec(),
{
    let mut codes: Vec<String> = Vec::new();
    let mut i: usize = 0;
    while i < 168
        invariant
            i <= 168,
            codes.len() == i,
            forall|k: int| 0 <= k < i ==> (#[trigger] codes[k])@ == STANDARD_CODES[k]@,
        decreases 168 - i,
    {
        codes.push(STANDARD_CODES[i].to_owned());
        i += 1;
    }
    assert(texts(codes@) =~= standard_codes_spec());
    codes
}

/// A number for a code of three characters, which grows with the place of
/// the code in the alphabet.
pub open spec fn rank(code: Seq<char>) -> int {
    (code[0] as int) * 0x10000 + (code[1] as int) * 0x100 + (code[2] as int)
}

/// From place `k` on, each code has a lower rank than the one after it.
pub open spec fn ascending_from(codes: Seq<Seq<char>>, k: int) -> bool
    decreases codes.len() - k,
{
    if k < 0 || k + 1 >= codes.len() {
        true
    } else {
        rank(codes[k]) < rank(codes[k + 1]) && ascending_from(codes, k + 1)
    }
}

/// In a list that ascends from `k`, every later code outranks the one at
/// `k`.
proof fn lemma_outranked(codes: Seq<Seq<char>>, k: int, j: int)
    requires
        ascending_from(codes, k),
        0 <= k < j < codes.len(),
    ensures
        rank(codes[k]) < rank(codes[j]),
    decreases j - k,
{
    if j > k + 1 {
        lemma_outranked(codes, k + 1, j);
    }
}

/// A list that ascends from `k` ascends from every later place.
proof fn lemma_ascending_later(codes: Seq<Seq<char>>, k: int, i: int)
    requires
        ascending_from(codes, k),
        0 <= k <= i,
    ensures
        ascending_from(codes, i),
    decreases i - k,
{
    if k < i && k + 1 < codes.len() {
        lemma_ascending_later(codes, k + 1, i);
    }
}

/// A list that ascends from its start holds no code twice.
pub proof fn lemma_ascending_is_distinct(codes: Seq<Seq<char>>)
    requires
        ascending_from(codes, 0),
    ensures
        codes.no_duplicates(),
{
    assert forall|i: int, j: int| 0 <= i < codes.len() && 0 <= j < codes.len() && i != j implies
        codes[i] != codes[j] by {
        if i < j {
            lemma_ascending_later(codes, 0, i);
            lemma_outranked(codes, i, j);
        } else {
            lemma_ascending_later(codes, 0, j);
            lemma_outranked(codes, j, i);
        }
    }
}

/// The table ascends from "TTD" on.
proof fn lemma_ascending_from_144()
    ensures
        ascending_from(standard_codes_spec(), 144),
{
    reveal_strlit("TTD");
    reveal_strlit("TWD");
    reveal_strlit("TZS");
    reveal_strlit("UAH");
    reveal_strlit("UGX");
    reveal_strlit("USD");
    reveal_strlit("UYU");
    reveal_strlit("UZS");
    reveal_strlit("VEF");
    reveal_strlit("VND");
    reveal_strlit("VUV");
    reveal_strlit("WST");
    reveal_strlit("XAF");
    reveal_strlit("XAG");
    reveal_strlit("XAU");
    reveal_strlit("XCD");
    reveal_strlit("XDR");
    reveal_strlit("XOF");
    reveal_strlit("XPF");
    reveal_strlit("YER");
    reveal_strlit("ZAR");
    reveal_strlit("ZMK");
    reveal_strlit("ZMW");
    reveal_strlit("ZWL");
    assert(standard_codes_spec().len() == 168);
    reveal_with_fuel(ascending_from, 25);
}

/// The table ascends from "RON" on.
proof fn lemma_ascending_from_120()
    ensures
        ascending_from(standard_codes_spec(), 120),
{
    lemma_ascending_from_144();
    reveal_strlit("RON");
    reveal_strlit("RSD");
    reveal_strlit("RUB");
    reveal_strlit("RWF");
    reveal_strlit("SAR");
    reveal_strlit("SBD");
    reveal_strlit("SCR");
    reveal_strlit("SDG");
    reveal_strlit("SEK");
    reveal_strlit("SGD");
    reveal_strlit("SHP");
    reveal_strlit("SLL");
    reveal_strlit("SOS");
    reveal_strlit("SRD");
    reveal_strlit("STD");
    reveal_strlit("SVC");
    reveal_strlit("SYP");
    reveal_strlit("SZL");
    reveal_strlit("THB");
    reveal_strlit("TJS");
    reveal_strlit("TMT");
    reveal_strlit("TND");
    reveal_strlit("TOP");
    reveal_strlit("TRY");
    reveal_strlit("TTD");
    assert(standard_codes_spec().len() == 168);
    reveal_with_fuel(ascending_from, 25);
}

/// The table ascends from "MNT" on.
proof fn lemma_ascending_from_96()
    ensures
        ascending_from(standard_codes_spec(), 96),
{
    lemma_ascending_from_120();
    reveal_strlit("MNT");
    reveal_strlit("MOP");
    reveal_strlit("MRO");
    reveal_strlit("MUR");
    reveal_strlit("MVR");
    reveal_strlit("MWK");
    reveal_strlit("MXN");
    reveal_strlit("MYR");
    reveal_strlit("MZN");
    reveal_strlit("NAD");
    reveal_strlit("NGN");
    reveal_strlit("NIO");
    reveal_strlit("NOK");
    reveal_strlit("NPR");
    reveal_strlit("NZD");
    reveal_strlit("OMR");
    reveal_strlit("PAB");
    reveal_strlit("PEN");
    reveal_strlit("PGK");
    reveal_strlit("PHP");
    reveal_strlit("PKR");
    reveal_strlit("PLN");
    reveal_strlit("PYG");
    reveal_strlit("QAR");
    reveal_strlit("RON");
    assert(standard_codes_spec().len() == 168);
    reveal_with_fuel(ascending_from, 25);
}

/// The table ascends from "JOD" on.
proof fn lemma_ascending_from_72()
    ensures
        ascending_from(standard_codes_spec(), 72),
{
    lemma_ascending_from_96();
    reveal_strlit("JOD");
    reveal_strlit("JPY");
    reveal_strlit("KES");
    reveal_strlit("KGS");
    reveal_strlit("KHR");
    reveal_strlit("KMF");
    reveal_strlit("KPW");
    reveal_strlit("KRW");
    reveal_strlit("KWD");
    reveal_strlit("KYD");
    reveal_strlit("KZT");
    reveal_strlit("LAK");
    reveal_strlit("LBP");
    reveal_strlit("LKR");
    reveal_strlit("LRD");
    reveal_strlit("LSL");
    reveal_strlit("LTL");
    reveal_strlit("LVL");
    reveal_strlit("LYD");
    reveal_strlit("MAD");
    reveal_strlit("MDL");
    reveal_strlit("MGA");
    reveal_strlit("MKD");
    reveal_strlit("MMK");
    reveal_strlit("MNT");
    assert(standard_codes_spec().len() == 168);
    reveal_with_fuel(ascending_from, 25);
}

/// The table ascends from "FKP" on.
proof fn lemma_ascending_from_48()
    ensures
        ascending_from(standard_codes_spec(), 48),
{
    lemma_ascending_from_72();
    reveal_strlit("FKP");
    reveal_strlit("GBP");
    reveal_strlit("GEL");
    reveal_strlit("GGP");
    reveal_strlit("GHS");
    reveal_strlit("GIP");
    reveal_strlit("GMD");
    reveal_strlit("GNF");
    reveal_strlit("GTQ");
    reveal_strlit("GYD");
    reveal_strlit("HKD");
    reveal_strlit("HNL");
    reveal_strlit("HRK");
    reveal_strlit("HTG");
    reveal_strlit("HUF");
    reveal_strlit("IDR");
    reveal_strlit("ILS");
    reveal_strlit("IMP");
    reveal_strlit("INR");
    reveal_strlit("IQD");
    reveal_strlit("IRR");
    reveal_strlit("ISK");
    reveal_strlit("JEP");
    reveal_strlit("JMD");
    reveal_strlit("JOD");
    assert(standard_codes_spec().len() == 168);
    reveal_with_fuel(ascending_from, 25);
}

/// The table ascends from "BYN" on.
proof fn lemma_ascending_from_24()
    ensures
        ascending_from(standard_codes_spec(), 24),
{
    lemma_ascending_from_48();
    reveal_strlit("BYN");
    reveal_strlit("BYR");
    reveal_strlit("BZD");
    reveal_strlit("CAD");
    reveal_strlit("CDF");
    reveal_strlit("CHF");
    reveal_strlit("CLF");
    reveal_strlit("CLP");
    reveal_strlit("CNY");
    reveal_strlit("COP");
    reveal_strlit("CRC");
    reveal_strlit("CUC");
    reveal_strlit("CUP");
    reveal_strlit("CVE");
    reveal_strlit("CZK");
    reveal_strlit("DJF");
    reveal_strlit("DKK");
    reveal_strlit("DOP");
    reveal_strlit("DZD");
    reveal_strlit("EGP");
    reveal_strlit("ERN");
    reveal_strlit("ETB");
    reveal_strlit("EUR");
    reveal_strlit("FJD");
    reveal_strlit("FKP");
    assert(standard_codes_spec().len() == 168);
    reveal_with_fuel(ascending_from, 25);
}

/// The table ascends from "AED" on.
proof fn lemma_ascending_from_0()
    ensures
        ascending_from(standard_codes_spec(), 0),
{
    lemma_ascending_from_24();
    reveal_strlit("AED");
    reveal_strlit("AFN");
    reveal_strlit("ALL");
    reveal_strlit("AMD");
    reveal_strlit("ANG");
    reveal_strlit("AOA");
    reveal_strlit("ARS");
    reveal_strlit("AUD");
    reveal_strlit("AWG");
    reveal_strlit("AZN");
    reveal_strlit("BAM");
    reveal_strlit("BBD");
    reveal_strlit("BDT");
    reveal_strlit("BGN");
    reveal_strlit("BHD");
    reveal_strlit("BIF");
    reveal_strlit("BMD");
    reveal_strlit("BND");
    reveal_strlit("BOB");
    reveal_strlit("BRL");
    reveal_strlit("BSD");
    reveal_strlit("BTC");
    reveal_strlit("BTN");
    reveal_strlit("BWP");
    reveal_strlit("BYN");
    assert(standard_codes_spec().len() == 168);
    reveal_with_fuel(ascending_from, 25);
}

/// The standard codes are in alphabetical order, so none stands in the
/// table twice.
pub proof fn lemma_standard_codes_distinct()
    ensures
        standard_codes_spec().len() == 168,
        standard_codes_spec().no_duplicates(),
{
    lemma_ascending_from_0();
    lemma_ascending_is_distinct(standard_codes_spec());
}

} // verus!
