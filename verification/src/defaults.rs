//! Default values used while building a scenario: state income tax
//! rates by state abbreviation.

use vstd::prelude::*;

use crate::scenario::DEFAULT_STATE_RATE_BITS;
use crate::text::same_text;

verus! {

/// What `str::to_uppercase` makes of a text: the Unicode upper-case
/// mapping of each of its characters, in order.
pub uninterp spec fn uppercase(s: Seq<char>) -> Seq<char>;

/// Every character of the text is ASCII.
pub open spec fn is_ascii_text(s: Seq<char>) -> bool {
    forall|i: int| 0 <= i < s.len() ==> (s[i] as u32) < 128
}

/// The ASCII upper-case letter for a lower-case one; any other character
/// unchanged.
pub open spec fn ascii_upper(c: char) -> char {
    if 'a' <= c && c <= 'z' {
        ((c as int) - 32) as char
    } else {
        c
    }
}

/// std's `str::to_uppercase`: the Unicode upper-case mapping of the text,
/// named `uppercase`.  Claimed beyond the name: on an ASCII text each
/// lower-case letter becomes its capital and every other character stays.
/// Nothing is claimed of other texts.
#[verifier::external_body]
fn to_uppercase(s: &str) -> (r: String)
    ensures
        r@ == uppercase(s@),
        is_ascii_text(s@) ==> r@ == s@.map_values(|c: char| ascii_upper(c)),
{
    s.to_uppercase()
}

/// The states without an income tax.
pub open spec fn is_no_income_tax_state(code: Seq<char>) -> bool {
    code == "AK"@
        || code == "FL"@
        || code == "NV"@
        || code == "NH"@
        || code == "SD"@
        || code == "TN"@
        || code == "TX"@
        || code == "WA"@
        || code == "WY"@
}

/// The state income tax rate (as the bits of an `f64`) for an upper-case
/// state abbreviation: 0.0 for the states without an income tax, the
/// listed rate for the others and for DC, 0.05 for any other code.
pub open spec fn state_rate_bits_for(code: Seq<char>) -> u64 {
    if is_no_income_tax_state(code) {
        0
    } else if code == "AL"@ {
        0x3FA9_9999_9999_999A
    } else if code == "AZ"@ {
        0x3F99_9999_9999_999A
    } else if code == "AR"@ {
        0x3FA3_F7CE_D916_872B
    } else if code == "CA"@ {
        0x3FB7_CED9_1687_2B02
    } else if code == "CO"@ {
        0x3FA6_872B_020C_49BA
    } else if code == "CT"@ {
        0x3FB1_E4F7_65FD_8ADB
    } else if code == "DE"@ {
        0x3FB0_E560_4189_374C
    } else if code == "GA"@ {
        0x3FAC_1BDA_5119_CE07
    } else if code == "HI"@ {
        0x3FBC_28F5_C28F_5C29
    } else if code == "ID"@ {
        0x3FAD_B22D_0E56_0419
    } else if code == "IL"@ {
        0x3FA9_5810_624D_D2F2
    } else if code == "IN"@ {
        0x3F9F_3B64_5A1C_AC08
    } else if code == "IA"@ {
        0x3FAD_2F1A_9FBE_76C9
    } else if code == "KS"@ {
        0x3FAD_2F1A_9FBE_76C9
    } else if code == "KY"@ {
        0x3FA4_7AE1_47AE_147B
    } else if code == "LA"@ {
        0x3FA5_C28F_5C28_F5C3
    } else if code == "ME"@ {
        0x3FB2_4DD2_F1A9_FBE7
    } else if code == "MD"@ {
        0x3FAD_70A3_D70A_3D71
    } else if code == "MA"@ {
        0x3FA9_9999_9999_999A
    } else if code == "MI"@ {
        0x3FA5_C28F_5C28_F5C3
    } else if code == "MN"@ {
        0x3FB9_374B_C6A7_EF9E
    } else if code == "MS"@ {
        0x3FA9_9999_9999_999A
    } else if code == "MO"@ {
        0x3FA8_9374_BC6A_7EFA
    } else if code == "MT"@ {
        0x3FAD_70A3_D70A_3D71
    } else if code == "NE"@ {
        0x3FAC_E075_F6FD_21FF
    } else if code == "NJ"@ {
        0x3FB6_F694_4673_81D8
    } else if code == "NM"@ {
        0x3FAE_353F_7CED_9168
    } else if code == "NY"@ {
        0x3FB1_8937_4BC6_A7F0
    } else if code == "NC"@ {
        0x3FA7_0A3D_70A3_D70A
    } else if code == "ND"@ {
        0x3F93_F7CE_D916_872B
    } else if code == "OH"@ {
        0x3FA4_6DC5_D638_8659
    } else if code == "OK"@ {
        0x3FA8_51EB_851E_B852
    } else if code == "OR"@ {
        0x3FB9_5810_624D_D2F2
    } else if code == "PA"@ {
        0x3F9F_6FD2_1FF2_E48F
    } else if code == "RI"@ {
        0x3FAE_AB36_7A0F_9097
    } else if code == "SC"@ {
        0x3FB0_624D_D2F1_A9FC
    } else if code == "UT"@ {
        0x3FA7_CED9_1687_2B02
    } else if code == "VT"@ {
        0x3FB6_6666_6666_6666
    } else if code == "VA"@ {
        0x3FAD_70A3_D70A_3D71
    } else if code == "WV"@ {
        0x3FAA_36E2_EB1C_432D
    } else if code == "WI"@ {
        0x3FB3_46DC_5D63_8866
    } else if code == "DC"@ {
        0x3FB6_E978_D4FD_F3B6
    } else {
        DEFAULT_STATE_RATE_BITS
    }
}

/// The state income tax rate, as the bits of an `f64`, for an upper-case
/// state abbreviation.
pub fn state_rate_bits_for_code(code: &str) -> (r: u64)
    ensures
        r == state_rate_bits_for(code@),
{
    if same_text(code, "AK")
        || same_text(code, "FL")
        || same_text(code, "NV")
        || same_text(code, "NH")
        || same_text(code, "SD")
        || same_text(code, "TN")
        || same_text(code, "TX")
        || same_text(code, "WA")
        || same_text(code, "WY") {
        0
    } else if same_text(code, "AL") {
        0x3FA9_9999_9999_999A
    } else if same_text(code, "AZ") {
        0x3F99_9999_9999_999A
    } else if same_text(code, "AR") {
        0x3FA3_F7CE_D916_872B
    } else if same_text(code, "CA") {
        0x3FB7_CED9_1687_2B02
    } else if same_text(code, "CO") {
        0x3FA6_872B_020C_49BA
    } else if same_text(code, "CT") {
        0x3FB1_E4F7_65FD_8ADB
    } else if same_text(code, "DE") {
        0x3FB0_E560_4189_374C
    } else if same_text(code, "GA") {
        0x3FAC_1BDA_5119_CE07
    } else if same_text(code, "HI") {
        0x3FBC_28F5_C28F_5C29
    } else if same_text(code, "ID") {
        0x3FAD_B22D_0E56_0419
    } else if same_text(code, "IL") {
        0x3FA9_5810_624D_D2F2
    } else if same_text(code, "IN") {
        0x3F9F_3B64_5A1C_AC08
    } else if same_text(code, "IA") {
        0x3FAD_2F1A_9FBE_76C9
    } else if same_text(code, "KS") {
        0x3FAD_2F1A_9FBE_76C9
    } else if same_text(code, "KY") {
        0x3FA4_7AE1_47AE_147B
    } else if same_text(code, "LA") {
        0x3FA5_C28F_5C28_F5C3
    } else if same_text(code, "ME") {
        0x3FB2_4DD2_F1A9_FBE7
    } else if same_text(code, "MD") {
        0x3FAD_70A3_D70A_3D71
    } else if same_text(code, "MA") {
        0x3FA9_9999_9999_999A
    } else if same_text(code, "MI") {
        0x3FA5_C28F_5C28_F5C3
    } else if same_text(code, "MN") {
        0x3FB9_374B_C6A7_EF9E
    } else if same_text(code, "MS") {
        0x3FA9_9999_9999_999A
    } else if same_text(code, "MO") {
        0x3FA8_9374_BC6A_7EFA
    } else if same_text(code, "MT") {
        0x3FAD_70A3_D70A_3D71
    } else if same_text(code, "NE") {
        0x3FAC_E075_F6FD_21FF
    } else if same_text(code, "NJ") {
        0x3FB6_F694_4673_81D8
    } else if same_text(code, "NM") {
        0x3FAE_353F_7CED_9168
    } else if same_text(code, "NY") {
        0x3FB1_8937_4BC6_A7F0
    } else if same_text(code, "NC") {
        0x3FA7_0A3D_70A3_D70A
    } else if same_text(code, "ND") {
        0x3F93_F7CE_D916_872B
    } else if same_text(code, "OH") {
        0x3FA4_6DC5_D638_8659
    } else if same_text(code, "OK") {
        0x3FA8_51EB_851E_B852
    } else if same_text(code, "OR") {
        0x3FB9_5810_624D_D2F2
    } else if same_text(code, "PA") {
        0x3F9F_6FD2_1FF2_E48F
    } else if same_text(code, "RI") {
        0x3FAE_AB36_7A0F_9097
    } else if same_text(code, "SC") {
        0x3FB0_624D_D2F1_A9FC
    } else if same_text(code, "UT") {
        0x3FA7_CED9_1687_2B02
    } else if same_text(code, "VT") {
        0x3FB6_6666_6666_6666
    } else if same_text(code, "VA") {
        0x3FAD_70A3_D70A_3D71
    } else if same_text(code, "WV") {
        0x3FAA_36E2_EB1C_432D
    } else if same_text(code, "WI") {
        0x3FB3_46DC_5D63_8866
    } else if same_text(code, "DC") {
        0x3FB6_E978_D4FD_F3B6
    } else {
        DEFAULT_STATE_RATE_BITS
    }
}

/// Look up the state income tax rate by US state abbreviation, in any
/// letter case; the result is the bits of the `f64` rate.
pub fn state_tax_rate(state: &str) -> (r: u64)
    ensures
        r == state_rate_bits_for(uppercase(state@)),
        is_ascii_text(state@) ==> r == state_rate_bits_for(
            state@.map_values(|c: char| ascii_upper(c)),
        ),
{
    let code = to_uppercase(state);
    state_rate_bits_for_code(code.as_str())
}

} // verus!
