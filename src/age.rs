use vstd::prelude::*;

verus! {

/// Length of a TD3 personal-data group once its header is stripped.
pub const DG1_TD3_LEN: usize = 93;

/// Offset of the tens digit of the birth year in the data group.
pub const BIRTH_YEAR_TENS_OFFSET: usize = 62;

/// Offset of the ones digit of the birth year in the data group.
pub const BIRTH_YEAR_ONES_OFFSET: usize = 63;

/// ASCII code of the digit zero.
pub const ASCII_DIGIT_OFFSET: u8 = 48;

/// Years in the century of two-digit years.
pub const CENTURY: i32 = 100;

/// The digit that an ASCII byte stands for. No range check is made: a byte
/// that is not a digit gives a value outside 0..=9, as in the circuit.
pub open spec fn digit_value(b: u8) -> int {
    b as int - ASCII_DIGIT_OFFSET as int
}

/// The two-digit birth year written at offsets 62 and 63.
pub open spec fn birth_year_of(dg: Seq<u8>) -> int {
    digit_value(dg[BIRTH_YEAR_TENS_OFFSET as int]) * 10 + digit_value(
        dg[BIRTH_YEAR_ONES_OFFSET as int],
    )
}

/// Age in the reference year of a holder born in `birth_year`, holders being
/// younger than a hundred: the century wraps when the birth year is later
/// than the reference year.
pub open spec fn age_from(birth_year: int, cur_year: int) -> int {
    if birth_year <= cur_year {
        cur_year - birth_year
    } else {
        CENTURY - birth_year + cur_year
    }
}

/// The age half of the proof relation: the birth year is not negative (the
/// circuit's range-bounded comparison rejects a negative operand) and the
/// derived age reaches the threshold.
pub open spec fn age_requirement_met(dg: Seq<u8>, age_req: int, cur_year: int) -> bool {
    0 <= birth_year_of(dg) && age_req <= age_from(birth_year_of(dg), cur_year)
}

/// For a two-digit birth year and reference year, the derived age is the
/// one in 0..=99 that carries the birth year to the reference year modulo a
/// century.
pub proof fn lemma_age_wraps_century(birth_year: int, cur_year: int)
    requires
        0 <= birth_year <= 99,
        0 <= cur_year <= 99,
    ensures
        0 <= age_from(birth_year, cur_year) <= 99,
        (birth_year + age_from(birth_year, cur_year)) % 100 == cur_year,
{
    if birth_year > cur_year {
        assert(birth_year + age_from(birth_year, cur_year) == 100 + cur_year);
    }
}

/// The birth year that the data group holds, from its two ASCII digits.
pub fn birth_year(dg: &Vec<u8>) -> (r: i32)
    requires
        dg@.len() == DG1_TD3_LEN,
    ensures
        r == birth_year_of(dg@),
{
    let tens = dg[BIRTH_YEAR_TENS_OFFSET] as i32 - ASCII_DIGIT_OFFSET as i32;
    let ones = dg[BIRTH_YEAR_ONES_OFFSET] as i32 - ASCII_DIGIT_OFFSET as i32;
    tens * 10 + ones
}

/// The holder's age in `cur_year`. Both candidate values are computed and
/// one is selected by the comparison, as the circuit does, so the work done
/// does not depend on which case applies.
pub fn derive_age(dg: &Vec<u8>, cur_year: u8) -> (r: i32)
    requires
        dg@.len() == DG1_TD3_LEN,
    ensures
        r == age_from(birth_year_of(dg@), cur_year as int),
{
    let dob_year = birth_year(dg);
    let year = cur_year as i32;
    let same_century = year - dob_year;
    let wrapped = CENTURY - dob_year + year;
    let is_leq: i32 = if dob_year <= year { 1 } else { 0 };
    assert(is_leq * same_century == if is_leq == 1 { same_century } else { 0 }) by (nonlinear_arith)
        requires
            is_leq == 0 || is_leq == 1,
    ;
    assert((1 - is_leq) * wrapped == if is_leq == 1 { 0 } else { wrapped }) by (nonlinear_arith)
        requires
            is_leq == 0 || is_leq == 1,
    ;
    is_leq * same_century + (1 - is_leq) * wrapped
}

/// Whether the data group meets the age half of the proof relation.
pub fn meets_age_requirement(dg: &Vec<u8>, age_req: u8, cur_year: u8) -> (r: bool)
    requires
        dg@.len() == DG1_TD3_LEN,
    ensures
        r == age_requirement_met(dg@, age_req as int, cur_year as int),
{
    let dob_year = birth_year(dg);
    let age = derive_age(dg, cur_year);
    0 <= dob_year && age_req as i32 <= age
}

} // verus!
