//! United States dollar amounts in exact decimal form, with arithmetic done by `rust_decimal`.

use rust_decimal::Decimal;
use vstd::prelude::*;
use crate::text::{decimal_digits, repeated};

verus! {

/// Largest mantissa magnitude a `Decimal` can hold (2^96 - 1).
pub const MAX_MANTISSA: i128 = 0xFFFF_FFFF_FFFF_FFFF_FFFF_FFFFi128;

/// Largest scale a `Decimal` can hold.
pub const MAX_SCALE: u32 = 28;

/// Bound on the whole units of two operands, plus two for rounding, under which `Decimal`
/// addition and subtraction cannot overflow: their exact result, even rounded to a whole
/// number, stays within the largest mantissa (2^96 - 1).
pub const SAFE_WHOLE_UNITS: u128 = 0xFFFF_FFFF_FFFF_FFFF_FFFF_FFFFu128;

/// Ten to the power `exponent`.
pub open spec fn ten_to(exponent: nat) -> int
    decreases exponent,
{
    if exponent == 0 {
        1
    } else {
        10 * ten_to((exponent - 1) as nat)
    }
}

/// Absolute value of an integer.
pub open spec fn magnitude(value: int) -> int {
    if value < 0 {
        -value
    } else {
        value
    }
}

/// Whether a mantissa and scale form a representable decimal.
pub open spec fn parts_wf(amount: (int, nat)) -> bool {
    &&& -(MAX_MANTISSA as int) <= amount.0 <= MAX_MANTISSA as int
    &&& amount.1 <= MAX_SCALE as nat
}

/// Whole units of the magnitude of an amount, that is `floor(|mantissa| / 10^scale)`.
pub open spec fn whole_units(amount: (int, nat)) -> int {
    magnitude(amount.0) / ten_to(amount.1)
}

/// The zero amount, `(0, 0)`.
pub open spec fn zero_parts() -> (int, nat) {
    (0, 0)
}

/// The result that `Decimal` addition gives for two amounts, each written as (mantissa, scale).
pub uninterp spec fn decimal_sum(left: (int, nat), right: (int, nat)) -> (int, nat);

/// The result that `Decimal` subtraction gives for two amounts.
pub uninterp spec fn decimal_difference(left: (int, nat), right: (int, nat)) -> (int, nat);

/// The result that `Decimal` multiplication gives for two amounts.
pub uninterp spec fn decimal_product(left: (int, nat), right: (int, nat)) -> (int, nat);

/// The result that `Decimal` division gives for two amounts.
pub uninterp spec fn decimal_quotient(left: (int, nat), right: (int, nat)) -> (int, nat);

/// The result of `Decimal::round_dp` for an amount and a number of decimal places: the
/// amount itself where its scale is no larger; otherwise its magnitude rounded to that scale,
/// half to even, with its sign kept.
#[verifier::opaque]
pub open spec fn decimal_rounded(amount: (int, nat), decimal_places: nat) -> (int, nat) {
    if amount.1 <= decimal_places {
        amount
    } else {
        let divisor = ten_to((amount.1 - decimal_places) as nat);
        let kept = magnitude(amount.0) / divisor;
        let dropped = magnitude(amount.0) % divisor;
        let half = divisor / 2;
        let rounded = if dropped > half || (dropped == half && kept % 2 == 1) {
            kept + 1
        } else {
            kept
        };
        (
            if amount.0 < 0 {
                -rounded
            } else {
                rounded
            },
            decimal_places,
        )
    }
}

/// The digits of an amount's magnitude (none for zero), padded with leading zeros to at
/// least as many digits as its scale.
pub open spec fn scaled_digits(amount: (int, nat)) -> Seq<char> {
    let digits = if magnitude(amount.0) == 0 {
        Seq::empty()
    } else {
        decimal_digits(magnitude(amount.0) as nat)
    };
    if digits.len() >= amount.1 {
        digits
    } else {
        repeated('0', (amount.1 - digits.len()) as nat) + digits
    }
}

/// An amount as `Decimal`'s `Display` writes it: a `-` for a negative amount, the whole
/// digits (`0` where there are none), and, for a positive scale, `.` and exactly that many
/// fraction digits.
pub open spec fn decimal_text(amount: (int, nat)) -> Seq<char> {
    let digits = scaled_digits(amount);
    let whole_length = digits.len() - amount.1;
    let whole = digits.subrange(0, whole_length);
    let fraction = digits.subrange(whole_length, digits.len() as int);
    let body = (if whole.len() == 0 {
        "0"@
    } else {
        whole
    }) + (if amount.1 > 0 {
        "."@ + fraction
    } else {
        Seq::empty()
    });
    if amount.0 < 0 {
        "-"@ + body
    } else {
        body
    }
}

/// The text that `Decimal`'s `Display` writes for an amount at a precision of two fraction
/// digits: as `decimal_text`, but with exactly two fraction digits, the first two of the
/// amount's own padded with zeros.
#[verifier::opaque]
pub open spec fn decimal_text_two_places(amount: (int, nat)) -> Seq<char> {
    let digits = scaled_digits(amount);
    let whole_length = digits.len() - amount.1;
    let whole = digits.subrange(0, whole_length);
    let fraction = digits.subrange(whole_length, digits.len() as int);
    let shown = if fraction.len() >= 2 {
        fraction.subrange(0, 2)
    } else {
        fraction + repeated('0', (2 - fraction.len()) as nat)
    };
    let body = (if whole.len() == 0 {
        "0"@
    } else {
        whole
    }) + "."@ + shown;
    if amount.0 < 0 {
        "-"@ + body
    } else {
        body
    }
}

/// The amount with trailing fraction zeros stripped and a negative zero made positive.
pub open spec fn normalized(amount: (int, nat)) -> (int, nat)
    decreases amount.1,
{
    if amount.0 == 0 {
        (0, 0)
    } else if amount.1 > 0 && amount.0 % 10 == 0 {
        normalized((amount.0 / 10, (amount.1 - 1) as nat))
    } else {
        amount
    }
}

/// Whether two amounts denote the same number.
pub open spec fn same_amount(left: (int, nat), right: (int, nat)) -> bool {
    normalized(left) == normalized(right)
}

/// A United States dollar amount written as `mantissa / 10^scale`, the exact form that
/// `rust_decimal::Decimal` uses.
#[derive(Clone, Copy, Debug)]
pub struct UsdAmount {
    mantissa: i128,
    scale: u32,
}

impl View for UsdAmount {
    type V = (int, nat);

    closed spec fn view(&self) -> (int, nat) {
        (self.mantissa as int, self.scale as nat)
    }
}

impl UsdAmount {
    #[verifier::type_invariant]
    spec fn representable(self) -> bool {
        parts_wf(self@)
    }

    /// Builds an amount from a mantissa and scale when `Decimal` can represent them.
    pub fn from_parts(mantissa: i128, scale: u32) -> (result: Option<UsdAmount>)
        ensures
            result is Some <==> parts_wf((mantissa as int, scale as nat)),
            result matches Some(amount) ==> amount@ == (mantissa as int, scale as nat),
    {
        if -MAX_MANTISSA <= mantissa && mantissa <= MAX_MANTISSA && scale <= MAX_SCALE {
            Some(UsdAmount { mantissa, scale })
        } else {
            None
        }
    }

    /// Builds a whole-dollar amount.
    pub fn from_whole(units: u64) -> (result: UsdAmount)
        ensures
            result@ == (units as int, 0nat),
    {
        UsdAmount { mantissa: units as i128, scale: 0 }
    }

    /// The zero amount.
    pub fn zero() -> (result: UsdAmount)
        ensures
            result@ == zero_parts(),
    {
        UsdAmount { mantissa: 0, scale: 0 }
    }

    /// The mantissa.
    pub fn mantissa(&self) -> (result: i128)
        ensures
            result as int == self@.0,
    {
        self.mantissa
    }

    /// The scale.
    pub fn scale(&self) -> (result: u32)
        ensures
            result as nat == self@.1,
    {
        self.scale
    }

    /// Whole units of the amount's magnitude, `floor(|mantissa| / 10^scale)`.
    pub fn whole_units(&self) -> (result: u128)
        ensures
            result as int == whole_units(self@),
    {
        proof {
            use_type_invariant(self);
        }
        let magnitude_value: u128 = if self.mantissa < 0 {
            (-self.mantissa) as u128
        } else {
            self.mantissa as u128
        };
        let mut power: u128 = 1;
        let mut exponent: u32 = 0;
        while exponent < self.scale
            invariant
                exponent <= self.scale,
                self.scale <= MAX_SCALE,
                power as int == ten_to(exponent as nat),
                power <= 10_000_000_000_000_000_000_000_000_000u128,
            decreases self.scale - exponent,
        {
            proof {
                lemma_ten_to_bounded(exponent as nat);
            }
            power = power * 10;
            exponent = exponent + 1;
        }
        proof {
            lemma_ten_to_positive(self.scale as nat);
        }
        magnitude_value / power
    }

    /// Whether the amount is greater than zero.
    pub fn is_positive(&self) -> (result: bool)
        ensures
            result == (self@.0 > 0),
    {
        self.mantissa > 0
    }

    /// Whether the amount is less than zero.
    pub fn is_negative(&self) -> (result: bool)
        ensures
            result == (self@.0 < 0),
    {
        self.mantissa < 0
    }

    /// The negated amount.
    pub fn negated(&self) -> (result: UsdAmount)
        ensures
            result@ == (-self@.0, self@.1),
    {
        proof {
            use_type_invariant(self);
        }
        UsdAmount { mantissa: -self.mantissa, scale: self.scale }
    }

    /// The amount with trailing fraction zeros stripped, as `Decimal::normalize` gives it.
    pub fn normalize(&self) -> (result: UsdAmount)
        ensures
            result@ == normalized(self@),
    {
        proof {
            use_type_invariant(self);
        }
        if self.mantissa == 0 {
            return UsdAmount { mantissa: 0, scale: 0 };
        }
        let mut mantissa = self.mantissa;
        let mut scale = self.scale;
        while scale > 0 && mantissa % 10 == 0
            invariant
                mantissa != 0,
                -(MAX_MANTISSA as int) <= mantissa <= MAX_MANTISSA as int,
                scale <= MAX_SCALE,
                normalized(self@) == normalized((mantissa as int, scale as nat)),
            decreases scale,
        {
            mantissa = mantissa / 10;
            scale = scale - 1;
        }
        UsdAmount { mantissa, scale }
    }

    /// Whether two amounts denote the same number, as `Decimal`'s `==` decides it.
    pub fn same_as(&self, other: &UsdAmount) -> (result: bool)
        ensures
            result == same_amount(self@, other@),
    {
        let left = self.normalize();
        let right = other.normalize();
        left.mantissa == right.mantissa && left.scale == right.scale
    }
}

impl PartialEq for UsdAmount {
    fn eq(&self, other: &Self) -> (result: bool) {
        self.same_as(other)
    }
}

impl vstd::std_specs::cmp::PartialEqSpecImpl for UsdAmount {
    open spec fn obeys_eq_spec() -> bool {
        true
    }

    open spec fn eq_spec(&self, other: &Self) -> bool {
        same_amount(self@, other@)
    }
}

impl Eq for UsdAmount {
}

/// The plain values of a sequence of amounts.
pub open spec fn amount_values(amounts: Seq<UsdAmount>) -> Seq<(int, nat)> {
    amounts.map_values(|amount: UsdAmount| amount@)
}

/// The `Decimal` sum of amounts added one after another from zero, as `Iterator::sum` and
/// repeated `+=` give it.
pub open spec fn decimal_fold(terms: Seq<(int, nat)>) -> (int, nat)
    decreases terms.len(),
{
    if terms.len() == 0 {
        zero_parts()
    } else {
        decimal_sum(decimal_fold(terms.drop_last()), terms.last())
    }
}

/// Whole units of the amounts, plus two per amount for rounding.
pub open spec fn whole_budget(terms: Seq<(int, nat)>) -> int
    decreases terms.len(),
{
    if terms.len() == 0 {
        0
    } else {
        whole_budget(terms.drop_last()) + whole_units(terms.last()) + 2
    }
}

/// The budget of a prefix is at most the budget of the whole sequence.
pub proof fn lemma_whole_budget_prefix(terms: Seq<(int, nat)>, count: int)
    requires
        0 <= count <= terms.len(),
    ensures
        whole_budget(terms.take(count)) <= whole_budget(terms),
    decreases terms.len(),
{
    if count < terms.len() {
        assert(terms.drop_last().take(count) =~= terms.take(count));
        lemma_whole_budget_prefix(terms.drop_last(), count);
        lemma_whole_units_nonnegative(terms.last());
    } else {
        assert(terms.take(count) =~= terms);
    }
}

/// Whole units are never negative.
pub proof fn lemma_whole_units_nonnegative(amount: (int, nat))
    ensures
        whole_units(amount) >= 0,
{
    lemma_ten_to_positive(amount.1);
}

/// Powers of ten below the 28th stay at most 10^27.
proof fn lemma_ten_to_bounded(exponent: nat)
    requires
        exponent < MAX_SCALE,
    ensures
        ten_to(exponent) <= 1_000_000_000_000_000_000_000_000_000,
{
    lemma_ten_to_monotone(exponent, 27);
    reveal_with_fuel(ten_to, 28);
}

/// Powers of ten grow with the exponent.
proof fn lemma_ten_to_monotone(smaller: nat, larger: nat)
    requires
        smaller <= larger,
    ensures
        ten_to(smaller) <= ten_to(larger),
    decreases larger,
{
    if smaller < larger {
        lemma_ten_to_monotone(smaller, (larger - 1) as nat);
        lemma_ten_to_positive((larger - 1) as nat);
    }
}

/// Powers of ten are positive.
pub proof fn lemma_ten_to_positive(exponent: nat)
    ensures
        ten_to(exponent) >= 1,
    decreases exponent,
{
    if exponent > 0 {
        lemma_ten_to_positive((exponent - 1) as nat);
    }
}

/// The mantissas of amounts written at one scale, added up.
pub open spec fn mantissa_sum(terms: Seq<(int, nat)>, scale: nat) -> int
    decreases terms.len(),
{
    if terms.len() == 0 {
        0
    } else {
        mantissa_sum(terms.drop_last(), scale) + mantissa_at(terms.last(), scale)
    }
}

/// Whether amounts can be added exactly at a scale: each has at most that scale, and each
/// amount and each running total, written at that scale, fits in a `Decimal` mantissa.
pub open spec fn exact_fold_fits(terms: Seq<(int, nat)>, scale: nat) -> bool {
    forall|count: int|
        1 <= count <= terms.len() ==> {
            &&& (#[trigger] terms[count - 1]).1 <= scale
            &&& magnitude(mantissa_at(terms[count - 1], scale)) <= MAX_MANTISSA as int
            &&& magnitude(mantissa_sum(terms.take(count), scale)) <= MAX_MANTISSA as int
        }
}

/// Whether a total is the exact sum of the terms at every scale at which they can be added
/// exactly.
pub open spec fn exact_when_fits(total: (int, nat), terms: Seq<(int, nat)>) -> bool {
    forall|scale: nat|
        #[trigger] exact_fold_fits(terms, scale) ==> total.1 <= scale && mantissa_at(total, scale) == mantissa_sum(
            terms,
            scale,
        )
}

/// Powers of ten multiply by adding exponents.
pub proof fn lemma_ten_to_add(first: nat, second: nat)
    ensures
        ten_to(first + second) == ten_to(first) * ten_to(second),
    decreases second,
{
    if second > 0 {
        lemma_ten_to_add(first, (second - 1) as nat);
        assert(ten_to(first + second) == 10 * ten_to((first + second - 1) as nat));
        assert(ten_to(second) == 10 * ten_to((second - 1) as nat));
        assert(10 * (ten_to(first) * ten_to((second - 1) as nat)) == ten_to(first) * (10 * ten_to((second - 1) as nat)))
            by (nonlinear_arith);
    }
}

/// Writing an amount at a wider scale multiplies its mantissa by the power of ten between.
pub proof fn lemma_mantissa_rescaled(amount: (int, nat), narrow: nat, wide: nat)
    requires
        amount.1 <= narrow <= wide,
    ensures
        mantissa_at(amount, wide) == mantissa_at(amount, narrow) * ten_to((wide - narrow) as nat),
        magnitude(mantissa_at(amount, narrow)) <= magnitude(mantissa_at(amount, wide)),
{
    let low = (narrow - amount.1) as nat;
    let gap = (wide - narrow) as nat;
    lemma_ten_to_add(low, gap);
    assert((wide - amount.1) as nat == low + gap);
    assert(amount.0 * (ten_to(low) * ten_to(gap)) == (amount.0 * ten_to(low)) * ten_to(gap)) by (nonlinear_arith);
    lemma_magnitude_scaled(mantissa_at(amount, narrow), gap);
}

/// Multiplying by a power of ten never makes a value smaller in magnitude.
pub proof fn lemma_magnitude_scaled(value: int, exponent: nat)
    ensures
        magnitude(value) <= magnitude(value * ten_to(exponent)),
{
    lemma_ten_to_positive(exponent);
    let factor = ten_to(exponent);
    if value >= 0 {
        assert(value <= value * factor) by (nonlinear_arith)
            requires value >= 0, factor >= 1;
    } else {
        assert(value * factor <= value) by (nonlinear_arith)
            requires value < 0, factor >= 1;
    }
}

/// Sums amounts one after another from zero with `Decimal` addition. At any scale at which
/// the amounts can be added exactly, the sum is their exact sum.
pub fn sum_amounts(amounts: &Vec<UsdAmount>) -> (result: UsdAmount)
    requires
        whole_budget(amount_values(amounts@)) <= SAFE_WHOLE_UNITS as int,
    ensures
        result@ == decimal_fold(amount_values(amounts@)),
        whole_units(result@) <= whole_budget(amount_values(amounts@)),
        exact_when_fits(result@, amount_values(amounts@)),
{
    let ghost values = amount_values(amounts@);
    let mut total = UsdAmount::zero();
    let mut index: usize = 0;
    proof {
        assert(values.take(0) =~= Seq::<(int, nat)>::empty());
        assert(whole_units(zero_parts()) == 0);
        assert forall|scale: nat| exact_fold_fits(values.take(0), scale) implies total@.1 <= scale && mantissa_at(total@, scale)
            == mantissa_sum(values.take(0), scale) by {
            assert(mantissa_at(total@, scale) == 0 * ten_to(scale));
        }
    }
    while index < amounts.len()
        invariant
            index <= amounts.len(),
            values == amount_values(amounts@),
            whole_budget(values) <= SAFE_WHOLE_UNITS as int,
            total@ == decimal_fold(values.take(index as int)),
            whole_units(total@) <= whole_budget(values.take(index as int)),
            forall|scale: nat|
                #[trigger] exact_fold_fits(values.take(index as int), scale) ==> total@.1 <= scale && mantissa_at(total@, scale)
                    == mantissa_sum(values.take(index as int), scale),
        decreases amounts.len() - index,
    {
        let ghost before = total@;
        let ghost term = amounts@[index as int]@;
        proof {
            let next = values.take(index + 1);
            assert(next.drop_last() =~= values.take(index as int));
            assert(next.last() == amounts@[index as int]@);
            lemma_whole_budget_prefix(values, index + 1);
        }
        total = decimal_add(total, amounts[index]);
        proof {
            let next = values.take(index + 1);
            let prefix = values.take(index as int);
            assert(next.drop_last() =~= prefix);
            assert(next.last() == term);
            assert forall|scale: nat| exact_fold_fits(next, scale) implies total@.1 <= scale && mantissa_at(total@, scale)
                == mantissa_sum(next, scale) by {
                assert forall|count: int| 1 <= count <= prefix.len() implies {
                    &&& (#[trigger] prefix[count - 1]).1 <= scale
                    &&& magnitude(mantissa_at(prefix[count - 1], scale)) <= MAX_MANTISSA as int
                    &&& magnitude(mantissa_sum(prefix.take(count), scale)) <= MAX_MANTISSA as int
                } by {
                    assert(prefix.take(count) =~= next.take(count));
                    assert(prefix[count - 1] == next[count - 1]);
                }
                assert(exact_fold_fits(prefix, scale));
                assert(next.take(next.len() as int) =~= next);
                assert(next[index as int] == term);
                let wide = wider_scale(before, term);
                lemma_mantissa_rescaled(before, wide, scale);
                lemma_mantissa_rescaled(term, wide, scale);
                let gap = (scale - wide) as nat;
                let narrow_sum = mantissa_at(before, wide) + mantissa_at(term, wide);
                assert(mantissa_at(before, scale) + mantissa_at(term, scale) == narrow_sum * ten_to(gap)) by (nonlinear_arith)
                    requires
                        mantissa_at(before, scale) == mantissa_at(before, wide) * ten_to(gap),
                        mantissa_at(term, scale) == mantissa_at(term, wide) * ten_to(gap),
                        narrow_sum == mantissa_at(before, wide) + mantissa_at(term, wide),
                ;
                lemma_magnitude_scaled(narrow_sum, gap);
                assert(mantissa_sum(next, scale) == mantissa_sum(prefix, scale) + mantissa_at(term, scale));
                assert(sum_fits(before, term));
                lemma_mantissa_rescaled(total@, wide, scale);
                assert(mantissa_at(total@, scale) == narrow_sum * ten_to(gap));
            }
        }
        index = index + 1;
    }
    proof {
        assert(values.take(amounts.len() as int) =~= values);
    }
    total
}

/// The larger of two scales.
pub open spec fn wider_scale(left: (int, nat), right: (int, nat)) -> nat {
    if left.1 >= right.1 {
        left.1
    } else {
        right.1
    }
}

/// The mantissa an amount has when written at a scale at least its own.
pub open spec fn mantissa_at(amount: (int, nat), scale: nat) -> int {
    amount.0 * ten_to((scale - amount.1) as nat)
}

/// Whether two amounts, written at their wider scale, and their sum all fit in a `Decimal`
/// mantissa.
pub open spec fn sum_fits(left: (int, nat), right: (int, nat)) -> bool {
    let scale = wider_scale(left, right);
    &&& magnitude(mantissa_at(left, scale)) <= MAX_MANTISSA as int
    &&& magnitude(mantissa_at(right, scale)) <= MAX_MANTISSA as int
    &&& magnitude(mantissa_at(left, scale) + mantissa_at(right, scale)) <= MAX_MANTISSA as int
}

/// Adds two amounts with `<Decimal as Add>::add`. The sum is exact where it fits in a
/// `Decimal`: `rust_decimal` aligns both operands to the wider scale and adds the mantissas,
/// and gives that sum at that scale (or the other operand unchanged where one is zero). Where
/// it does not fit it is rounded to fewer fraction digits, so its whole units exceed the
/// operands' by at most two; it never overflows below the stated bound.
#[verifier::external_body]
pub(crate) fn decimal_add(left: UsdAmount, right: UsdAmount) -> (result: UsdAmount)
    requires
        whole_units(left@) + whole_units(right@) + 2 <= SAFE_WHOLE_UNITS as int,
    ensures
        result@ == decimal_sum(left@, right@),
        whole_units(result@) <= whole_units(left@) + whole_units(right@) + 2,
        sum_fits(left@, right@) ==> result@.1 <= wider_scale(left@, right@) && mantissa_at(
            result@,
            wider_scale(left@, right@),
        ) == mantissa_at(left@, wider_scale(left@, right@)) + mantissa_at(right@, wider_scale(left@, right@)),
{
    let sum = Decimal::from_i128_with_scale(left.mantissa, left.scale)
        + Decimal::from_i128_with_scale(right.mantissa, right.scale);
    UsdAmount { mantissa: sum.mantissa(), scale: sum.scale() }
}

/// Subtracts two amounts with `<Decimal as Sub>::sub`, with the same rounding and overflow
/// behaviour as addition.
#[verifier::external_body]
pub(crate) fn decimal_subtract(left: UsdAmount, right: UsdAmount) -> (result: UsdAmount)
    requires
        whole_units(left@) + whole_units(right@) + 2 <= SAFE_WHOLE_UNITS as int,
    ensures
        result@ == decimal_difference(left@, right@),
        whole_units(result@) <= whole_units(left@) + whole_units(right@) + 2,
{
    let difference = Decimal::from_i128_with_scale(left.mantissa, left.scale)
        - Decimal::from_i128_with_scale(right.mantissa, right.scale);
    UsdAmount { mantissa: difference.mantissa(), scale: difference.scale() }
}

/// Multiplies two amounts with `<Decimal as Mul>::mul`. `rust_decimal` rounds the exact
/// product to fewer fraction digits until it fits, and overflows only where even its whole
/// number does not fit; so it does not overflow while the exact product's whole units, plus
/// one for rounding, fit in a mantissa, and its whole units then exceed the exact product's
/// by at most one. When the mantissa product fits in 96 bits the product is exact at the
/// summed scale (or zero at scale zero) where that scale is at most 28.
#[verifier::external_body]
pub(crate) fn decimal_multiply(left: UsdAmount, right: UsdAmount) -> (result: UsdAmount)
    requires
        whole_units((left@.0 * right@.0, left@.1 + right@.1)) + 1 <= MAX_MANTISSA as int,
    ensures
        result@ == decimal_product(left@, right@),
        left@.0 * right@.0 == 0 ==> result@ == zero_parts(),
        magnitude(left@.0 * right@.0) <= MAX_MANTISSA as int && left@.0 * right@.0 != 0 && left@.1 + right@.1
            <= MAX_SCALE as int ==> result@ == (left@.0 * right@.0, left@.1 + right@.1),
        whole_units(result@) <= whole_units((left@.0 * right@.0, left@.1 + right@.1)) + 1,
{
    let product = Decimal::from_i128_with_scale(left.mantissa, left.scale)
        * Decimal::from_i128_with_scale(right.mantissa, right.scale);
    UsdAmount { mantissa: product.mantissa(), scale: product.scale() }
}

/// Divides an amount by a positive whole number with `<Decimal as Div>::div`. The quotient
/// is rounded to at most 28 fraction digits, so its whole units are at most one more than
/// the whole units of the exact quotient. Dividing by a million is exact where six more
/// fraction digits stay within 28: `rust_decimal` keeps extending the quotient by powers of
/// ten until the remainder is zero, and only drops trailing zeros afterwards.
#[verifier::external_body]
pub(crate) fn decimal_divide(left: UsdAmount, right: UsdAmount) -> (result: UsdAmount)
    requires
        right@.0 >= 1,
        right@.1 == 0,
    ensures
        result@ == decimal_quotient(left@, right@),
        whole_units(result@) <= whole_units(left@) / right@.0 + 1,
        right@ == (1_000_000int, 0nat) && left@.1 + 6 <= MAX_SCALE ==> result@.1 <= left@.1 + 6 && mantissa_at(
            result@,
            left@.1 + 6,
        ) == left@.0,
{
    let quotient = Decimal::from_i128_with_scale(left.mantissa, left.scale)
        / Decimal::from_i128_with_scale(right.mantissa, right.scale);
    UsdAmount { mantissa: quotient.mantissa(), scale: quotient.scale() }
}

/// Rounds an amount to a number of decimal places with `Decimal::round_dp` (banker's
/// rounding), as `decimal_rounded` states: half to even, at the given number of places.
#[verifier::external_body]
pub(crate) fn decimal_round(amount: UsdAmount, decimal_places: u32) -> (result: UsdAmount)
    ensures
        result@ == decimal_rounded(amount@, decimal_places as nat),
{
    let rounded = Decimal::from_i128_with_scale(amount.mantissa, amount.scale).round_dp(
        decimal_places,
    );
    UsdAmount { mantissa: rounded.mantissa(), scale: rounded.scale() }
}

/// Writes an amount with `Decimal`'s `Display`, which writes the mantissa's digits with a
/// decimal point placed by the scale (`rust_decimal`'s `to_str_internal`) and a `-` in front
/// of a negative amount.
#[verifier::external_body]
pub(crate) fn decimal_to_text(amount: UsdAmount) -> (result: String)
    ensures
        result@ == decimal_text(amount@),
{
    Decimal::from_i128_with_scale(amount.mantissa, amount.scale).to_string()
}

/// Writes an amount with `Decimal`'s `Display` at a precision of two fraction digits.
#[verifier::external_body]
pub(crate) fn decimal_to_text_two_places(amount: UsdAmount) -> (result: String)
    ensures
        result@ == decimal_text_two_places(amount@),
{
    format!("{:.2}", Decimal::from_i128_with_scale(amount.mantissa, amount.scale))
}

} // verus!
