//! Which decimal separator expression text uses.
use vstd::prelude::*;

verus! {

///
#[derive(Debug, Clone, Copy, PartialEq, Eq, Hash, Structural)]
#[non_exhaustive]
pub enum DecimalPointLocalizationOption {
    /// Follow the station's TestStand preference.
    UsePreference,
    /// Follow the operating system's regional setting.
    UseSystemSetting,
    /// Always a period, whatever the station is set to.
    UsePeriod,
    /// Always a comma, whatever the station is set to.
    UseComma,
}

impl DecimalPointLocalizationOption {
    /// The number the engine exchanges for this value.
    pub open spec fn number(self) -> i32 {
        match self {
            DecimalPointLocalizationOption::UsePreference => 1,
            DecimalPointLocalizationOption::UseSystemSetting => 2,
            DecimalPointLocalizationOption::UsePeriod => 3,
            DecimalPointLocalizationOption::UseComma => 4,
        }
    }

    /// `decoded` is the value whose number is `raw`, or `raw` itself when no
    /// value has that number.
    pub open spec fn decodes(raw: i32, decoded: Result<Self, i32>) -> bool {
        match decoded {
            Ok(item) => item.number() == raw,
            Err(unknown) => unknown == raw && forall|item: DecimalPointLocalizationOption| #[trigger] item.number() != raw,
        }
    }

    /// The number the engine expects.
    pub fn bits(self) -> (bits: i32)
        ensures
            bits == self.number(),
    {
        match self {
            DecimalPointLocalizationOption::UsePreference => 1,
            DecimalPointLocalizationOption::UseSystemSetting => 2,
            DecimalPointLocalizationOption::UsePeriod => 3,
            DecimalPointLocalizationOption::UseComma => 4,
        }
    }

    /// Maps the engine's number onto an option, returning the number unchanged
    /// when this build does not name it.
    pub fn from_bits(raw: i32) -> (decoded: Result<DecimalPointLocalizationOption, i32>)
        ensures
            DecimalPointLocalizationOption::decodes(raw, decoded),
    {
        match raw {
            1 => Ok(DecimalPointLocalizationOption::UsePreference),
            2 => Ok(DecimalPointLocalizationOption::UseSystemSetting),
            3 => Ok(DecimalPointLocalizationOption::UsePeriod),
            4 => Ok(DecimalPointLocalizationOption::UseComma),
            unknown => Err(unknown),
        }
    }
}

/// Distinct values have distinct numbers.
pub proof fn lemma_numbers_are_distinct(a: DecimalPointLocalizationOption, b: DecimalPointLocalizationOption)
    requires
        a.number() == b.number(),
    ensures
        a == b,
{
}

/// Every value survives a trip through its number: decoding the number of
/// a value gives that value back.
pub proof fn lemma_number_round_trips(item: DecimalPointLocalizationOption, decoded: Result<DecimalPointLocalizationOption, i32>)
    requires
        DecimalPointLocalizationOption::decodes(item.number(), decoded),
    ensures
        decoded == Ok::<DecimalPointLocalizationOption, i32>(item),
{
    match decoded {
        Ok(found) => lemma_numbers_are_distinct(found, item),
        Err(_) => assert(item.number() != item.number()),
    }
}

/// The engine numbers these options from one: zero names none of them.
pub proof fn lemma_zero_names_no_option(item: DecimalPointLocalizationOption)
    ensures
        item.number() != 0,
{
}

} // verus!
