//! What licence the engine is currently running on.
use vstd::prelude::*;

verus! {

/// The kind of licence the engine is using (`Engine.LicenseType`).
///
/// Where several are activated on one machine, the engine picks the minimum
/// that satisfies the request rather than the most capable, so this reports
/// what is actually in use and not what is installed.
#[derive(Debug, Clone, Copy, PartialEq, Eq, Hash, Structural)]
#[non_exhaustive]
pub enum LicenseType {
    /// Full development system.
    DevelopmentSystem,
    /// Debug deployment environment.
    DebugDeploymentEnv,
    /// Base deployment engine.
    BaseDeploymentEngine,
    /// An OEM licence.
    Oem,
    /// An evaluation licence, which expires.
    Evaluation,
    /// No licence at all.
    ///
    /// The state a host has to survive: the engine object may still exist, but
    /// anything needing a licence will refuse.
    NoLicense,
    /// A temporary licence, taken when the volume licence server is
    /// unreachable. Worth logging: it means the station could not reach the
    /// server, so it will need to later.
    Temporary,
    /// The engine could not determine the type.
    Other,
    /// Custom sequence editor deployment.
    CustomEditorDeployment,
}

impl LicenseType {
    /// The number the engine exchanges for this value.
    pub open spec fn number(self) -> i32 {
        match self {
            LicenseType::DevelopmentSystem => 1,
            LicenseType::DebugDeploymentEnv => 2,
            LicenseType::BaseDeploymentEngine => 3,
            LicenseType::Oem => 4,
            LicenseType::Evaluation => 5,
            LicenseType::NoLicense => 6,
            LicenseType::Temporary => 7,
            LicenseType::Other => 8,
            LicenseType::CustomEditorDeployment => 9,
        }
    }

    /// `decoded` is the value whose number is `raw`, or `raw` itself when no
    /// value has that number.
    pub open spec fn decodes(raw: i32, decoded: Result<Self, i32>) -> bool {
        match decoded {
            Ok(item) => item.number() == raw,
            Err(unknown) => unknown == raw && forall|item: LicenseType| #[trigger] item.number() != raw,
        }
    }

    /// The engine's number for this type.
    pub fn bits(self) -> (bits: i32)
        ensures
            bits == self.number(),
    {
        match self {
            LicenseType::DevelopmentSystem => 1,
            LicenseType::DebugDeploymentEnv => 2,
            LicenseType::BaseDeploymentEngine => 3,
            LicenseType::Oem => 4,
            LicenseType::Evaluation => 5,
            LicenseType::NoLicense => 6,
            LicenseType::Temporary => 7,
            LicenseType::Other => 8,
            LicenseType::CustomEditorDeployment => 9,
        }
    }

    /// Maps the engine's number onto a type, returning the number unchanged
    /// when this build does not name it: a newer engine may define a licence
    /// type this crate predates.
    pub fn from_bits(raw: i32) -> (decoded: Result<LicenseType, i32>)
        ensures
            LicenseType::decodes(raw, decoded),
    {
        match raw {
            1 => Ok(LicenseType::DevelopmentSystem),
            2 => Ok(LicenseType::DebugDeploymentEnv),
            3 => Ok(LicenseType::BaseDeploymentEngine),
            4 => Ok(LicenseType::Oem),
            5 => Ok(LicenseType::Evaluation),
            6 => Ok(LicenseType::NoLicense),
            7 => Ok(LicenseType::Temporary),
            8 => Ok(LicenseType::Other),
            9 => Ok(LicenseType::CustomEditorDeployment),
            unknown => Err(unknown),
        }
    }

    /// Whether this licence lets a host expect to run sequences: every type
    /// but `NoLicense`.
    pub open spec fn usable(self) -> bool {
        self != LicenseType::NoLicense
    }

    /// Whether this licence lets a host expect to run sequences.
    ///
    /// False for `NoLicense` only. Everything else grants something, though
    /// not necessarily everything a caller wants, so this is a floor, not a
    /// guarantee.
    pub fn is_usable(self) -> (usable: bool)
        ensures
            usable == self.usable(),
    {
        !matches!(self, LicenseType::NoLicense)
    }
}

/// Distinct values have distinct numbers.
pub proof fn lemma_numbers_are_distinct(a: LicenseType, b: LicenseType)
    requires
        a.number() == b.number(),
    ensures
        a == b,
{
}

/// Every value survives a trip through its number: decoding the number of
/// a value gives that value back.
pub proof fn lemma_number_round_trips(item: LicenseType, decoded: Result<LicenseType, i32>)
    requires
        LicenseType::decodes(item.number(), decoded),
    ensures
        decoded == Ok::<LicenseType, i32>(item),
{
    match decoded {
        Ok(found) => lemma_numbers_are_distinct(found, item),
        Err(_) => assert(item.number() != item.number()),
    }
}

/// The engine's numbering of licence types: 1 through 9, in the order the
/// engine's `LicenseTypes` enumeration declares them, so a freshly created
/// engine, which reports 6, reports no licence.
pub proof fn lemma_engine_numbering(item: LicenseType)
    ensures
        item.number() == match item {
            LicenseType::DevelopmentSystem => 1i32,
            LicenseType::DebugDeploymentEnv => 2i32,
            LicenseType::BaseDeploymentEngine => 3i32,
            LicenseType::Oem => 4i32,
            LicenseType::Evaluation => 5i32,
            LicenseType::NoLicense => 6i32,
            LicenseType::Temporary => 7i32,
            LicenseType::Other => 8i32,
            LicenseType::CustomEditorDeployment => 9i32,
        },
{
}

/// A reported number decodes exactly when it lies in `1..=9`, and what it
/// decodes to is unusable exactly when the number is 6, no licence.
pub proof fn lemma_only_six_is_unusable(raw: i32, decoded: Result<LicenseType, i32>)
    requires
        LicenseType::decodes(raw, decoded),
    ensures
        decoded is Ok <==> 1 <= raw <= 9,
        decoded matches Ok(item) ==> (item.usable() <==> raw != 6),
{
    if !(1 <= raw <= 9) {
        if let Ok(item) = decoded {
            lemma_engine_numbering(item);
        }
    } else if decoded is Err {
        let witness = match raw {
            1 => LicenseType::DevelopmentSystem,
            2 => LicenseType::DebugDeploymentEnv,
            3 => LicenseType::BaseDeploymentEngine,
            4 => LicenseType::Oem,
            5 => LicenseType::Evaluation,
            6 => LicenseType::NoLicense,
            7 => LicenseType::Temporary,
            8 => LicenseType::Other,
            _ => LicenseType::CustomEditorDeployment,
        };
        assert(witness.number() == raw);
    }
}

} // verus!
