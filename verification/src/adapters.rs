//! The keys naming the code-module adapters an engine can call.
use vstd::prelude::*;

use crate::text::str_equals;

verus! {

/// A code-module adapter, by the key the engine knows it under
/// (`AdapterKeyNames`).
///
/// The key is a string rather than a number, so this keeps those strings in
/// one checked place. Two keys are obsolete: the standard-prototype
/// `LabViewStdPrototype` and `CviStdPrototype`, which the documentation
/// replaces with `LabView` and `Cvi`.
#[derive(Debug, Clone, Copy, PartialEq, Eq, Hash, Structural)]
#[non_exhaustive]
pub enum AdapterKeyName {
    /// No code module (`NoneAdapterKeyName`).
    NoneAdapter,
    /// The `LabVIEW` adapter (`FlexLVAdapterKeyName`).
    LabView,
    /// The superseded standard-prototype `LabVIEW` adapter. Obsolete.
    LabViewStdPrototype,
    /// `LabVIEW` NXG (`LabVIEWNXGAdapterKeyName`).
    LabViewNxg,
    /// A C/CVI function with any prototype (`FlexCVIAdapterKeyName`).
    Cvi,
    /// A C/CVI function with the standard prototype. Obsolete.
    CviStdPrototype,
    /// A DLL function with any prototype (`FlexCAdapterKeyName`).
    DllFlex,
    /// Another sequence (`SequenceAdapterKeyName`).
    Sequence,
    /// An `ActiveX` automation server (`AutomationAdapterKeyName`).
    Automation,
    /// A .NET assembly member (`DotNetAdapterKeyname`).
    DotNet,
    /// A Python module (`PythonAdapterKeyName`).
    Python,
    /// `HTBasic` (`HTBasicAdapterKeyName`).
    HtBasic,
}

/// `found` is the adapter whose key is `key`, or `None` when no adapter has it.
pub open spec fn recognises(key: Seq<char>, found: Option<AdapterKeyName>) -> bool {
    match found {
        Some(adapter) => adapter.key() == key,
        None => forall|adapter: AdapterKeyName| #[trigger] adapter.key() != key,
    }
}

impl AdapterKeyName {
    /// The key the engine expects for this adapter.
    pub open spec fn key(self) -> Seq<char> {
        match self {
            AdapterKeyName::NoneAdapter => "None Adapter"@,
            AdapterKeyName::LabView => "G Flexible VI Adapter"@,
            AdapterKeyName::LabViewStdPrototype => "G Std Prototype Adapter"@,
            AdapterKeyName::LabViewNxg => "LabVIEW NXG Adapter"@,
            AdapterKeyName::Cvi => "C/CVI Flexible Prototype Adapter"@,
            AdapterKeyName::CviStdPrototype => "C/CVI Std Prototype Adapter"@,
            AdapterKeyName::DllFlex => "DLL Flexible Prototype Adapter"@,
            AdapterKeyName::Sequence => "Sequence Adapter"@,
            AdapterKeyName::Automation => "Automation Adapter"@,
            AdapterKeyName::DotNet => "DotNet Adapter"@,
            AdapterKeyName::Python => "Python Adapter"@,
            AdapterKeyName::HtBasic => "HTBasic Adapter"@,
        }
    }

    /// Whether the documentation marks this key obsolete.
    pub open spec fn obsolete(self) -> bool {
        self == AdapterKeyName::LabViewStdPrototype || self == AdapterKeyName::CviStdPrototype
    }

    /// The key the documentation directs callers to instead, if any.
    pub open spec fn replaced_by(self) -> Option<AdapterKeyName> {
        match self {
            AdapterKeyName::LabViewStdPrototype => Some(AdapterKeyName::LabView),
            AdapterKeyName::CviStdPrototype => Some(AdapterKeyName::Cvi),
            _ => None,
        }
    }

    /// The key the engine expects.
    pub fn as_str(self) -> (key: &'static str)
        ensures
            key@ == self.key(),
    {
        match self {
            AdapterKeyName::NoneAdapter => "None Adapter",
            AdapterKeyName::LabView => "G Flexible VI Adapter",
            AdapterKeyName::LabViewStdPrototype => "G Std Prototype Adapter",
            AdapterKeyName::LabViewNxg => "LabVIEW NXG Adapter",
            AdapterKeyName::Cvi => "C/CVI Flexible Prototype Adapter",
            AdapterKeyName::CviStdPrototype => "C/CVI Std Prototype Adapter",
            AdapterKeyName::DllFlex => "DLL Flexible Prototype Adapter",
            AdapterKeyName::Sequence => "Sequence Adapter",
            AdapterKeyName::Automation => "Automation Adapter",
            AdapterKeyName::DotNet => "DotNet Adapter",
            AdapterKeyName::Python => "Python Adapter",
            AdapterKeyName::HtBasic => "HTBasic Adapter",
        }
    }

    /// Recognises a key read back from a step.
    ///
    /// `None` means the key is not one this build names, a newer engine's
    /// adapter or a step that has none.
    pub fn from_key(key: &str) -> (found: Option<AdapterKeyName>)
        ensures
            recognises(key@, found),
    {
        let candidates = [
            AdapterKeyName::NoneAdapter,
            AdapterKeyName::LabViewStdPrototype,
            AdapterKeyName::LabView,
            AdapterKeyName::LabViewNxg,
            AdapterKeyName::CviStdPrototype,
            AdapterKeyName::Cvi,
            AdapterKeyName::DllFlex,
            AdapterKeyName::Sequence,
            AdapterKeyName::Automation,
            AdapterKeyName::DotNet,
            AdapterKeyName::Python,
            AdapterKeyName::HtBasic,
        ];
        let mut i: usize = 0;
        while i < 12
            invariant
                i <= 12,
                candidates@ == seq![
                    AdapterKeyName::NoneAdapter,
                    AdapterKeyName::LabViewStdPrototype,
                    AdapterKeyName::LabView,
                    AdapterKeyName::LabViewNxg,
                    AdapterKeyName::CviStdPrototype,
                    AdapterKeyName::Cvi,
                    AdapterKeyName::DllFlex,
                    AdapterKeyName::Sequence,
                    AdapterKeyName::Automation,
                    AdapterKeyName::DotNet,
                    AdapterKeyName::Python,
                    AdapterKeyName::HtBasic,
                ],
                forall|j: int| 0 <= j < i ==> candidates@[j].key() != key@,
            decreases 12 - i,
        {
            let candidate = candidates[i];
            if str_equals(candidate.as_str(), key) {
                return Some(candidate);
            }
            i = i + 1;
        }
        proof {
            assert forall|adapter: AdapterKeyName| #[trigger] adapter.key() != key@ by {
                match adapter {
                    AdapterKeyName::NoneAdapter => assert(candidates@[0].key() != key@),
                    AdapterKeyName::LabViewStdPrototype => assert(candidates@[1].key() != key@),
                    AdapterKeyName::LabView => assert(candidates@[2].key() != key@),
                    AdapterKeyName::LabViewNxg => assert(candidates@[3].key() != key@),
                    AdapterKeyName::CviStdPrototype => assert(candidates@[4].key() != key@),
                    AdapterKeyName::Cvi => assert(candidates@[5].key() != key@),
                    AdapterKeyName::DllFlex => assert(candidates@[6].key() != key@),
                    AdapterKeyName::Sequence => assert(candidates@[7].key() != key@),
                    AdapterKeyName::Automation => assert(candidates@[8].key() != key@),
                    AdapterKeyName::DotNet => assert(candidates@[9].key() != key@),
                    AdapterKeyName::Python => assert(candidates@[10].key() != key@),
                    AdapterKeyName::HtBasic => assert(candidates@[11].key() != key@),
                }
            }
        }
        None
    }

    /// Whether the documentation marks this key obsolete.
    pub fn is_obsolete(self) -> (obsolete: bool)
        ensures
            obsolete == self.obsolete(),
    {
        matches!(self, AdapterKeyName::LabViewStdPrototype | AdapterKeyName::CviStdPrototype)
    }

    /// The key the documentation directs callers to instead, if any.
    pub fn replacement(self) -> (replacement: Option<AdapterKeyName>)
        ensures
            replacement == self.replaced_by(),
    {
        match self {
            AdapterKeyName::LabViewStdPrototype => Some(AdapterKeyName::LabView),
            AdapterKeyName::CviStdPrototype => Some(AdapterKeyName::Cvi),
            _ => None,
        }
    }
}

/// The number of characters in each key; only `DotNet` and `Python` share one.
spec fn key_length(adapter: AdapterKeyName) -> nat {
    match adapter {
        AdapterKeyName::NoneAdapter => 12,
        AdapterKeyName::LabView => 21,
        AdapterKeyName::LabViewStdPrototype => 23,
        AdapterKeyName::LabViewNxg => 19,
        AdapterKeyName::Cvi => 32,
        AdapterKeyName::CviStdPrototype => 27,
        AdapterKeyName::DllFlex => 30,
        AdapterKeyName::Sequence => 16,
        AdapterKeyName::Automation => 18,
        AdapterKeyName::DotNet => 14,
        AdapterKeyName::Python => 14,
        AdapterKeyName::HtBasic => 15,
    }
}

proof fn lemma_key_length(adapter: AdapterKeyName)
    ensures
        adapter.key().len() == key_length(adapter),
        adapter == AdapterKeyName::DotNet ==> adapter.key()[0] == 'D',
        adapter == AdapterKeyName::Python ==> adapter.key()[0] == 'P',
{
    match adapter {
        AdapterKeyName::NoneAdapter => reveal_strlit("None Adapter"),
        AdapterKeyName::LabView => reveal_strlit("G Flexible VI Adapter"),
        AdapterKeyName::LabViewStdPrototype => reveal_strlit("G Std Prototype Adapter"),
        AdapterKeyName::LabViewNxg => reveal_strlit("LabVIEW NXG Adapter"),
        AdapterKeyName::Cvi => reveal_strlit("C/CVI Flexible Prototype Adapter"),
        AdapterKeyName::CviStdPrototype => reveal_strlit("C/CVI Std Prototype Adapter"),
        AdapterKeyName::DllFlex => reveal_strlit("DLL Flexible Prototype Adapter"),
        AdapterKeyName::Sequence => reveal_strlit("Sequence Adapter"),
        AdapterKeyName::Automation => reveal_strlit("Automation Adapter"),
        AdapterKeyName::DotNet => reveal_strlit("DotNet Adapter"),
        AdapterKeyName::Python => reveal_strlit("Python Adapter"),
        AdapterKeyName::HtBasic => reveal_strlit("HTBasic Adapter"),
    }
}

/// No two adapters share a key, so a key read back from a step names at most
/// one adapter.
pub proof fn lemma_keys_are_distinct(a: AdapterKeyName, b: AdapterKeyName)
    requires
        a.key() == b.key(),
    ensures
        a == b,
{
    lemma_key_length(a);
    lemma_key_length(b);
}

/// Every adapter's key is recognised as that adapter: reading back what was
/// written gives the same adapter.
pub proof fn lemma_key_round_trips(adapter: AdapterKeyName, found: Option<AdapterKeyName>)
    requires
        recognises(adapter.key(), found),
    ensures
        found == Some(adapter),
{
    match found {
        Some(other) => lemma_keys_are_distinct(other, adapter),
        None => {
            let witness = adapter;
            assert(witness.key() != adapter.key());
        },
    }
}

/// A key is obsolete exactly when the documentation names a replacement for
/// it, and a replacement is never itself obsolete.
pub proof fn lemma_obsolete_iff_replaced(adapter: AdapterKeyName)
    ensures
        adapter.obsolete() <==> adapter.replaced_by() is Some,
        adapter.replaced_by() matches Some(next) ==> !next.obsolete(),
{
}

/// The name the engine gives an adapter, before the ` Adapter` that ends
/// every key.
pub open spec fn engine_adapter_name(adapter: AdapterKeyName) -> Seq<char> {
    match adapter {
            AdapterKeyName::NoneAdapter => "None"@,
            AdapterKeyName::LabView => "G Flexible VI"@,
            AdapterKeyName::LabViewStdPrototype => "G Std Prototype"@,
            AdapterKeyName::LabViewNxg => "LabVIEW NXG"@,
            AdapterKeyName::Cvi => "C/CVI Flexible Prototype"@,
            AdapterKeyName::CviStdPrototype => "C/CVI Std Prototype"@,
            AdapterKeyName::DllFlex => "DLL Flexible Prototype"@,
            AdapterKeyName::Sequence => "Sequence"@,
            AdapterKeyName::Automation => "Automation"@,
            AdapterKeyName::DotNet => "DotNet"@,
            AdapterKeyName::Python => "Python"@,
            AdapterKeyName::HtBasic => "HTBasic"@,
    }
}

/// Every key is the engine's name for its adapter followed by ` Adapter`,
/// exactly as the engine writes it (so `HTBasic Adapter`, with `HT` in
/// capitals), and a key read back from a step is recognised as that adapter.
pub proof fn lemma_keys_are_the_engine_names(adapter: AdapterKeyName, found: Option<AdapterKeyName>)
    requires
        recognises(engine_adapter_name(adapter) + " Adapter"@, found),
    ensures
        adapter.key() == engine_adapter_name(adapter) + " Adapter"@,
        found == Some(adapter),
{
    reveal_strlit(" Adapter");
    match adapter {
        AdapterKeyName::NoneAdapter => {
            reveal_strlit("None");
            reveal_strlit("None Adapter");
        },
        AdapterKeyName::LabView => {
            reveal_strlit("G Flexible VI");
            reveal_strlit("G Flexible VI Adapter");
        },
        AdapterKeyName::LabViewStdPrototype => {
            reveal_strlit("G Std Prototype");
            reveal_strlit("G Std Prototype Adapter");
        },
        AdapterKeyName::LabViewNxg => {
            reveal_strlit("LabVIEW NXG");
            reveal_strlit("LabVIEW NXG Adapter");
        },
        AdapterKeyName::Cvi => {
            reveal_strlit("C/CVI Flexible Prototype");
            reveal_strlit("C/CVI Flexible Prototype Adapter");
        },
        AdapterKeyName::CviStdPrototype => {
            reveal_strlit("C/CVI Std Prototype");
            reveal_strlit("C/CVI Std Prototype Adapter");
        },
        AdapterKeyName::DllFlex => {
            reveal_strlit("DLL Flexible Prototype");
            reveal_strlit("DLL Flexible Prototype Adapter");
        },
        AdapterKeyName::Sequence => {
            reveal_strlit("Sequence");
            reveal_strlit("Sequence Adapter");
        },
        AdapterKeyName::Automation => {
            reveal_strlit("Automation");
            reveal_strlit("Automation Adapter");
        },
        AdapterKeyName::DotNet => {
            reveal_strlit("DotNet");
            reveal_strlit("DotNet Adapter");
        },
        AdapterKeyName::Python => {
            reveal_strlit("Python");
            reveal_strlit("Python Adapter");
        },
        AdapterKeyName::HtBasic => {
            reveal_strlit("HTBasic");
            reveal_strlit("HTBasic Adapter");
        },
    }
    assert(adapter.key() =~= engine_adapter_name(adapter) + " Adapter"@);
    lemma_key_round_trips(adapter, found);
}

} // verus!
