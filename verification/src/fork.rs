//! Protocol forks and what the harness knows of each.

use vstd::prelude::*;

verus! {

/// A protocol fork that a test vector can name.
#[derive(Clone, Copy, Debug, PartialEq, Eq, Structural)]
pub enum ForkSpec {
    EIP150,
    EIP158,
    Frontier,
    Homestead,
    Byzantium,
    Constantinople,
    ConstantinopleFix,
    Istanbul,
    Berlin,
    London,
    EIP158ToByzantiumAt5,
    FrontierToHomesteadAt5,
    HomesteadToDaoAt5,
    HomesteadToEIP150At5,
    ByzantiumToConstantinopleAt5,
    ByzantiumToConstantinopleFixAt5,
    BerlinToLondonAt5,
}

/// The forks that the harness can execute.
#[derive(Clone, Copy, Debug, PartialEq, Eq, Structural)]
pub enum Ruleset {
    Istanbul,
    Berlin,
}

/// What the harness needs to run a case under a supported fork.
#[derive(Clone, Copy, Debug, PartialEq, Eq, Structural)]
pub struct ForkSettings {
    /// Which gas-cost parameter set and which builtins apply.
    pub ruleset: Ruleset,
    /// Whether touched accounts that end up empty are removed from the state.
    pub delete_empty: bool,
}

impl ForkSpec {
    /// The settings of a supported fork, `None` for every other fork.
    pub open spec fn spec_settings(self) -> Option<ForkSettings> {
        match self {
            ForkSpec::Istanbul => Some(ForkSettings { ruleset: Ruleset::Istanbul, delete_empty: true }),
            ForkSpec::Berlin => Some(ForkSettings { ruleset: Ruleset::Berlin, delete_empty: true }),
            _ => None,
        }
    }

    pub open spec fn supported(self) -> bool {
        self.spec_settings() is Some
    }

    /// Maps a fork to its gas-cost parameter set and empty-account policy.
    /// Forks outside the supported set give `None`: their cases are skipped.
    pub fn settings(&self) -> (r: Option<ForkSettings>)
        ensures
            r == self.spec_settings(),
    {
        match self {
            ForkSpec::Istanbul => Some(ForkSettings { ruleset: Ruleset::Istanbul, delete_empty: true }),
            ForkSpec::Berlin => Some(ForkSettings { ruleset: Ruleset::Berlin, delete_empty: true }),
            _ => None,
        }
    }

    /// The fork's name as test vectors and progress lines spell it.
    pub open spec fn spec_name(self) -> Seq<char> {
        match self {
            ForkSpec::EIP150 => "EIP150"@,
            ForkSpec::EIP158 => "EIP158"@,
            ForkSpec::Frontier => "Frontier"@,
            ForkSpec::Homestead => "Homestead"@,
            ForkSpec::Byzantium => "Byzantium"@,
            ForkSpec::Constantinople => "Constantinople"@,
            ForkSpec::ConstantinopleFix => "ConstantinopleFix"@,
            ForkSpec::Istanbul => "Istanbul"@,
            ForkSpec::Berlin => "Berlin"@,
            ForkSpec::London => "London"@,
            ForkSpec::EIP158ToByzantiumAt5 => "EIP158ToByzantiumAt5"@,
            ForkSpec::FrontierToHomesteadAt5 => "FrontierToHomesteadAt5"@,
            ForkSpec::HomesteadToDaoAt5 => "HomesteadToDaoAt5"@,
            ForkSpec::HomesteadToEIP150At5 => "HomesteadToEIP150At5"@,
            ForkSpec::ByzantiumToConstantinopleAt5 => "ByzantiumToConstantinopleAt5"@,
            ForkSpec::ByzantiumToConstantinopleFixAt5 => "ByzantiumToConstantinopleFixAt5"@,
            ForkSpec::BerlinToLondonAt5 => "BerlinToLondonAt5"@,
        }
    }

    /// The fork's name as test vectors and progress lines spell it.
    pub fn name(&self) -> (r: &'static str)
        ensures
            r@ == self.spec_name(),
    {
        match self {
            ForkSpec::EIP150 => "EIP150",
            ForkSpec::EIP158 => "EIP158",
            ForkSpec::Frontier => "Frontier",
            ForkSpec::Homestead => "Homestead",
            ForkSpec::Byzantium => "Byzantium",
            ForkSpec::Constantinople => "Constantinople",
            ForkSpec::ConstantinopleFix => "ConstantinopleFix",
            ForkSpec::Istanbul => "Istanbul",
            ForkSpec::Berlin => "Berlin",
            ForkSpec::London => "London",
            ForkSpec::EIP158ToByzantiumAt5 => "EIP158ToByzantiumAt5",
            ForkSpec::FrontierToHomesteadAt5 => "FrontierToHomesteadAt5",
            ForkSpec::HomesteadToDaoAt5 => "HomesteadToDaoAt5",
            ForkSpec::HomesteadToEIP150At5 => "HomesteadToEIP150At5",
            ForkSpec::ByzantiumToConstantinopleAt5 => "ByzantiumToConstantinopleAt5",
            ForkSpec::ByzantiumToConstantinopleFixAt5 => "ByzantiumToConstantinopleFixAt5",
            ForkSpec::BerlinToLondonAt5 => "BerlinToLondonAt5",
        }
    }
}

impl Ruleset {
    /// The path of the ruleset's builtin descriptors.
    pub open spec fn spec_builtins_path(self) -> Seq<char> {
        match self {
            Ruleset::Istanbul => "./res/istanbul_builtins.json"@,
            Ruleset::Berlin => "./res/berlin_builtins.json"@,
        }
    }

    /// Where the descriptors of the fork's builtin contracts are read from,
    /// relative to the working directory.
    pub fn builtins_path(&self) -> (r: &'static str)
        ensures
            r@ == self.spec_builtins_path(),
    {
        match self {
            Ruleset::Istanbul => "./res/istanbul_builtins.json",
            Ruleset::Berlin => "./res/berlin_builtins.json",
        }
    }
}

} // verus!
