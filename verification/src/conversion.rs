//! Kinds of conversions that the image builder performs.
use std::str::FromStr;
use vstd::prelude::*;
use crate::error::BuildError;
use crate::text::str_eq;

verus! {

/// A conversion from one image format to another.
#[derive(Clone, Copy, Debug, PartialEq, Eq, Structural)]
pub enum ConversionType {
    DirectoryToRafs,
    DirectoryToStargz,
    DirectoryToTargz,
    EStargzToRafs,
    EStargzToRef,
    EStargzIndexToRef,
    TargzToRafs,
    TargzToStargz,
    TargzToRef,
    TarToStargz,
    TarToRafs,
}

/// The conversion that a name stands for. The last two names are kept for backward compatibility.
pub open spec fn conversion_named(name: Seq<char>) -> Option<ConversionType> {
    if name == "dir-rafs"@ {
        Some(ConversionType::DirectoryToRafs)
    } else if name == "dir-stargz"@ {
        Some(ConversionType::DirectoryToStargz)
    } else if name == "dir-targz"@ {
        Some(ConversionType::DirectoryToTargz)
    } else if name == "estargz-rafs"@ {
        Some(ConversionType::EStargzToRafs)
    } else if name == "estargz-ref"@ {
        Some(ConversionType::EStargzToRef)
    } else if name == "estargztoc-ref"@ {
        Some(ConversionType::EStargzIndexToRef)
    } else if name == "targz-rafs"@ {
        Some(ConversionType::TargzToRafs)
    } else if name == "targz-stargz"@ {
        Some(ConversionType::TargzToStargz)
    } else if name == "targz-ref"@ {
        Some(ConversionType::TargzToRef)
    } else if name == "tar-rafs"@ {
        Some(ConversionType::TarToRafs)
    } else if name == "tar-stargz"@ {
        Some(ConversionType::TarToStargz)
    } else if name == "directory"@ {
        Some(ConversionType::DirectoryToRafs)
    } else if name == "stargz_index"@ {
        Some(ConversionType::EStargzIndexToRef)
    } else {
        None
    }
}

impl ConversionType {
    /// The text that shows a conversion. `TargzToStargz` is shown as `TargzToRef` is.
    pub open spec fn shown(self) -> Seq<char> {
        match self {
            ConversionType::DirectoryToRafs => "dir-rafs"@,
            ConversionType::DirectoryToStargz => "dir-stargz"@,
            ConversionType::DirectoryToTargz => "dir-targz"@,
            ConversionType::EStargzToRafs => "estargz-rafs"@,
            ConversionType::EStargzToRef => "estargz-ref"@,
            ConversionType::EStargzIndexToRef => "estargztoc-ref"@,
            ConversionType::TargzToRafs => "targz-rafs"@,
            ConversionType::TargzToStargz => "targz-ref"@,
            ConversionType::TargzToRef => "targz-ref"@,
            ConversionType::TarToRafs => "tar-rafs"@,
            ConversionType::TarToStargz => "tar-stargz"@,
        }
    }

    /// The conversion that `s` names.
    pub fn from_str(s: &str) -> (result: Result<ConversionType, BuildError>)
        ensures
            match conversion_named(s@) {
                Some(conversion) => result == Ok::<ConversionType, BuildError>(conversion),
                None => result == Err::<ConversionType, BuildError>(
                    BuildError::InvalidConversionType,
                ),
            },
    {
        if str_eq(s, "dir-rafs") {
            Ok(ConversionType::DirectoryToRafs)
        } else if str_eq(s, "dir-stargz") {
            Ok(ConversionType::DirectoryToStargz)
        } else if str_eq(s, "dir-targz") {
            Ok(ConversionType::DirectoryToTargz)
        } else if str_eq(s, "estargz-rafs") {
            Ok(ConversionType::EStargzToRafs)
        } else if str_eq(s, "estargz-ref") {
            Ok(ConversionType::EStargzToRef)
        } else if str_eq(s, "estargztoc-ref") {
            Ok(ConversionType::EStargzIndexToRef)
        } else if str_eq(s, "targz-rafs") {
            Ok(ConversionType::TargzToRafs)
        } else if str_eq(s, "targz-stargz") {
            Ok(ConversionType::TargzToStargz)
        } else if str_eq(s, "targz-ref") {
            Ok(ConversionType::TargzToRef)
        } else if str_eq(s, "tar-rafs") {
            Ok(ConversionType::TarToRafs)
        } else if str_eq(s, "tar-stargz") {
            Ok(ConversionType::TarToStargz)
        } else if str_eq(s, "directory") {
            // kept for backward compatibility
            Ok(ConversionType::DirectoryToRafs)
        } else if str_eq(s, "stargz_index") {
            // kept for backward compatibility
            Ok(ConversionType::EStargzIndexToRef)
        } else {
            Err(BuildError::InvalidConversionType)
        }
    }

    /// The name that shows the conversion.
    pub fn to_string(&self) -> (text: String)
        ensures
            text@ == self.shown(),
    {
        let text: &str = match self {
            ConversionType::DirectoryToRafs => "dir-rafs",
            ConversionType::DirectoryToStargz => "dir-stargz",
            ConversionType::DirectoryToTargz => "dir-targz",
            ConversionType::EStargzToRafs => "estargz-rafs",
            ConversionType::EStargzToRef => "estargz-ref",
            ConversionType::EStargzIndexToRef => "estargztoc-ref",
            ConversionType::TargzToRafs => "targz-rafs",
            ConversionType::TargzToStargz => "targz-ref",
            ConversionType::TargzToRef => "targz-ref",
            ConversionType::TarToRafs => "tar-rafs",
            ConversionType::TarToStargz => "tar-stargz",
        };
        text.to_owned()
    }
}

impl Default for ConversionType {
    fn default() -> (conversion: Self)
        ensures
            conversion == ConversionType::DirectoryToRafs,
    {
        ConversionType::DirectoryToRafs
    }
}

impl FromStr for ConversionType {
    type Err = BuildError;

    fn from_str(s: &str) -> (result: Result<ConversionType, BuildError>)
        ensures
            match conversion_named(s@) {
                Some(conversion) => result == Ok::<ConversionType, BuildError>(conversion),
                None => result == Err::<ConversionType, BuildError>(
                    BuildError::InvalidConversionType,
                ),
            },
            call_ensures(ConversionType::from_str, (s,), result),
    {
        ConversionType::from_str(s)
    }
}

/// Length, first and fourth character of the names: no two of them agree in all three.
proof fn lemma_names()
    ensures
        "dir-rafs"@.len() == 8,
        "dir-stargz"@.len() == 10,
        "dir-targz"@.len() == 9,
        "estargz-rafs"@.len() == 12,
        "estargz-ref"@.len() == 11,
        "estargztoc-ref"@.len() == 14,
        "targz-rafs"@.len() == 10,
        "targz-stargz"@.len() == 12,
        "targz-ref"@.len() == 9,
        "tar-rafs"@.len() == 8,
        "tar-stargz"@.len() == 10,
        "dir-rafs"@[0] == 'd',
        "dir-rafs"@[3] == '-',
        "dir-stargz"@[0] == 'd',
        "dir-stargz"@[3] == '-',
        "dir-targz"@[0] == 'd',
        "dir-targz"@[3] == '-',
        "estargz-rafs"@[0] == 'e',
        "estargz-rafs"@[3] == 'a',
        "estargz-ref"@[0] == 'e',
        "estargz-ref"@[3] == 'a',
        "estargztoc-ref"@[0] == 'e',
        "estargztoc-ref"@[3] == 'a',
        "targz-rafs"@[0] == 't',
        "targz-rafs"@[3] == 'g',
        "targz-stargz"@[0] == 't',
        "targz-stargz"@[3] == 'g',
        "targz-ref"@[0] == 't',
        "targz-ref"@[3] == 'g',
        "tar-rafs"@[0] == 't',
        "tar-rafs"@[3] == '-',
        "tar-stargz"@[0] == 't',
        "tar-stargz"@[3] == '-',
{
    reveal_strlit("dir-rafs");
    reveal_strlit("dir-stargz");
    reveal_strlit("dir-targz");
    reveal_strlit("estargz-rafs");
    reveal_strlit("estargz-ref");
    reveal_strlit("estargztoc-ref");
    reveal_strlit("targz-rafs");
    reveal_strlit("targz-stargz");
    reveal_strlit("targz-ref");
    reveal_strlit("tar-rafs");
    reveal_strlit("tar-stargz");
}

/// The name that shows a conversion names that conversion. `TargzToStargz` is left out: it is shown
/// under the name of `TargzToRef`.
pub proof fn law_shown_name_reads_back(conversion: ConversionType)
    requires
        conversion != ConversionType::TargzToStargz,
    ensures
        conversion_named(conversion.shown()) == Some(conversion),
{
    lemma_names();
}

/// Every conversion has a name.
pub proof fn law_every_conversion_has_a_name(conversion: ConversionType)
    ensures
        exists|name: Seq<char>| conversion_named(name) == Some(conversion),
{
    if conversion == ConversionType::TargzToStargz {
        lemma_names();
        assert(conversion_named("targz-stargz"@) == Some(conversion));
    } else {
        law_shown_name_reads_back(conversion);
    }
}

} // verus!
