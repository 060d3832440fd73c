use nydus_image::conversion::ConversionType;
use nydus_image::error::BuildError;

const ALL: [(&str, ConversionType); 11] = [
    ("dir-rafs", ConversionType::DirectoryToRafs),
    ("dir-stargz", ConversionType::DirectoryToStargz),
    ("dir-targz", ConversionType::DirectoryToTargz),
    ("estargz-rafs", ConversionType::EStargzToRafs),
    ("estargz-ref", ConversionType::EStargzToRef),
    ("estargztoc-ref", ConversionType::EStargzIndexToRef),
    ("targz-rafs", ConversionType::TargzToRafs),
    ("targz-stargz", ConversionType::TargzToStargz),
    ("targz-ref", ConversionType::TargzToRef),
    ("tar-rafs", ConversionType::TarToRafs),
    ("tar-stargz", ConversionType::TarToStargz),
];

#[test]
fn default_conversion() {
    assert_eq!(ConversionType::default(), ConversionType::DirectoryToRafs);
}

#[test]
fn every_name_is_known() {
    for (name, conversion) in ALL {
        assert_eq!(ConversionType::from_str(name), Ok(conversion));
        assert_eq!(name.parse::<ConversionType>(), Ok(conversion));
    }
}

#[test]
fn names_kept_for_compatibility() {
    assert_eq!(ConversionType::from_str("directory"), Ok(ConversionType::DirectoryToRafs));
    assert_eq!(ConversionType::from_str("stargz_index"), Ok(ConversionType::EStargzIndexToRef));
}

#[test]
fn unknown_names_are_refused() {
    for name in ["", "dir", "dir-raf", "dir-rafs ", "DIR-RAFS", "tar-ref", "dir\u{2013}rafs"] {
        let error = ConversionType::from_str(name).unwrap_err();
        assert_eq!(error, BuildError::InvalidConversionType);
        assert_eq!(error.message(), "invalid conversion type");
    }
}

#[test]
fn shown_name_reads_back() {
    for (name, conversion) in ALL {
        if conversion != ConversionType::TargzToStargz {
            assert_eq!(conversion.to_string(), name);
            assert_eq!(ConversionType::from_str(&conversion.to_string()), Ok(conversion));
        }
    }
}

#[test]
fn targz_to_stargz_is_shown_as_ref() {
    assert_eq!(ConversionType::TargzToStargz.to_string(), "targz-ref");
    assert_eq!(ConversionType::TargzToRef.to_string(), "targz-ref");
}
