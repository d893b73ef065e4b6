use tauzip::error::CommandError;
use tauzip::jobs::validate_compression_type;
use tauzip::kind::{get_compression_types, parse_compression_type, CompressionType};

#[test]
fn lists_every_kind_in_order() {
    assert_eq!(
        get_compression_types(),
        vec!["Zip", "TarGz", "TarBr", "Gz", "Br", "Gzip", "Bzip2"]
    );
}

#[test]
fn parses_each_listed_name_back() {
    for name in get_compression_types() {
        let k = parse_compression_type(&name).expect("listed names parse");
        assert_eq!(k.name(), name);
    }
    assert_eq!(parse_compression_type("Bzip2"), Some(CompressionType::Bzip2));
}

#[test]
fn rejects_unknown_and_differently_cased_names() {
    assert_eq!(parse_compression_type("zip"), None);
    assert_eq!(parse_compression_type("Rar"), None);
    assert_eq!(parse_compression_type(""), None);
}

#[test]
fn gz_refuses_two_files() {
    let files = vec!["a".to_string(), "b".to_string()];
    assert_eq!(validate_compression_type(&files, "Gz"), Ok(false));
}

#[test]
fn zip_accepts_one_file() {
    let files = vec!["a".to_string()];
    assert_eq!(validate_compression_type(&files, "Zip"), Ok(true));
}

#[test]
fn containers_accept_many_files_and_streams_one() {
    let many = vec!["a".to_string(), "b".to_string(), "c".to_string()];
    assert_eq!(validate_compression_type(&many, "TarGz"), Ok(true));
    assert_eq!(validate_compression_type(&many, "TarBr"), Ok(true));
    assert_eq!(validate_compression_type(&many, "Bzip2"), Ok(false));
    let one = vec!["a".to_string()];
    assert_eq!(validate_compression_type(&one, "Br"), Ok(true));
    assert_eq!(validate_compression_type(&Vec::new(), "Gzip"), Ok(true));
}

#[test]
fn validate_reports_unknown_kind() {
    let files = vec!["a".to_string()];
    let e = validate_compression_type(&files, "Rar").unwrap_err();
    assert_eq!(e, CommandError::UnsupportedKind("Rar".to_string()));
    assert_eq!(e.message(), "Unsupported compression type: Rar");
}

#[test]
fn error_messages() {
    assert_eq!(
        CommandError::MultipleInstancesDetected.message(),
        "multiple instance of apps detected"
    );
    assert_eq!(
        CommandError::CompressionFailed("disk full".to_string()).message(),
        "Compression failed: disk full"
    );
    assert_eq!(
        CommandError::DecompressionFailed("/x/a.zip".to_string(), "bad header".to_string()).message(),
        "Failed to decompress '/x/a.zip': bad header"
    );
    assert_eq!(CommandError::EventDeliveryFailed.message(), "event delivery failed");
}
