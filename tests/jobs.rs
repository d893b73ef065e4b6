use tauzip::error::CommandError;
use tauzip::jobs::{
    compression_final_snapshot, compression_message, compression_snapshot, plan_compression,
    resolve_destination, ExtractionBatch, Operation, FILE_UNITS,
};
use tauzip::kind::CompressionType;
use tauzip::outdir::{candidate_name, decimal_string, first_free_name, generate_output_dir};

fn strings(v: &[&str]) -> Vec<String> {
    v.iter().map(|s| s.to_string()).collect()
}

fn percent(done: u64, whole: u64) -> f64 {
    100.0 * done as f64 / whole as f64
}

#[test]
fn output_dir_takes_stem_beside_archive() {
    assert_eq!(generate_output_dir("/x/foo.zip", &Vec::new()), "/x/foo");
}

#[test]
fn output_dir_second_when_first_exists() {
    assert_eq!(generate_output_dir("/x/foo.zip", &strings(&["foo"])), "/x/foo (2)");
}

#[test]
fn output_dir_third_when_two_exist() {
    assert_eq!(generate_output_dir("/x/foo.zip", &strings(&["foo (2)", "foo"])), "/x/foo (3)");
}

#[test]
fn output_dir_skips_only_taken_names() {
    let taken = strings(&["foo", "foo (2)", "foo (3)", "bar", "foo (5)"]);
    assert_eq!(first_free_name("foo", &taken), "foo (4)");
    assert_eq!(generate_output_dir("a.tar.gz", &strings(&["a.tar"])), "a.tar (2)");
}

#[test]
fn candidate_names_and_decimals() {
    assert_eq!(candidate_name("foo", 1), "foo");
    assert_eq!(candidate_name("foo", 12), "foo (12)");
    assert_eq!(decimal_string(0), "0");
    assert_eq!(decimal_string(907), "907");
}

#[test]
fn relative_destination_beside_first_source() {
    let sources = strings(&["/a/b/1.txt", "/a/b/2.txt"]);
    assert_eq!(resolve_destination(&sources, "out.zip"), "/a/b/out.zip");
}

#[test]
fn absolute_destination_kept() {
    let sources = strings(&["/a/b/1.txt"]);
    assert_eq!(resolve_destination(&sources, "/c/out.zip"), "/c/out.zip");
    assert_eq!(resolve_destination(&Vec::new(), "out.zip"), "out.zip");
}

#[test]
fn compress_refused_with_two_instances() {
    let r = plan_compression(2, strings(&["/a/1.txt"]), "out.zip", "Zip");
    assert_eq!(r.unwrap_err(), CommandError::MultipleInstancesDetected);
}

#[test]
fn compress_refused_for_unknown_kind() {
    let r = plan_compression(1, strings(&["/a/1.txt"]), "out.zip", "Rar");
    assert_eq!(r.unwrap_err(), CommandError::UnsupportedKind("Rar".to_string()));
}

#[test]
fn compress_plan_resolves_destination() {
    let job = plan_compression(1, strings(&["/a/b/1.txt", "/a/b/2.txt"]), "out.zip", "TarGz").unwrap();
    assert_eq!(job.destination, "/a/b/out.zip");
    assert_eq!(job.kind, CompressionType::TarGz);
    assert_eq!(job.sources, strings(&["/a/b/1.txt", "/a/b/2.txt"]));
    assert_eq!(compression_message(&job), "Files compressed successfully to: /a/b/out.zip");
}

#[test]
fn compression_reports() {
    let s = compression_snapshot(4250, "x.txt".to_string(), 3);
    assert_eq!(percent(s.done, s.whole), 42.5);
    assert_eq!((s.total_files, s.current_file_index), (3, 1));
    assert_eq!(s.operation, Operation::Compressing);
    let over = compression_snapshot(20000, "x.txt".to_string(), 3);
    assert_eq!(over.done, over.whole);
    let f = compression_final_snapshot();
    assert_eq!(percent(f.done, f.whole), 100.0);
    assert_eq!(f.current_file, "Complete");
    assert_eq!((f.total_files, f.current_file_index), (1, 1));
}

#[test]
fn extraction_progress_across_three_files() {
    let mut b = ExtractionBatch::new(strings(&["/x/a.zip", "/x/b.zip", "/x/c.zip"]));
    let start = b.start_snapshot();
    assert_eq!(start.done, 0);
    assert_eq!(start.current_file, "a.zip");
    assert_eq!((start.total_files, start.current_file_index), (3, 1));
    let end_first = b.file_snapshot(FILE_UNITS, "inner".to_string());
    assert!((percent(end_first.done, end_first.whole) - 100.0 / 3.0).abs() < 1e-9);
    b.record_extracted("/x/a".to_string());
    let second = b.start_snapshot();
    assert_eq!(second.done, end_first.done);
    let mid = b.file_snapshot(5000, "inner".to_string());
    assert_eq!(percent(mid.done, mid.whole), 50.0);
    assert_eq!(mid.current_file_index, 2);
    assert_eq!(mid.operation, Operation::Extracting);
    b.record_extracted("/x/b".to_string());
    b.record_extracted("/x/c".to_string());
    assert_eq!(b.current_source(), None);
    let f = b.final_snapshot();
    assert_eq!(percent(f.done, f.whole), 100.0);
    assert_eq!((f.total_files, f.current_file_index), (3, 3));
    assert_eq!(f.current_file, "Complete");
    assert_eq!(b.success_message(), "Files decompressed successfully. 3 archives processed.");
}

#[test]
fn extraction_of_one_archive() {
    let mut b = ExtractionBatch::new(strings(&["/x/a.zip"]));
    assert_eq!(b.current_source(), Some("/x/a.zip".to_string()));
    b.record_extracted("/x/a (2)".to_string());
    assert_eq!(b.success_message(), "File decompressed successfully to: /x/a (2)");
}

#[test]
fn extraction_failure_names_the_archive() {
    let mut b = ExtractionBatch::new(strings(&["/x/a.zip", "/x/b.zip"]));
    b.record_extracted("/x/a".to_string());
    let e = b.failure("truncated".to_string());
    assert_eq!(e, CommandError::DecompressionFailed("/x/b.zip".to_string(), "truncated".to_string()));
    assert_eq!(e.message(), "Failed to decompress '/x/b.zip': truncated");
}

#[test]
fn extraction_progress_clamps_file_units() {
    let b = ExtractionBatch::new(strings(&["/x/a.zip", "/x/b.zip"]));
    let s = b.file_snapshot(FILE_UNITS * 3, "inner".to_string());
    assert_eq!(percent(s.done, s.whole), 50.0);
}
