use std::collections::HashMap;
use std::io::{Cursor, Seek, SeekFrom};

use ceres_mpq::{Archive, Creator, FileOptions};

use mpq_tool::error::ToolError;
use mpq_tool::extract::{plan_extract, EntryError, EntryOutcome, ExtractionReport};
use mpq_tool::filter::Filter;
use mpq_tool::listing::list;
use mpq_tool::pack::{default_options, PackWarning, Packer};

fn names(v: &[&str]) -> Option<Vec<String>> {
    Some(v.iter().map(|s| s.to_string()).collect())
}

fn archive_of(files: &[(&str, &[u8])]) -> Archive<Cursor<Vec<u8>>> {
    let mut creator = Creator::default();
    for (name, bytes) in files {
        creator.add_file(name, bytes.to_vec(), default_options());
    }
    finish(creator)
}

fn finish(mut creator: Creator) -> Archive<Cursor<Vec<u8>>> {
    let mut cursor = Cursor::new(Vec::new());
    creator.write(&mut cursor).unwrap();
    cursor.seek(SeekFrom::Start(0)).unwrap();
    Archive::open(cursor).unwrap()
}

/// Runs a plan against an archive, writing into an in-memory tree.
fn run_extract(
    archive: &mut Archive<Cursor<Vec<u8>>>,
    filter: &Option<Filter>,
    root: &str,
) -> (HashMap<String, Vec<u8>>, ExtractionReport) {
    let plan = plan_extract(archive.files(), filter, root).unwrap();
    let mut tree = HashMap::new();
    let mut report = ExtractionReport::new();
    for task in plan {
        let outcome = match (&task.target, archive.read_file(&task.entry)) {
            (None, _) => EntryOutcome::Failed(EntryError::PathEscape),
            (Some(_), Err(e)) => EntryOutcome::Failed(EntryError::Read { cause: e.to_string() }),
            (Some(path), Ok(bytes)) => {
                tree.insert(path.clone(), bytes);
                EntryOutcome::Written
            }
        };
        report.record(task.entry, outcome);
    }
    (tree, report)
}

#[test]
fn invalid_pattern_is_rejected() {
    assert!(matches!(Filter::new("a[b"), Err(ToolError::InvalidPattern { .. })));
    assert!(Filter::new("*.txt").is_ok());
}

#[test]
fn filter_star_matches_across_separators() {
    let f = Filter::new("*.txt").unwrap();
    assert!(f.matches("a.txt"));
    assert!(f.matches("dir/b.txt"));
    assert!(!f.matches("b.bin"));
}

#[test]
fn list_filters_by_pattern() {
    let filter = Some(Filter::new("*.txt").unwrap());
    let r = list(names(&["a.txt", "b.bin"]), &filter).unwrap();
    assert_eq!(r, vec!["a.txt".to_string()]);
}

#[test]
fn list_normalizes_and_keeps_order() {
    let r = list(names(&["z\\b.txt", "a.txt", "dir\\c"]), &None).unwrap();
    assert_eq!(r, vec!["z/b.txt", "a.txt", "dir/c"]);
}

#[test]
fn list_without_listing_fails() {
    assert!(matches!(list(None, &None), Err(ToolError::ListfileNotFound)));
}

#[test]
fn plan_without_listing_fails() {
    assert!(matches!(plan_extract(None, &None, "out"), Err(ToolError::ListfileNotFound)));
}

#[test]
fn plan_maps_entries_to_host_paths() {
    let filter = Some(Filter::new("dir/*").unwrap());
    let plan = plan_extract(names(&["a.txt", "dir\\b.txt", "dir\\..\\..\\x"]), &filter, "out").unwrap();
    assert_eq!(plan.len(), 2);
    assert_eq!(plan[0].entry, "dir\\b.txt");
    assert_eq!(plan[0].target.as_deref(), Some("out/dir/b.txt"));
    assert_eq!(plan[1].entry, "dir\\..\\..\\x");
    assert!(plan[1].target.is_none());
}

#[test]
fn extract_writes_every_entry() {
    let mut archive = archive_of(&[("a.txt", b"alpha"), ("dir\\b.txt", b"beta")]);
    let (tree, report) = run_extract(&mut archive, &None, "out");
    assert_eq!(tree.get("out/a.txt").unwrap(), &archive.read_file("a.txt").unwrap());
    assert_eq!(tree.get("out/dir/b.txt").unwrap(), &archive.read_file("dir\\b.txt").unwrap());
    assert_eq!(tree.get("out/dir/b.txt").unwrap(), b"beta");
    assert!(report.failures().is_empty());
}

#[test]
fn one_failed_entry_does_not_stop_the_batch() {
    let mut report = ExtractionReport::new();
    for (i, name) in ["a", "b", "c", "d", "e"].iter().enumerate() {
        let outcome = if i == 2 {
            EntryOutcome::Failed(EntryError::Read { cause: "corrupted".to_string() })
        } else {
            EntryOutcome::Written
        };
        report.record(name.to_string(), outcome);
    }
    assert_eq!(report.written(), &vec!["a", "b", "d", "e"]);
    assert_eq!(report.failures().len(), 1);
    assert_eq!(report.failures()[0].entry, "c");
    assert!(matches!(report.failures()[0].error, EntryError::Read { .. }));
}

#[test]
fn pack_then_extract_round_trip() {
    let mut packer = Packer::new("/work/in", default_options());
    packer.add_file("/work/in/x", Ok(b"ex".to_vec()));
    packer.add_file("/work/in/sub/y", Ok(b"why".to_vec()));
    assert_eq!(packer.added_names(), &vec!["x", "sub\\y"]);
    let (creator, warnings) = packer.finish();
    assert!(warnings.is_empty());
    let mut archive = finish(creator);
    let (tree, report) = run_extract(&mut archive, &None, "out");
    assert!(report.failures().is_empty());
    assert_eq!(tree.get("out/x").unwrap(), b"ex");
    assert_eq!(tree.get("out/sub/y").unwrap(), b"why");
}

#[test]
fn pack_records_warnings_and_goes_on() {
    let mut packer = Packer::new("/work/in", default_options());
    packer.add_file("/work/in/a", Err("permission denied".to_string()));
    packer.add_file("/elsewhere/b", Ok(b"b".to_vec()));
    packer.traversal_error("loop".to_string());
    packer.add_file("/work/in/c", Ok(b"c".to_vec()));
    assert_eq!(packer.added_names(), &vec!["c"]);
    let w = packer.warning_list();
    assert_eq!(w.len(), 3);
    assert!(matches!(&w[0], PackWarning::Read { path, .. } if path == "/work/in/a"));
    assert!(matches!(&w[1], PackWarning::OutsideRoot { path } if path == "/elsewhere/b"));
    assert!(matches!(&w[2], PackWarning::Traversal { cause } if cause == "loop"));
}

#[test]
fn default_options_compress_only() {
    let o: FileOptions = default_options();
    assert!(o.compress && !o.encrypt && !o.adjust_key);
}

#[test]
fn view_of_missing_entry_fails() {
    let mut archive = archive_of(&[("a.txt", b"alpha")]);
    let mut out: Vec<u8> = Vec::new();
    match archive.read_file("missing.txt") {
        Ok(bytes) => out.extend_from_slice(&bytes),
        Err(e) => assert!(matches!(e, ceres_mpq::Error::FileNotFound)),
    }
    assert!(out.is_empty());
}
