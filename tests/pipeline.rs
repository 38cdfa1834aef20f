use ncm_batch::decode::{convert, get_data, is_ncm_safe, sniff};
use ncm_batch::error::{Error, ErrorKind};
use ncm_batch::failure::Failure;
use ncm_batch::format::{classify, output_extension, Ext, Format};
use ncm_batch::paths::{choose_target, name_of, output_target};
use ncm_batch::pipeline::{
    discover, dump, finish, first_failure, settle, validate, Command, Probe, Step,
};
use ncm_batch::progress::Progress;
use ncm_batch::provider::{DataProvider, FileProvider};

fn command(matchers: &[&str], worker: usize) -> Command {
    Command {
        matchers: matchers.iter().map(|m| m.to_string()).collect(),
        output: None,
        verbose: false,
        worker,
    }
}

fn flac_payload() -> Vec<u8> {
    let mut v = vec![0x66, 0x4C, 0x61, 0x43];
    v.extend((0..2000u32).map(|i| (i % 251) as u8));
    v
}

fn qmc_head() -> Vec<u8> {
    vec![0xA5, 0x06, 0xB7, 0x89, 1, 2, 3, 4, 5]
}

#[test]
fn error_kind_and_message() {
    let e = Error::new(ErrorKind::FileNotFound);
    assert_eq!(e.kind(), ErrorKind::FileNotFound);
    assert_eq!(e.msg(), "No such file");
    assert_eq!(Error::new(ErrorKind::InvalidFile).msg(), "Invalid file");
    assert_eq!(Error::new(ErrorKind::ReadOrWrite).msg(), "Operate file error");
    assert_eq!(Error::new(ErrorKind::PermissionDenied).msg(), "Permission denied");
    assert_eq!(Error::new(ErrorKind::Unknown).msg(), "Unknown error");
    let f: Error = ErrorKind::Unknown.into();
    assert_eq!(f.kind(), ErrorKind::Unknown);
}

#[test]
fn failure_messages() {
    assert_eq!(Failure::Worker.message(), "Worker can't less than 0 and more than 8");
    assert_eq!(Failure::NoFile.message(), "No file can be converted");
    assert_eq!(Failure::Format.message(), "Invalid file format");
    assert_eq!(Failure::Path.message(), "Can't resolve the path");
}

#[test]
fn worker_zero_is_refused() {
    assert_eq!(validate(&command(&["*.ncm"], 0)), Err(Failure::Worker));
}

#[test]
fn worker_nine_is_refused() {
    assert_eq!(validate(&command(&["*.ncm"], 9)), Err(Failure::Worker));
    assert_eq!(validate(&command(&[], 9)), Err(Failure::Worker));
}

#[test]
fn worker_bounds_are_accepted() {
    assert_eq!(validate(&command(&["*.ncm"], 1)), Ok(1));
    assert_eq!(validate(&command(&["a", "b"], 8)), Ok(8));
}

#[test]
fn empty_pattern_set_is_refused() {
    assert_eq!(validate(&command(&[], 1)), Err(Failure::NoFile));
}

#[test]
fn classify_headers() {
    assert_eq!(classify(b"CTENFDAM\x01\x70"), Format::Ncm);
    assert_eq!(classify(&qmc_head()), Format::Qmc);
    assert_eq!(classify(&[0x8A, 0x0E, 0xE5, 0, 0, 0, 0, 0]), Format::Qmc);
    assert_eq!(classify(&[0x8A, 0x0E, 0xE5, 0, 0, 0, 0]), Format::Unrecognized);
    assert_eq!(classify(b"CTENFDA"), Format::Unrecognized);
    assert_eq!(classify(b"RIFF0000WAVE"), Format::Unrecognized);
    assert_eq!(classify(&[]), Format::Unrecognized);
}

#[test]
fn extension_table() {
    assert_eq!(output_extension(&[0x66, 0x4C, 0x61, 0x43]), Ok(Ext::Flac));
    assert_eq!(output_extension(&[0x49, 0x44, 0x33, 0x04, 9]), Ok(Ext::Mp3));
    assert_eq!(output_extension(&[0x49, 0x44, 0x33, 0xFF]), Ok(Ext::Mp3));
    assert_eq!(output_extension(&[0x49, 0x44, 0x34, 0x04]), Err(Failure::Format));
    assert_eq!(output_extension(&[0x66, 0x4C, 0x61]), Err(Failure::Format));
    assert_eq!(output_extension(&[]), Err(Failure::Format));
    assert_eq!(Ext::Flac.as_str(), "flac");
    assert_eq!(Ext::Mp3.as_str(), "mp3");
}

#[test]
fn sniff_keeps_payload() {
    let d = sniff(flac_payload()).ok().unwrap();
    assert_eq!(d.ext, Ext::Flac);
    assert_eq!(d.data, flac_payload());
}

#[test]
fn sniff_refuses_unknown_prefix() {
    assert!(matches!(sniff(vec![1, 2, 3, 4, 5]), Err(Failure::Format)));
}

#[test]
fn unrecognized_container_is_not_decoded() {
    assert!(matches!(convert(Format::Unrecognized, &flac_payload()), Err(Failure::Format)));
    assert_eq!(get_data(Format::Unrecognized, &vec![1, 2, 3]), Err(Failure::Format));
}

#[test]
fn bad_ncm_container_fails_to_decode() {
    assert_eq!(get_data(Format::Ncm, &b"CTENFDAM".to_vec()), Err(Failure::Decode));
    assert_eq!(get_data(Format::Ncm, &vec![0u8; 64]), Err(Failure::Decode));
}

#[test]
fn qmc_decoding_transforms_and_inverts() {
    let plain = flac_payload();
    let cipher = get_data(Format::Qmc, &plain).unwrap();
    assert_eq!(cipher.len(), plain.len());
    assert_ne!(cipher, plain);
    assert_eq!(get_data(Format::Qmc, &cipher).unwrap(), plain);
}

#[test]
fn output_target_uses_parent_and_stem() {
    let t = output_target("/music/song.ncm", &None, Ext::Flac).ok().unwrap();
    assert_eq!(t.dir, "/music");
    assert_eq!(t.stem, "song");
    assert_eq!(t.ext, Ext::Flac);
}

#[test]
fn output_target_uses_override() {
    let t = output_target("/music/song.qmc0", &Some("out".to_string()), Ext::Mp3).ok().unwrap();
    assert_eq!(t.dir, "out");
    assert_eq!(t.stem, "song");
}

#[test]
fn output_target_without_parent_fails() {
    assert!(matches!(output_target("/", &None, Ext::Flac), Err(Failure::Path)));
    assert!(matches!(
        choose_target(&None, None, Some("a".to_string()), Ext::Flac),
        Err(Failure::Path)
    ));
    assert!(matches!(
        choose_target(&Some("o".to_string()), None, None, Ext::Flac),
        Err(Failure::Path)
    ));
}

#[test]
fn provider_describes_file() {
    let p = FileProvider::new("/music/song.ncm".to_string(), b"CTENFDAM..", 4096).ok().unwrap();
    assert_eq!(p.get_name(), "song.ncm");
    assert_eq!(p.get_path(), "/music/song.ncm");
    assert_eq!(p.get_format(), Format::Ncm);
    assert_eq!(p.get_size(), 4096);
    assert_eq!(name_of("/music/a.b.qmcflac"), Ok("a.b.qmcflac".to_string()));
}

#[test]
fn provider_without_name_fails() {
    assert!(matches!(FileProvider::new("/".to_string(), &[], 0), Err(Failure::Path)));
    assert!(matches!(FileProvider::new("a/..".to_string(), &[], 0), Err(Failure::Path)));
}

#[test]
fn discovery_steps() {
    let mut progress = Progress::new();
    assert!(matches!(discover(&mut progress, Probe::NotAFile), Step::Skip));
    assert!(matches!(discover(&mut progress, Probe::BadPattern), Step::Abort(Failure::Pattern)));
    assert!(matches!(discover(&mut progress, Probe::BadEntry), Step::Abort(Failure::Path)));
    assert!(matches!(discover(&mut progress, Probe::Unreadable), Step::Abort(Failure::Path)));
    assert_eq!(progress.total_length(), 0);
    let probe = Probe::Found { path: "/m/x.qmcflac".to_string(), head: qmc_head(), size: 300 };
    match discover(&mut progress, probe) {
        Step::Enqueue(p) => {
            assert_eq!(p.get_size(), 300);
            assert_eq!(p.get_format(), Format::Qmc);
        }
        _ => panic!("expected a file"),
    }
    let probe = Probe::Found { path: "/m/y.ncm".to_string(), head: b"CTENFDAM".to_vec(), size: 700 };
    assert!(matches!(discover(&mut progress, probe), Step::Enqueue(_)));
    assert_eq!(progress.total_length(), 1000);
    assert_eq!(progress.files(), 2);
}

#[test]
fn discovery_overflow_aborts() {
    let mut progress = Progress::new();
    let probe = Probe::Found { path: "/m/a.ncm".to_string(), head: vec![], size: u64::MAX };
    assert!(matches!(discover(&mut progress, probe), Step::Enqueue(_)));
    let probe = Probe::Found { path: "/m/b.ncm".to_string(), head: vec![], size: 1 };
    assert!(matches!(discover(&mut progress, probe), Step::Abort(Failure::Metadata)));
    assert_eq!(progress.total_length(), u64::MAX);
    assert_eq!(progress.files(), 1);
}

#[test]
fn progress_counters() {
    let mut p = Progress::new();
    assert!(p.extend_total(10));
    assert!(p.extend_total(32));
    assert!(p.advance_total(7));
    assert!(p.advance_total(5));
    assert_eq!(p.total_length(), 42);
    assert_eq!(p.total_processed(), 12);
    assert!(!p.advance_total(u64::MAX));
    assert_eq!(p.total_processed(), 12);
}

#[test]
fn one_flac_file_converts() {
    let plain = flac_payload();
    let cipher = get_data(Format::Qmc, &plain).unwrap();
    let mut progress = Progress::new();
    let probe = Probe::Found {
        path: "/music/track.qmcflac".to_string(),
        head: qmc_head(),
        size: cipher.len() as u64,
    };
    let provider = match discover(&mut progress, probe) {
        Step::Enqueue(p) => p,
        _ => panic!("expected a file"),
    };
    let c = dump(&provider, &cipher, &None, &mut progress).ok().unwrap();
    assert_eq!(c.target.dir, "/music");
    assert_eq!(c.target.stem, "track");
    assert_eq!(c.target.ext, Ext::Flac);
    assert_eq!(c.data, plain);
    assert_eq!(progress.total_length(), plain.len() as u64);
    assert_eq!(progress.total_processed(), plain.len() as u64);
    assert_eq!(finish(&progress, &vec![Ok(()), Ok(())]), Ok(()));
}

#[test]
fn two_files_with_one_worker() {
    let first = flac_payload();
    let mut second = vec![0x49, 0x44, 0x33, 0x03];
    second.extend(std::iter::repeat(7u8).take(500));
    let mut progress = Progress::new();
    let mut done = Vec::new();
    for (name, plain) in [("/d/one.qmc0", &first), ("/d/two.qmc3", &second)] {
        let cipher = get_data(Format::Qmc, plain).unwrap();
        let probe = Probe::Found { path: name.to_string(), head: qmc_head(), size: cipher.len() as u64 };
        let provider = match discover(&mut progress, probe) {
            Step::Enqueue(p) => p,
            _ => panic!("expected a file"),
        };
        let c = dump(&provider, &cipher, &Some("/out".to_string()), &mut progress).ok().unwrap();
        done.push((c.target.stem, c.target.ext));
    }
    assert_eq!(done, vec![("one".to_string(), Ext::Flac), ("two".to_string(), Ext::Mp3)]);
    assert_eq!(progress.total_processed(), (first.len() + second.len()) as u64);
    assert_eq!(finish(&progress, &vec![Ok(()), Ok(())]), Ok(()));
}

#[test]
fn unknown_payload_fails_and_others_convert() {
    let bad = get_data(Format::Qmc, &vec![9, 9, 9, 9, 9, 9]).unwrap();
    let good = get_data(Format::Qmc, &flac_payload()).unwrap();
    let pb = FileProvider::new("/d/bad.qmc0".to_string(), &qmc_head(), 6).ok().unwrap();
    let pg = FileProvider::new("/d/good.qmc0".to_string(), &qmc_head(), 6).ok().unwrap();
    let mut progress = Progress::new();
    assert!(matches!(dump(&pb, &bad, &None, &mut progress), Err(Failure::Format)));
    assert_eq!(progress.total_processed(), 6);
    let c = dump(&pg, &good, &None, &mut progress).ok().unwrap();
    assert_eq!(c.target.stem, "good");
    assert_eq!(progress.total_processed(), 6 + flac_payload().len() as u64);
    assert!(progress.extend_total(6));
    assert!(progress.extend_total(6));
    assert_eq!(finish(&progress, &vec![Ok(()), Err(Failure::Format)]), Err(Failure::Format));
}

#[test]
fn nothing_found_is_no_file() {
    let progress = Progress::new();
    assert_eq!(finish(&progress, &vec![Ok(()), Ok(())]), Err(Failure::NoFile));
}

#[test]
fn first_failure_in_join_order() {
    let outcomes = vec![Ok(()), Err(Failure::Decode), Err(Failure::Path)];
    assert_eq!(first_failure(&outcomes), Some(Failure::Decode));
    assert_eq!(first_failure(&vec![Ok(()), Ok(())]), None);
    assert_eq!(first_failure(&vec![]), None);
    let mut progress = Progress::new();
    assert!(progress.extend_total(1));
    assert_eq!(finish(&progress, &outcomes), Err(Failure::Decode));
}

fn ncm_with_key_area(key_len: u32, key: &[u8]) -> Vec<u8> {
    let mut v = b"CTENFDAM\x01\x70".to_vec();
    v.extend_from_slice(&key_len.to_le_bytes());
    v.extend_from_slice(key);
    v
}

#[test]
fn ncm_short_key_area_is_a_decode_failure() {
    let input = ncm_with_key_area(16, &[0x10u8; 16]);
    assert!(!is_ncm_safe(&input));
    assert_eq!(get_data(Format::Ncm, &input), Err(Failure::Decode));
    let input = ncm_with_key_area(32, &[0u8; 32]);
    assert!(!is_ncm_safe(&input));
    assert_eq!(get_data(Format::Ncm, &input), Err(Failure::Decode));
}

#[test]
fn ncm_key_area_beyond_the_file_is_a_decode_failure() {
    let input = ncm_with_key_area(4096, &[0u8; 64]);
    assert!(!is_ncm_safe(&input));
    assert_eq!(get_data(Format::Ncm, &input), Err(Failure::Decode));
}

#[test]
fn ncm_long_key_area_reaches_the_decoder() {
    let input = ncm_with_key_area(48, &[0u8; 48]);
    assert!(is_ncm_safe(&input));
    assert_eq!(get_data(Format::Ncm, &input), Err(Failure::Decode));
    assert!(is_ncm_safe(&vec![1, 2, 3]));
}

#[test]
fn qmc_payload_keeps_length() {
    for n in [0usize, 1, 1023, 1024, 40000] {
        let input = vec![0x5Au8; n];
        assert_eq!(get_data(Format::Qmc, &input).unwrap().len(), n);
    }
}

#[test]
fn error_from_kind() {
    let e = Error::from(ErrorKind::PermissionDenied);
    assert_eq!(e.kind(), ErrorKind::PermissionDenied);
    assert_eq!(e.msg(), "Permission denied");
}

#[test]
fn settle_places_payload() {
    let p = FileProvider::new("rel.qmc0".to_string(), &qmc_head(), 10).ok().unwrap();
    let c = settle(&p, flac_payload(), &None).ok().unwrap();
    assert_eq!(c.target.dir, "");
    assert_eq!(c.target.stem, "rel");
    assert_eq!(c.target.ext, Ext::Flac);
    assert_eq!(c.data, flac_payload());
    assert!(matches!(settle(&p, vec![0x49, 0x44], &None), Err(Failure::Format)));
}

#[test]
fn failed_decoding_counts_nothing() {
    let mut progress = Progress::new();
    let p = FileProvider::new("/d/x.ncm".to_string(), b"CTENFDAM", 8).ok().unwrap();
    assert!(matches!(dump(&p, &b"CTENFDAM".to_vec(), &None, &mut progress), Err(Failure::Decode)));
    let q = FileProvider::new("/d/y.bin".to_string(), b"nothing", 7).ok().unwrap();
    assert!(matches!(dump(&q, &flac_payload(), &None, &mut progress), Err(Failure::Format)));
    assert_eq!(progress.total_processed(), 0);
}

#[test]
fn payload_over_the_counter_is_refused() {
    let mut progress = Progress::new();
    assert!(progress.advance_total(u64::MAX - 3));
    let plain = flac_payload();
    let cipher = get_data(Format::Qmc, &plain).unwrap();
    let p = FileProvider::new("/d/z.qmc0".to_string(), &qmc_head(), 9).ok().unwrap();
    assert!(matches!(dump(&p, &cipher, &None, &mut progress), Err(Failure::Metadata)));
    assert_eq!(progress.total_processed(), u64::MAX - 3);
}
