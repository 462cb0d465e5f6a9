use opendal::ErrorKind;
use opendal_c::error::{od_code, od_err_code, ErrorSlot, OdError};
use opendal_c::operator::{
    build_operator, classify_build, classify_read, deliver_read, finish_new, od_buf, od_operator, od_operator_free, od_operator_new,
    od_operator_read,
};
use opendal_c::options::parse_options;

fn pair(k: &str, v: &str) -> (Vec<u8>, Vec<u8>) {
    (k.as_bytes().to_vec(), v.as_bytes().to_vec())
}

fn new_op(scheme: &str, options: &Vec<(Vec<u8>, Vec<u8>)>, slot: &mut ErrorSlot) -> (i32, Option<od_operator>) {
    let mut out: Option<od_operator> = None;
    let r = od_operator_new(&mut out, &scheme.as_bytes().to_vec(), options, slot);
    (r, out)
}

#[test]
fn memory_read_of_unwritten_path_is_not_found() {
    let mut slot = ErrorSlot::new();
    let (r, op) = new_op("memory", &vec![], &mut slot);
    assert_eq!(r, 0);
    let op = op.unwrap();
    let mut buf = od_buf(vec![7, 7]);
    let r = od_operator_read(&op, &b"never/written".to_vec(), &mut buf, &mut slot);
    assert_eq!(r, -1);
    assert_eq!(buf.0, vec![7, 7]);
    assert_eq!(od_err_code(&slot), Some(od_code::ODE_NOT_FOUND));
    od_operator_free(op);
}

#[test]
fn query_twice_gives_same_kind() {
    let mut slot = ErrorSlot::new();
    let (r, op) = new_op("memory", &vec![], &mut slot);
    assert_eq!(r, 0);
    let op = op.unwrap();
    let mut buf = od_buf(vec![]);
    assert_eq!(od_operator_read(&op, &b"missing".to_vec(), &mut buf, &mut slot), -1);
    let first = od_err_code(&slot);
    let second = od_err_code(&slot);
    assert_eq!(first, Some(od_code::ODE_NOT_FOUND));
    assert_eq!(first, second);
}

#[test]
fn written_bytes_read_back_exactly() {
    let mut slot = ErrorSlot::new();
    let (r, op) = new_op("memory", &vec![], &mut slot);
    assert_eq!(r, 0);
    let op = op.unwrap();
    let data: Vec<u8> = vec![0, 1, 2, 250, 255, 10, 13];
    op.0.write("dir/file", data.clone()).unwrap();
    let mut buf = od_buf(vec![9]);
    assert_eq!(od_operator_read(&op, &b"dir/file".to_vec(), &mut buf, &mut slot), 0);
    assert_eq!(buf.0, data);
    assert_eq!(buf.0.len(), 7);
    assert_eq!(od_err_code(&slot), None);
}

#[test]
fn empty_object_reads_as_empty_buffer() {
    let mut slot = ErrorSlot::new();
    let (_, op) = new_op("memory", &vec![], &mut slot);
    let op = op.unwrap();
    op.0.write("empty", Vec::<u8>::new()).unwrap();
    let mut buf = od_buf(vec![1, 2, 3]);
    assert_eq!(od_operator_read(&op, &b"empty".to_vec(), &mut buf, &mut slot), 0);
    assert!(buf.0.is_empty());
}

#[test]
fn unknown_scheme_is_unsupported() {
    let mut slot = ErrorSlot::new();
    let (r, op) = new_op("no-such-backend", &vec![], &mut slot);
    assert_eq!(r, -1);
    assert!(op.is_none());
    assert_eq!(od_err_code(&slot), Some(od_code::ODE_UNSUPPORTED));
}

#[test]
fn scheme_name_is_case_insensitive() {
    let mut slot = ErrorSlot::new();
    let (r, op) = new_op("MeMoRy", &vec![], &mut slot);
    assert_eq!(r, 0);
    assert!(op.is_some());
    assert_eq!(od_err_code(&slot), None);
}

#[test]
fn memory_ignores_options() {
    let mut slot = ErrorSlot::new();
    let opts = vec![pair("root", "/x"), pair("root", "/y")];
    let (r, _) = new_op("memory", &opts, &mut slot);
    assert_eq!(r, 0);
}

#[test]
fn s3_without_bucket_is_config_invalid() {
    let mut slot = ErrorSlot::new();
    let opts = vec![pair("region", "us-east-1")];
    let (r, op) = new_op("s3", &opts, &mut slot);
    assert_eq!(r, -1);
    assert!(op.is_none());
    assert_eq!(od_err_code(&slot), Some(od_code::ODE_CONFIG_INVALID));
}

#[test]
fn fs_without_root_is_config_invalid() {
    let mut slot = ErrorSlot::new();
    let (r, _) = new_op("fs", &vec![], &mut slot);
    assert_eq!(r, -1);
    assert_eq!(od_err_code(&slot), Some(od_code::ODE_CONFIG_INVALID));
}

#[test]
fn invalid_scheme_text_is_unexpected() {
    let mut slot = ErrorSlot::new();
    let mut out: Option<od_operator> = None;
    let r = od_operator_new(&mut out, &vec![0xff, 0xfe], &vec![], &mut slot);
    assert_eq!(r, -1);
    assert!(out.is_none());
    assert_eq!(od_err_code(&slot), Some(od_code::ODE_UNEXPECTED));
}

#[test]
fn invalid_option_text_is_unexpected() {
    let mut slot = ErrorSlot::new();
    let opts = vec![pair("a", "b"), (b"key".to_vec(), vec![0xc3, 0x28])];
    let (r, _) = new_op("memory", &opts, &mut slot);
    assert_eq!(r, -1);
    assert_eq!(od_err_code(&slot), Some(od_code::ODE_UNEXPECTED));
}

#[test]
fn invalid_path_text_is_unexpected() {
    let mut slot = ErrorSlot::new();
    let (_, op) = new_op("memory", &vec![], &mut slot);
    let op = op.unwrap();
    let mut buf = od_buf(vec![4]);
    assert_eq!(od_operator_read(&op, &vec![0x80], &mut buf, &mut slot), -1);
    assert_eq!(buf.0, vec![4]);
    assert_eq!(od_err_code(&slot), Some(od_code::ODE_UNEXPECTED));
}

#[test]
fn options_keep_order_and_duplicates() {
    let raw = vec![pair("b", "2"), pair("a", "1"), pair("b", "3"), pair("ключ", "значение")];
    let parsed = parse_options(&raw).ok().unwrap();
    assert_eq!(
        parsed,
        vec![
            ("b".to_string(), "2".to_string()),
            ("a".to_string(), "1".to_string()),
            ("b".to_string(), "3".to_string()),
            ("ключ".to_string(), "значение".to_string()),
        ]
    );
    assert!(parse_options(&vec![]).ok().unwrap().is_empty());
}

#[test]
fn bad_option_key_is_refused() {
    let raw = vec![(vec![0xff], b"v".to_vec())];
    let e = parse_options(&raw).err().unwrap();
    assert_eq!(e.code, od_code::ODE_UNEXPECTED);
}

#[test]
fn slot_starts_empty() {
    let slot = ErrorSlot::new();
    assert_eq!(od_err_code(&slot), None);
    assert_eq!(slot.query(), None);
}

#[test]
fn success_does_not_clear_slot() {
    let mut slot = ErrorSlot::new();
    let (r, _) = new_op("unknown", &vec![], &mut slot);
    assert_eq!(r, -1);
    let (r, _) = new_op("memory", &vec![], &mut slot);
    assert_eq!(r, 0);
    assert_eq!(od_err_code(&slot), Some(od_code::ODE_UNSUPPORTED));
}

#[test]
fn later_failure_overwrites_slot() {
    let mut slot = ErrorSlot::new();
    slot.record(OdError { code: od_code::ODE_RATE_LIMITED, message: "slow down".to_string() });
    assert_eq!(od_err_code(&slot), Some(od_code::ODE_RATE_LIMITED));
    slot.record(OdError { code: od_code::ODE_ALREADY_EXISTS, message: "exists".to_string() });
    assert_eq!(od_err_code(&slot), Some(od_code::ODE_ALREADY_EXISTS));
}

#[test]
fn separate_slots_do_not_share_errors() {
    let mut a = ErrorSlot::new();
    let mut b = ErrorSlot::new();
    let (_, op) = new_op("memory", &vec![], &mut a);
    let op = op.unwrap();
    let mut buf = od_buf(vec![]);
    assert_eq!(od_operator_read(&op, &b"gone".to_vec(), &mut buf, &mut a), -1);
    let (r, _) = new_op("nothing-here", &vec![], &mut b);
    assert_eq!(r, -1);
    assert_eq!(od_err_code(&a), Some(od_code::ODE_NOT_FOUND));
    assert_eq!(od_err_code(&b), Some(od_code::ODE_UNSUPPORTED));
}

#[test]
fn kinds_map_to_codes() {
    let cases = vec![
        (ErrorKind::Unexpected, od_code::ODE_UNEXPECTED, 1),
        (ErrorKind::Unsupported, od_code::ODE_UNSUPPORTED, 2),
        (ErrorKind::ConfigInvalid, od_code::ODE_CONFIG_INVALID, 3),
        (ErrorKind::NotFound, od_code::ODE_NOT_FOUND, 4),
        (ErrorKind::PermissionDenied, od_code::ODE_PERMISSION_DENIED, 5),
        (ErrorKind::IsADirectory, od_code::ODE_IS_A_DIRECTORY, 6),
        (ErrorKind::NotADirectory, od_code::ODE_NOT_A_DIRECTORY, 7),
        (ErrorKind::AlreadyExists, od_code::ODE_ALREADY_EXISTS, 8),
        (ErrorKind::RateLimited, od_code::ODE_RATE_LIMITED, 9),
    ];
    for (k, c, w) in cases {
        assert_eq!(od_code::from(k), c);
        assert_eq!(c.wire(), w);
    }
}

#[test]
fn backend_error_keeps_its_kind() {
    let e = opendal::Error::new(opendal::ErrorKind::PermissionDenied, "denied");
    let od = OdError::from_backend(&e);
    assert_eq!(od.code, od_code::ODE_PERMISSION_DENIED);
    assert!(od.message.contains("denied"));
}

#[test]
fn unsupported_scheme_refused_by_dispatcher() {
    let r = build_operator(opendal::Scheme::Custom("custom"), vec![]);
    assert_eq!(r.err().unwrap().code, od_code::ODE_UNSUPPORTED);
    assert!(build_operator(opendal::Scheme::Memory, vec![]).is_ok());
}

#[test]
fn deliver_read_outcomes() {
    let mut slot = ErrorSlot::new();
    let mut buf = od_buf(vec![1]);
    assert_eq!(deliver_read(Ok(vec![5, 6]), &mut buf, &mut slot), 0);
    assert_eq!(buf.0, vec![5, 6]);
    assert_eq!(od_err_code(&slot), None);
    let e = OdError { code: od_code::ODE_IS_A_DIRECTORY, message: "dir".to_string() };
    assert_eq!(deliver_read(Err(e), &mut buf, &mut slot), -1);
    assert_eq!(buf.0, vec![5, 6]);
    assert_eq!(od_err_code(&slot), Some(od_code::ODE_IS_A_DIRECTORY));
}

#[test]
fn classify_read_keeps_bytes_and_kinds() {
    let ok = classify_read(Ok(vec![3, 4]));
    assert_eq!(ok.ok().unwrap(), vec![3, 4]);
    let e = opendal::Error::new(ErrorKind::NotFound, "missing");
    assert_eq!(classify_read(Err(e)).err().unwrap().code, od_code::ODE_NOT_FOUND);
    let e = opendal::Error::new(ErrorKind::IsADirectory, "dir");
    assert_eq!(classify_read(Err(e)).err().unwrap().code, od_code::ODE_IS_A_DIRECTORY);
}

#[test]
fn classify_build_keeps_config_invalid() {
    let e = opendal::Error::new(ErrorKind::ConfigInvalid, "bucket is empty");
    assert_eq!(classify_build(Err(e)).err().unwrap().code, od_code::ODE_CONFIG_INVALID);
    let e = opendal::Error::new(ErrorKind::Unsupported, "no");
    assert_eq!(classify_build(Err(e)).err().unwrap().code, od_code::ODE_UNSUPPORTED);
}

#[test]
fn finish_new_outcomes() {
    let mut slot = ErrorSlot::new();
    let mut out: Option<od_operator> = None;
    let e = OdError { code: od_code::ODE_CONFIG_INVALID, message: "bad".to_string() };
    assert_eq!(finish_new(Err(e), &mut out, &mut slot), -1);
    assert!(out.is_none());
    assert_eq!(od_err_code(&slot), Some(od_code::ODE_CONFIG_INVALID));
    let built = build_operator(opendal::Scheme::Memory, vec![]);
    assert_eq!(finish_new(built, &mut out, &mut slot), 0);
    assert!(out.is_some());
    assert_eq!(od_err_code(&slot), Some(od_code::ODE_CONFIG_INVALID));
}

#[test]
fn s3_scheme_name_in_upper_case_reaches_its_builder() {
    let mut slot = ErrorSlot::new();
    let (r, _) = new_op("S3", &vec![], &mut slot);
    assert_eq!(r, -1);
    assert_eq!(od_err_code(&slot), Some(od_code::ODE_CONFIG_INVALID));
}
