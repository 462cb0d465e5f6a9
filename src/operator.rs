use vstd::prelude::*;
use crate::error::{od_code, OdError, ErrorSlot, last_code, code_of_kind, error_kind};
use crate::options::{utf8_text, all_text, parse_options, decode_text, is_ascii, ascii_chars};

verus! {

#[verifier::external_type_specification]
pub struct ExScheme(opendal::Scheme);

#[verifier::external_type_specification]
#[verifier::external_body]
pub struct ExOperator(opendal::Operator);

#[verifier::external_type_specification]
#[verifier::external_body]
pub struct ExBlockingOperator(opendal::BlockingOperator);

/// The scheme that opendal parses from a name.
pub uninterp spec fn scheme_named(name: Seq<char>) -> opendal::Scheme;

/// Every character is ASCII.
pub open spec fn is_ascii_chars(s: Seq<char>) -> bool {
    forall|i: int| 0 <= i < s.len() ==> (s[i] as u32) < 128
}

/// ASCII lowercase of one character: `A`..`Z` become `a`..`z`.
pub open spec fn ascii_lower_char(c: char) -> char {
    if 'A' <= c && c <= 'Z' {
        ((c as u8) + 32) as u8 as char
    } else {
        c
    }
}

/// ASCII lowercase of a text.
pub open spec fn ascii_lower(s: Seq<char>) -> Seq<char> {
    s.map_values(|c: char| ascii_lower_char(c))
}

/// The lowercase names of the built-in services.
pub open spec fn known_scheme_name(n: Seq<char>) -> bool {
    n == "azblob"@ || n == "azdfs"@ || n == "fs"@ || n == "gcs"@ || n == "ghac"@ || n == "http"@ || n == "https"@ || n == "ipmfs"@ || n == "memory"@ || n == "obs"@ || n == "oss"@ || n == "s3"@ || n == "webdav"@ || n == "webhdfs"@
}

/// Relies on opendal::Scheme's FromStr impl: it never fails; it lowercases
/// the name, maps the lowercase name of each built-in service to that
/// service's scheme, and any other name to a custom scheme.
#[verifier::external_body]
fn parse_scheme(name: &str) -> (r: Result<opendal::Scheme, opendal::Error>)
    ensures
        r is Ok,
        r->Ok_0 == scheme_named(name@),
        is_ascii_chars(name@) && ascii_lower(name@) == "azblob"@ ==> r->Ok_0 == opendal::Scheme::Azblob,
        is_ascii_chars(name@) && ascii_lower(name@) == "azdfs"@ ==> r->Ok_0 == opendal::Scheme::Azdfs,
        is_ascii_chars(name@) && ascii_lower(name@) == "fs"@ ==> r->Ok_0 == opendal::Scheme::Fs,
        is_ascii_chars(name@) && ascii_lower(name@) == "gcs"@ ==> r->Ok_0 == opendal::Scheme::Gcs,
        is_ascii_chars(name@) && ascii_lower(name@) == "ghac"@ ==> r->Ok_0 == opendal::Scheme::Ghac,
        is_ascii_chars(name@) && ascii_lower(name@) == "http"@ ==> r->Ok_0 == opendal::Scheme::Http,
        is_ascii_chars(name@) && ascii_lower(name@) == "https"@ ==> r->Ok_0 == opendal::Scheme::Http,
        is_ascii_chars(name@) && ascii_lower(name@) == "ipmfs"@ ==> r->Ok_0 == opendal::Scheme::Ipmfs,
        is_ascii_chars(name@) && ascii_lower(name@) == "memory"@ ==> r->Ok_0 == opendal::Scheme::Memory,
        is_ascii_chars(name@) && ascii_lower(name@) == "obs"@ ==> r->Ok_0 == opendal::Scheme::Obs,
        is_ascii_chars(name@) && ascii_lower(name@) == "oss"@ ==> r->Ok_0 == opendal::Scheme::Oss,
        is_ascii_chars(name@) && ascii_lower(name@) == "s3"@ ==> r->Ok_0 == opendal::Scheme::S3,
        is_ascii_chars(name@) && ascii_lower(name@) == "webdav"@ ==> r->Ok_0 == opendal::Scheme::Webdav,
        is_ascii_chars(name@) && ascii_lower(name@) == "webhdfs"@ ==> r->Ok_0 == opendal::Scheme::Webhdfs,
        is_ascii_chars(name@) && !known_scheme_name(ascii_lower(name@)) ==> r->Ok_0 is Custom,
{
    <opendal::Scheme as std::str::FromStr>::from_str(name)
}

/// Relies on opendal::Operator::from_iter with the Azblob builder, then
/// OperatorBuilder::finish: builds a azblob operator from the options.
#[verifier::external_body]
fn build_azblob(options: Vec<(String, String)>) -> (r: Result<opendal::Operator, opendal::Error>)
{
    let builder = opendal::Operator::from_iter::<opendal::services::Azblob>(options.into_iter())?;
    Ok(builder.finish())
}

/// Relies on opendal::Operator::from_iter with the Azdfs builder, then
/// OperatorBuilder::finish: builds a azdfs operator from the options.
#[verifier::external_body]
fn build_azdfs(options: Vec<(String, String)>) -> (r: Result<opendal::Operator, opendal::Error>)
{
    let builder = opendal::Operator::from_iter::<opendal::services::Azdfs>(options.into_iter())?;
    Ok(builder.finish())
}

/// Relies on opendal::Operator::from_iter with the Fs builder, then
/// OperatorBuilder::finish: builds a fs operator from the options.
#[verifier::external_body]
fn build_fs(options: Vec<(String, String)>) -> (r: Result<opendal::Operator, opendal::Error>)
{
    let builder = opendal::Operator::from_iter::<opendal::services::Fs>(options.into_iter())?;
    Ok(builder.finish())
}

/// Relies on opendal::Operator::from_iter with the Gcs builder, then
/// OperatorBuilder::finish: builds a gcs operator from the options.
#[verifier::external_body]
fn build_gcs(options: Vec<(String, String)>) -> (r: Result<opendal::Operator, opendal::Error>)
{
    let builder = opendal::Operator::from_iter::<opendal::services::Gcs>(options.into_iter())?;
    Ok(builder.finish())
}

/// Relies on opendal::Operator::from_iter with the Ghac builder, then
/// OperatorBuilder::finish: builds a ghac operator from the options.
#[verifier::external_body]
fn build_ghac(options: Vec<(String, String)>) -> (r: Result<opendal::Operator, opendal::Error>)
{
    let builder = opendal::Operator::from_iter::<opendal::services::Ghac>(options.into_iter())?;
    Ok(builder.finish())
}

/// Relies on opendal::Operator::from_iter with the Http builder, then
/// OperatorBuilder::finish: builds a http operator from the options.
#[verifier::external_body]
fn build_http(options: Vec<(String, String)>) -> (r: Result<opendal::Operator, opendal::Error>)
{
    let builder = opendal::Operator::from_iter::<opendal::services::Http>(options.into_iter())?;
    Ok(builder.finish())
}

/// Relies on opendal::Operator::from_iter with the Ipmfs builder, then
/// OperatorBuilder::finish: builds a ipmfs operator from the options.
#[verifier::external_body]
fn build_ipmfs(options: Vec<(String, String)>) -> (r: Result<opendal::Operator, opendal::Error>)
{
    let builder = opendal::Operator::from_iter::<opendal::services::Ipmfs>(options.into_iter())?;
    Ok(builder.finish())
}

/// Relies on opendal::Operator::from_iter with the Memory builder, then
/// OperatorBuilder::finish: the memory builder ignores its options and its
/// build never fails.
#[verifier::external_body]
fn build_memory(options: Vec<(String, String)>) -> (r: Result<opendal::Operator, opendal::Error>)
    ensures
        r is Ok,
{
    let builder = opendal::Operator::from_iter::<opendal::services::Memory>(options.into_iter())?;
    Ok(builder.finish())
}

/// Relies on opendal::Operator::from_iter with the Obs builder, then
/// OperatorBuilder::finish: builds a obs operator from the options.
#[verifier::external_body]
fn build_obs(options: Vec<(String, String)>) -> (r: Result<opendal::Operator, opendal::Error>)
{
    let builder = opendal::Operator::from_iter::<opendal::services::Obs>(options.into_iter())?;
    Ok(builder.finish())
}

/// Relies on opendal::Operator::from_iter with the Oss builder, then
/// OperatorBuilder::finish: builds a oss operator from the options.
#[verifier::external_body]
fn build_oss(options: Vec<(String, String)>) -> (r: Result<opendal::Operator, opendal::Error>)
{
    let builder = opendal::Operator::from_iter::<opendal::services::Oss>(options.into_iter())?;
    Ok(builder.finish())
}

/// Relies on opendal::Operator::from_iter with the S3 builder, then
/// OperatorBuilder::finish: builds a s3 operator from the options.
#[verifier::external_body]
fn build_s3(options: Vec<(String, String)>) -> (r: Result<opendal::Operator, opendal::Error>)
{
    let builder = opendal::Operator::from_iter::<opendal::services::S3>(options.into_iter())?;
    Ok(builder.finish())
}

/// Relies on opendal::Operator::from_iter with the Webdav builder, then
/// OperatorBuilder::finish: builds a webdav operator from the options.
#[verifier::external_body]
fn build_webdav(options: Vec<(String, String)>) -> (r: Result<opendal::Operator, opendal::Error>)
{
    let builder = opendal::Operator::from_iter::<opendal::services::Webdav>(options.into_iter())?;
    Ok(builder.finish())
}

/// Relies on opendal::Operator::from_iter with the Webhdfs builder, then
/// OperatorBuilder::finish: builds a webhdfs operator from the options.
#[verifier::external_body]
fn build_webhdfs(options: Vec<(String, String)>) -> (r: Result<opendal::Operator, opendal::Error>)
{
    let builder = opendal::Operator::from_iter::<opendal::services::Webhdfs>(options.into_iter())?;
    Ok(builder.finish())
}

/// Relies on opendal::Operator::blocking: the blocking view of an operator.
#[verifier::external_body]
fn to_blocking(op: &opendal::Operator) -> (r: opendal::BlockingOperator) {
    op.blocking()
}

/// Relies on opendal::BlockingOperator::read: the whole content at `path`,
/// or the backend's error.
#[verifier::external_body]
fn read_path(op: &opendal::BlockingOperator, path: &str) -> (r: Result<Vec<u8>, opendal::Error>) {
    op.read(path)
}

/// The schemes that this boundary can build an operator for.
pub open spec fn is_supported(s: opendal::Scheme) -> bool {
    matches!(s, opendal::Scheme::Azblob | opendal::Scheme::Azdfs | opendal::Scheme::Fs | opendal::Scheme::Gcs | opendal::Scheme::Ghac | opendal::Scheme::Http | opendal::Scheme::Ipmfs | opendal::Scheme::Memory | opendal::Scheme::Obs | opendal::Scheme::Oss | opendal::Scheme::S3 | opendal::Scheme::Webdav | opendal::Scheme::Webhdfs)
}

/// Builds the operator of a supported scheme, handing the options over
/// unchanged to that scheme's builder. Any other scheme is refused as
/// unsupported, before any builder runs.
pub fn build_operator(scheme: opendal::Scheme, options: Vec<(String, String)>) -> (r: Result<opendal::Operator, OdError>)
    ensures
        !is_supported(scheme) ==> r is Err && r->Err_0.code == od_code::ODE_UNSUPPORTED,
        scheme == opendal::Scheme::Memory ==> r is Ok,
{
    let built = match scheme {
        opendal::Scheme::Azblob => build_azblob(options),
        opendal::Scheme::Azdfs => build_azdfs(options),
        opendal::Scheme::Fs => build_fs(options),
        opendal::Scheme::Gcs => build_gcs(options),
        opendal::Scheme::Ghac => build_ghac(options),
        opendal::Scheme::Http => build_http(options),
        opendal::Scheme::Ipmfs => build_ipmfs(options),
        opendal::Scheme::Memory => build_memory(options),
        opendal::Scheme::Obs => build_obs(options),
        opendal::Scheme::Oss => build_oss(options),
        opendal::Scheme::S3 => build_s3(options),
        opendal::Scheme::Webdav => build_webdav(options),
        opendal::Scheme::Webhdfs => build_webhdfs(options),
        _ => {
            return Err(OdError { code: od_code::ODE_UNSUPPORTED, message: String::from_str("not supported scheme") });
        },
    };
    classify_build(built)
}

/// Classifies the outcome of a backend's builder: an operator is kept, and
/// an error gets the code of its kind.
pub fn classify_build(built: Result<opendal::Operator, opendal::Error>) -> (r: Result<opendal::Operator, OdError>)
    ensures
        match built {
            Ok(op) => r == Ok::<opendal::Operator, OdError>(op),
            Err(e) => r is Err && r->Err_0.code == code_of_kind(error_kind(e)),
        },
{
    match built {
        Ok(op) => Ok(op),
        Err(e) => Err(OdError::from_backend(&e)),
    }
}

/// Classifies the outcome of a backend's read: the bytes are kept, and an
/// error gets the code of its kind.
pub fn classify_read(read: Result<Vec<u8>, opendal::Error>) -> (r: Result<Vec<u8>, OdError>)
    ensures
        match read {
            Ok(v) => r is Ok && r->Ok_0@ == v@,
            Err(e) => r is Err && r->Err_0.code == code_of_kind(error_kind(e)),
        },
{
    match read {
        Ok(v) => Ok(v),
        Err(e) => Err(OdError::from_backend(&e)),
    }
}

/// Hands the outcome of a construction to the caller: on success the
/// operator's blocking handle goes to `operator` and 0 is returned, with
/// `slot` untouched; on failure the error is recorded in `slot`,
/// `operator` is left as it was, and -1 is returned.
pub fn finish_new(built: Result<opendal::Operator, OdError>, operator: &mut Option<od_operator>, slot: &mut ErrorSlot) -> (r: i32)
    ensures
        match built {
            Ok(_) => r == 0 && (*final(operator)) is Some && *final(slot) == *old(slot),
            Err(e) => r == -1 && *final(operator) == *old(operator) && final(slot).last == Some(e),
        },
{
    match built {
        Ok(op) => {
            *operator = Some(od_operator(to_blocking(&op)));
            0
        },
        Err(e) => {
            slot.record(e);
            -1
        },
    }
}

/// A byte buffer whose ownership passes to the caller of a read.
#[allow(non_camel_case_types)]
pub struct od_buf(pub Vec<u8>);

/// The opaque handle of one operator: the entry for all blocking calls.
/// It owns its operator alone. Callers free it once, with
/// `od_operator_free`, and never use it afterwards: using a handle after
/// it was freed, or freeing it twice, breaks the contract (undefined at the
/// C boundary), and no liveness is tracked to catch it.
/// One handle may serve reads from several threads at once: its operator
/// is `Send + Sync` (a shared backend behind an `Arc`), and every call
/// takes it by shared reference. Whether concurrent calls see each other's
/// writes is up to the backend.
#[allow(non_camel_case_types)]
pub struct od_operator(pub opendal::BlockingOperator);

/// Creates a blocking operator for the scheme named by `scheme`, with the
/// given key/value options, and writes it to `operator`.
/// Returns 0 on success. On failure returns -1, leaves `operator` as it
/// was and records the cause in `slot`: unexpected for text that is not
/// valid UTF-8, unsupported for a scheme without a backend here, and the
/// backend's own kind when its builder refuses the options.
pub fn od_operator_new(
    operator: &mut Option<od_operator>,
    scheme: &Vec<u8>,
    options: &Vec<(Vec<u8>, Vec<u8>)>,
    slot: &mut ErrorSlot,
) -> (r: i32)
    ensures
        r == 0 || r == -1,
        r == 0 ==> (*final(operator)) is Some && *final(slot) == *old(slot),
        r == -1 ==> *final(operator) == *old(operator) && final(slot).last is Some,
        utf8_text(scheme@) is None || !all_text(options@) ==> r == -1 && last_code(
            *final(slot),
        ) == Some(od_code::ODE_UNEXPECTED),
        is_ascii(scheme@) && all_text(options@) && !known_scheme_name(
            ascii_lower(ascii_chars(scheme@)),
        ) ==> r == -1 && last_code(*final(slot)) == Some(od_code::ODE_UNSUPPORTED),
        is_ascii(scheme@) && all_text(options@) && ascii_lower(ascii_chars(scheme@))
            == "memory"@ ==> r == 0,
{
    let name = match decode_text(scheme) {
        Some(n) => n,
        None => {
            slot.record(OdError { code: od_code::ODE_UNEXPECTED, message: String::from_str("scheme is not valid UTF-8") });
            return -1;
        },
    };
    let options = match parse_options(options) {
        Ok(o) => o,
        Err(e) => {
            slot.record(e);
            return -1;
        },
    };
    let parsed = match parse_scheme(name.as_str()) {
        Ok(s) => s,
        Err(e) => {
            slot.record(OdError::from_backend(&e));
            return -1;
        },
    };
    finish_new(build_operator(parsed, options), operator, slot)
}

/// Frees an operator made by `od_operator_new`, releasing its resources.
/// Taking the handle by value makes it unusable afterwards; it is dropped
/// when this call returns.
pub fn od_operator_free(operator: od_operator) {
}

/// Hands the outcome of a read to the caller: on success the bytes go to
/// `buf` and 0 is returned, with `slot` untouched; on failure the error is
/// recorded in `slot`, `buf` is left as it was, and -1 is returned.
pub fn deliver_read(res: Result<Vec<u8>, OdError>, buf: &mut od_buf, slot: &mut ErrorSlot) -> (r: i32)
    ensures
        match res {
            Ok(v) => r == 0 && final(buf).0 == v && *final(slot) == *old(slot),
            Err(e) => r == -1 && *final(buf) == *old(buf) && final(slot).last == Some(e),
        },
{
    match res {
        Ok(v) => {
            *buf = od_buf(v);
            0
        },
        Err(e) => {
            slot.record(e);
            -1
        },
    }
}

/// Reads the whole object at `path` through `operator` into `buf`.
/// Returns 0 on success, with `buf` holding the bytes read. On failure
/// returns -1, leaves `buf` as it was and records the cause in `slot`:
/// unexpected for a path that is not valid UTF-8, else the backend's kind
/// (not found for a path that does not exist).
pub fn od_operator_read(operator: &od_operator, path: &Vec<u8>, buf: &mut od_buf, slot: &mut ErrorSlot) -> (r: i32)
    ensures
        r == 0 || r == -1,
        r == 0 ==> *final(slot) == *old(slot),
        r == -1 ==> *final(buf) == *old(buf) && final(slot).last is Some,
        utf8_text(path@) is None ==> r == -1 && last_code(*final(slot)) == Some(
            od_code::ODE_UNEXPECTED,
        ),
{
    let p = match decode_text(path) {
        Some(p) => p,
        None => {
            slot.record(OdError { code: od_code::ODE_UNEXPECTED, message: String::from_str("path is not valid UTF-8") });
            return -1;
        },
    };
    deliver_read(classify_read(read_path(&operator.0, p.as_str())), buf, slot)
}

} // verus!
