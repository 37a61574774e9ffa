use curl_http::easy::{
    callback_role, from_c_buffer, marshal, to_c_buffer, to_c_list, Callback, Context, Curl,
    InfoError, InfoValue, Param, Slot, Value,
};
use curl_http::errors::{status_kind, ErrorKind};
use curl_http::info;
use curl_http::info::{info_kind, InfoKind};
use curl_http::opt;

const TEST_URL: &str = "http://www.baidu.com/";

/// Stands for the engine: it notes each handle that it is given to destroy.
struct Destroyer {
    destroyed: Vec<usize>,
}

impl Destroyer {
    /// What the end of a session's owner does.
    fn end_of_scope(&mut self, c: Curl) {
        if let Some(handle) = c.release() {
            self.destroyed.push(handle);
        }
    }
}

#[test]
fn test_easy_init() {
    let c = Curl::new(0x1000);
    assert!(!c.is_null());
    c.cleanup()
}

#[test]
fn test_test_easy_init() {
    let h = Curl::new(0x2000);
    assert!(!Curl::new(0x3000).is_null());
    h.cleanup()
}

#[test]
fn test_easy_curl_init() {
    let c = Curl::new(0x1000);
    assert!(!c.is_null());
    assert_eq!(c.handle(), 0x1000);
    c.cleanup();
}

#[test]
fn a_session_without_a_handle_is_null() {
    let c = Curl::new(0);
    assert!(c.is_null());
    assert_eq!(c.handle(), 0);
}

#[test]
fn cleanup_keeps_the_session() {
    let c = Curl::new(42);
    c.cleanup();
    assert!(!c.is_null());
    assert_eq!(c.handle(), 42);
    c.cleanup();
    c.cleanup();
    assert!(!c.is_null());
    assert_eq!(c.handle(), 42);
    assert_eq!(c.escape(b"&"), b"%26");
}

#[test]
fn the_handle_is_destroyed_once_at_the_end() {
    let mut engine = Destroyer { destroyed: Vec::new() };
    let c = Curl::new(42);
    c.cleanup();
    assert!(engine.destroyed.is_empty());
    c.cleanup();
    assert!(engine.destroyed.is_empty());
    engine.end_of_scope(c);
    assert_eq!(engine.destroyed, vec![42]);
    // without any explicit cleanup
    engine.end_of_scope(Curl::new(43));
    assert_eq!(engine.destroyed, vec![42, 43]);
}

#[test]
fn release_hands_out_the_handle_itself() {
    assert_eq!(Curl::new(42).release(), Some(42));
    assert_eq!(Curl::new(usize::MAX).release(), Some(usize::MAX));
    assert_eq!(Curl::new(0).release(), None);
}

#[test]
fn test_easy_setopt_url() {
    let c = Curl::new(1);
    assert_eq!(
        c.setopt(opt::URL, &Value::Text(TEST_URL.to_string())),
        Param::Buffer(b"http://www.baidu.com/\0".to_vec())
    );
    assert_eq!(
        c.getinfo(info::EFFECTIVE_URL, 0, Slot::Text(Some(TEST_URL.to_string()))),
        Ok(Some(InfoValue::Text(TEST_URL.to_string())))
    );
    // could not connect: nothing to tell
    assert_eq!(c.getinfo(info::EFFECTIVE_URL, 7, Slot::Text(None)), Ok(None));
    c.cleanup();
}

#[test]
fn test_easy_setopt_URL() {
    let c = Curl::new(1);
    assert_eq!(
        c.setopt(opt::URL, &Value::Text("http://localhost:8000/".to_string())),
        Param::Buffer(b"http://localhost:8000/\0".to_vec())
    );
    c.cleanup();
}

#[test]
fn test_easy_setopt() {
    let c = Curl::new(1);
    assert_eq!(
        c.setopt(opt::URL, &Value::Text(TEST_URL.to_string())),
        Param::Buffer(b"http://www.baidu.com/\0".to_vec())
    );
    assert_eq!(c.setopt(opt::VERBOSE, &Value::Bool(false)), Param::Long(0));
    assert_eq!(
        c.getinfo(info::EFFECTIVE_URL, 0, Slot::Text(Some(TEST_URL.to_string()))),
        Ok(Some(InfoValue::Text(TEST_URL.to_string())))
    );
}

#[test]
fn test_test_easy_setopt() {
    let c = Curl::new(1);
    assert_eq!(
        c.setopt(opt::URL, &Value::Text("http://localhost:8000/".to_string())),
        Param::Buffer(b"http://localhost:8000/\0".to_vec())
    );
    assert_eq!(c.setopt(opt::VERBOSE, &Value::Bool(false)), Param::Long(0));
}

#[test]
fn test_easy_setopt_bytes() {
    let c = Curl::new(1);
    assert_eq!(
        c.setopt(opt::URL, &Value::Bytes(b"http://www.baidu.com/".to_vec())),
        Param::Buffer(b"http://www.baidu.com/\0".to_vec())
    );
    assert_eq!(c.setopt(opt::VERBOSE, &Value::Bool(false)), Param::Long(0));
    c.cleanup();
}

#[test]
fn test_easy_setopt_slist() {
    let c = Curl::new(1);
    assert_eq!(
        c.setopt(opt::URL, &Value::Text("http://fledna.duapp.com/ip".to_string())),
        Param::Buffer(b"http://fledna.duapp.com/ip\0".to_vec())
    );
    assert_eq!(
        c.setopt(opt::HTTPHEADER, &Value::List(vec![b"X-Dummy: just a test.".to_vec()])),
        Param::List(vec![b"X-Dummy: just a test.\0".to_vec()])
    );
    assert_eq!(c.setopt(opt::VERBOSE, &Value::Bool(false)), Param::Long(0));
    c.cleanup();
}

#[test]
fn test_easy_setopt_writedata() {
    let c = Curl::new(1);
    assert_eq!(
        c.setopt(opt::URL, &Value::Text(TEST_URL.to_string())),
        Param::Buffer(b"http://www.baidu.com/\0".to_vec())
    );
    // the address of an open file
    let fp: usize = 0x7f00_1000;
    assert_eq!(c.setopt(opt::WRITEDATA, &Value::Word(fp)), Param::Word(fp));
    assert_eq!(c.setopt(opt::VERBOSE, &Value::Bool(false)), Param::Long(0));
}

#[test]
fn test_easy_setopt_progress_function() {
    let c = Curl::new(1);
    assert_eq!(
        c.setopt(
            opt::URL,
            &Value::Text("http://curl.haxx.se/download/curl-7.34.0.zip".to_string())
        ),
        Param::Buffer(b"http://curl.haxx.se/download/curl-7.34.0.zip\0".to_vec())
    );
    assert_eq!(c.setopt(opt::NOPROGRESS, &Value::Bool(false)), Param::Long(0));
    assert_eq!(c.setopt(opt::WRITEFUNCTION, &Value::Long(0)), Param::Entry(Callback::Write));
    let ret = c.setopt(opt::PROGRESSFUNCTION, &Value::Long(0));
    assert_eq!(ret, Param::Entry(Callback::Progress));
    // a transfer that its progress callback ends is answered with 42
    assert_eq!(status_kind(42), ErrorKind::AbortedByCallback);
}

#[test]
fn test_easy_getinfo() {
    let c = Curl::new(1);
    assert_eq!(
        c.setopt(opt::URL, &Value::Text(TEST_URL.to_string())),
        Param::Buffer(b"http://www.baidu.com/\0".to_vec())
    );
    assert_eq!(c.setopt(opt::WRITEFUNCTION, &Value::Long(0)), Param::Entry(Callback::Write));

    let val = c.getinfo(info::RESPONSE_CODE, 0, Slot::Long(200));
    assert_eq!(val, Ok(Some(InfoValue::Long(200))));
    let val = c.getinfo(info::REQUEST_SIZE, 0, Slot::Long(57));
    assert_eq!(val, Ok(Some(InfoValue::Long(57))));
    let tt = c.getinfo(info::TOTAL_TIME, 0, Slot::Double(0.25f64.to_bits()));
    match tt {
        Ok(Some(InfoValue::Double(bits))) => assert!(f64::from_bits(bits) > 0f64),
        other => panic!("no time: {:?}", other),
    }
}

#[test]
fn what_the_engine_wrote_ends_at_the_first_zero() {
    assert_eq!(from_c_buffer(b"Couldn't connect\0\0\0"), b"Couldn't connect");
    assert_eq!(from_c_buffer(b"ab\0cd\0"), b"ab");
    assert_eq!(from_c_buffer(b"\0abc"), b"");
    assert_eq!(from_c_buffer(b"no zero"), b"no zero");
    assert_eq!(from_c_buffer(b""), b"");
    assert_eq!(from_c_buffer(&to_c_buffer(b"round trip")), b"round trip");
    assert_eq!(from_c_buffer(&to_c_buffer(b"cut\0here")), b"cut");
}

#[test]
fn numbers_and_booleans() {
    assert_eq!(marshal(opt::TIMEOUT, &Value::Long(30)), Param::Long(30));
    assert_eq!(marshal(opt::TIMEOUT, &Value::Long(-1)), Param::Long(-1));
    assert_eq!(marshal(opt::VERBOSE, &Value::Bool(true)), Param::Long(1));
    assert_eq!(marshal(opt::VERBOSE, &Value::Bool(false)), Param::Long(0));
    assert_eq!(marshal(opt::WRITEDATA, &Value::Word(0)), Param::Word(0));
    assert_eq!(marshal(opt::WRITEDATA, &Value::Word(0xdead)), Param::Word(0xdead));
}

#[test]
fn texts_end_in_a_zero_byte() {
    assert_eq!(
        marshal(opt::URL, &Value::Text("http://localhost:8000/".to_string())),
        Param::Buffer(b"http://localhost:8000/\0".to_vec())
    );
    assert_eq!(
        marshal(opt::URL, &Value::Bytes(b"http://www.baidu.com/".to_vec())),
        Param::Buffer(b"http://www.baidu.com/\0".to_vec())
    );
    assert_eq!(marshal(opt::URL, &Value::Text(String::new())), Param::Buffer(vec![0]));
    assert_eq!(
        marshal(opt::URL, &Value::Text("h\u{e9}".to_string())),
        Param::Buffer(vec![b'h', 0xc3, 0xa9, 0])
    );
    assert_eq!(to_c_buffer(b"abc"), b"abc\0");
}

#[test]
fn a_zero_byte_inside_a_text_is_passed_on() {
    assert_eq!(
        marshal(opt::URL, &Value::Bytes(b"ab\0cd".to_vec())),
        Param::Buffer(b"ab\0cd\0".to_vec())
    );
}

#[test]
fn lists_hold_one_buffer_per_item() {
    let list = vec![b"X-Dummy: just a test.".to_vec(), b"Accept: */*".to_vec()];
    assert_eq!(
        marshal(opt::HTTPHEADER, &Value::List(list.clone())),
        Param::List(vec![b"X-Dummy: just a test.\0".to_vec(), b"Accept: */*\0".to_vec()])
    );
    assert_eq!(marshal(opt::HTTPHEADER, &Value::List(Vec::new())), Param::List(Vec::new()));
    assert_eq!(to_c_list(&list)[1], b"Accept: */*\0");
}

#[test]
fn contexts_stand_for_themselves() {
    assert_eq!(
        marshal(opt::HEADERDATA, &Value::Context(Context::Head)),
        Param::Address(Context::Head)
    );
    assert_eq!(
        marshal(opt::WRITEDATA, &Value::Context(Context::Body)),
        Param::Address(Context::Body)
    );
    assert_eq!(
        marshal(opt::ERRORBUFFER, &Value::Context(Context::ErrorBuffer)),
        Param::Address(Context::ErrorBuffer)
    );
}

#[test]
fn callback_options_get_the_fixed_entry_points() {
    assert_eq!(marshal(opt::WRITEFUNCTION, &Value::Word(0)), Param::Entry(Callback::Write));
    assert_eq!(marshal(opt::READFUNCTION, &Value::Word(7)), Param::Entry(Callback::Read));
    assert_eq!(marshal(opt::HEADERFUNCTION, &Value::Long(0)), Param::Entry(Callback::Header));
    assert_eq!(
        marshal(opt::PROGRESSFUNCTION, &Value::Text("mine".to_string())),
        Param::Entry(Callback::Progress)
    );
    assert_eq!(callback_role(opt::WRITEFUNCTION), Some(Callback::Write));
    assert_eq!(callback_role(opt::URL), None);
    assert_eq!(callback_role(opt::WRITEDATA), None);
}

#[test]
fn setopt_marshals() {
    let c = Curl::new(1);
    assert_eq!(
        c.setopt(opt::URL, &Value::Text("http://localhost:8000/".to_string())),
        Param::Buffer(b"http://localhost:8000/\0".to_vec())
    );
    assert_eq!(c.setopt(opt::VERBOSE, &Value::Bool(false)), Param::Long(0));
    assert_eq!(c.setopt(opt::PROGRESSFUNCTION, &Value::Long(0)), Param::Entry(Callback::Progress));
}

#[test]
fn option_keys() {
    assert_eq!(opt::URL, 10002);
    assert_eq!(opt::WRITEDATA, 10001);
    assert_eq!(opt::HEADERDATA, 10029);
    assert_eq!(opt::WRITEFUNCTION, 20011);
    assert_eq!(opt::READFUNCTION, 20012);
    assert_eq!(opt::HEADERFUNCTION, 20079);
    assert_eq!(opt::PROGRESSFUNCTION, 20056);
    assert_eq!(opt::FOLLOWLOCATION, 52);
    assert_eq!(opt::AUTOREFERER, 58);
    assert_eq!(opt::NOSIGNAL, 99);
    assert_eq!(opt::HTTPGET, 80);
    assert_eq!(opt::NOBODY, 44);
}

#[test]
fn info_keys_carry_their_type() {
    assert_eq!(info::EFFECTIVE_URL, 0x100001);
    assert_eq!(info::RESPONSE_CODE, 0x200002);
    assert_eq!(info::TOTAL_TIME, 0x300003);
    assert_eq!(info::SSL_ENGINES, 0x40001b);
    assert_eq!(info::HTTP_CODE, info::RESPONSE_CODE);
    assert_eq!(info_kind(info::EFFECTIVE_URL), Some(InfoKind::Text));
    assert_eq!(info_kind(info::RESPONSE_CODE), Some(InfoKind::Long));
    assert_eq!(info_kind(info::REQUEST_SIZE), Some(InfoKind::Long));
    assert_eq!(info_kind(info::TOTAL_TIME), Some(InfoKind::Double));
    assert_eq!(info_kind(info::COOKIELIST), Some(InfoKind::List));
    assert_eq!(info_kind(info::LOCAL_PORT), Some(InfoKind::Long));
    assert_eq!(info_kind(0), None);
    assert_eq!(info_kind(0x500001), None);
    assert_eq!(info_kind(42), None);
}

#[test]
fn getinfo_reads_the_slot_by_the_tag() {
    let c = Curl::new(1);
    assert_eq!(
        c.getinfo(info::RESPONSE_CODE, 0, Slot::Long(200)),
        Ok(Some(InfoValue::Long(200)))
    );
    assert_eq!(
        c.getinfo(info::EFFECTIVE_URL, 0, Slot::Text(Some("http://a/".to_string()))),
        Ok(Some(InfoValue::Text("http://a/".to_string())))
    );
    assert_eq!(c.getinfo(info::CONTENT_TYPE, 0, Slot::Text(None)), Ok(None));
    let bits = 1.5f64.to_bits();
    assert_eq!(
        c.getinfo(info::TOTAL_TIME, 0, Slot::Double(bits)),
        Ok(Some(InfoValue::Double(bits)))
    );
}

#[test]
fn getinfo_reports_absence_when_the_engine_failed() {
    let c = Curl::new(1);
    assert_eq!(c.getinfo(info::RESPONSE_CODE, 1, Slot::Long(200)), Ok(None));
    assert_eq!(c.getinfo(info::EFFECTIVE_URL, 48, Slot::Text(None)), Ok(None));
    assert_eq!(c.getinfo(info::SSL_ENGINES, 48, Slot::List(0)), Ok(None));
    assert_eq!(c.getinfo(0, -1, Slot::Long(0)), Ok(None));
}

#[test]
fn getinfo_errors() {
    let c = Curl::new(1);
    assert_eq!(c.getinfo(info::SSL_ENGINES, 0, Slot::List(0)), Err(InfoError::ListUnsupported));
    assert_eq!(c.getinfo(info::COOKIELIST, 0, Slot::Long(0)), Err(InfoError::ListUnsupported));
    assert_eq!(c.getinfo(7, 0, Slot::Long(0)), Err(InfoError::UnknownKind));
    assert_eq!(c.getinfo(info::RESPONSE_CODE, 0, Slot::Text(None)), Err(InfoError::KindMismatch));
    assert_eq!(c.getinfo(info::EFFECTIVE_URL, 0, Slot::Long(1)), Err(InfoError::KindMismatch));
    assert_eq!(c.getinfo(info::TOTAL_TIME, 0, Slot::Long(1)), Err(InfoError::KindMismatch));
    assert_eq!(c.getinfo(info::RESPONSE_CODE, 0, Slot::Double(0)), Err(InfoError::KindMismatch));
}

#[test]
fn global_flags() {
    assert_eq!(curl_http::GLOBAL_SSL, 1);
    assert_eq!(curl_http::GLOBAL_WIN32, 2);
    assert_eq!(curl_http::GLOBAL_ALL, 3);
    assert_eq!(curl_http::GLOBAL_NOTHING, 0);
    assert_eq!(curl_http::GLOBAL_DEFAULT, curl_http::GLOBAL_ALL);
    assert_eq!(curl_http::GLOBAL_ACK_EINTR, 4);
    assert!(!curl_http::Curl::new(9).is_null());
    assert_eq!(opt::NOPROGRESS, 43);
}
