//! Query options and their null-terminated form.

use clickhouse_c::query::{cstring, RawQueryOpts};
use clickhouse_c::{ErrorKind, QueryOpts, QueryParam, QuerySetting};

fn cstr(bytes: &[u8]) -> &str {
    let (last, text) = bytes.split_last().expect("terminated");
    assert_eq!(*last, 0);
    std::str::from_utf8(text).expect("utf8")
}

#[test]
fn interior_nul_is_a_usage_error() {
    let settings = [QuerySetting::new("max_block_size", "8\u{0}192")];
    let Err(err) = RawQueryOpts::new(&QueryOpts::new().settings(&settings)) else {
        panic!("interior NUL accepted");
    };
    assert_eq!(err.kind, ErrorKind::Usage);
    assert!(err.message.contains("query setting value"), "{}", err.display());
    assert_eq!(err.message, "query setting value has an interior NUL at byte 1");
}

#[test]
fn empty_opts_pass_null_arrays() {
    let raw = RawQueryOpts::new(&QueryOpts::new()).ok().expect("empty");
    let c = raw.as_raw();
    assert_eq!(c.settings.len(), 0);
    assert_eq!(c.params.len(), 0);
    assert!(c.query_id.is_none());
}

#[test]
fn strings_reach_c_nul_terminated_and_in_order() {
    let settings = [
        QuerySetting::text_type_names(),
        QuerySetting::new("max_block_size", "1024").important(),
    ];
    let params = [QueryParam::new("n", "42")];
    let opts = QueryOpts::new()
        .query_id("q-1")
        .settings(&settings)
        .params(&params);
    let raw = RawQueryOpts::new(&opts).ok().expect("build");
    let c = raw.as_raw();

    assert_eq!(c.settings.len(), 2);
    assert_eq!(c.params.len(), 1);
    assert_eq!(c.query_id.as_ref().map(|id| id.len()), Some(3));

    let first = &c.settings[0];
    assert_eq!(
        cstr(&first.name),
        "output_format_native_encode_types_in_binary_format"
    );
    assert_eq!(cstr(&first.value), "0");
    assert!(!first.important);

    let second = &c.settings[1];
    assert_eq!(cstr(&second.name), "max_block_size");
    assert_eq!(cstr(&second.value), "1024");
    assert!(second.important);

    let param = &c.params[0];
    assert_eq!(cstr(&param.name), "n");
    assert_eq!(cstr(&param.value), "42");
}

#[test]
fn first_bad_string_is_reported() {
    let settings = [
        QuerySetting::new("ok", "1"),
        QuerySetting::new("bad\u{0}", "x\u{0}"),
        QuerySetting::new("\u{0}", "1"),
    ];
    let params = [QueryParam::new("\u{0}", "1")];
    let opts = QueryOpts::new().settings(&settings).params(&params);
    let err = RawQueryOpts::new(&opts).err().expect("bad setting");
    assert_eq!(err.message, "query setting name has an interior NUL at byte 3");

    let opts = QueryOpts::new().settings(&settings[..1]).params(&params);
    let err = RawQueryOpts::new(&opts).err().expect("bad parameter");
    assert_eq!(err.message, "query parameter name has an interior NUL at byte 0");

    let params = [QueryParam::new("p", "ab\u{0}c")];
    let err = RawQueryOpts::new(&QueryOpts::new().params(&params))
        .err()
        .expect("bad value");
    assert_eq!(err.message, "query parameter value has an interior NUL at byte 2");
}

#[test]
fn query_id_may_hold_any_byte() {
    let raw = RawQueryOpts::new(&QueryOpts::new().query_id("a\u{0}b"))
        .ok()
        .expect("length travels along");
    assert_eq!(raw.as_raw().query_id.as_deref(), Some(&b"a\0b"[..]));
}

#[test]
fn builders_change_one_thing_each() {
    let plain = QuerySetting::new("a", "b");
    assert!(!plain.important && !plain.custom);
    let both = plain.custom().important();
    assert!(both.important && both.custom);
    assert_eq!((both.name, both.value), ("a", "b"));
    let lone = plain.custom();
    assert!(!lone.important && lone.custom);
}

#[test]
fn terminated_string_holds_the_text() {
    assert_eq!(cstring("label", "h\u{e9}").ok(), Some(vec![b'h', 0xC3, 0xA9, 0]));
    assert_eq!(cstring("label", "").ok(), Some(vec![0]));
}
