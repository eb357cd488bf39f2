use mojo::arbiter::{AppState, MojoArbiter};
use mojo::alloc_stats::{
    active, advance_epoch, allocated, mapped, metadata, resident, retained, stat_result_to_jlong,
    stat_to_jlong, StatError,
};
use mojo::descriptors::{
    lookup_class, lookup_field, lookup_static_field, ClassDesc, ClassLookup, FieldDesc,
};
use mojo::java_string::{from_jni_string, to_jni_string};
use mojo::handlers::{
    either_handler_later_page, either_handler_reply, error_handler_reply, greeting, is_a_variant,
    is_async_result, is_error, java_handler_reply, reply_to, timer_ping_delays, Messages, Page,
    Reply, Responses, BAD_REQUEST, OK,
};
use mojo::worker::{worker_handle, InitError, InitOutcome, WorkerHandle};
use mojo::jfieldid::JFieldID;
use mojo::registry::MojoApp;
use mojo::response::{Delivery, Response};
use mojo::server_config::{ServerConfig, StopRequest};

#[test]
fn field_id_roundtrip() {
    let id: JFieldID = JFieldID::from(0x7f00_1234usize);
    let copy = id;
    assert_eq!(id.into_inner(), 0x7f00_1234);
    assert_eq!(copy.into_inner(), 0x7f00_1234);
    assert_eq!(JFieldID::from(0usize).into_inner(), 0);
}

#[test]
fn jlong_conversion_keeps_small_counters() {
    assert_eq!(stat_to_jlong(0), 0);
    assert_eq!(stat_to_jlong(4096), 4096);
    assert_eq!(stat_to_jlong(i64::MAX as usize), i64::MAX);
}

#[test]
fn jlong_conversion_wraps_large_counters() {
    assert_eq!(stat_to_jlong(usize::MAX), -1);
    assert_eq!(stat_to_jlong(1usize << 63), i64::MIN);
    assert_eq!(stat_to_jlong((1usize << 63) + 5), i64::MIN + 5);
}

#[test]
fn stat_result_conversion() {
    assert_eq!(stat_result_to_jlong(Ok(12)), Ok(12));
    let e = StatError { code: Some(22) };
    assert_eq!(stat_result_to_jlong(Err(e)), Err(e));
    assert_eq!(stat_result_to_jlong(Err(StatError { code: None })), Err(StatError { code: None }));
}

#[test]
fn epoch_advances_by_one() {
    let a = advance_epoch().unwrap();
    let b = advance_epoch().unwrap();
    assert_eq!(a + 1, b);
}

#[test]
fn allocator_counters_are_readable() {
    for r in [allocated(), active(), metadata(), resident(), mapped(), retained()] {
        let v = r.unwrap();
        assert!(v >= 0);
    }
}

#[test]
fn server_config_defaults_when_nothing_is_set() {
    let c = ServerConfig::from_native_args(None, None, None, 0, 0, 0, 0, 0, 0);
    assert_eq!(c.system_name, "mojo");
    assert_eq!(c.bind, "localhost:8000");
    assert_eq!(c.hostname, None);
    assert_eq!(c.workers, None);
    assert_eq!(c.backlog, None);
    assert!(!c.system_exit);
    assert!(!c.disable_signals);
    assert_eq!(c.shutdown_timeout, None);
    assert!(!c.no_http2);
}

#[test]
fn server_config_takes_positive_arguments() {
    let c = ServerConfig::from_native_args(
        Some("app".to_string()),
        Some("0.0.0.0:9000".to_string()),
        Some("example.org".to_string()),
        4,
        1024,
        1,
        2,
        30,
        1,
    );
    assert_eq!(c.system_name, "app");
    assert_eq!(c.bind, "0.0.0.0:9000");
    assert_eq!(c.hostname, Some("example.org".to_string()));
    assert_eq!(c.workers, Some(4));
    assert_eq!(c.backlog, Some(1024));
    assert!(c.system_exit);
    assert!(c.disable_signals);
    assert_eq!(c.shutdown_timeout, Some(30));
    assert!(c.no_http2);
}

#[test]
fn server_config_ignores_negative_arguments() {
    let c = ServerConfig::from_native_args(None, None, None, -1, -5, -1, -1, -30, -1);
    assert_eq!(c.workers, None);
    assert_eq!(c.backlog, None);
    assert!(!c.system_exit);
    assert!(!c.disable_signals);
    assert_eq!(c.shutdown_timeout, None);
    assert!(!c.no_http2);
}

#[test]
fn server_config_cuts_shutdown_timeout_to_sixteen_bits() {
    let c = ServerConfig::from_native_args(None, None, None, 0, 0, 0, 0, 70000, 0);
    assert_eq!(c.shutdown_timeout, Some(4464));
    let c = ServerConfig::from_native_args(None, None, None, 0, 0, 0, 0, 65536, 0);
    assert_eq!(c.shutdown_timeout, Some(0));
}

#[test]
fn standalone_server_config() {
    let c = ServerConfig::standalone();
    assert_eq!(c.system_name, "mojo");
    assert_eq!(c.bind, "localhost:8000");
    assert_eq!(c.workers, Some(2));
    assert_eq!(c.hostname, None);
    assert_eq!(c.backlog, None);
    assert_eq!(c.shutdown_timeout, None);
    assert!(!c.system_exit && !c.disable_signals && !c.no_http2);
}

#[test]
fn stop_request_flags() {
    assert_eq!(StopRequest::from_native_args(1, 0), StopRequest { graceful: true, wait: false });
    assert_eq!(StopRequest::from_native_args(0, 7), StopRequest { graceful: false, wait: true });
    assert_eq!(StopRequest::from_native_args(-1, -1), StopRequest { graceful: false, wait: false });
}

#[test]
fn greeting_uses_name_or_world() {
    assert_eq!(greeting(Some("Alice")), "Hello Alice!");
    assert_eq!(greeting(None), "Hello World!");
    assert_eq!(greeting(Some("")), "Hello !");
}

fn bad(body: &str) -> Page {
    Page { status: 400, content_type: None, body: body.to_string() }
}

#[test]
fn java_handler_refuses_without_async_result() {
    assert!(!is_async_result());
    assert_eq!(java_handler_reply(false), Reply::Now(bad("Bad data")));
    assert_eq!(java_handler_reply(true), Reply::Later);
    assert_eq!(BAD_REQUEST, 400);
}

#[test]
fn error_handler_replies() {
    assert!(is_error());
    assert_eq!(error_handler_reply(true), Err(bad("bad request")));
    assert_eq!(
        error_handler_reply(false),
        Ok(Page { status: OK, content_type: Some("text/html".to_string()), body: "Hello!".to_string() })
    );
}

#[test]
fn either_handler_replies() {
    assert!(is_a_variant());
    assert_eq!(either_handler_reply(true), Reply::Now(bad("Bad data")));
    assert_eq!(either_handler_reply(false), Reply::Later);
    let p = either_handler_later_page();
    assert_eq!(p.status, 200);
    assert_eq!(p.content_type.as_deref(), Some("text/html"));
    assert_eq!(p.body, "Hello!");
}

#[test]
fn timer_acknowledges_each_message() {
    assert_eq!(reply_to(Messages::Ping), Responses::GotPing);
    assert_eq!(reply_to(Messages::Pong), Responses::GotPong);
}

#[test]
fn registry_keeps_arbiters_in_order() {
    let mut app: MojoApp<u32> = MojoApp::new();
    assert_eq!(app.arbiter_count(), 0);
    app.add_arbiter(7);
    app.add_arbiter(9);
    assert_eq!(app.arbiter_count(), 2);
    app.attach_jvm("vm");
    assert_eq!(app.arbiter_count(), 2);
}

#[test]
fn reply_is_sent_to_waiting_sender() {
    let r: Response<u8, (), &str> = Response::reply(Ok(3));
    assert_eq!(r.deliver(Some("tx")), Delivery::Send("tx", Ok(3)));
    let r: Response<u8, (), &str> = Response::reply(Err(()));
    assert_eq!(r.deliver::<&str>(None), Delivery::Discard(Err(())));
}

#[test]
fn future_is_spawned_with_channel() {
    let r: Response<u8, (), &str> = Response::future("fut");
    assert_eq!(r.deliver(Some(1u8)), Delivery::Spawn("fut", Some(1u8)));
    let r: Response<u8, (), &str> = Response::future("fut");
    assert_eq!(r.deliver::<u8>(None), Delivery::Spawn("fut", None));
}

#[test]
fn jni_strings_are_modified_utf8_with_terminator() {
    assert_eq!(to_jni_string("java/lang/String"), b"java/lang/String\0".to_vec());
    assert_eq!(to_jni_string(""), vec![0]);
    assert_eq!(to_jni_string("a\u{e9}"), vec![0x61, 0xc3, 0xa9, 0]);
    assert_eq!(to_jni_string("a\0b"), vec![0x61, 0xc0, 0x80, 0x62, 0]);
    assert_eq!(to_jni_string("\u{10401}"), vec![0xed, 0xa0, 0x81, 0xed, 0xb0, 0x81, 0]);
}

#[test]
fn class_lookups() {
    assert_eq!(
        lookup_class(&ClassDesc::Name("run/mojo/app/WorkerBuilder".to_string())),
        ClassLookup::FindClass(b"run/mojo/app/WorkerBuilder\0".to_vec())
    );
    assert_eq!(lookup_class(&ClassDesc::Object(0x10)), ClassLookup::GetObjectClass(0x10));
    assert_eq!(lookup_class(&ClassDesc::GlobalRef(0x20)), ClassLookup::Reference(0x20));
    assert_eq!(lookup_class(&ClassDesc::AutoLocal(0x30)), ClassLookup::Reference(0x30));
}

#[test]
fn field_lookups() {
    let desc = FieldDesc {
        class: ClassDesc::Name("java/lang/Integer".to_string()),
        name: "value".to_string(),
        sig: "I".to_string(),
    };
    let f = lookup_field(&desc);
    assert_eq!(f.class, ClassLookup::FindClass(b"java/lang/Integer\0".to_vec()));
    assert_eq!(f.name, b"value\0".to_vec());
    assert_eq!(f.sig, b"I\0".to_vec());
    assert!(!f.is_static);
    let s = lookup_static_field(&FieldDesc { class: ClassDesc::Object(5), ..desc });
    assert_eq!(s.class, ClassLookup::GetObjectClass(5));
    assert!(s.is_static);
}

#[test]
fn arbiter_attaches_jvm() {
    let mut a: MojoArbiter<&str, u8, u32, &str> = MojoArbiter::new(AppState {}, "sys", 1, 42);
    assert!(a.jvm().is_none());
    a.init();
    assert!(a.jvm().is_none());
    a.attach_jvm("vm", 42);
    let j = a.jvm().unwrap();
    assert_eq!(j.vm, "vm");
    assert_eq!(j.thread, 42);
    assert_eq!(*a.thread(), 42);
    a.attach_jvm("vm2", 43);
    assert_eq!(a.jvm().unwrap().vm, "vm2");
}

#[test]
fn jni_strings_decode() {
    assert_eq!(from_jni_string(b"localhost:8000"), Some("localhost:8000".to_string()));
    assert_eq!(from_jni_string(&[0x61, 0xc0, 0x80, 0x62]), Some("a\0b".to_string()));
    assert_eq!(from_jni_string(&[0xed, 0xa0, 0x81, 0xed, 0xb0, 0x81]), Some("\u{10401}".to_string()));
    assert_eq!(from_jni_string(&[0xff]), None);
    assert_eq!(from_jni_string(&[0xc0, 0x81]), None);
    assert_eq!(from_jni_string(&[]), Some(String::new()));
}

#[test]
fn jni_strings_roundtrip() {
    for s in ["", "mojo", "a\0b", "\u{10401}x", "\u{e9}t\u{e9}", "\0"] {
        let mut bytes = to_jni_string(s);
        assert_eq!(bytes.pop(), Some(0));
        assert_eq!(from_jni_string(&bytes), Some(s.to_string()));
    }
}

#[test]
fn jni_strings_take_valid_utf8_as_is() {
    assert_eq!(from_jni_string(b"a\0"), Some("a\0".to_string()));
    assert_eq!(from_jni_string("\u{10401}".as_bytes()), Some("\u{10401}".to_string()));
    assert_eq!(from_jni_string("h\u{e9}".as_bytes()), Some("h\u{e9}".to_string()));
}

#[test]
fn worker_handle_from_init_outcome() {
    assert_eq!(worker_handle(InitOutcome::Object(0x40)), Ok(WorkerHandle::Pinned(0x40)));
    assert_eq!(worker_handle(InitOutcome::Object(0)), Ok(WorkerHandle::Pinned(0)));
    assert_eq!(worker_handle(InitOutcome::NotAnObject), Ok(WorkerHandle::Unpinned));
    assert_eq!(worker_handle(InitOutcome::MethodMissing), Err(InitError::MethodMissing));
    assert_eq!(worker_handle(InitOutcome::CallFailed), Err(InitError::CallFailed));
}

#[test]
fn timer_pings_now_and_after_a_second() {
    assert_eq!(timer_ping_delays(), vec![0, 1]);
}

#[test]
fn registry_holds_each_registered_arbiter() {
    let mut app: MojoApp<usize> = MojoApp::new();
    for k in 0..5 {
        assert_eq!(app.arbiter_count(), k);
        app.add_arbiter(k);
    }
    assert_eq!(app.arbiter_count(), 5);
}
