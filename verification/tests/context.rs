use lu::allocator::LuauAllocator;
use lu::context::{ArgError, Context, FnReturn};
use lu::extra::{Ref, Type};
use lu::ops::StackOp;
use lu::thread::{Thread, ThreadMain, ThreadRef};
use lu::userdata::Userdata;
use lu::Config;

struct NoAlloc;

impl LuauAllocator for NoAlloc {
    fn allocate(&mut self, _nsize: usize) -> usize {
        0
    }

    fn realloc(&mut self, _ptr: usize, _osize: usize, _nsize: usize) -> usize {
        0
    }

    fn dealloc(&mut self, _ptr: usize, _osize: usize) {}
}

struct Cfg;

impl Config for Cfg {
    type Allocator = NoAlloc;
    type MainData = ();
    type ThreadData = ();
    type Function = u8;
    type Continuation = u16;

    fn thread_data(_parent: &Thread<Self>, _thread: &Thread<Self>) {}
}

struct Point;

impl Userdata for Point {
    fn tag() -> u32 {
        7
    }

    fn name() -> &'static str {
        "Point"
    }
}

fn ctx() -> Context<Cfg> {
    Context::new(64)
}

fn type_error<T>(narg: u32, expected: &str) -> Result<T, ArgError> {
    Err(ArgError::Type { narg, expected: expected.to_string() })
}

const OTHERS: [Type; 4] = [Type::LightUserdata, Type::Absent, Type::Nil, Type::Userdata];

#[test]
fn context_is_bound_to_its_thread() {
    let c = ctx();
    assert_eq!(c.thread().id, 64);
    let stack = c.stack();
    assert_eq!(stack.as_ptr(), 64);
    assert!(stack.ops.is_empty());
}

#[test]
fn errors_carry_position_and_text() {
    let c = ctx();
    let e = c.arg_error(3, "must be positive");
    assert_eq!(e, ArgError::Argument { narg: 3, reason: "must be positive".to_string() });
    assert_eq!(e.narg(), 3);
    let e = c.arg_type_error(2, "number");
    assert_eq!(e, ArgError::Type { narg: 2, expected: "number".to_string() });
    assert_eq!(e.narg(), 2);
}

#[test]
fn string_where_number_is_required_is_refused_as_number() {
    let c = ctx();
    let got = c.arg_number(1, Type::String, || unreachable!());
    assert_eq!(got, type_error(1, "number"));
    match got {
        Err(ArgError::Type { narg, expected }) => {
            assert_eq!(narg, 1);
            assert_eq!(expected, "number");
        }
        _ => unreachable!(),
    }
}

#[test]
fn boolean_argument() {
    let c = ctx();
    assert_eq!(c.arg_boolean(1, Type::Boolean, || true), Ok(true));
    assert_eq!(c.arg_boolean(1, Type::Boolean, || false), Ok(false));
    for kind in OTHERS {
        assert_eq!(c.arg_boolean(4, kind, || unreachable!()), type_error(4, "boolean"));
    }
    assert_eq!(c.arg_boolean_opt(1, Type::Boolean, || true), Ok(Some(true)));
    assert_eq!(c.arg_boolean_opt(1, Type::Nil, || unreachable!()), Ok(None));
    assert_eq!(c.arg_boolean_opt(1, Type::Absent, || unreachable!()), Ok(None));
    assert_eq!(
        c.arg_boolean_opt(2, Type::Number, || unreachable!()),
        type_error(2, "boolean or nil")
    );
}

#[test]
fn number_argument() {
    let c = ctx();
    let bits = 2.5f64.to_bits();
    assert_eq!(c.arg_number(1, Type::Number, || bits), Ok(bits));
    for kind in OTHERS {
        assert_eq!(c.arg_number(2, kind, || unreachable!()), type_error(2, "number"));
    }
    assert_eq!(c.arg_number_opt(1, Type::Number, || bits), Ok(Some(bits)));
    assert_eq!(c.arg_number_opt(1, Type::Nil, || unreachable!()), Ok(None));
    assert_eq!(c.arg_number_opt(1, Type::Absent, || unreachable!()), Ok(None));
    assert_eq!(
        c.arg_number_opt(3, Type::String, || unreachable!()),
        type_error(3, "number or nil")
    );
}

#[test]
fn vector_argument() {
    let c = ctx();
    assert_eq!(c.arg_vector(1, 4096, || (1, 2, 3)), Ok((1, 2, 3)));
    assert_eq!(c.arg_vector(1, 0, || unreachable!()), type_error(1, "vector"));
    assert_eq!(c.arg_vector_opt(1, Type::Vector, || (1, 2, 3)), Ok(Some((1, 2, 3))));
    assert_eq!(c.arg_vector_opt(1, Type::Nil, || unreachable!()), Ok(None));
    assert_eq!(c.arg_vector_opt(1, Type::Absent, || unreachable!()), Ok(None));
    assert_eq!(
        c.arg_vector_opt(1, Type::Number, || unreachable!()),
        type_error(1, "vector or nil")
    );
}

#[test]
fn string_argument_as_bytes() {
    let c = ctx();
    assert_eq!(c.arg_string_slice(1, Type::String, || &b"a\0b"[..]), Ok(&b"a\0b"[..]));
    assert_eq!(c.arg_string_slice(1, Type::String, || &[0xffu8][..]), Ok(&[0xffu8][..]));
    assert_eq!(c.arg_string_slice(1, Type::Number, || unreachable!()), type_error(1, "string"));
    assert_eq!(c.arg_string_slice_opt(1, Type::String, || &b""[..]), Ok(Some(&b""[..])));
    assert_eq!(c.arg_string_slice_opt(1, Type::Nil, || unreachable!()), Ok(None));
    assert_eq!(c.arg_string_slice_opt(1, Type::Absent, || unreachable!()), Ok(None));
    assert_eq!(
        c.arg_string_slice_opt(1, Type::Table, || unreachable!()),
        type_error(1, "string or nil")
    );
}

#[test]
fn string_argument_as_text() {
    let c = ctx();
    assert_eq!(c.arg_string_str(1, Type::String, || "héllo".as_bytes()), Ok("héllo"));
    assert_eq!(c.arg_string_str(1, Type::String, || &[0xffu8][..]), type_error(1, "utf-8 string"));
    assert_eq!(c.arg_string_str(1, Type::Number, || unreachable!()), type_error(1, "utf-8 string"));
    assert_eq!(c.arg_string_str_opt(1, Type::String, || &b"ok"[..]), Ok(Some("ok")));
    assert_eq!(c.arg_string_str_opt(1, Type::Nil, || unreachable!()), Ok(None));
    assert_eq!(c.arg_string_str_opt(1, Type::Absent, || unreachable!()), Ok(None));
    assert_eq!(
        c.arg_string_str_opt(2, Type::String, || &[0xc3u8, 0x28][..]),
        type_error(2, "utf-8 string")
    );
    assert_eq!(
        c.arg_string_str_opt(2, Type::Boolean, || unreachable!()),
        type_error(2, "utf-8 string or nil")
    );
}

#[test]
fn table_and_function_arguments() {
    let c = ctx();
    assert_eq!(c.arg_table(1, Type::Table), Ok(()));
    assert_eq!(c.arg_table(1, Type::Nil), type_error(1, "table"));
    assert_eq!(c.arg_table_opt(1, Type::Table), Ok(Some(())));
    assert_eq!(c.arg_table_opt(1, Type::Nil), Ok(None));
    assert_eq!(c.arg_table_opt(1, Type::Absent), Ok(None));
    assert_eq!(c.arg_table_opt(1, Type::Function), type_error(1, "table or nil"));
    assert_eq!(c.arg_function(2, Type::Function), Ok(()));
    assert_eq!(c.arg_function(2, Type::Table), type_error(2, "function"));
    assert_eq!(c.arg_function_opt(2, Type::Function), Ok(Some(())));
    assert_eq!(c.arg_function_opt(2, Type::Nil), Ok(None));
    assert_eq!(c.arg_function_opt(2, Type::Absent), Ok(None));
    assert_eq!(c.arg_function_opt(2, Type::Table), type_error(2, "function or nil"));
}

#[test]
fn userdata_argument_names_the_type() {
    let c = ctx();
    assert_eq!(c.arg_userdata::<Point>(1, 4096), Ok(4096));
    assert_eq!(c.arg_userdata::<Point>(1, 0), type_error(1, "Point"));
    assert_eq!(c.arg_userdata_opt::<Point, _>(1, Type::Userdata, || 4096), Ok(Some(4096)));
    assert_eq!(c.arg_userdata_opt::<Point, _>(1, Type::Nil, || unreachable!()), Ok(None));
    assert_eq!(c.arg_userdata_opt::<Point, _>(1, Type::Absent, || unreachable!()), Ok(None));
    assert_eq!(
        c.arg_userdata_opt::<Point, _>(2, Type::Userdata, || 0),
        type_error(2, "Point or nil")
    );
    assert_eq!(
        c.arg_userdata_opt::<Point, _>(2, Type::Table, || unreachable!()),
        type_error(2, "Point or nil")
    );
}

#[test]
fn thread_argument() {
    let c = ctx();
    let got = c.arg_thread(1, 128, || Ref::new(ThreadMain::new(64), 9)).unwrap();
    assert_eq!(got.thread.id, 128);
    assert_eq!(got.thref.key, 9);
    assert!(matches!(
        c.arg_thread(1, 0, || unreachable!()),
        Err(ArgError::Type { narg: 1, expected }) if expected == "thread"
    ));
    let read = || ThreadRef::<Cfg> {
        thread: Thread::new(128),
        thref: Ref::new(ThreadMain::new(64), 10),
    };
    let got = c.arg_thread_opt(1, Type::Thread, read).unwrap().unwrap();
    assert_eq!(got.thread.id, 128);
    assert_eq!(got.thref.key, 10);
    assert!(matches!(c.arg_thread_opt(1, Type::Nil, || unreachable!()), Ok(None)));
    assert!(matches!(c.arg_thread_opt(1, Type::Absent, || unreachable!()), Ok(None)));
    assert!(matches!(
        c.arg_thread_opt(3, Type::Number, || unreachable!()),
        Err(ArgError::Type { narg: 3, expected }) if expected == "thread or nil"
    ));
}

#[test]
fn buffer_argument() {
    let c = ctx();
    assert_eq!(c.arg_buffer(1, 4096, 16), Ok((4096, 16)));
    assert_eq!(c.arg_buffer(1, 0, 16), type_error(1, "buffer"));
    assert_eq!(c.arg_buffer_opt(1, Type::Buffer, || (4096, 16)), Ok(Some((4096, 16))));
    assert_eq!(c.arg_buffer_opt(1, Type::Nil, || unreachable!()), Ok(None));
    assert_eq!(c.arg_buffer_opt(1, Type::Absent, || unreachable!()), Ok(None));
    assert_eq!(
        c.arg_buffer_opt(1, Type::String, || unreachable!()),
        type_error(1, "buffer or nil")
    );
}

#[test]
fn captured_values_are_addressed_below_the_globals() {
    let c = ctx();
    let mut stack = c.stack();
    c.push_upvalue(&mut stack, 1);
    c.set_upvalue(&mut stack, 2);
    c.push_upvalue(&mut stack, 0);
    assert!(matches!(stack.ops[0].op, StackOp::PushCopy(-10003)));
    assert!(matches!(stack.ops[1].op, StackOp::Replace(-10004)));
    assert!(matches!(stack.ops[2].op, StackOp::PushCopy(-10002)));
}

#[test]
fn return_hands_back_the_count() {
    assert_eq!(ctx().ret(), FnReturn(0));
    assert_eq!(ctx().ret_with(0), FnReturn(0));
    assert_eq!(ctx().ret_with(3), FnReturn(3));
    assert_eq!(ctx().ret_with(i32::MAX as u32), FnReturn(i32::MAX));
}

#[test]
fn yield_hands_back_what_the_machine_answers() {
    let mut asked = Vec::new();
    let ret = ctx().yld(|n| {
        asked.push(n);
        -1
    });
    assert_eq!(ret, FnReturn(-1));
    let ret = ctx().yld_with(2, |n| {
        asked.push(n);
        -1
    });
    assert_eq!(ret, FnReturn(-1));
    assert_eq!(asked, vec![0, 2]);
}
