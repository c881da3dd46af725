use lu::allocator::LuauAllocator;
use lu::compiler::Bytecode;
use lu::extra::{Function, Ref, Type};
use lu::ops::{Instr, StackOp};
use lu::stack::Stack;
use lu::sys::{lua_Type, LUA_REGISTRYINDEX};
use lu::thread::{Thread, ThreadMain};
use lu::userdata::Userdata;
use lu::Config;

struct NoAlloc;

impl LuauAllocator for NoAlloc {
    fn allocate(&mut self, _nsize: usize) -> usize {
        0
    }

    fn realloc(&mut self, _ptr: usize, _osize: usize, _nsize: usize) -> usize {
        0
    }

    fn dealloc(&mut self, _ptr: usize, _osize: usize) {}
}

struct Cfg;

impl Config for Cfg {
    type Allocator = NoAlloc;
    type MainData = ();
    type ThreadData = ();
    type Function = u8;
    type Continuation = u16;

    fn thread_data(_parent: &Thread<Self>, _thread: &Thread<Self>) {}
}

struct Point;

impl Userdata for Point {
    fn tag() -> u32 {
        7
    }

    fn name() -> &'static str {
        "Point"
    }
}

struct Huge;

impl Userdata for Huge {
    fn tag() -> u32 {
        u32::MAX
    }

    fn name() -> &'static str {
        "Huge"
    }
}

struct Zero;

impl Userdata for Zero {
    fn tag() -> u32 {
        0
    }

    fn name() -> &'static str {
        "Zero"
    }
}

fn stack(id: usize) -> Stack<Cfg> {
    Stack::new(Thread::new(id))
}

fn only(stack: &Stack<Cfg>) -> &Instr<Cfg, Vec<u8>> {
    assert_eq!(stack.ops.len(), 1);
    &stack.ops[0]
}

#[test]
fn new_stack_is_bound_and_empty() {
    let s = stack(7);
    assert_eq!(s.as_ptr(), 7);
    assert_eq!(s.thread().id, 7);
    assert_eq!(s.main(3).thread.id, 3);
    assert!(s.ops.is_empty());
}

#[test]
fn each_request_is_recorded_for_the_own_context() {
    let mut s = stack(7);
    s.push_nil();
    let i = only(&s);
    assert_eq!(i.on.id, 7);
    assert!(matches!(i.op, StackOp::PushNil));
}

#[test]
fn stack_shuffles_are_recorded() {
    let mut s = stack(1);
    s.reserve(4);
    s.set_top(3);
    s.pop(2);
    s.remove(-2);
    s.insert(1);
    s.replace(LUA_REGISTRYINDEX);
    s.push_copy(-1);
    assert_eq!(s.ops.len(), 7);
    assert!(matches!(s.ops[0].op, StackOp::Reserve(4)));
    assert!(matches!(s.ops[1].op, StackOp::SetTop(3)));
    assert!(matches!(s.ops[2].op, StackOp::Pop(2)));
    assert!(matches!(s.ops[3].op, StackOp::Remove(-2)));
    assert!(matches!(s.ops[4].op, StackOp::Insert(1)));
    assert!(matches!(s.ops[5].op, StackOp::Replace(-10000)));
    assert!(matches!(s.ops[6].op, StackOp::PushCopy(-1)));
}

#[test]
fn plain_values_are_recorded_bit_for_bit() {
    let mut s = stack(1);
    s.push_boolean(true);
    s.push_boolean(false);
    s.push_light_userdata(0xdead);
    s.push_number(3.14159f64.to_bits());
    s.push_number(f64::NAN.to_bits());
    s.push_vector((1.0f32.to_bits(), (-0.0f32).to_bits(), f32::INFINITY.to_bits()));
    assert!(matches!(s.ops[0].op, StackOp::PushBoolean(true)));
    assert!(matches!(s.ops[1].op, StackOp::PushBoolean(false)));
    assert!(matches!(s.ops[2].op, StackOp::PushLightUserdata(0xdead)));
    assert!(matches!(s.ops[3].op, StackOp::PushNumber(b) if f64::from_bits(b) == 3.14159));
    assert!(matches!(s.ops[4].op, StackOp::PushNumber(b) if b == f64::NAN.to_bits()));
    assert!(
        matches!(s.ops[5].op, StackOp::PushVector(x, y, z) if x == 0x3f80_0000 && y == 0x8000_0000 && z == 0x7f80_0000)
    );
}

#[test]
fn strings_keep_zero_bytes_and_may_be_empty() {
    let mut s = stack(1);
    s.push_string(b"a\0b\0");
    s.push_string(b"");
    s.push_string(&[0xff, 0x00, 0xfe]);
    assert!(matches!(&s.ops[0].op, StackOp::PushString(b) if b.as_slice() == b"a\0b\0"));
    assert!(matches!(&s.ops[1].op, StackOp::PushString(b) if b.is_empty()));
    assert!(matches!(&s.ops[2].op, StackOp::PushString(b) if b.as_slice() == [0xff, 0x00, 0xfe]));
}

#[test]
fn tables_are_recorded_with_their_hints() {
    let mut s = stack(1);
    s.push_table();
    s.push_table_with(3, 9);
    assert!(matches!(s.ops[0].op, StackOp::PushTable { narr: 0, nrec: 0 }));
    assert!(matches!(s.ops[1].op, StackOp::PushTable { narr: 3, nrec: 9 }));
}

#[test]
fn functions_are_recorded_in_their_shape() {
    let mut s = stack(1);
    s.push_extern_function("f", 10);
    s.push_extern_function_cont("g", 11, 12);
    s.push_extern_closure("h", 2, 13);
    s.push_extern_closure_cont("k", 3, 14, 15);
    s.push_function(&Function::norm("n", 16));
    s.push_function(&Function::cont("c", 17, 18));
    assert!(
        matches!(s.ops[0].op, StackOp::PushClosure { func: Function::Normal { name: "f", func: 10 }, nups: 0 })
    );
    assert!(
        matches!(s.ops[1].op, StackOp::PushClosure { func: Function::Continuation { name: "g", func: 11, cont: 12 }, nups: 0 })
    );
    assert!(
        matches!(s.ops[2].op, StackOp::PushClosure { func: Function::Normal { name: "h", func: 13 }, nups: 2 })
    );
    assert!(
        matches!(s.ops[3].op, StackOp::PushClosure { func: Function::Continuation { name: "k", func: 14, cont: 15 }, nups: 3 })
    );
    assert!(
        matches!(s.ops[4].op, StackOp::PushClosure { func: Function::Normal { name: "n", func: 16 }, nups: 0 })
    );
    assert!(
        matches!(s.ops[5].op, StackOp::PushClosure { func: Function::Continuation { name: "c", func: 17, cont: 18 }, nups: 0 })
    );
}

#[test]
fn bytecode_is_recorded_with_its_name() {
    let mut s = stack(1);
    s.push_bytecode("=chunk", Bytecode(&[6, 0, 1]));
    assert!(
        matches!(&s.ops[0].op, StackOp::PushBytecode { name: "=chunk", bytes } if bytes.as_slice() == [6, 0, 1])
    );
}

#[test]
fn userdata_block_is_recorded_with_tag_and_size() {
    let mut s = stack(1);
    s.push_userdata::<Point>(24, true);
    assert!(matches!(s.ops[0].op, StackOp::PushUserdata { tag: 7, size: 24 }));
}

#[test]
fn own_thread_is_pushed_directly() {
    let mut s = stack(7);
    s.push_thread(&Thread::new(7));
    let i = only(&s);
    assert_eq!(i.on.id, 7);
    assert!(matches!(i.op, StackOp::PushThread));
}

#[test]
fn other_thread_is_pushed_there_and_moved_over() {
    let mut s = stack(7);
    s.push_thread(&Thread::new(9));
    assert_eq!(s.ops.len(), 3);
    assert_eq!(s.ops[0].on.id, 9);
    assert!(matches!(s.ops[0].op, StackOp::Reserve(1)));
    assert_eq!(s.ops[1].on.id, 9);
    assert!(matches!(s.ops[1].op, StackOp::PushThread));
    assert_eq!(s.ops[2].on.id, 9);
    assert!(matches!(s.ops[2].op, StackOp::XMove { to, n: 1 } if to.id == 7));
}

#[test]
fn cross_stack_moves_name_the_target() {
    let mut s = stack(7);
    s.xmove(&Thread::new(9), 2);
    s.xpush(&Thread::new(9), -1);
    assert!(matches!(s.ops[0].op, StackOp::XMove { to, n: 2 } if to.id == 9));
    assert!(matches!(s.ops[1].op, StackOp::XPush { to, idx: -1 } if to.id == 9));
    assert_eq!(s.ops[0].on.id, 7);
}

#[test]
fn reference_is_pushed_from_the_registry() {
    let mut s = stack(7);
    let r: Ref<Cfg> = Ref::new(ThreadMain::new(1), 42);
    s.push_ref(&r);
    assert!(matches!(s.ops[0].op, StackOp::TableGetRawI(-10000, 42)));
}

#[test]
fn table_accesses_are_recorded() {
    let mut s = stack(1);
    s.table_get(-2);
    s.table_set(-3);
    s.table_get_field(-1, "x");
    s.table_set_field(-2, "y");
    s.table_get_raw(-2);
    s.table_set_raw(-3);
    s.table_get_raw_i(-1, 4);
    s.table_set_raw_i(-2, 5);
    s.table_get_raw_field(-1, "z");
    s.table_set_raw_field(-2, "w");
    s.table_set_readonly(-1, true);
    s.set_userdata_metatable(3);
    s.set_userdata_dtor(3);
    assert!(matches!(s.ops[0].op, StackOp::TableGet(-2)));
    assert!(matches!(s.ops[1].op, StackOp::TableSet(-3)));
    assert!(matches!(s.ops[2].op, StackOp::TableGetField(-1, "x")));
    assert!(matches!(s.ops[3].op, StackOp::TableSetField(-2, "y")));
    assert!(matches!(s.ops[4].op, StackOp::TableGetRaw(-2)));
    assert!(matches!(s.ops[5].op, StackOp::TableSetRaw(-3)));
    assert!(matches!(s.ops[6].op, StackOp::TableGetRawI(-1, 4)));
    assert!(matches!(s.ops[7].op, StackOp::TableSetRawI(-2, 5)));
    assert!(matches!(s.ops[8].op, StackOp::TableGetRawField(-1, "z")));
    assert!(matches!(s.ops[9].op, StackOp::TableSetRawField(-2, "w")));
    assert!(matches!(s.ops[10].op, StackOp::TableSetReadonly(-1, true)));
    assert!(matches!(s.ops[11].op, StackOp::SetUserdataMetatable(3)));
    assert!(matches!(s.ops[12].op, StackOp::SetUserdataDtor(3)));
}

#[test]
fn take_hands_the_program_over() {
    let mut s = stack(1);
    s.push_nil();
    s.pop(1);
    let program = s.take();
    assert_eq!(program.len(), 2);
    assert!(matches!(program[0].op, StackOp::PushNil));
    assert!(matches!(program[1].op, StackOp::Pop(1)));
    assert!(s.ops.is_empty());
    assert_eq!(s.as_ptr(), 1);
}

#[test]
fn kind_queries_compare_the_reported_kind() {
    let s = stack(1);
    assert_eq!(s.type_of(lua_Type::LUA_TNONE), Type::Absent);
    assert_eq!(s.type_of(lua_Type::LUA_TSTRING), Type::String);
    assert!(s.is_none(Type::Absent) && !s.is_none(Type::Nil));
    assert!(s.is_nil(Type::Nil) && !s.is_nil(Type::Absent));
    assert!(s.is_boolean(Type::Boolean) && !s.is_boolean(Type::Number));
    assert!(s.is_light_userdata(Type::LightUserdata) && !s.is_light_userdata(Type::Userdata));
    assert!(s.is_number(Type::Number) && !s.is_number(Type::String));
    assert!(s.is_vector(Type::Vector) && !s.is_vector(Type::Number));
    assert!(s.is_string(Type::String) && !s.is_string(Type::Number));
    assert!(s.is_table(Type::Table) && !s.is_table(Type::Userdata));
    assert!(s.is_function(Type::Function) && !s.is_function(Type::Table));
    assert!(s.is_thread(Type::Thread) && !s.is_thread(Type::Function));
    assert!(s.is_buffer(Type::Buffer) && !s.is_buffer(Type::String));
}

#[test]
fn userdata_test_compares_tags() {
    let s = stack(1);
    assert!(s.is_userdata::<Point>(7));
    assert!(!s.is_userdata::<Point>(6));
    assert!(!s.is_userdata::<Point>(-1));
    assert!(!s.is_userdata::<Huge>(-1));
    assert!(s.is_userdata::<Zero>(0));
}

#[test]
fn checked_reads_read_only_matching_slots() {
    let s = stack(1);
    assert_eq!(s.to_boolean(Type::Boolean, || true), Some(true));
    assert_eq!(s.to_boolean(Type::Nil, || unreachable!()), None);
    assert_eq!(s.to_number(Type::Number, || 5.0f64.to_bits()), Some(5.0f64.to_bits()));
    assert_eq!(s.to_number(Type::String, || unreachable!()), None);
    assert_eq!(s.to_light_userdata(Type::LightUserdata, || 64), Some(64));
    assert_eq!(s.to_light_userdata(Type::Userdata, || unreachable!()), None);
    assert_eq!(s.to_string_slice(Type::String, || &b"a\0"[..]), Some(&b"a\0"[..]));
    assert_eq!(s.to_string_slice(Type::Number, || unreachable!()), None);
    assert_eq!(s.to_vector(16, || (1, 2, 3)), Some((1, 2, 3)));
    assert_eq!(s.to_vector(0, || unreachable!()), None);
    assert!(s.to_boolean_unchecked(1));
    assert!(s.to_boolean_unchecked(-3));
    assert!(!s.to_boolean_unchecked(0));
}

#[test]
fn text_reads_need_well_formed_utf8() {
    let s = stack(1);
    assert_eq!(s.to_string_str_unchecked("héllo".as_bytes()), Some("héllo"));
    assert_eq!(s.to_string_str_unchecked(b""), Some(""));
    assert_eq!(s.to_string_str_unchecked(&[0xff, 0xfe]), None);
    assert_eq!(s.to_string_str_unchecked(&[0xc3]), None);
    assert_eq!(s.to_string_str(Type::String, || &b"ok"[..]), Some("ok"));
    assert_eq!(s.to_string_str(Type::String, || &[0x80u8][..]), None);
    assert_eq!(s.to_string_str(Type::Number, || unreachable!()), None);
}

#[test]
fn found_blocks_and_buffers_need_an_address() {
    let s = stack(1);
    assert_eq!(s.to_userdata(4096), Some(4096));
    assert_eq!(s.to_userdata(0), None);
    assert_eq!(s.to_buffer(4096, 10), Some((4096, 10)));
    assert_eq!(s.to_buffer(0, 10), None);
}

#[test]
fn threads_are_read_with_their_reference() {
    let s = stack(7);
    let got = s.to_thread(9, || Ref::new(ThreadMain::new(1), 12));
    let got = got.unwrap();
    assert_eq!(got.thread.id, 9);
    assert_eq!(got.thref.key, 12);
    assert_eq!(got.thref.main.thread.id, 1);
    assert!(s.to_thread(0, || unreachable!()).is_none());
    let unchecked = s.to_thread_unchecked(9, Ref::new(ThreadMain::new(1), 13));
    assert_eq!(unchecked.thread().id, 9);
    assert_eq!(unchecked.thref.key, 13);
    let fresh = s.push_thread_new(11, Ref::new(ThreadMain::new(1), 14));
    assert_eq!(fresh.thread.id, 11);
    assert_eq!(fresh.thref.key, 14);
}

#[test]
fn reference_belongs_to_the_root() {
    let s = stack(7);
    let r = s.to_ref(1, 33);
    assert_eq!(r.main.thread.id, 1);
    assert_eq!(r.key, 33);
}

#[test]
fn rooted_value_is_pushed_back_under_its_key() {
    let mut s = stack(7);
    let r = s.to_ref(1, 33);
    s.push_ref(&r);
    s.push_ref(&r);
    assert!(matches!(s.ops[0].op, StackOp::TableGetRawI(LUA_REGISTRYINDEX, 33)));
    assert!(matches!(s.ops[1].op, StackOp::TableGetRawI(LUA_REGISTRYINDEX, 33)));
    assert!(matches!(r.release(), lu::extra::Release::Unref { main, key: 33 } if main.thread.id == 1));
}

#[test]
fn walk_follows_the_cursor_until_the_end() {
    let s = stack(1);
    let mut walk = s.iter(-1);
    assert_eq!(walk.tblidx, -1);
    assert_eq!(walk.index, 0);
    let answers = [1, 2, 5, -1];
    let mut handed = Vec::new();
    let mut visits = 0;
    for answer in answers {
        handed.push(walk.index);
        if walk.advance(answer) {
            visits += 1;
        } else {
            break;
        }
    }
    assert_eq!(handed, vec![0, 1, 2, 5]);
    assert_eq!(visits, 3);
    assert_eq!(walk.index, 5);
    assert_eq!(walk.tblidx, -1);
}

#[test]
fn visited_entry_is_dropped() {
    let mut s = stack(1);
    let mut walk = s.iter(-1);
    assert!(walk.advance(1));
    s.iter_leave(&walk);
    assert!(matches!(only(&s).op, StackOp::Pop(2)));
}

#[test]
fn walk_over_empty_table_visits_nothing() {
    let s = stack(1);
    let mut walk = s.iter(2);
    assert!(!walk.advance(-1));
    assert_eq!(walk.index, 0);
}
