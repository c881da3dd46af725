use lu::allocator::LuauAllocator;
use lu::extra::Function;
use lu::library::{Library, LibraryConstant};
use lu::ops::{Instr, StackOp};
use lu::state::{State, Teardown, INDEX_FIELD, NAMECALL_FIELD, TYPE_FIELD};
use lu::thread::Thread;
use lu::userdata::{Methods, Userdata};
use lu::Config;

struct NoAlloc;

impl LuauAllocator for NoAlloc {
    fn allocate(&mut self, _nsize: usize) -> usize {
        0
    }

    fn realloc(&mut self, _ptr: usize, _osize: usize, _nsize: usize) -> usize {
        0
    }

    fn dealloc(&mut self, _ptr: usize, _osize: usize) {}
}

struct Cfg;

impl Config for Cfg {
    type Allocator = NoAlloc;
    type MainData = ();
    type ThreadData = ();
    type Function = u8;
    type Continuation = u16;

    fn thread_data(_parent: &Thread<Self>, _thread: &Thread<Self>) {}
}

struct Point;

impl Userdata for Point {
    fn tag() -> u32 {
        7
    }

    fn name() -> &'static str {
        "Point"
    }
}

fn describe(op: &StackOp<Cfg, Vec<u8>>) -> String {
    match op {
        StackOp::Reserve(n) => format!("reserve {n}"),
        StackOp::Pop(n) => format!("pop {n}"),
        StackOp::PushCopy(idx) => format!("copy {idx}"),
        StackOp::PushTable { narr, nrec } => format!("table {narr} {nrec}"),
        StackOp::PushString(b) => format!("string {:?}", String::from_utf8_lossy(b)),
        StackOp::PushNumber(bits) => format!("number {}", f64::from_bits(*bits)),
        StackOp::PushClosure { func: Function::Normal { name, func }, nups } => {
            format!("function {name} {func} {nups}")
        }
        StackOp::PushClosure { func: Function::Continuation { name, func, cont }, nups } => {
            format!("function {name} {func}/{cont} {nups}")
        }
        StackOp::TableSetRaw(idx) => format!("rawset {idx}"),
        StackOp::TableSetRawField(idx, field) => format!("rawsetfield {idx} {field}"),
        StackOp::SetUserdataMetatable(tag) => format!("metatable {tag}"),
        StackOp::SetUserdataDtor(tag) => format!("dtor {tag}"),
        _ => format!("other"),
    }
}

fn listing(program: &[Instr<Cfg, Vec<u8>>]) -> Vec<String> {
    program.iter().map(|i| describe(&i.op)).collect()
}

/// The change of depth of one instruction and the room it needs before it.
fn effect(op: &StackOp<Cfg, Vec<u8>>) -> (i64, i64) {
    match op {
        StackOp::Reserve(_) | StackOp::SetUserdataDtor(_) => (0, 0),
        StackOp::TableSetRaw(_) => (-2, 0),
        StackOp::TableSetRawField(..) | StackOp::SetUserdataMetatable(_) => (-1, 0),
        StackOp::Pop(n) => (-(*n as i64), 0),
        _ => (1, 1),
    }
}

/// The final depth and the deepest point of a program run from an empty
/// stack with `room` free slots; panics where an instruction has no room.
fn depths(program: &[Instr<Cfg, Vec<u8>>], room: i64) -> (i64, i64) {
    let mut depth = 0i64;
    let mut deepest = 0i64;
    let mut capacity = room;
    for instr in program {
        if let StackOp::Reserve(n) = instr.op {
            capacity = capacity.max(depth + n as i64);
        }
        let (change, needs) = effect(&instr.op);
        assert!(capacity - depth >= needs, "no room for {}", describe(&instr.op));
        depth += change;
        deepest = deepest.max(depth);
        assert!(depth >= 0);
    }
    (depth, deepest)
}

#[test]
fn field_names_are_the_machines() {
    assert_eq!(TYPE_FIELD, "__type");
    assert_eq!(NAMECALL_FIELD, "__namecall");
    assert_eq!(INDEX_FIELD, "__index");
}

#[test]
fn new_state_knows_nothing() {
    let mut state: State<Cfg> = State::new(64);
    assert_eq!(state.as_ptr(), 64);
    assert_eq!(state.thread().thread.id, 64);
    assert_eq!(state.data(), 64);
    assert!(state.libraries.is_empty());
    assert!(state.userdata.is_empty());
    assert!(state.stack().ops.is_empty());
    assert_eq!(state.stack().as_ptr(), 64);
    assert!(!state.is_registered(1));
}

#[test]
fn open_library_builds_and_binds_it_globally() {
    let mut state: State<Cfg> = State::new(64);
    let lib = Library::default()
        .with_constant("PI", LibraryConstant::Number(3.14159f64.to_bits()))
        .with_function_norm("add", 1);
    state.open_library("m", lib);
    assert_eq!(
        listing(&state.stack.ops),
        vec![
            "reserve 3",
            "string \"m\"",
            "reserve 2",
            "table 0 0",
            "string \"PI\"",
            "reserve 1",
            "number 3.14159",
            "rawset -3",
            "string \"add\"",
            "reserve 1",
            "function add 1 0",
            "rawset -3",
            "rawset -10002",
        ]
    );
    assert!(state.stack.ops.iter().all(|i| i.on.id == 64));
    assert_eq!(depths(&state.stack.ops, 0), (0, 4));
    assert_eq!(state.libraries.len(), 1);
    assert_eq!(state.libraries[0].0, "m");
    assert_eq!(state.libraries[0].1 .0.len(), 2);
}

#[test]
fn opened_libraries_are_kept_in_order() {
    let mut state: State<Cfg> = State::new(64);
    state.open_library("a", Library::default());
    state.open_library("b", Library::default().with_function_norm("f", 1));
    assert_eq!(state.libraries.len(), 2);
    assert_eq!(state.libraries[0].0, "a");
    assert_eq!(state.libraries[1].0, "b");
    assert_eq!(depths(&state.stack.ops, 0).0, 0);
}

#[test]
fn open_userdata_builds_the_metatable() {
    let mut state: State<Cfg> = State::new(64);
    let methods: Methods<Cfg> =
        Methods::default().with_method_norm("x", 1).with_method_cont("wait", 2, 3);
    state.open_userdata::<Point>(methods);
    assert_eq!(
        listing(&state.stack.ops),
        vec![
            "table 0 0",
            "string \"Point\"",
            "rawsetfield -2 __type",
            "table 0 2",
            "string \"x\"",
            "function x 1 0",
            "rawset -3",
            "string \"wait\"",
            "function wait 2/3 0",
            "rawset -3",
            "copy -1",
            "rawsetfield -3 __namecall",
            "rawsetfield -2 __index",
            "metatable 7",
            "dtor 7",
        ]
    );
    assert_eq!(depths(&state.stack.ops, 4), (0, 4));
    assert!(state.is_registered(7));
    assert!(!state.is_registered(8));
    assert_eq!(state.userdata, vec![7]);
}

#[test]
fn open_userdata_without_methods_needs_three_slots() {
    let mut state: State<Cfg> = State::new(64);
    state.open_userdata_as(9, "Empty", Methods::default());
    assert_eq!(
        listing(&state.stack.ops),
        vec![
            "table 0 0",
            "string \"Empty\"",
            "rawsetfield -2 __type",
            "table 0 0",
            "copy -1",
            "rawsetfield -3 __namecall",
            "rawsetfield -2 __index",
            "metatable 9",
            "dtor 9",
        ]
    );
    assert_eq!(depths(&state.stack.ops, 3), (0, 3));
}

#[test]
fn opening_a_type_again_keeps_one_registration() {
    let mut state: State<Cfg> = State::new(64);
    state.open_userdata::<Point>(Methods::default());
    state.open_userdata_as(3, "Other", Methods::default());
    state.open_userdata::<Point>(Methods::default().with_method_norm("x", 1));
    assert_eq!(state.userdata, vec![7, 3]);
    assert_eq!(state.stack.ops.len(), 9 + 9 + 12);
}

#[test]
fn new_thread_is_kept_by_its_reference() {
    let mut state: State<Cfg> = State::new(64);
    let thread = state.new_thread(128, 5);
    assert_eq!(thread.thread.id, 128);
    assert_eq!(thread.thref.key, 5);
    assert_eq!(thread.thref.main.thread.id, 64);
    assert_eq!(listing(&state.stack.ops), vec!["pop 1"]);
}

#[test]
fn programs_wait_until_taken() {
    let mut state: State<Cfg> = State::new(64);
    state.open_library("a", Library::default());
    let program = state.stack().take();
    assert_eq!(program.len(), 5);
    assert!(state.stack.ops.is_empty());
    assert_eq!(state.libraries.len(), 1);
}

#[test]
fn machine_is_closed_before_its_data_and_allocator_go() {
    let state: State<Cfg> = State::new(64);
    assert_eq!(
        state.close(),
        vec![Teardown::CloseMachine, Teardown::DropMainData, Teardown::DropAllocator]
    );
}
