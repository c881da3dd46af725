use lu::allocator::LuauAllocator;
use lu::extra::Function;
use lu::library::{Library, LibraryConstant, LibraryItem};
use lu::ops::{Instr, StackOp};
use lu::stack::Stack;
use lu::thread::Thread;
use lu::Config;

struct NoAlloc;

impl LuauAllocator for NoAlloc {
    fn allocate(&mut self, _nsize: usize) -> usize {
        0
    }

    fn realloc(&mut self, _ptr: usize, _osize: usize, _nsize: usize) -> usize {
        0
    }

    fn dealloc(&mut self, _ptr: usize, _osize: usize) {}
}

struct Cfg;

impl Config for Cfg {
    type Allocator = NoAlloc;
    type MainData = ();
    type ThreadData = ();
    type Function = u8;
    type Continuation = u16;

    fn thread_data(_parent: &Thread<Self>, _thread: &Thread<Self>) {}
}

fn describe(op: &StackOp<Cfg, Vec<u8>>) -> String {
    match op {
        StackOp::Reserve(n) => format!("reserve {n}"),
        StackOp::PushTable { narr, nrec } => format!("table {narr} {nrec}"),
        StackOp::PushString(b) => format!("string {:?}", String::from_utf8_lossy(b)),
        StackOp::PushBoolean(b) => format!("boolean {b}"),
        StackOp::PushNumber(bits) => format!("number {}", f64::from_bits(*bits)),
        StackOp::PushVector(x, y, z) => format!(
            "vector {} {} {}",
            f32::from_bits(*x),
            f32::from_bits(*y),
            f32::from_bits(*z)
        ),
        StackOp::PushClosure { func: Function::Normal { name, func }, nups } => {
            format!("function {name} {func} {nups}")
        }
        StackOp::PushClosure { func: Function::Continuation { name, func, cont }, nups } => {
            format!("function {name} {func}/{cont} {nups}")
        }
        StackOp::TableSetRaw(idx) => format!("rawset {idx}"),
        _ => format!("other"),
    }
}

fn listing(program: &[Instr<Cfg, Vec<u8>>]) -> Vec<String> {
    program.iter().map(|i| describe(&i.op)).collect()
}

/// The change of depth of one instruction and the room it needs before it.
fn effect(op: &StackOp<Cfg, Vec<u8>>) -> (i64, i64) {
    match op {
        StackOp::Reserve(_) => (0, 0),
        StackOp::TableSetRaw(_) => (-2, 0),
        _ => (1, 1),
    }
}

/// Runs the depth accounting of a program from an empty stack without any
/// room, and returns the final depth; panics where an instruction has no room.
fn final_depth(program: &[Instr<Cfg, Vec<u8>>]) -> i64 {
    let mut depth = 0i64;
    let mut capacity = 0i64;
    for instr in program {
        if let StackOp::Reserve(n) = instr.op {
            capacity = capacity.max(depth + n as i64);
        }
        let (change, room) = effect(&instr.op);
        assert!(capacity - depth >= room, "no room for {}", describe(&instr.op));
        depth += change;
        assert!(depth >= 0);
    }
    depth
}

fn math() -> Library<Cfg> {
    Library::default()
        .with_constant("PI", LibraryConstant::Number(3.14159f64.to_bits()))
        .with_function_norm("add", 1)
}

#[test]
fn constants_are_made_from_plain_values() {
    assert!(matches!(LibraryConstant::from(true), LibraryConstant::Bool(true)));
    assert!(matches!(LibraryConstant::from("text"), LibraryConstant::String("text")));
    let item: LibraryItem<Cfg> = LibraryConstant::Bool(false).into();
    assert!(matches!(item, LibraryItem::Constant(LibraryConstant::Bool(false))));
    let item: LibraryItem<Cfg> = Function::norm("f", 1).into();
    assert!(matches!(item, LibraryItem::Function(Function::Normal { name: "f", func: 1 })));
    let item: LibraryItem<Cfg> = Library::default().into();
    assert!(matches!(item, LibraryItem::Library(_)));
}

#[test]
fn entries_keep_their_order() {
    let lib: Library<Cfg> = Library::default()
        .with("b", LibraryConstant::Bool(true))
        .with("a", Function::cont("a", 1, 2))
        .with("c", Library::default());
    assert_eq!(lib.0.len(), 3);
    assert_eq!(lib.0[0].0, "b");
    assert!(matches!(lib.0[0].1, LibraryItem::Constant(LibraryConstant::Bool(true))));
    assert_eq!(lib.0[1].0, "a");
    assert!(
        matches!(lib.0[1].1, LibraryItem::Function(Function::Continuation { name: "a", func: 1, cont: 2 }))
    );
    assert_eq!(lib.0[2].0, "c");
    assert!(matches!(lib.0[2].1, LibraryItem::Library(_)));
}

#[test]
fn items_are_added_as_they_are() {
    let lib: Library<Cfg> = Library::default()
        .with_item("flag", LibraryItem::Constant(LibraryConstant::Bool(true)))
        .with_item("f", LibraryItem::Function(Function::norm("f", 1)))
        .with_item("inner", LibraryItem::Library(Library::default()));
    assert_eq!(lib.0.len(), 3);
    assert_eq!(lib.0[0].0, "flag");
    assert!(matches!(lib.0[0].1, LibraryItem::Constant(LibraryConstant::Bool(true))));
    assert_eq!(lib.0[1].0, "f");
    assert!(matches!(lib.0[1].1, LibraryItem::Function(Function::Normal { name: "f", func: 1 })));
    assert_eq!(lib.0[2].0, "inner");
    assert!(matches!(lib.0[2].1, LibraryItem::Library(_)));
}

#[test]
fn function_builders_name_the_function_like_the_entry() {
    let lib: Library<Cfg> =
        Library::default().with_function_norm("f", 3).with_function_cont("g", 4, 5);
    assert!(matches!(lib.0[0].1, LibraryItem::Function(Function::Normal { name: "f", func: 3 })));
    assert!(
        matches!(lib.0[1].1, LibraryItem::Function(Function::Continuation { name: "g", func: 4, cont: 5 }))
    );
    let lib: Library<Cfg> = Library::default().with_function("alias", Function::norm("real", 6));
    assert_eq!(lib.0[0].0, "alias");
    assert!(
        matches!(lib.0[0].1, LibraryItem::Function(Function::Normal { name: "real", func: 6 }))
    );
}

#[test]
fn empty_library_is_an_empty_table() {
    let mut stack: Stack<Cfg> = Stack::new(Thread::new(1));
    Library::<Cfg>::default().push(&mut stack);
    assert_eq!(listing(&stack.ops), vec!["reserve 2", "table 0 0"]);
}

#[test]
fn library_with_constant_and_function_builds_in_order() {
    let mut stack: Stack<Cfg> = Stack::new(Thread::new(1));
    math().push(&mut stack);
    assert_eq!(
        listing(&stack.ops),
        vec![
            "reserve 2",
            "table 0 0",
            "string \"PI\"",
            "reserve 1",
            "number 3.14159",
            "rawset -3",
            "string \"add\"",
            "reserve 1",
            "function add 1 0",
            "rawset -3",
        ]
    );
    assert!(stack.ops.iter().all(|i| i.on.id == 1));
}

#[test]
fn each_kind_of_constant_pushes_its_value() {
    let mut stack: Stack<Cfg> = Stack::new(Thread::new(1));
    LibraryConstant::Bool(true).push(&mut stack);
    LibraryConstant::Number(2.5f64.to_bits()).push(&mut stack);
    LibraryConstant::String("s\0t").push(&mut stack);
    LibraryConstant::Vector(1.0f32.to_bits(), 2.0f32.to_bits(), 3.0f32.to_bits()).push(&mut stack);
    assert_eq!(
        listing(&stack.ops),
        vec![
            "reserve 1",
            "boolean true",
            "reserve 1",
            "number 2.5",
            "reserve 1",
            "string \"s\\0t\"",
            "reserve 1",
            "vector 1 2 3",
        ]
    );
}

#[test]
fn nested_library_is_built_in_place() {
    let lib: Library<Cfg> = Library::default()
        .with("inner", Library::default().with_constant("on", LibraryConstant::Bool(true)))
        .with_constant("after", LibraryConstant::String("x"));
    let mut stack: Stack<Cfg> = Stack::new(Thread::new(1));
    lib.push(&mut stack);
    assert_eq!(
        listing(&stack.ops),
        vec![
            "reserve 2",
            "table 0 0",
            "string \"inner\"",
            "reserve 2",
            "table 0 0",
            "string \"on\"",
            "reserve 1",
            "boolean true",
            "rawset -3",
            "rawset -3",
            "string \"after\"",
            "reserve 1",
            "string \"x\"",
            "rawset -3",
        ]
    );
}

#[test]
fn building_leaves_one_value_and_never_lacks_room() {
    let lib: Library<Cfg> = Library::default()
        .with("a", Library::default().with("b", Library::default().with_function_norm("f", 1)))
        .with_constant("c", LibraryConstant::Vector(0, 0, 0))
        .with_function_cont("g", 2, 3);
    let mut stack: Stack<Cfg> = Stack::new(Thread::new(1));
    lib.push(&mut stack);
    assert_eq!(final_depth(&stack.ops), 1);
    let mut stack: Stack<Cfg> = Stack::new(Thread::new(1));
    math().push(&mut stack);
    assert_eq!(final_depth(&stack.ops), 1);
}

#[test]
fn building_twice_gives_the_same_program() {
    let lib = math();
    let mut first: Stack<Cfg> = Stack::new(Thread::new(1));
    lib.push(&mut first);
    let mut second: Stack<Cfg> = Stack::new(Thread::new(2));
    lib.push(&mut second);
    lib.push(&mut second);
    assert_eq!(listing(&first.ops), listing(&second.ops[..10]));
    assert_eq!(listing(&first.ops), listing(&second.ops[10..]));
    assert!(second.ops.iter().all(|i| i.on.id == 2));
    assert_eq!(lib.0.len(), 2);
}

#[test]
fn names_with_zero_bytes_are_found() {
    assert!(math().check_names());
    assert!(Library::<Cfg>::default().check_names());
    let bad: Library<Cfg> = Library::default().with_function("ok", Function::norm("b\0d", 1));
    assert!(!bad.check_names());
    let nested: Library<Cfg> =
        Library::default().with_constant("c", LibraryConstant::Bool(true)).with("in", bad);
    assert!(!nested.check_names());
    let key_only: Library<Cfg> = Library::default().with_function("k\0y", Function::norm("fine", 1));
    assert!(key_only.check_names());
    let item: LibraryItem<Cfg> = LibraryItem::Function(Function::norm("\0", 1));
    assert!(!item.check_names());
}
