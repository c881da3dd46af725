use lu::allocator::LuauAllocator;
use lu::extra::{Entry, Function, Ref, Release, Status};
use lu::thread::{userthread, Resume, Thread, ThreadEvent, ThreadMain};
use lu::Config;

struct NoAlloc;

impl LuauAllocator for NoAlloc {
    fn allocate(&mut self, _nsize: usize) -> usize {
        0
    }

    fn realloc(&mut self, _ptr: usize, _osize: usize, _nsize: usize) -> usize {
        0
    }

    fn dealloc(&mut self, _ptr: usize, _osize: usize) {}
}

struct Cfg;

impl Config for Cfg {
    type Allocator = NoAlloc;
    type MainData = u32;
    type ThreadData = (usize, usize);
    type Function = u8;
    type Continuation = u16;

    fn thread_data(parent: &Thread<Self>, thread: &Thread<Self>) -> (usize, usize) {
        (parent.id, thread.id)
    }
}

#[test]
fn thread_handles_name_their_context() {
    let t: Thread<Cfg> = Thread::new(64);
    assert_eq!(t.as_ptr(), 64);
    assert_eq!(t.id, 64);
    let copy = t;
    assert_eq!(copy.id, t.id);
    let main = t.main(32);
    assert_eq!(main.thread.id, 32);
    assert_eq!(main.thread().id, 32);
    assert_eq!(main.data(), 32);
}

#[test]
fn root_context_is_told_apart() {
    let main: ThreadMain<Cfg> = ThreadMain::new(32);
    let root: Thread<Cfg> = Thread::new(32);
    let secondary: Thread<Cfg> = Thread::new(64);
    assert!(root.is_main(&main));
    assert!(!secondary.is_main(&main));
    assert_eq!(secondary.data(&main), 64);
}

#[test]
fn resume_names_the_resumer_or_none() {
    let t: Thread<Cfg> = Thread::new(64);
    let from: Thread<Cfg> = Thread::new(32);
    assert_eq!(t.resume(None, 0), Resume { thread: 64, from: 0, nargs: 0 });
    assert_eq!(t.resume(Some(&from), 2), Resume { thread: 64, from: 32, nargs: 2 });
    assert_eq!(
        t.resume(Some(&t), i32::MAX as u32),
        Resume { thread: 64, from: 64, nargs: i32::MAX }
    );
}

#[test]
fn resumption_status_is_read_from_the_code() {
    let t: Thread<Cfg> = Thread::new(64);
    assert_eq!(t.resumed(0), Some(Status::Okay));
    assert_eq!(t.resumed(1), Some(Status::Yield));
    assert_eq!(t.resumed(2), Some(Status::ErrorRuntime));
    assert_eq!(t.resumed(4), Some(Status::ErrorMemory));
    assert_eq!(t.resumed(5), Some(Status::ErrorHandler));
    assert_eq!(t.resumed(6), Some(Status::Break));
    assert_eq!(t.resumed(3), None);
    assert_eq!(t.resumed(99), None);
}

#[test]
fn hook_with_parent_announces_creation() {
    match userthread::<Cfg>(32, 64) {
        ThreadEvent::Created { parent, thread } => {
            assert_eq!(parent.id, 32);
            assert_eq!(thread.id, 64);
            assert_eq!(Cfg::thread_data(&parent, &thread), (32, 64));
        }
        ThreadEvent::Destroyed { .. } => unreachable!(),
    }
}

#[test]
fn hook_without_parent_announces_death() {
    match userthread::<Cfg>(0, 64) {
        ThreadEvent::Destroyed { thread } => assert_eq!(thread.id, 64),
        ThreadEvent::Created { .. } => unreachable!(),
    }
}

#[test]
fn context_data_lives_between_the_two_announcements() {
    let calls = [(32usize, 64usize), (32, 96), (0, 64), (64, 128), (0, 96), (0, 128)];
    let mut alive: Vec<(usize, (usize, usize))> = Vec::new();
    let mut made = 0;
    let mut destroyed = 0;
    for (parent, thread) in calls {
        match userthread::<Cfg>(parent, thread) {
            ThreadEvent::Created { parent, thread } => {
                assert!(alive.iter().all(|(id, _)| *id != thread.id));
                alive.push((thread.id, Cfg::thread_data(&parent, &thread)));
                made += 1;
            }
            ThreadEvent::Destroyed { thread } => {
                let at = alive.iter().position(|(id, _)| *id == thread.id).unwrap();
                alive.remove(at);
                destroyed += 1;
            }
        }
    }
    assert_eq!(made, 3);
    assert_eq!(destroyed, 3);
    assert!(alive.is_empty());
}

#[test]
fn reserved_references_release_nothing() {
    let main: ThreadMain<Cfg> = ThreadMain::new(32);
    let none = Ref::new(main, -1);
    assert!(none.is_reserved());
    assert!(matches!(none.release(), Release::Nothing));
    let nil = Ref::new(main, 0);
    assert!(nil.is_reserved());
    assert!(matches!(nil.release(), Release::Nothing));
}

#[test]
fn real_references_are_released_in_the_root() {
    let main: ThreadMain<Cfg> = ThreadMain::new(32);
    let r = Ref::new(main, 17);
    assert!(!r.is_reserved());
    assert!(matches!(r.release(), Release::Unref { main, key: 17 } if main.thread.id == 32));
    let r = Ref::new(main, 1);
    assert!(matches!(r.release(), Release::Unref { key: 1, .. }));
    let r = Ref::new(main, -2);
    assert!(matches!(r.release(), Release::Unref { key: -2, .. }));
}

#[test]
fn function_descriptors_keep_name_and_shape() {
    let f: Function<Cfg> = Function::norm("f", 1);
    assert!(matches!(f, Function::Normal { name: "f", func: 1 }));
    assert_eq!(f.name(), "f");
    let g: Function<Cfg> = Function::cont("g", 2, 3);
    assert!(matches!(g, Function::Continuation { name: "g", func: 2, cont: 3 }));
    assert_eq!(g.name(), "g");
    assert!(matches!(g.duplicate(), Function::Continuation { name: "g", func: 2, cont: 3 }));
    assert!(matches!(f.duplicate(), Function::Normal { name: "f", func: 1 }));
}

#[test]
fn resumed_function_runs_its_continuation() {
    let plain: Function<Cfg> = Function::norm("f", 1);
    let two_phase: Function<Cfg> = Function::cont("g", 2, 3);
    assert_eq!(plain.entry(false), Some(Entry::Call));
    assert_eq!(two_phase.entry(false), Some(Entry::Call));
    assert_eq!(two_phase.entry(true), Some(Entry::Resume));
    assert_eq!(plain.entry(true), None);
}

#[test]
fn names_are_checked_for_zero_bytes() {
    assert!(lu::extra::check_name("add"));
    assert!(lu::extra::check_name(""));
    assert!(lu::extra::check_name("héllo"));
    assert!(!lu::extra::check_name("a\0"));
    assert!(!lu::extra::check_name("\0"));
}
