use lu::allocator::{alloc_fn, AllocRequest, LuauAllocator};

#[derive(Debug, PartialEq)]
enum Call {
    Allocate(usize),
    Realloc(usize, usize, usize),
    Dealloc(usize, usize),
}

struct Recorder {
    calls: Vec<Call>,
    answer: usize,
}

impl LuauAllocator for Recorder {
    fn allocate(&mut self, nsize: usize) -> usize {
        self.calls.push(Call::Allocate(nsize));
        self.answer
    }

    fn realloc(&mut self, ptr: usize, osize: usize, nsize: usize) -> usize {
        self.calls.push(Call::Realloc(ptr, osize, nsize));
        self.answer
    }

    fn dealloc(&mut self, ptr: usize, osize: usize) {
        self.calls.push(Call::Dealloc(ptr, osize));
    }
}

#[test]
fn classify_reads_the_three_numbers() {
    assert_eq!(AllocRequest::classify(0, 0, 24), AllocRequest::Fresh { nsize: 24 });
    assert_eq!(AllocRequest::classify(64, 8, 0), AllocRequest::Release { ptr: 64, osize: 8 });
    assert_eq!(
        AllocRequest::classify(64, 8, 16),
        AllocRequest::Resize { ptr: 64, osize: 8, nsize: 16 }
    );
    assert_eq!(AllocRequest::classify(0, 0, 0), AllocRequest::Nothing);
    assert_eq!(AllocRequest::classify(0, 8, 0), AllocRequest::Nothing);
}

#[test]
fn classify_goes_by_the_sizes_not_by_the_block() {
    assert_eq!(AllocRequest::classify(64, 0, 16), AllocRequest::Fresh { nsize: 16 });
    assert_eq!(
        AllocRequest::classify(0, 8, 16),
        AllocRequest::Resize { ptr: 0, osize: 8, nsize: 16 }
    );
    assert_eq!(AllocRequest::classify(64, 0, 0), AllocRequest::Release { ptr: 64, osize: 0 });
}

#[test]
fn old_size_zero_allocates_even_with_a_block() {
    let mut rec = Recorder { calls: Vec::new(), answer: 4096 };
    assert_eq!(alloc_fn(&mut rec, 64, 0, 32), 4096);
    assert_eq!(rec.calls, vec![Call::Allocate(32)]);
}

#[test]
fn both_sizes_nonzero_resize_even_without_a_block() {
    let mut rec = Recorder { calls: Vec::new(), answer: 4096 };
    assert_eq!(alloc_fn(&mut rec, 0, 8, 32), 4096);
    assert_eq!(rec.calls, vec![Call::Realloc(0, 8, 32)]);
}

#[test]
fn fresh_request_allocates() {
    let mut rec = Recorder { calls: Vec::new(), answer: 4096 };
    assert_eq!(alloc_fn(&mut rec, 0, 0, 32), 4096);
    assert_eq!(rec.calls, vec![Call::Allocate(32)]);
}

#[test]
fn resize_request_reallocates() {
    let mut rec = Recorder { calls: Vec::new(), answer: 8192 };
    assert_eq!(alloc_fn(&mut rec, 4096, 32, 64), 8192);
    assert_eq!(rec.calls, vec![Call::Realloc(4096, 32, 64)]);
}

#[test]
fn release_request_frees_and_answers_null() {
    let mut rec = Recorder { calls: Vec::new(), answer: 4096 };
    assert_eq!(alloc_fn(&mut rec, 4096, 32, 0), 0);
    assert_eq!(rec.calls, vec![Call::Dealloc(4096, 32)]);
}

#[test]
fn empty_request_touches_nothing() {
    let mut rec = Recorder { calls: Vec::new(), answer: 4096 };
    assert_eq!(alloc_fn(&mut rec, 0, 0, 0), 0);
    assert!(rec.calls.is_empty());
}

#[test]
fn failed_allocation_is_passed_on() {
    let mut rec = Recorder { calls: Vec::new(), answer: 0 };
    assert_eq!(alloc_fn(&mut rec, 0, 0, 32), 0);
    assert_eq!(alloc_fn(&mut rec, 16, 8, 32), 0);
    assert_eq!(rec.calls, vec![Call::Allocate(32), Call::Realloc(16, 8, 32)]);
}

#[test]
fn perform_serves_each_request() {
    let mut rec = Recorder { calls: Vec::new(), answer: 5 };
    assert_eq!(AllocRequest::Nothing.perform(&mut rec), 0);
    assert_eq!((AllocRequest::Fresh { nsize: 3 }).perform(&mut rec), 5);
    assert_eq!((AllocRequest::Release { ptr: 5, osize: 3 }).perform(&mut rec), 0);
    assert_eq!(rec.calls, vec![Call::Allocate(3), Call::Dealloc(5, 3)]);
}
