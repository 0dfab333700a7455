use tas::{equal_to, AssertionResult, CaseRecorder, Matcher, TestRegistry};

struct MyStack<T> {
    vec: Vec<T>,
}

impl<T> MyStack<T> {
    fn new() -> Self {
        Self { vec: Vec::new() }
    }

    fn empty(&self) -> bool {
        self.vec.is_empty()
    }

    fn depth(&self) -> usize {
        self.vec.len()
    }

    fn push(&mut self, item: T) {
        self.vec.push(item);
    }

    fn top(&self) -> Option<&T> {
        self.vec.last()
    }

    fn pop(&mut self) -> Option<T> {
        self.vec.pop()
    }
}

type Body = fn() -> Vec<AssertionResult>;

fn new_stack_is_empty() -> Vec<AssertionResult> {
    let mut rec = CaseRecorder::new();
    let new_stack: MyStack<i32> = MyStack::new();
    rec.require(new_stack.empty(), "new_stack.empty()", "stack_suite.rs", 40);
    rec.finish()
}

fn empty_stack_top_is_none() -> Vec<AssertionResult> {
    let mut rec = CaseRecorder::new();
    let empty_stack: MyStack<i32> = MyStack::new();
    let m = equal_to(None::<&i32>);
    rec.require_that(m.matches(&empty_stack.top()), &m.describe(), "&empty_stack.top()", "equal_to(None)", "stack_suite.rs", 47);
    rec.finish()
}

fn empty_stack_pop_is_none() -> Vec<AssertionResult> {
    let mut rec = CaseRecorder::new();
    let mut empty_stack: MyStack<i32> = MyStack::new();
    let m = equal_to(None::<i32>);
    rec.require_that(m.matches(&empty_stack.pop()), &m.describe(), "&empty_stack.pop()", "equal_to(None)", "stack_suite.rs", 55);
    rec.finish()
}

fn push_gains_depth() -> Vec<AssertionResult> {
    let mut rec = CaseRecorder::new();
    let mut stack: MyStack<String> = MyStack::new();
    stack.push(String::from("Item"));
    let depth = equal_to(1usize);
    if rec.require_that(depth.matches(&stack.depth()), &depth.describe(), "&stack.depth()", "equal_to(1)", "stack_suite.rs", 64) {
        let item = equal_to(String::from("Item"));
        rec.require_that(item.matches(stack.top().unwrap()), &item.describe(), "stack.top().unwrap()", "equal_to(String::from(\"Item\"))", "stack_suite.rs", 66);
    }
    rec.finish()
}

fn push_on_non_empty_gets_deeper() -> Vec<AssertionResult> {
    let mut rec = CaseRecorder::new();
    let mut stack: MyStack<String> = MyStack::new();
    stack.push(String::from("Bottom Item"));
    stack.push(String::from("Top Item"));
    let m = equal_to(2usize);
    rec.require_that(m.matches(&stack.depth()), &m.describe(), "&stack.depth()", "equal_to(2)", "stack_suite.rs", 76);
    rec.finish()
}

fn pop_regains_tops_in_reverse_order() -> Vec<AssertionResult> {
    let mut rec = CaseRecorder::new();
    let mut stack: MyStack<String> = MyStack::new();
    stack.push(String::from("Bottom Item"));
    stack.push(String::from("Top Item"));
    stack.pop();
    let m = equal_to(String::from("Bottom Item"));
    rec.require_that(m.matches(stack.top().unwrap()), &m.describe(), "stack.top().unwrap()", "equal_to(String::from(\"Bottom Item\"))", "stack_suite.rs", 87);
    rec.finish()
}

#[test]
fn stack_suite_passes() {
    let mut registry: TestRegistry<Body> = TestRegistry::new();
    registry.add_case("A new stack is empty", "stack_suite.rs", 38, new_stack_is_empty);
    registry.add_case("An empty stack returns None when queried for its top", "stack_suite.rs", 45, empty_stack_top_is_none);
    registry.add_case("An empty stack returns None when popped", "stack_suite.rs", 53, empty_stack_pop_is_none);
    registry.add_case("A empty stack gains depth by pushing on it", "stack_suite.rs", 61, push_gains_depth);
    registry.add_case("A non-empty stack gets deeper by pushing on it", "stack_suite.rs", 72, push_on_non_empty_gets_deeper);
    registry.add_case("Popping from a non-empty stack regains tops in reverse order", "stack_suite.rs", 81, pop_regains_tops_in_reverse_order);
    let outcome = registry.run();
    let report = outcome.report.unwrap();
    assert_eq!(report.overall.test_cases, 6);
    assert_eq!(report.overall.assertions, 7);
    assert_eq!(report.overall.failed, 0);
    assert_eq!(report.overall.exit_status(), 0);
    assert_eq!(report.overall.render(), "All tests passed (7 assertions in 6 test cases).");
}
