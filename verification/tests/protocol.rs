use anchor_map::node::MapNode;
use anchor_map::poll::Poll;
use anchor_map::scripted::ScriptedContext;
use anchor_map::sum::SumFn;

fn two_input_setup() -> (ScriptedContext<i64>, MapNode<i64, SumFn>) {
    let mut ctx = ScriptedContext::new();
    ctx.push_input(Poll::Unchanged, 1);
    ctx.push_input(Poll::Unchanged, 2);
    let node = MapNode::new(SumFn::new(), vec![0, 1]);
    (ctx, node)
}

#[test]
fn first_compute_two_inputs() {
    let (mut ctx, mut node) = two_input_setup();
    let result = node.poll_updated(&mut ctx);
    assert_eq!(result, Poll::Updated);
    assert_eq!(*node.output(), 3);
    assert!(node.output_ready());
    assert_eq!(node.func.invocations, 1);
    assert_eq!(*ctx.requests(), vec![0, 1]);
}

#[test]
fn first_compute_mixed_statuses() {
    // Absence of a cached output forces recomputation even when the inputs
    // report a mix of Updated and Unchanged.
    let mut ctx = ScriptedContext::new();
    ctx.push_input(Poll::Updated, 1);
    ctx.push_input(Poll::Unchanged, 2);
    let mut node = MapNode::new(SumFn::new(), vec![0, 1]);
    let result = node.poll_updated(&mut ctx);
    assert_eq!(result, Poll::Updated);
    assert_eq!(*node.output(), 3);
}

#[test]
fn cutoff_suppresses_propagation() {
    let (mut ctx, mut node) = two_input_setup();
    assert_eq!(node.poll_updated(&mut ctx), Poll::Updated);
    // Input 0 "changes" from 1 to 1: upstream marks it Updated anyway.
    ctx.set_input(0, Poll::Updated, 1);
    node.dirty(0);
    assert!(node.stale);
    let result = node.poll_updated(&mut ctx);
    assert_eq!(result, Poll::Unchanged);
    assert_eq!(*node.output(), 3);
    // The function did run again; only its equal result was discarded.
    assert_eq!(node.func.invocations, 2);
    assert!(!node.stale);
}

#[test]
fn pending_single_input() {
    let mut ctx = ScriptedContext::new();
    ctx.push_input(Poll::Pending, 0);
    let mut node = MapNode::new(SumFn::new(), vec![0]);
    let result = node.poll_updated(&mut ctx);
    assert_eq!(result, Poll::Pending);
    assert!(!node.output_ready());
    assert!(node.cached.is_none());
    assert!(node.stale);
    assert_eq!(node.func.invocations, 0);
    // The next poll requests the same input again.
    assert_eq!(node.poll_updated(&mut ctx), Poll::Pending);
    assert_eq!(*ctx.requests(), vec![0, 0]);
}

#[test]
fn misuse_before_first_poll() {
    // Reading the output before any successful poll violates `output`'s
    // precondition; a caller must check readiness first.
    let node = MapNode::new(SumFn::new(), vec![0]);
    assert!(!node.output_ready());
    assert!(node.cached.is_none());
}

#[test]
fn idempotent_after_success() {
    let (mut ctx, mut node) = two_input_setup();
    assert_eq!(node.poll_updated(&mut ctx), Poll::Updated);
    ctx.clear_requests();
    // No dirty call, no upstream change: every later poll takes the fast
    // path, requests nothing and re-invokes nothing.
    assert_eq!(node.poll_updated(&mut ctx), Poll::Unchanged);
    assert_eq!(node.poll_updated(&mut ctx), Poll::Unchanged);
    assert_eq!(ctx.request_count(), 0);
    assert_eq!(node.func.invocations, 1);
    assert_eq!(*node.output(), 3);
}

#[test]
fn every_input_requested_despite_pending() {
    let mut ctx = ScriptedContext::new();
    ctx.push_input(Poll::Pending, 1);
    ctx.push_input(Poll::Updated, 2);
    ctx.push_input(Poll::Unchanged, 3);
    let mut node = MapNode::new(SumFn::new(), vec![0, 1, 2]);
    let result = node.poll_updated(&mut ctx);
    assert_eq!(result, Poll::Pending);
    // All three inputs got exactly one request, in declaration order, even
    // though the first already reported Pending.
    assert_eq!(*ctx.requests(), vec![0, 1, 2]);
}

#[test]
fn pending_preserves_cache_and_staleness() {
    let mut ctx = ScriptedContext::new();
    ctx.push_input(Poll::Unchanged, 7);
    let mut node = MapNode::new(SumFn::new(), vec![0]);
    assert_eq!(node.poll_updated(&mut ctx), Poll::Updated);
    assert_eq!(*node.output(), 7);
    ctx.set_input(0, Poll::Pending, 7);
    node.dirty(0);
    ctx.clear_requests();
    let result = node.poll_updated(&mut ctx);
    assert_eq!(result, Poll::Pending);
    assert_eq!(node.cached, Some(7));
    assert!(node.stale);
    // The following poll re-requests the input instead of short-circuiting.
    assert_eq!(node.poll_updated(&mut ctx), Poll::Pending);
    assert_eq!(ctx.request_count(), 2);
}

#[test]
fn stale_alone_does_not_recompute() {
    let (mut ctx, mut node) = two_input_setup();
    assert_eq!(node.poll_updated(&mut ctx), Poll::Updated);
    // dirty was called, but every input resolves Unchanged (an upstream
    // cutoff): the node skips the function entirely.
    node.dirty(1);
    let result = node.poll_updated(&mut ctx);
    assert_eq!(result, Poll::Unchanged);
    assert_eq!(node.func.invocations, 1);
    assert!(!node.stale);
    assert_eq!(*node.output(), 3);
}

#[test]
fn real_change_updates_cache() {
    let (mut ctx, mut node) = two_input_setup();
    assert_eq!(node.poll_updated(&mut ctx), Poll::Updated);
    ctx.set_input(1, Poll::Updated, 10);
    node.dirty(1);
    let result = node.poll_updated(&mut ctx);
    assert_eq!(result, Poll::Updated);
    assert_eq!(*node.output(), 11);
    assert_eq!(node.func.invocations, 2);
}

#[test]
fn dirty_is_idempotent() {
    let (mut ctx, mut node) = two_input_setup();
    assert_eq!(node.poll_updated(&mut ctx), Poll::Updated);
    node.dirty(0);
    node.dirty(0);
    node.dirty(1);
    assert!(node.stale);
    assert_eq!(node.cached, Some(3));
    assert_eq!(node.poll_updated(&mut ctx), Poll::Unchanged);
}

#[test]
fn sum_wraps_on_overflow() {
    let mut ctx = ScriptedContext::new();
    ctx.push_input(Poll::Unchanged, i64::MAX);
    ctx.push_input(Poll::Unchanged, 1);
    let mut node = MapNode::new(SumFn::new(), vec![0, 1]);
    assert_eq!(node.poll_updated(&mut ctx), Poll::Updated);
    assert_eq!(*node.output(), i64::MIN);
}

#[test]
fn nine_inputs_single_code_path() {
    let mut ctx = ScriptedContext::new();
    let mut handles = Vec::new();
    for i in 0..9i64 {
        ctx.push_input(Poll::Unchanged, i + 1);
        handles.push(i as usize);
    }
    let mut node = MapNode::new(SumFn::new(), handles);
    assert_eq!(node.poll_updated(&mut ctx), Poll::Updated);
    assert_eq!(*node.output(), 45);
    assert_eq!(*ctx.requests(), vec![0, 1, 2, 3, 4, 5, 6, 7, 8]);
}

#[test]
fn debug_label_names_the_node_kind() {
    let node = MapNode::new(SumFn::new(), vec![0]);
    assert_eq!(node.debug_label(), "map");
}
