use inorder::cps::Cont;
use inorder::trampoline::Res;
use inorder::tree::Node;
use inorder::tree::Tree;

/// The demonstration tree: out-of-order characters, to make plain that no
/// search-tree ordering is assumed.
fn sample() -> Tree<char> {
    Node::node(
        Node::node(Node::node(None, 'D', Node::leaf('H')), 'B', Node::leaf('E')),
        'A',
        Node::node(
            Node::leaf('F'),
            'C',
            Node::node(Node::leaf('I'), 'G', Node::leaf('J')),
        ),
    )
}

fn all_three(t: &Tree<char>) -> (Vec<char>, Vec<char>, Vec<char>) {
    (
        inorder::inorder_direct(t),
        inorder::inorder_cps(t),
        inorder::inorder_trampoline(t),
    )
}

/// Tears a chain down without recursive drop: a chain deep enough to defeat
/// recursive traversal would defeat the recursive drop glue too.
fn teardown_chain(mut t: Tree<u64>) {
    while let Some(node) = t {
        let Node(left, _, right) = *node;
        t = if left.is_some() { left } else { right };
    }
}

#[test]
fn empty_tree_all_variants() {
    let t: Tree<char> = None;
    let (d, c, m) = all_three(&t);
    assert_eq!(d, Vec::<char>::new());
    assert_eq!(c, Vec::<char>::new());
    assert_eq!(m, Vec::<char>::new());
}

#[test]
fn single_leaf_all_variants() {
    let t = Node::leaf('x');
    let (d, c, m) = all_three(&t);
    assert_eq!(d, vec!['x']);
    assert_eq!(c, vec!['x']);
    assert_eq!(m, vec!['x']);
}

#[test]
fn equivalence_on_assorted_shapes() {
    let shapes: Vec<Tree<char>> = vec![
        None,
        Node::leaf('a'),
        Node::node(Node::leaf('a'), 'b', None),
        Node::node(None, 'a', Node::leaf('b')),
        Node::node(Node::leaf('a'), 'b', Node::leaf('c')),
        sample(),
    ];
    for t in &shapes {
        let (d, c, m) = all_three(t);
        assert_eq!(d, c);
        assert_eq!(c, m);
    }
}

#[test]
fn duplicate_values_are_kept_in_order() {
    let t = Node::node(Node::leaf('a'), 'a', Node::leaf('a'));
    let (d, c, m) = all_three(&t);
    assert_eq!(d, vec!['a', 'a', 'a']);
    assert_eq!(c, d);
    assert_eq!(m, d);
}

#[test]
fn left_chain_traverses_in_chain_order() {
    let vals: Vec<u64> = (0..50).collect();
    let t = inorder::tree::left_chain(&vals);
    assert_eq!(inorder::direct::inorder_direct(&t), vals);
    assert_eq!(inorder::cps::cps(&t), vals);
    assert_eq!(inorder::trampoline::inorder_trampoline(&t), vals);
}

#[test]
fn right_chain_traverses_in_chain_order() {
    let vals: Vec<u64> = (0..50).collect();
    let t = inorder::tree::right_chain(&vals);
    assert_eq!(inorder::direct::inorder_direct(&t), vals);
    assert_eq!(inorder::cps::cps(&t), vals);
    assert_eq!(inorder::trampoline::inorder_trampoline(&t), vals);
}

#[test]
fn trampoline_survives_deep_left_chain() {
    let n: u64 = 100_000;
    let vals: Vec<u64> = (0..n).collect();
    let t = inorder::tree::left_chain(&vals);
    let got = inorder::trampoline::inorder_trampoline(&t);
    assert_eq!(got, vals);
    teardown_chain(t);
}

#[test]
fn trampoline_survives_deep_right_chain() {
    let n: u64 = 100_000;
    let vals: Vec<u64> = (0..n).collect();
    let t = inorder::tree::right_chain(&vals);
    let got = inorder::trampoline::inorder_trampoline(&t);
    assert_eq!(got, vals);
    teardown_chain(t);
}

#[test]
fn traversals_are_idempotent() {
    let t = sample();
    assert_eq!(
        inorder::direct::inorder_direct(&t),
        inorder::direct::inorder_direct(&t)
    );
    assert_eq!(inorder::cps::cps(&t), inorder::cps::cps(&t));
    assert_eq!(
        inorder::trampoline::inorder_trampoline(&t),
        inorder::trampoline::inorder_trampoline(&t)
    );
}

#[test]
fn concrete_scenario_yields_expected_order() {
    let t = sample();
    let expected = vec!['D', 'H', 'B', 'E', 'A', 'F', 'C', 'I', 'G', 'J'];
    let (d, c, m) = all_three(&t);
    assert_eq!(d, expected);
    assert_eq!(c, expected);
    assert_eq!(m, expected);
}

#[test]
fn direct_inorder_appends_to_existing_accumulator() {
    let t = Node::node(Node::leaf('b'), 'c', None);
    let mut acc = vec!['a'];
    inorder::direct::inorder(&t, &mut acc);
    assert_eq!(acc, vec!['a', 'b', 'c']);
}

#[test]
fn trampoline_inorder_appends_to_existing_accumulator() {
    let t = Node::node(Node::leaf('b'), 'c', None);
    let mut acc = vec!['a'];
    inorder::trampoline::inorder(&t, &mut acc);
    assert_eq!(acc, vec!['a', 'b', 'c']);
}

#[test]
fn cps_rec_runs_the_given_continuation_after_the_tree() {
    let t = Node::leaf('a');
    let right = Node::leaf('c');
    let mut acc: Vec<char> = Vec::new();
    let k = Cont::AfterLeft('b', &right, Box::new(Cont::Id));
    inorder::cps::cps_rec(&t, &mut acc, k);
    assert_eq!(acc, vec!['a', 'b', 'c']);
}

#[test]
fn applying_the_identity_continuation_appends_nothing() {
    let mut acc = vec!['a'];
    inorder::cps::apply(Cont::Id, &mut acc);
    assert_eq!(acc, vec!['a']);
}

#[test]
fn step_machine_starts_pending_and_reaches_done_once() {
    let t = sample();
    let mut acc: Vec<char> = Vec::new();
    let mut step = inorder::trampoline::cps(&t, &mut acc, Cont::Id);
    assert!(matches!(step, Res::More(_)));
    let mut forces: usize = 0;
    loop {
        match step {
            Res::Done => break,
            Res::More(w) => {
                forces += 1;
                assert!(forces <= 1_000, "the trampoline never reached Done");
                step = inorder::trampoline::cps(w.tree, &mut acc, w.k);
            }
        }
    }
    // the loop above stops at the first Done: it is terminal, so no step is
    // ever taken after it, and the accumulated sequence is already complete
    assert_eq!(acc, vec!['D', 'H', 'B', 'E', 'A', 'F', 'C', 'I', 'G', 'J']);
}

#[test]
fn step_machine_empty_tree_is_done_at_once() {
    let t: Tree<char> = None;
    let mut acc: Vec<char> = Vec::new();
    let step = inorder::trampoline::cps(&t, &mut acc, Cont::Id);
    assert!(matches!(step, Res::Done));
    assert_eq!(acc, Vec::<char>::new());
}

#[test]
fn deferred_work_constructors_defer_the_whole_subtree() {
    let right = Node::leaf('r');
    let k = inorder::trampoline::cont('v', &right, Cont::Id);
    let sub = Node::leaf('s');
    let w = inorder::trampoline::thunk(&sub, k);
    let mut acc: Vec<char> = Vec::new();
    let mut step = inorder::trampoline::cps(w.tree, &mut acc, w.k);
    loop {
        match step {
            Res::Done => break,
            Res::More(next) => {
                step = inorder::trampoline::cps(next.tree, &mut acc, next.k);
            }
        }
    }
    assert_eq!(acc, vec!['s', 'v', 'r']);
}
