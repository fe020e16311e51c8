use passchain::factor::{Factor, FidoItem};
use passchain::graph::{
    consumer_of, plan_edges_fit, producer_of, Graph, Task, POST, POST_INPUT, PRE, PRE_INPUT,
};

fn password(s: &str) -> Factor {
    Factor::Password(s.to_string())
}

fn fido(name: &str) -> Factor {
    Factor::Fido(FidoItem { device_name: name.to_string() })
}

#[test]
fn graph_without_factors() {
    let g = Graph::build(&vec![]);
    assert_eq!(
        g.tasks,
        vec![
            Task::Nonce { seed: 0, nonce: 0 },
            Task::Nonce { seed: 1, nonce: 1 },
            Task::Copier { input: 0, output1: 2, output2: 4 },
            Task::Copier { input: 1, output1: 3, output2: 5 },
            Task::Hasher { pwd: 3, salt: 2, res: 6 },
        ]
    );
    assert_eq!(g.producer, vec![0, 1, 2, 3, 2, 3, 4]);
    assert_eq!(g.consumer, vec![2, 3, 4, 4, 5, 5, 5]);
    assert_eq!((g.pre, g.post, g.result), (PRE, POST, 6));
    assert_eq!((PRE_INPUT, POST_INPUT), (2, 3));
}

#[test]
fn graph_of_two_factors() {
    let g = Graph::build(&vec![password("a"), fido("key")]);
    assert_eq!(
        g.tasks,
        vec![
            Task::Nonce { seed: 0, nonce: 0 },
            Task::Nonce { seed: 1, nonce: 1 },
            Task::Copier { input: 0, output1: 2, output2: 4 },
            Task::Copier { input: 1, output1: 3, output2: 5 },
            Task::Copier { input: 2, output1: 6, output2: 7 },
            Task::PasswordFactor { pwd: 0, prev: 6, res: 8 },
            Task::Copier { input: 8, output1: 9, output2: 10 },
            Task::FidoFactor { dev: 1, prev: 9, res: 11 },
            Task::Hasher { pwd: 3, salt: 11, res: 12 },
            Task::Hasher { pwd: 10, salt: 12, res: 13 },
            Task::Hasher { pwd: 7, salt: 13, res: 14 },
        ]
    );
    assert_eq!(g.producer, vec![0, 1, 2, 3, 2, 3, 4, 4, 5, 6, 6, 7, 8, 9, 10]);
    assert_eq!(g.consumer, vec![2, 3, 4, 8, 11, 11, 5, 10, 6, 7, 9, 8, 9, 10, 11]);
    assert_eq!((g.pre, g.post, g.result), (4, 5, 14));
}

fn reads(task: &Task) -> Vec<usize> {
    match *task {
        Task::Nonce { .. } => vec![],
        Task::Copier { input, .. } => vec![input],
        Task::Hasher { pwd, salt, .. } => vec![pwd, salt],
        Task::PasswordFactor { prev, .. } => vec![prev],
        Task::FidoFactor { prev, .. } => vec![prev],
    }
}

fn writes(task: &Task) -> Vec<usize> {
    match *task {
        Task::Nonce { nonce, .. } => vec![nonce],
        Task::Copier { output1, output2, .. } => vec![output1, output2],
        Task::Hasher { res, .. } => vec![res],
        Task::PasswordFactor { res, .. } => vec![res],
        Task::FidoFactor { res, .. } => vec![res],
    }
}

#[test]
fn every_edge_is_written_once_and_read_once_later() {
    for n in 0..6usize {
        let factors: Vec<Factor> =
            (0..n).map(|i| if i % 2 == 0 { password("p") } else { fido("k") }).collect();
        let g = Graph::build(&factors);
        assert_eq!(g.tasks.len(), 5 + 3 * n);
        assert_eq!(g.producer.len(), 7 + 4 * n);
        assert_eq!(g.consumer.len(), 7 + 4 * n);
        let mut written = vec![0usize; g.producer.len()];
        let mut read = vec![0usize; g.producer.len()];
        for (k, task) in g.tasks.iter().enumerate() {
            for e in writes(task) {
                written[e] += 1;
                assert_eq!(g.producer[e], k);
            }
            for e in reads(task) {
                read[e] += 1;
                assert_eq!(g.consumer[e], k);
                assert!(g.producer[e] < k);
            }
        }
        for e in 0..g.producer.len() {
            assert_eq!(written[e], 1);
            let leaves = e == g.pre || e == g.post || e == g.result;
            assert_eq!(read[e], if leaves { 0 } else { 1 });
            assert_eq!(g.consumer[e] == g.tasks.len(), leaves);
            assert_eq!(producer_of(n, e), g.producer[e]);
            assert_eq!(consumer_of(n, e), g.consumer[e]);
        }
    }
}

#[test]
fn factor_nodes_follow_the_factors() {
    let g = Graph::build(&vec![fido("a"), password("b"), password("c"), fido("d")]);
    let named: Vec<Task> = g
        .tasks
        .iter()
        .filter(|t| matches!(t, Task::PasswordFactor { .. } | Task::FidoFactor { .. }))
        .copied()
        .collect();
    assert_eq!(
        named,
        vec![
            Task::FidoFactor { dev: 0, prev: 6, res: 8 },
            Task::PasswordFactor { pwd: 1, prev: 9, res: 11 },
            Task::PasswordFactor { pwd: 2, prev: 12, res: 14 },
            Task::FidoFactor { dev: 3, prev: 15, res: 17 },
        ]
    );
    assert!(fido("a").is_fido());
    assert!(!password("b").is_fido());
}

#[test]
fn only_a_graph_that_can_be_numbered_fits() {
    assert!(plan_edges_fit(0));
    assert!(plan_edges_fit(1000));
    assert!(plan_edges_fit((usize::MAX - 7) / 4));
    assert!(!plan_edges_fit((usize::MAX - 7) / 4 + 1));
    assert!(!plan_edges_fit(usize::MAX));
}
