use corgis::brain::NeuralController;
use corgis::fixed::{SCALE, WEIGHT_LIMIT};
use corgis::genes::{crossover, mutate, random_genome, Genome, Topology};
use corgis::errors::CoreError;
use corgis::perception::perceive_body;
use corgis::rng::Rng;
use corgis::universe::{create_tiles, resolve_tile, Tile, TileType};

fn single_layer_genome(weights: Vec<i64>, inputs: usize, outputs: usize) -> Genome {
    let topology = Topology { input_size: inputs, hidden_layers: vec![], output_size: outputs };
    Genome::new(weights, topology).expect("genome must match topology")
}

#[test]
fn evaluate_exact_single_neuron() {
    // One neuron over two inputs: weights 1.0 and 0.0, bias 0.5.
    let g = single_layer_genome(vec![1024, 0, 512], 2, 1);
    let out = NeuralController::evaluate(&g, &vec![100, 999]);
    // (1024 * 100 + 0 + 512 * 1024) / 1024 = 100 + 512
    assert_eq!(out, vec![612]);

    let out2 = NeuralController::evaluate(&g, &vec![1024, 777]);
    // 1024 + 512 saturates at the signal ceiling.
    assert_eq!(out2, vec![1024]);
}

#[test]
fn evaluate_saturates_below() {
    let g = single_layer_genome(vec![-2048, 0, 0], 2, 1);
    let out = NeuralController::evaluate(&g, &vec![1024, 0]);
    assert_eq!(out, vec![-1024]);
}

#[test]
fn evaluate_outputs_bounded_for_random_genomes() {
    let topology = Topology { input_size: 6, hidden_layers: vec![4], output_size: 3 };
    let mut rng = Rng::new(99);
    for round in 0..20u64 {
        let g = random_genome(&topology, &mut rng);
        let saturated: i64 = if round % 2 == 0 { 1024 } else { -1024 };
        for inputs in [vec![0i64; 6], vec![saturated; 6]] {
            let out = NeuralController::evaluate(&g, &inputs);
            assert_eq!(out.len(), 3);
            for v in out {
                assert!(-1024 <= v && v <= 1024);
            }
        }
    }
}

#[test]
fn evaluate_is_bit_identical_on_repeat() {
    let topology = Topology { input_size: 6, hidden_layers: vec![5, 4], output_size: 3 };
    let mut rng = Rng::new(7);
    let g = random_genome(&topology, &mut rng);
    let inputs = vec![13, -400, 1024, 0, -1024, 700];
    let a = NeuralController::evaluate(&g, &inputs);
    let b = NeuralController::evaluate(&g, &inputs);
    assert_eq!(a, b);
}

#[test]
fn genome_rejects_wrong_length() {
    let topology = Topology { input_size: 2, hidden_layers: vec![], output_size: 1 };
    let r = Genome::new(vec![1, 2], topology);
    assert_eq!(r.err(), Some(CoreError::MalformedGenome));
}

#[test]
fn genome_rejects_out_of_range_weight() {
    let topology = Topology { input_size: 2, hidden_layers: vec![], output_size: 1 };
    let r = Genome::new(vec![0, 0, WEIGHT_LIMIT + 1], topology);
    assert_eq!(r.err(), Some(CoreError::MalformedGenome));
}

#[test]
fn genome_rejects_degenerate_topology() {
    let topology = Topology { input_size: 0, hidden_layers: vec![], output_size: 1 };
    let r = Genome::new(vec![], topology);
    assert_eq!(r.err(), Some(CoreError::MalformedGenome));
}

#[test]
fn offspring_keeps_topology_invariant() {
    let ta = Topology { input_size: 3, hidden_layers: vec![4], output_size: 2 };
    let tb = Topology { input_size: 3, hidden_layers: vec![4], output_size: 2 };
    let mut rng = Rng::new(11);
    let a = random_genome(&ta, &mut rng);
    let b = random_genome(&tb, &mut rng);
    let child = crossover(&a, &b, &mut rng);
    assert_eq!(child.weights.len(), a.weights.len());
    let mutated = mutate(&child, &mut rng, 1000, 100);
    assert_eq!(mutated.weights.len(), a.weights.len());
    for w in &mutated.weights {
        assert!(-WEIGHT_LIMIT <= *w && *w <= WEIGHT_LIMIT);
    }
    // Re-running mutation must still produce a valid genome object.
    assert!(Genome::new(mutated.weights.clone(), mutated.topology).is_ok());
}

#[test]
fn crossover_takes_each_weight_from_a_parent() {
    let ta = Topology { input_size: 2, hidden_layers: vec![], output_size: 2 };
    let tb = Topology { input_size: 2, hidden_layers: vec![], output_size: 2 };
    let a = Genome::new(vec![10, 20, 30, 40, 50, 60], ta).unwrap();
    let b = Genome::new(vec![-10, -20, -30, -40, -50, -60], tb).unwrap();
    let mut rng = Rng::new(123);
    let child = crossover(&a, &b, &mut rng);
    for i in 0..child.weights.len() {
        let w = child.weights[i];
        assert!(w == a.weights[i] || w == b.weights[i]);
    }
    // With zero mutation probability the child is unchanged.
    let mut rng2 = Rng::new(5);
    let same = mutate(&child, &mut rng2, 0, 100);
    assert_eq!(same.weights, child.weights);
}

#[test]
fn rng_is_deterministic_per_seed() {
    let mut r1 = Rng::new(42);
    let mut r2 = Rng::new(42);
    for _ in 0..100 {
        assert_eq!(r1.next_u64(), r2.next_u64());
    }
    let mut r3 = Rng::new(43);
    let mut r4 = Rng::new(42);
    assert_ne!(r4.next_u64(), r3.next_u64());
}

#[test]
fn body_perception_normalizes_and_clamps() {
    let p = perceive_body(500, 250, 1000, 1000);
    assert_eq!(p.energy, 512);
    assert_eq!(p.mass, 256);
    // Negative and oversized readings clamp to the valid range.
    let q = perceive_body(-50, 5000, 1000, 1000);
    assert_eq!(q.energy, 0);
    assert_eq!(q.mass, SCALE);
}

#[test]
fn tie_break_keeps_incumbent_owner() {
    // Tile owned by the blue team; both teams claim with mass 5.0 in
    // the same tick: the incumbent keeps the tile.
    let five = 5 * SCALE;
    let t = Tile { ttype: TileType::Blue, claim: five };
    let r = resolve_tile(t, five, five);
    assert_eq!(r.ttype, TileType::Blue);

    // Even with no stored strength, the incumbent's own fresh claim
    // defends against an equal challenger.
    let t2 = Tile { ttype: TileType::Blue, claim: 0 };
    let r2 = resolve_tile(t2, five, five);
    assert_eq!(r2.ttype, TileType::Blue);

    // Equal claims on neutral ground leave it neutral.
    let t3 = Tile { ttype: TileType::Neutral, claim: 0 };
    let r3 = resolve_tile(t3, five, five);
    assert_eq!(r3.ttype, TileType::Neutral);
}

#[test]
fn stronger_challenger_takes_the_tile() {
    let t = Tile { ttype: TileType::Blue, claim: 1000 };
    let r = resolve_tile(t, 0, 2000);
    assert_eq!(r.ttype, TileType::Red);
    assert_eq!(r.claim, 2000);
}

#[test]
fn fresh_territory_is_all_neutral() {
    let g = create_tiles(4, 3);
    assert_eq!(g.width, 4);
    assert_eq!(g.height, 3);
    assert_eq!(g.tiles.len(), 12);
    for t in &g.tiles {
        assert_eq!(t.ttype, TileType::Neutral);
        assert_eq!(t.claim, 0);
    }
}
