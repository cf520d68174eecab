use cellular_automaton::automaton::Automaton;
use cellular_automaton::lattice::find_nth_bit;
use cellular_automaton::rule::apply_rule;

fn to_vec(number: u128) -> Vec<u8> {
    (0..128).map(|i| find_nth_bit(number, 127 - i)).collect()
}

#[test]
fn correctly_detect_pattern() {
    let automaton = Automaton::new(30, to_vec(0b101), false).unwrap();
    assert_eq!(automaton.detect_pattern(0), 0b010);
    assert_eq!(automaton.detect_pattern(1), 0b101);

    assert_eq!(automaton.detect_pattern(2), 0b010);
    assert_eq!(automaton.detect_pattern(3), 0b001);
    assert_eq!(automaton.detect_pattern(4), 0b000);
    assert_eq!(automaton.detect_pattern(127), 0b000);
}

#[test]
fn detect_more_patterns() {
    let automaton = Automaton::new(30, to_vec(0b1101), false).unwrap();
    assert_eq!(automaton.detect_pattern(2), 0b110);
    assert_eq!(automaton.detect_pattern(3), 0b011);
    assert_eq!(automaton.detect_pattern(4), 0b001);
    assert_eq!(automaton.detect_pattern(5), 0b000);
}

#[test]
fn detect_periodic_boundary() {
    let automaton = Automaton::new(30, to_vec(0b1), true).unwrap();
    println!("{:?}", to_vec(0b1));
    assert_eq!(automaton.detect_pattern(0), 0b010);
    assert_eq!(automaton.detect_pattern(1), 0b001);
    assert_eq!(automaton.detect_pattern(127), 0b100);

    let automaton = Automaton::new(30, to_vec(u128::MAX), true).unwrap();
    assert_eq!(automaton.detect_pattern(0), 0b111);
    assert_eq!(automaton.detect_pattern(1), 0b111);
    assert_eq!(automaton.detect_pattern(127), 0b111);
}

#[test]
fn test_apply_rule0() {
    assert_eq!(apply_rule(0b000, 0), 0);
    assert_eq!(apply_rule(0b111, 0), 0);
    assert_eq!(apply_rule(0b101, 0), 0);
}

#[test]
fn test_apply_rule1() {
    assert_eq!(apply_rule(0b000, 1), 1);
    assert_eq!(apply_rule(0b001, 1), 0);
    assert_eq!(apply_rule(0b111, 1), 0);
}

#[test]
fn test_new() {
    let automaton = Automaton::new(30, to_vec(0b101), false).unwrap();
    assert_eq!(automaton.to_list(), to_vec(0b101));
    assert_eq!(automaton.rule(), 30);
}

#[test]
fn test_empty_automaton_rule_0() {
    let mut automaton = Automaton::new(0, to_vec(0b0), false).unwrap();
    assert_eq!(automaton.to_list(), to_vec(0b0));
    automaton.update();

    assert_eq!(automaton.to_list(), to_vec(0b0));
}

#[test]
fn test_empty_automaton_rule_1() {
    let mut automaton = Automaton::new(1, to_vec(0b0), false).unwrap();
    automaton.update();

    assert_eq!(automaton.to_list(), to_vec(u128::MAX));

    automaton.update();

    assert_eq!(automaton.to_list(), to_vec(0b0));
}

#[test]
fn test_rule_30() {
    let mut automaton = Automaton::new(30, to_vec(0b101), false).unwrap();
    automaton.update();

    assert_eq!(automaton.to_list(), to_vec(0b1101));
    automaton.update();

    assert_eq!(automaton.to_list(), to_vec(0b11001));
    automaton.update();

    assert_eq!(automaton.to_list(), to_vec(0b110111));
}

#[test]
fn test_rule_100() {
    let mut automaton = Automaton::new(100, to_vec(0b100), false).unwrap();
    automaton.update();

    assert_eq!(automaton.to_list(), to_vec(0b100));

    let mut automaton = Automaton::new(100, to_vec(0b101), false).unwrap();
    automaton.update();

    assert_eq!(automaton.to_list(), to_vec(0b111));

    automaton.update();
    assert_eq!(automaton.to_list(), to_vec(0b001));

    automaton.update();
    assert_eq!(automaton.to_list(), to_vec(0b001));
}

#[test]
fn test_to_vector() {
    let automaton = Automaton::new(30, to_vec(0b101), false).unwrap();
    let vector = automaton.to_list();
    let mut expected = [0; 128];
    expected[125] = 1;
    expected[126] = 0;
    expected[127] = 1;

    assert_eq!(vector, expected);
}

#[test]
fn test_to_vector_2() {
    let automaton = Automaton::new(30, to_vec(0b1101), false).unwrap();
    let vector = automaton.to_list();
    let mut expected = [0; 128];
    expected[124] = 1;
    expected[125] = 1;
    expected[126] = 0;
    expected[127] = 1;

    assert_eq!(vector, expected);
}

#[test]
fn test_max_vector() {
    let automaton = Automaton::new(30, to_vec(u128::MAX), false).unwrap();
    let vector = automaton.to_list();
    let expected = [1; 128];

    assert_eq!(vector, expected);
}

#[test]
fn test_1_with_0s() {
    let automaton =
        Automaton::new(30, to_vec(0x80000000000000000000000000000000), false).unwrap();
    let vector = automaton.to_list();
    let mut expected = [0; 128];
    expected[0] = 1;

    assert_eq!(vector, expected);
}

#[test]
fn test_periodic_boundary() {
    let mut automaton = Automaton::new(0b10000, to_vec(0b1), true).unwrap();
    automaton.update();

    assert_eq!(
        automaton.to_list(),
        to_vec(0b10000000000000000000000000000000000000000000000000000000000000000000000000000000000000000000000000000000000000000000000000000000)
    );
}
